//! Debugserver packets that touch every page of a memory region, and the order in which they are
//! sent and answered.
use vstd::prelude::*;
use vstd::string::StringSliceAdditionalSpecFns;
use vstd::utf8::is_ascii_chars;

use crate::text::{
    concat3, concat4, digit, digit_char, hexadecimal, numeral, write_hexadecimal,
};

verus! {

/// The bytes in one page of executable memory.
pub const JIT_PAGE_SIZE: u64 = 16384;

/// The bytes in one packet, for an address of nine hexadecimal digits.
pub const PREPARE_MEMORY_REGION_PACKET_SIZE: usize = 19;

/// The most packets that are sent before their responses are read.
pub const PREPARE_MEMORY_REGION_BATCH_COMMANDS: usize = 128;

// ---------------------------------------------------------------------------------------------
// Packets
// ---------------------------------------------------------------------------------------------

/// The number of pages that `region_size` bytes reach into, counted from the first byte.
pub open spec fn page_count(region_size: nat) -> nat {
    (region_size + JIT_PAGE_SIZE - 1) as nat / JIT_PAGE_SIZE as nat
}

/// The address of the page with the given number.
pub open spec fn page_address(start_addr: nat, page: nat) -> nat {
    start_addr + page * JIT_PAGE_SIZE as nat
}

/// The code of each character, for text within ASCII.
pub open spec fn ascii_codes(text: Seq<char>) -> Seq<u8> {
    Seq::new(text.len(), |i: int| text[i] as u8)
}

/// The sum of all bytes.
pub open spec fn byte_sum(bytes: Seq<u8>) -> nat
    decreases bytes.len(),
{
    if bytes.len() == 0 {
        0
    } else {
        byte_sum(bytes.drop_last()) + bytes.last() as nat
    }
}

/// Two hexadecimal digits for a number below 256.
pub open spec fn two_digits(number: int) -> Seq<char> {
    seq![digit(number / 16), digit(number % 16)]
}

/// The command that writes the single byte `69` at `address`.
pub open spec fn write_command(address: nat) -> Seq<char> {
    "M"@ + hexadecimal(address) + ",1:69"@
}

/// A command between `$` and `#`, with the sum of its bytes modulo 256 in two hexadecimal digits.
pub open spec fn framed(command: Seq<char>) -> Seq<char> {
    "$"@ + command + "#"@ + two_digits((byte_sum(ascii_codes(command)) % 256) as int)
}

/// The packet that touches the page at `address`.
pub open spec fn packet(address: nat) -> Seq<u8> {
    ascii_codes(framed(write_command(address)))
}

/// The packets for `count` pages from `start_addr` on, one after the other.
pub open spec fn packets(start_addr: nat, count: nat) -> Seq<u8>
    decreases count,
{
    if count == 0 {
        Seq::empty()
    } else {
        packets(start_addr, (count - 1) as nat) + packet(
            page_address(start_addr, (count - 1) as nat),
        )
    }
}

/// Every page of the region has an address within 64 bits.
pub open spec fn region_fits(start_addr: u64, region_size: u64) -> bool {
    region_size == 0 || page_address(
        start_addr as nat,
        (page_count(region_size as nat) - 1) as nat,
    ) <= u64::MAX
}

/// `c` is a hexadecimal digit as `numeral` writes them.
pub open spec fn is_hex_digit(c: char) -> bool {
    ('0' <= c && c <= '9') || ('a' <= c && c <= 'f')
}

/// Every character of a hexadecimal numeral is a hexadecimal digit.
pub proof fn lemma_hexadecimal_digits(number: nat)
    ensures
        hexadecimal(number).len() > 0,
        forall|i: int|
            0 <= i < hexadecimal(number).len() ==> is_hex_digit(#[trigger] hexadecimal(number)[i]),
    decreases number,
{
    let text = hexadecimal(number);
    if number < 16 {
        assert(text =~= seq![digit(number as int)]);
    } else {
        lemma_hexadecimal_digits(number / 16);
        assert(text == hexadecimal(number / 16).push(digit((number % 16) as int)));
        assert forall|i: int| 0 <= i < text.len() implies is_hex_digit(#[trigger] text[i]) by {
            if i < text.len() - 1 {
                assert(text[i] == hexadecimal(number / 16)[i]);
            }
        }
    }
}

/// A write command and its packet stay within ASCII.
proof fn lemma_packet_ascii(address: nat)
    ensures
        is_ascii_chars(write_command(address)),
        is_ascii_chars(framed(write_command(address))),
{
    reveal_strlit("M");
    reveal_strlit(",1:69");
    reveal_strlit("$");
    reveal_strlit("#");
    lemma_hexadecimal_digits(address);
    let command = write_command(address);
    assert forall|i: int| 0 <= i < command.len() implies 0 <= #[trigger] command[i] as nat && (
    command[i] as nat) < 128 by {
        if 1 <= i <= hexadecimal(address).len() {
            assert(command[i] == hexadecimal(address)[i - 1]);
        }
    }
    let text = framed(command);
    let sum = (byte_sum(ascii_codes(command)) % 256) as int;
    assert forall|i: int| 0 <= i < text.len() implies 0 <= #[trigger] text[i] as nat && (
    text[i] as nat) < 128 by {
        if 1 <= i <= command.len() {
            assert(text[i] == command[i - 1]);
        }
    }
}

/// The sum of all bytes, modulo 256.
fn checksum(bytes: &[u8]) -> (sum: u8)
    ensures
        sum == byte_sum(bytes@) % 256,
{
    let mut sum: u8 = 0;
    for i in 0..bytes.len()
        invariant
            sum == byte_sum(bytes@.take(i as int)) % 256,
    {
        assert(bytes@.take(i + 1).drop_last() =~= bytes@.take(i as int));
        sum = sum.wrapping_add(bytes[i]);
    }
    assert(bytes@.take(bytes@.len() as int) =~= bytes@);
    sum
}

/// Whether every page of the region has an address within 64 bits.
pub fn region_in_range(start_addr: u64, region_size: u64) -> (fits: bool)
    ensures
        fits == region_fits(start_addr, region_size),
{
    if region_size == 0 {
        true
    } else {
        let last_offset: u64 = (region_size - 1) / JIT_PAGE_SIZE * JIT_PAGE_SIZE;
        assert(page_count(region_size as nat) - 1 == (region_size - 1) / 16384);
        last_offset <= u64::MAX - start_addr
    }
}

/// The packets that write one byte into every page of the region, in address order.
///
/// An empty region needs no packet. A region whose last page starts beyond the address range is
/// left out.
pub fn prepare_memory_region_packets(start_addr: u64, region_size: u64) -> (bytes: Vec<u8>)
    requires
        region_fits(start_addr, region_size),
    ensures
        bytes@ == packets(start_addr as nat, page_count(region_size as nat)),
{
    let mut bytes: Vec<u8> = Vec::new();
    if region_size == 0 {
        return bytes;
    }
    let count: u64 = (region_size - 1) / JIT_PAGE_SIZE + 1;
    assert(count == page_count(region_size as nat));
    let mut page: u64 = 0;
    while page < count
        invariant
            page <= count,
            0 < count <= 0x4_0000_0000_0000,
            page_address(start_addr as nat, (count - 1) as nat) <= u64::MAX,
            bytes@ == packets(start_addr as nat, page as nat),
        decreases count - page,
    {
        let address: u64 = start_addr + page * JIT_PAGE_SIZE;
        let digits = write_hexadecimal(address);
        let text = concat3("M", digits.as_str(), ",1:69");
        let command: &str = text.as_str();
        proof {
            lemma_packet_ascii(address as nat);
            vstd::string::is_ascii_spec_bytes(command);
            assert(command.spec_bytes() =~= ascii_codes(command@));
        }
        let sum: u8 = checksum(command.as_bytes());
        let mut tail = String::new();
        tail.push(digit_char(sum / 16));
        tail.push(digit_char(sum % 16));
        assert(tail@ =~= two_digits(sum as int));
        let framed_text = concat4("$", command, "#", tail.as_str());
        let whole: &str = framed_text.as_str();
        proof {
            vstd::string::is_ascii_spec_bytes(whole);
            assert(whole.spec_bytes() =~= packet(address as nat));
        }
        bytes.extend_from_slice(whole.as_bytes());
        assert(bytes@ =~= packets(start_addr as nat, page as nat) + packet(address as nat));
        page = page + 1;
    }
    bytes
}

// ---------------------------------------------------------------------------------------------
// What the packets say
// ---------------------------------------------------------------------------------------------

/// The number that a hexadecimal digit stands for.
pub open spec fn digit_value(c: char) -> nat {
    if '0' <= c && c <= '9' {
        (c as int - 48) as nat
    } else {
        (c as int - 87) as nat
    }
}

/// The number that a row of hexadecimal digits stands for.
pub open spec fn hex_value(text: Seq<char>) -> nat
    decreases text.len(),
{
    if text.len() == 0 {
        0
    } else {
        hex_value(text.drop_last()) * 16 + digit_value(text.last())
    }
}

/// A hexadecimal numeral stands for the number it was made from.
pub proof fn law_hexadecimal_round_trip(number: nat)
    ensures
        hex_value(hexadecimal(number)) == number,
    decreases number,
{
    let text = hexadecimal(number);
    reveal_with_fuel(hex_value, 2);
    if number < 16 {
        assert(text =~= seq![digit(number as int)]);
        assert(text.drop_last() =~= Seq::<char>::empty());
    } else {
        law_hexadecimal_round_trip(number / 16);
        assert(text.drop_last() =~= hexadecimal(number / 16));
        assert(digit_value(text.last()) == number % 16);
    }
}

/// A packet starts with its only `$`, has its only `#` before the last two bytes, names its
/// address, and ends in two hexadecimal digits that stand for the sum of the bytes in between,
/// modulo 256.
pub proof fn law_packet_is_well_formed(address: nat)
    ensures
        ({
            let bytes = packet(address);
            let width = hexadecimal(address).len() as int;
            let mark = bytes.len() - 3;
            &&& bytes.len() == width + 10
            &&& forall|i: int|
                0 <= i < bytes.len() ==> (#[trigger] bytes[i] == '$' as u8 <==> i == 0)
            &&& forall|i: int|
                0 <= i < bytes.len() ==> (#[trigger] bytes[i] == '#' as u8 <==> i == mark)
            &&& bytes[1] == 'M' as u8
            &&& bytes.subrange(2, 2 + width) == ascii_codes(hexadecimal(address))
            &&& bytes.subrange(2 + width, mark) == ascii_codes(",1:69"@)
            &&& hex_value(hexadecimal(address)) == address
            &&& is_hex_digit(bytes[mark + 1] as char) && is_hex_digit(bytes[mark + 2] as char)
            &&& digit_value(bytes[mark + 1] as char) * 16 + digit_value(bytes[mark + 2] as char)
                == byte_sum(bytes.subrange(1, mark)) % 256
        }),
{
    reveal_strlit("M");
    reveal_strlit(",1:69");
    reveal_strlit("$");
    reveal_strlit("#");
    lemma_hexadecimal_digits(address);
    law_hexadecimal_round_trip(address);
    let number = hexadecimal(address);
    let width = number.len() as int;
    let command = write_command(address);
    let text = framed(command);
    let bytes = packet(address);
    let mark = bytes.len() - 3;
    let sum = (byte_sum(ascii_codes(command)) % 256) as int;
    assert(text.len() == width + 10);
    assert forall|i: int| 1 <= i < mark implies #[trigger] text[i] == command[i - 1] by {}
    assert forall|i: int| 2 <= i < 2 + width implies #[trigger] text[i] == number[i - 2] by {}
    assert(text[mark] == '#');
    assert(text[mark + 1] == digit(sum / 16));
    assert(text[mark + 2] == digit(sum % 16));
    assert(bytes.subrange(2, 2 + width) =~= ascii_codes(number));
    assert(bytes.subrange(2 + width, mark) =~= ascii_codes(",1:69"@));
    assert(bytes.subrange(1, mark) =~= ascii_codes(command));
    assert forall|i: int| 0 <= i < bytes.len() implies (#[trigger] bytes[i] == '$' as u8 <==> i
        == 0) && (bytes[i] == '#' as u8 <==> i == mark) by {
        if 2 <= i < 2 + width {
            assert(is_hex_digit(number[i - 2]));
            assert(text[i] == number[i - 2]);
        }
        assert(bytes[i] == text[i] as u8);
    }
}

/// Every byte of the region lies in a page that a packet touches.
pub proof fn law_pages_cover_region(start_addr: nat, region_size: nat, byte: nat)
    requires
        start_addr <= byte < start_addr + region_size,
    ensures
        exists|page: nat|
            page < page_count(region_size) && #[trigger] page_address(start_addr, page) <= byte
                < page_address(start_addr, page) + JIT_PAGE_SIZE,
{
    let page = (byte - start_addr) as nat / JIT_PAGE_SIZE as nat;
    assert(page_address(start_addr, page) <= byte < page_address(start_addr, page)
        + JIT_PAGE_SIZE);
}

/// Every packet touches a page that starts inside the region.
pub proof fn law_pages_stay_in_region(start_addr: nat, region_size: nat, page: nat)
    requires
        page < page_count(region_size),
    ensures
        start_addr <= page_address(start_addr, page) < start_addr + region_size,
{
}

/// An address of nine hexadecimal digits.
pub open spec fn nine_digits(address: nat) -> bool {
    0x1_0000_0000 <= address < 0x10_0000_0000
}

/// A packet for an address of nine hexadecimal digits has the packet size.
pub proof fn lemma_packet_size(address: nat)
    requires
        nine_digits(address),
    ensures
        packet(address).len() == PREPARE_MEMORY_REGION_PACKET_SIZE,
{
    law_packet_is_well_formed(address);
    reveal_with_fuel(numeral, 10);
    assert(hexadecimal(address).len() == 9);
}

/// Packets for more pages extend the packets for fewer.
pub proof fn lemma_packets_split(start_addr: nat, first: nat, more: nat)
    ensures
        packets(start_addr, first + more) == packets(start_addr, first) + packets(
            page_address(start_addr, first),
            more,
        ),
    decreases more,
{
    let middle = page_address(start_addr, first);
    if more == 0 {
        assert(packets(start_addr, first) =~= packets(start_addr, first) + packets(middle, 0));
    } else {
        let fewer = (more - 1) as nat;
        lemma_packets_split(start_addr, first, fewer);
        assert((first + more - 1) as nat == first + fewer);
        assert(page_address(start_addr, first + fewer) == page_address(middle, fewer));
        assert(packets(start_addr, first + more) =~= packets(start_addr, first) + packets(
            middle,
            more,
        ));
    }
}

/// Where every page address has nine hexadecimal digits, the packets fill one packet size per
/// page.
pub proof fn lemma_packets_size(start_addr: nat, count: nat)
    requires
        count > 0 ==> nine_digits(start_addr) && nine_digits(
            page_address(start_addr, (count - 1) as nat),
        ),
    ensures
        packets(start_addr, count).len() == count * PREPARE_MEMORY_REGION_PACKET_SIZE,
    decreases count,
{
    if count > 0 {
        lemma_packets_size(start_addr, (count - 1) as nat);
        lemma_packet_size(page_address(start_addr, (count - 1) as nat));
    }
}

} // verus!
