//! Laws on the packets that prepare a region, and on the command that attaches.
use vstd::prelude::*;

use crate::laws::texts::law_hexadecimal_numerals;
use crate::packets::{
    ascii_codes, byte_sum, digit_value, hex_value, law_packet_is_well_formed, packet, packets,
    page_count, region_fits,
};
use crate::text::hexadecimal;
use crate::worker::attach_text;

verus! {

/// The pieces of `bytes`, each from behind a `$` to before the next one.
pub open spec fn pieces(bytes: Seq<u8>) -> Seq<Seq<u8>>
    decreases bytes.len(),
{
    if bytes.len() == 0 {
        Seq::empty()
    } else {
        let before = pieces(bytes.drop_last());
        if bytes.last() == 0x24 {
            before.push(Seq::empty())
        } else if before.len() == 0 {
            before
        } else {
            before.drop_last().push(before.last().push(bytes.last()))
        }
    }
}

/// The characters with the given codes.
pub open spec fn spelled(bytes: Seq<u8>) -> Seq<char> {
    Seq::new(bytes.len(), |i: int| bytes[i] as char)
}

/// The piece asks debugserver to write one byte, `69`, at `address`: it is `M`, the address in
/// hexadecimal without a leading zero, `,1:69`, `#`, and the sum of all bytes before the `#`,
/// modulo 256, in two hexadecimal digits.
pub open spec fn writes_at(piece: Seq<u8>, address: int) -> bool {
    let digits = spelled(piece.subrange(1, piece.len() - 8));
    &&& piece.len() >= 10
    &&& piece[0] == 0x4d
    &&& forall|i: int|
        1 <= i < piece.len() - 8 ==> 0x30 <= #[trigger] piece[i] <= 0x39 || 0x61 <= piece[i] <= 0x66
    &&& hex_value(digits) == address
    &&& piece[1] == 0x30 <==> address == 0
    &&& piece.subrange(piece.len() - 8, piece.len() - 2) == seq![
        0x2cu8,
        0x31u8,
        0x3au8,
        0x36u8,
        0x39u8,
        0x23u8,
    ]
    &&& forall|i: int|
        piece.len() - 2 <= i < piece.len() ==> 0x30 <= #[trigger] piece[i] <= 0x39 || 0x61
            <= piece[i] <= 0x66
    &&& hex_value(spelled(piece.skip(piece.len() - 2))) == byte_sum(piece.take(piece.len() - 3))
        % 256
}

/// A piece that starts with its only `$` is one more piece.
proof fn lemma_one_more_piece(before: Seq<u8>, piece: Seq<u8>)
    requires
        forall|i: int| 0 <= i < piece.len() ==> #[trigger] piece[i] != 0x24,
    ensures
        pieces(before + seq![0x24u8] + piece) == pieces(before).push(piece),
    decreases piece.len(),
{
    let whole = before + seq![0x24u8] + piece;
    if piece.len() == 0 {
        assert(whole.drop_last() =~= before);
        assert(piece =~= Seq::<u8>::empty());
        assert(whole.last() == 0x24);
    } else {
        let shorter = piece.drop_last();
        lemma_one_more_piece(before, shorter);
        assert(whole.drop_last() =~= before + seq![0x24u8] + shorter);
        assert(whole.last() == piece[piece.len() - 1]);
        assert(shorter.push(piece.last()) =~= piece);
        assert(pieces(before).push(shorter).drop_last() =~= pieces(before));
    }
}

/// A packet is a `$` and a piece that writes at the packet's address.
proof fn lemma_packet_writes(address: nat)
    ensures
        packet(address).len() > 0,
        packet(address)[0] == 0x24,
        forall|i: int|
            0 <= i < packet(address).skip(1).len() ==> #[trigger] packet(address).skip(1)[i] != 0x24,
        writes_at(packet(address).skip(1), address as int),
{
    law_packet_is_well_formed(address);
    law_hexadecimal_numerals(address);
    reveal_strlit(",1:69");
    let bytes = packet(address);
    let number = hexadecimal(address);
    let width = number.len() as int;
    let mark = bytes.len() - 3;
    let piece = bytes.skip(1);
    let tail = ascii_codes(",1:69"@);
    assert(bytes.len() == width + 10);
    assert(bytes[0] == 0x24) by {
        assert(bytes[0] == '$' as u8);
    }
    assert forall|i: int| 0 <= i < piece.len() implies #[trigger] piece[i] != 0x24 by {
        assert(piece[i] == bytes[i + 1]);
        assert(bytes[i + 1] != '$' as u8);
    }
    assert forall|i: int| 0 <= i < width implies #[trigger] bytes[i + 2] == number[i] as u8 by {
        assert(bytes.subrange(2, 2 + width)[i] == ascii_codes(number)[i]);
    }
    assert(spelled(piece.subrange(1, piece.len() - 8)) =~= number) by {
        assert forall|i: int| 0 <= i < width implies #[trigger] spelled(
            piece.subrange(1, piece.len() - 8),
        )[i] == number[i] by {
            let c = number[i];
            assert(0x30 <= c as int <= 0x39 || 0x61 <= c as int <= 0x66);
            assert(bytes[i + 2] == c as u8);
            assert(piece.subrange(1, piece.len() - 8)[i] == bytes[i + 2]);
        }
    }
    assert forall|i: int| 1 <= i < piece.len() - 8 implies 0x30 <= #[trigger] piece[i] <= 0x39
        || 0x61 <= piece[i] <= 0x66 by {
        assert(piece[i] == bytes[(i - 1) + 2]);
        let c = number[i - 1];
        assert(0x30 <= c as int <= 0x39 || 0x61 <= c as int <= 0x66);
    }
    assert(piece[1] == bytes[2]);
    assert forall|i: int| 0 <= i < 5 implies #[trigger] bytes[2 + width + i] == tail[i] by {
        assert(bytes.subrange(2 + width, mark)[i] == tail[i]);
    }
    assert(bytes[mark] == '#' as u8);
    assert(piece.subrange(piece.len() - 8, piece.len() - 2) =~= seq![
        0x2cu8,
        0x31u8,
        0x3au8,
        0x36u8,
        0x39u8,
        0x23u8,
    ]) by {
        assert(bytes[2 + width + 0] == tail[0] && bytes[2 + width + 1] == tail[1]);
        assert(bytes[2 + width + 2] == tail[2] && bytes[2 + width + 3] == tail[3]);
        assert(bytes[2 + width + 4] == tail[4]);
    }
    assert(piece.take(piece.len() - 3) =~= bytes.subrange(1, mark));
    let high = bytes[mark + 1] as char;
    let low = bytes[mark + 2] as char;
    assert(piece[piece.len() - 2] == bytes[mark + 1] && piece[piece.len() - 1] == bytes[mark + 2]);
    assert(spelled(piece.skip(piece.len() - 2)) =~= Seq::empty().push(high).push(low));
    assert(hex_value(Seq::empty().push(high).push(low)) == digit_value(high) * 16 + digit_value(
        low,
    )) by {
        assert(Seq::empty().push(high).push(low).drop_last() =~= Seq::empty().push(high));
        assert(Seq::empty().push(high).drop_last() =~= Seq::<char>::empty());
        reveal_with_fuel(hex_value, 3);
    }
}

/// The sum of bytes grows by each byte.
pub proof fn law_each_byte_counts_once(bytes: Seq<u8>, byte: u8)
    ensures
        byte_sum(Seq::empty()) == 0,
        byte_sum(bytes.push(byte)) == byte_sum(bytes) + byte as nat,
{
    assert(bytes.push(byte).drop_last() =~= bytes);
}

proof fn lemma_packets_write(start_addr: nat, count: nat)
    ensures
        pieces(packets(start_addr, count)).len() == count,
        forall|i: int|
            0 <= i < count ==> writes_at(
                #[trigger] pieces(packets(start_addr, count))[i],
                start_addr + i * 16384,
            ),
    decreases count,
{
    if count > 0 {
        let fewer = (count - 1) as nat;
        let address = (start_addr + fewer * 16384) as nat;
        lemma_packets_write(start_addr, fewer);
        lemma_packet_writes(address);
        let before = packets(start_addr, fewer);
        let piece = packet(address).skip(1);
        assert(packet(address) =~= seq![0x24u8] + piece);
        assert(packets(start_addr, count) =~= before + seq![0x24u8] + piece);
        lemma_one_more_piece(before, piece);
        assert forall|i: int| 0 <= i < count implies writes_at(
            #[trigger] pieces(packets(start_addr, count))[i],
            start_addr + i * 16384,
        ) by {
            if i < fewer {
                assert(pieces(packets(start_addr, count))[i] == pieces(before)[i]);
            }
        }
    }
}

/// The bytes for a region, split at each `$`, are one request for every started 16 KiB of it, in
/// order, and no more: the request for a page writes at the page's own address.
pub proof fn law_every_page_is_written_once(start_addr: u64, region_size: u64)
    ensures
        ({
            let bytes = packets(start_addr as nat, page_count(region_size as nat));
            let pages = pieces(bytes).len() as int;
            // As many pages as it takes to reach the end of the region, and not one more.
            &&& pages * 16384 >= region_size
            &&& (pages - 1) * 16384 < region_size
            &&& pages == 0 <==> region_size == 0
            &&& bytes.len() > 0 ==> bytes[0] == 0x24
            &&& forall|page: int|
                0 <= page < pages ==> writes_at(
                    #[trigger] pieces(bytes)[page],
                    start_addr + page * 16384,
                )
        }),
{
    let count = page_count(region_size as nat);
    lemma_packets_write(start_addr as nat, count);
    lemma_starts_with_mark(start_addr as nat, count);
}

proof fn lemma_starts_with_mark(start_addr: nat, count: nat)
    ensures
        packets(start_addr, count).len() > 0 ==> packets(start_addr, count)[0] == 0x24,
    decreases count,
{
    if count > 0 {
        lemma_starts_with_mark(start_addr, (count - 1) as nat);
        lemma_packet_writes((start_addr + (count - 1) * 16384) as nat);
    }
}

/// A region can be prepared exactly where its last page starts within 64 bits.
pub proof fn law_region_ends_within_64_bits(start_addr: u64, region_size: u64)
    ensures
        region_fits(start_addr, region_size) <==> region_size == 0 || start_addr + (region_size - 1)
            / 16384 * 16384 <= 0xffff_ffff_ffff_ffff,
{
}

/// The command that attaches is `vAttach;` and the number of the process in hexadecimal: read back,
/// the digits are that number.
pub proof fn law_attaching_names_the_process(pid: u32)
    ensures
        ({
            let text = attach_text(pid);
            let digits = text.skip(8);
            &&& text.len() > 8
            &&& text.take(8) == seq!['v', 'A', 't', 't', 'a', 'c', 'h', ';']
            &&& forall|i: int|
                0 <= i < digits.len() ==> {
                    let code = (#[trigger] digits[i]) as int;
                    0x30 <= code <= 0x39 || 0x61 <= code <= 0x66
                }
            &&& hex_value(digits) == pid
            &&& digits[0] == '0' <==> pid == 0
        }),
{
    reveal_strlit("vAttach;");
    let digits = hexadecimal(pid as nat);
    law_hexadecimal_numerals(pid as nat);
    assert(attach_text(pid).skip(8) =~= digits);
    assert(attach_text(pid).take(8) =~= "vAttach;"@);
}

} // verus!
