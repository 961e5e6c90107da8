//! Sending a region's packets in batches and reading one response for every packet.
use vstd::prelude::*;

use crate::packets::{
    lemma_packets_size, lemma_packets_split, nine_digits, packets, page_address,
    PREPARE_MEMORY_REGION_BATCH_COMMANDS, PREPARE_MEMORY_REGION_PACKET_SIZE,
};

verus! {

/// What a caller does next to prepare a region.
pub enum RegionAction {
    /// Send the bytes of the packet buffer from `start` to before `end`.
    Send { start: usize, end: usize },
    /// Read one response.
    ReadResponse,
    /// Nothing is left to do; `answer` is what the script gets.
    Finished { answer: &'static str },
}

/// How far the packets of a region have been sent and answered.
pub struct RegionTransfer {
    /// Packets in the buffer.
    pub commands: usize,
    /// Packets sent so far.
    pub sent: usize,
    /// Responses still to be read for the packets sent.
    pub awaited: usize,
}

/// The ranges of the packet buffer that are still to be sent, in order, where `sent` of `commands`
/// packets have been sent.
pub open spec fn ranges(commands: nat, sent: nat) -> Seq<(int, int)>
    decreases commands - sent,
{
    if sent >= commands {
        Seq::empty()
    } else {
        let size = PREPARE_MEMORY_REGION_PACKET_SIZE as int;
        let next = sent + batch(commands, sent);
        seq![(sent * size, next * size)] + ranges(commands, next as nat)
    }
}

/// The packets in the batch that follows `sent` packets.
pub open spec fn batch(commands: nat, sent: nat) -> nat {
    if commands - sent < PREPARE_MEMORY_REGION_BATCH_COMMANDS {
        (commands - sent) as nat
    } else {
        PREPARE_MEMORY_REGION_BATCH_COMMANDS as nat
    }
}

impl RegionTransfer {
    /// No more packets are sent than the buffer holds, and the buffer fits in memory.
    pub open spec fn wf(self) -> bool {
        &&& self.sent <= self.commands
        &&& self.commands * PREPARE_MEMORY_REGION_PACKET_SIZE <= usize::MAX
    }

    /// How much is left to do: every packet is sent and answered once.
    pub open spec fn work_left(self) -> int {
        2 * (self.commands - self.sent) + self.awaited
    }

    /// A transfer of a packet buffer of the given length, with nothing sent yet.
    pub fn new(packet_bytes: usize) -> (transfer: Self)
        ensures
            transfer.wf(),
            transfer.commands == packet_bytes as nat / PREPARE_MEMORY_REGION_PACKET_SIZE as nat,
            transfer.sent == 0,
            transfer.awaited == 0,
    {
        RegionTransfer {
            commands: packet_bytes / PREPARE_MEMORY_REGION_PACKET_SIZE,
            sent: 0,
            awaited: 0,
        }
    }

    /// What to do next: read the responses that are due, then send the next batch, then finish.
    pub fn next(&mut self) -> (action: RegionAction)
        requires
            old(self).wf(),
        ensures
            final(self).wf(),
            final(self).commands == old(self).commands,
            action is Send ==> 0 <= final(self).work_left() < old(self).work_left(),
            action is Finished <==> old(self).work_left() == 0,
            ({
                let commands = old(self).commands as nat;
                let sent = old(self).sent as nat;
                if old(self).awaited > 0 {
                    &&& action == RegionAction::ReadResponse
                    &&& *final(self) == *old(self)
                } else if sent < commands {
                    &&& action matches RegionAction::Send { start, end } && ranges(
                        commands,
                        sent,
                    ) == seq![(start as int, end as int)] + ranges(
                        commands,
                        final(self).sent as nat,
                    )
                    &&& final(self).sent == sent + batch(commands, sent)
                    &&& final(self).awaited == batch(commands, sent)
                } else {
                    &&& action matches RegionAction::Finished { answer } && answer@ == "OK"@
                    &&& *final(self) == *old(self)
                }
            }),
    {
        if self.awaited > 0 {
            RegionAction::ReadResponse
        } else if self.sent < self.commands {
            let left: usize = self.commands - self.sent;
            let size: usize = if left < PREPARE_MEMORY_REGION_BATCH_COMMANDS {
                left
            } else {
                PREPARE_MEMORY_REGION_BATCH_COMMANDS
            };
            let start: usize = self.sent * PREPARE_MEMORY_REGION_PACKET_SIZE;
            let end: usize = start + size * PREPARE_MEMORY_REGION_PACKET_SIZE;
            self.sent = self.sent + size;
            self.awaited = size;
            RegionAction::Send { start, end }
        } else {
            RegionAction::Finished { answer: "OK" }
        }
    }

    /// Takes note of one response; a missing one ends the transfer with an error.
    pub fn answered(&mut self, present: bool) -> (outcome: Result<(), String>)
        requires
            old(self).wf(),
            old(self).awaited > 0,
        ensures
            final(self).wf(),
            final(self).commands == old(self).commands,
            final(self).sent == old(self).sent,
            final(self).awaited == (if present {
                old(self).awaited - 1
            } else {
                old(self).awaited as int
            }),
            present ==> final(self).work_left() == old(self).work_left() - 1,
            outcome is Ok <==> present,
            outcome matches Err(error) ==> error@ == "missing debugserver response"@,
    {
        if present {
            self.awaited = self.awaited - 1;
            Ok(())
        } else {
            Err("missing debugserver response".to_owned())
        }
    }
}

/// The batches follow one another without a gap, none holds more than the batch limit, and together
/// they cover every packet that is left.
pub proof fn law_batches_cover_buffer(commands: nat, sent: nat)
    requires
        sent <= commands,
    ensures
        ({
            let size = PREPARE_MEMORY_REGION_PACKET_SIZE as int;
            let parts = ranges(commands, sent);
            &&& parts.len() == 0 <==> sent == commands
            &&& parts.len() > 0 ==> parts[0].0 == sent * size && parts.last().1 == commands * size
            &&& forall|i: int|
                0 <= i < parts.len() ==> (#[trigger] parts[i]).0 < parts[i].1 <= parts[i].0 + size
                    * PREPARE_MEMORY_REGION_BATCH_COMMANDS
            &&& forall|i: int|
                0 <= i < parts.len() - 1 ==> (#[trigger] parts[i]).1 == parts[i + 1].0
        }),
    decreases commands - sent,
{
    if sent < commands {
        let next = (sent + batch(commands, sent)) as nat;
        law_batches_cover_buffer(commands, next);
        let parts = ranges(commands, sent);
        let rest = ranges(commands, next);
        assert forall|i: int| 1 <= i < parts.len() implies #[trigger] parts[i] == rest[i - 1] by {}
        assert(rest.len() > 0 ==> parts.last() == rest.last());
        assert forall|i: int| 0 <= i < parts.len() - 1 implies (#[trigger] parts[i]).1 == parts[i
            + 1].0 by {
            if i > 0 {
                assert(parts[i] == rest[i - 1]);
                assert(parts[i + 1] == rest[i]);
            }
        }
    }
}

/// Where every page address of the region has nine hexadecimal digits, the buffer holds one command
/// for every page, and the batch that follows `sent` packets holds exactly the packets of the next
/// pages.
pub proof fn law_batches_hold_whole_packets(start_addr: nat, count: nat, sent: nat)
    requires
        sent < count,
        nine_digits(start_addr),
        nine_digits(page_address(start_addr, (count - 1) as nat)),
    ensures
        ({
            let size = PREPARE_MEMORY_REGION_PACKET_SIZE as int;
            let part = ranges(count, sent)[0];
            &&& packets(start_addr, count).len() as int / size == count
            &&& packets(start_addr, count).subrange(part.0, part.1) == packets(
                page_address(start_addr, sent),
                batch(count, sent),
            )
        }),
{
    let size = PREPARE_MEMORY_REGION_PACKET_SIZE as int;
    let here = batch(count, sent);
    let rest = (count - sent - here) as nat;
    let all = packets(start_addr, count);
    let middle = page_address(start_addr, sent);
    lemma_packets_size(start_addr, count);
    lemma_packets_size(start_addr, sent);
    lemma_packets_split(start_addr, sent, (count - sent) as nat);
    lemma_packets_split(middle, here, rest);
    lemma_packets_size(middle, here);
    assert(all == packets(start_addr, sent) + (packets(middle, here) + packets(
        page_address(middle, here),
        rest,
    )));
    assert(all.subrange(sent * size, (sent + here) * size) =~= packets(middle, here));
}

} // verus!
