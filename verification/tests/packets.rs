use jitserver::packets::{prepare_memory_region_packets, region_in_range};
use jitserver::transfer::{RegionAction, RegionTransfer};

/// The checksum of a packet's body, as two hexadecimal digits.
fn checksum(body: &str) -> String {
    let sum = body.bytes().fold(0u8, |sum, byte| sum.wrapping_add(byte));
    format!("{sum:02x}")
}

#[test]
fn one_page() {
    assert_eq!(
        prepare_memory_region_packets(0x1_0000_0000, 1),
        b"$M100000000,1:69#04".to_vec()
    );
}

#[test]
fn empty_region_needs_no_packets() {
    assert!(prepare_memory_region_packets(0x1_0000_0000, 0).is_empty());
}

#[test]
fn a_started_page_counts_whole() {
    let page = 16 * 1024;
    assert_eq!(prepare_memory_region_packets(0x1_0000_0000, page).len(), 19);
    assert_eq!(prepare_memory_region_packets(0x1_0000_0000, page + 1).len(), 38);
}

#[test]
fn pages_follow_each_other() {
    let bytes = prepare_memory_region_packets(0x1_0000_0000, 3 * 16 * 1024);
    let expected: String = ["100000000", "100004000", "100008000"]
        .iter()
        .map(|address| {
            let body = format!("M{address},1:69");
            format!("${body}#{}", checksum(&body))
        })
        .collect();
    assert_eq!(bytes, expected.into_bytes());
}

#[test]
fn short_addresses_make_short_packets() {
    assert_eq!(prepare_memory_region_packets(0, 1), b"$M0,1:69#83".to_vec());
    assert_eq!(
        prepare_memory_region_packets(0xabc, 1),
        format!("$Mabc,1:69#{}", checksum("Mabc,1:69")).into_bytes()
    );
}

#[test]
fn region_must_end_within_the_address_space() {
    assert!(region_in_range(u64::MAX, 0));
    assert!(region_in_range(u64::MAX, 1));
    assert!(region_in_range(u64::MAX, 16 * 1024));
    assert!(!region_in_range(u64::MAX, 16 * 1024 + 1));
    assert!(region_in_range(0x1_0000_0000, 64 * 1024 * 1024));
}

/// All that is done for a buffer when every packet is answered.
fn run(packet_bytes: usize) -> (Vec<(usize, usize)>, usize, String) {
    let mut transfer = RegionTransfer::new(packet_bytes);
    let mut sent = Vec::new();
    let mut responses = 0;
    loop {
        match transfer.next() {
            RegionAction::Send { start, end } => sent.push((start, end)),
            RegionAction::ReadResponse => {
                responses += 1;
                assert_eq!(transfer.answered(true), Ok(()));
            }
            RegionAction::Finished { answer } => return (sent, responses, answer.to_string()),
        }
    }
}

#[test]
fn empty_buffer_is_answered_at_once() {
    assert_eq!(run(0), (vec![], 0, "OK".to_string()));
}

#[test]
fn packets_are_sent_in_batches() {
    assert_eq!(run(19 * 3), (vec![(0, 57)], 3, "OK".to_string()));
    assert_eq!(run(19 * 128), (vec![(0, 2432)], 128, "OK".to_string()));
    assert_eq!(
        run(19 * 300),
        (
            vec![(0, 2432), (2432, 4864), (4864, 5700)],
            300,
            "OK".to_string()
        )
    );
}

#[test]
fn missing_response_ends_the_transfer() {
    let mut transfer = RegionTransfer::new(19);
    assert!(matches!(
        transfer.next(),
        RegionAction::Send { start: 0, end: 19 }
    ));
    assert!(matches!(transfer.next(), RegionAction::ReadResponse));
    assert_eq!(
        transfer.answered(false),
        Err("missing debugserver response".to_string())
    );
}
