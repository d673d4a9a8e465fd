use rig_it::randomness::{
    generate_commit_hash, generate_random_value, get_slot_hash, select_winning_rig, verify_reveal,
};

#[test]
fn test_commit_reveal_cycle() {
    let secret = [42u8; 32];
    let target_slot = 12345u64;

    let commit_hash = generate_commit_hash(&secret, target_slot);
    assert!(verify_reveal(&secret, target_slot, &commit_hash));

    // Wrong secret should fail
    let wrong_secret = [43u8; 32];
    assert!(!verify_reveal(&wrong_secret, target_slot, &commit_hash));

    // Wrong slot should fail
    assert!(!verify_reveal(&secret, target_slot + 1, &commit_hash));
}

#[test]
fn test_winning_rig_selection() {
    let mut rig_tickets = [0u128; 36];
    rig_tickets[0] = 100;
    rig_tickets[1] = 200;
    rig_tickets[2] = 300;
    // Total: 600

    let mut random = [0u8; 32];
    random[0] = 50;
    let winner = select_winning_rig(&random, &rig_tickets);
    assert!(winner.is_some());

    let empty_tickets = [0u128; 36];
    assert!(select_winning_rig(&random, &empty_tickets).is_none());
}

#[test]
fn test_commit_hash_is_sha256() {
    // SHA-256 of 32 bytes of 42 followed by 12345 as little-endian u64.
    let secret = [42u8; 32];
    let expected: [u8; 32] = [
        229, 9, 53, 108, 188, 89, 29, 171, 50, 128, 81, 96, 65, 87, 60, 46, 225, 141, 122, 31,
        230, 150, 181, 175, 44, 138, 110, 12, 184, 54, 24, 162,
    ];
    assert_eq!(generate_commit_hash(&secret, 12345), expected);
}

#[test]
fn test_random_value_is_sha256() {
    // SHA-256 of 32 bytes of 42 followed by 32 bytes of 7.
    let secret = [42u8; 32];
    let slot_hash = [7u8; 32];
    let expected: [u8; 32] = [
        144, 248, 133, 183, 141, 119, 69, 234, 78, 232, 92, 18, 80, 142, 25, 49, 135, 240, 30,
        180, 224, 163, 100, 213, 135, 142, 254, 81, 181, 171, 203, 168,
    ];
    assert_eq!(generate_random_value(&secret, &slot_hash), expected);
}

#[test]
fn test_draw_partition_scenario() {
    // Tickets 100, 200, 300: cumulative 100, 300, 600. A draw of 150
    // falls in [100, 300), so rig 1 wins.
    let mut rig_tickets = [0u128; 36];
    rig_tickets[0] = 100;
    rig_tickets[1] = 200;
    rig_tickets[2] = 300;

    let mut random = [0u8; 32];
    random[0] = 150; // 150 % 600 == 150
    assert_eq!(select_winning_rig(&random, &rig_tickets), Some(1));

    // Boundary: a draw of exactly 100 leaves rig 0 (cumulative 100 is not
    // strictly greater) and lands in rig 1's interval.
    let mut random_boundary = [0u8; 32];
    random_boundary[0] = 100;
    assert_eq!(select_winning_rig(&random_boundary, &rig_tickets), Some(1));

    // A draw of 99 still belongs to rig 0.
    let mut random_low = [0u8; 32];
    random_low[0] = 99;
    assert_eq!(select_winning_rig(&random_low, &rig_tickets), Some(0));

    // Zero-ticket rigs are skipped: a draw past the whole distribution
    // wraps by the modulo. 600 + 42 maps to 42, rig 0.
    let mut random_wrap = [0u8; 32];
    let wrapped = (642u64).to_le_bytes();
    random_wrap[..8].copy_from_slice(&wrapped);
    assert_eq!(select_winning_rig(&random_wrap, &rig_tickets), Some(0));
}

fn slot_hashes_bytes(entries: &[(u64, [u8; 32])]) -> Vec<u8> {
    let mut data = Vec::new();
    data.extend_from_slice(&(entries.len() as u64).to_le_bytes());
    for (slot, hash) in entries {
        data.extend_from_slice(&slot.to_le_bytes());
        data.extend_from_slice(hash);
    }
    data
}

#[test]
fn test_get_slot_hash() {
    let h1 = [1u8; 32];
    let h2 = [2u8; 32];
    let data = slot_hashes_bytes(&[(500, h1), (499, h2)]);

    assert_eq!(get_slot_hash(&data, 500), Some(h1));
    assert_eq!(get_slot_hash(&data, 499), Some(h2));
    assert_eq!(get_slot_hash(&data, 498), None);

    // Too short to even hold the entry count.
    assert_eq!(get_slot_hash(&[0u8; 4], 500), None);

    // A count that promises more entries than the bytes hold.
    let mut truncated = slot_hashes_bytes(&[(500, h1)]);
    truncated[0] = 3;
    truncated.truncate(8 + 40 + 10);
    assert_eq!(get_slot_hash(&truncated, 499), None);
}
