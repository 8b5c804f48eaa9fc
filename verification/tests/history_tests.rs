use predictive_rolls::history::{encode_bet_result, HistoryWindow};
use predictive_rolls::sites::BetResult;
use predictive_rolls::util::hex_string_to_binary_vec;

fn sample(number: u32) -> BetResult {
    BetResult {
        hash_previous_roll: "aa".repeat(32),
        hash_next_roll: "bb".repeat(32),
        client_seed: "seed".to_string(),
        nonce: number,
        symbol: "BTC".to_string(),
        result: number % 2 == 0,
        is_high: false,
        number,
        threshold: 0,
        chance: 0,
        payout: 0,
        bet_amount: 1,
        win_amount: 1,
    }
}

#[test]
fn history_keeps_last_window_of_items() {
    let mut w = HistoryWindow::new(10);
    for i in 0..15u32 {
        w.push(sample(i));
    }
    assert_eq!(w.len(), 10);
    for i in 0..10usize {
        // The survivors are items 5..15 in their original order.
        assert_eq!(w.get(i).number, 5 + i as u32);
    }
}

#[test]
fn history_below_capacity_keeps_everything() {
    let mut w = HistoryWindow::new(10);
    for i in 0..7u32 {
        w.push(sample(i));
    }
    assert_eq!(w.len(), 7);
    let copy = w.to_vec();
    assert_eq!(copy.len(), 7);
    for i in 0..7usize {
        assert_eq!(copy[i].number, i as u32);
    }
}

#[test]
fn hex_chars_become_four_bits_each() {
    assert_eq!(hex_string_to_binary_vec("F"), vec![1u8, 1, 1, 1]);
    assert_eq!(hex_string_to_binary_vec("0"), vec![0u8, 0, 0, 0]);
    assert_eq!(hex_string_to_binary_vec("a5"), vec![1u8, 0, 1, 0, 0, 1, 0, 1]);
    // A character that is no hex digit counts as zero.
    assert_eq!(hex_string_to_binary_vec("z"), vec![0u8, 0, 0, 0]);
}

#[test]
fn sixty_four_hex_chars_encode_to_256_bits() {
    let s = "ab".repeat(32);
    let bits = hex_string_to_binary_vec(&s);
    assert_eq!(bits.len(), 256);
}

#[test]
fn encoded_slot_reproduces_hex_digits_and_nonce() {
    let hash_next: String = "4c".repeat(32);
    let hash_prev: String = "d1".repeat(32);
    let b = BetResult {
        hash_previous_roll: hash_prev,
        hash_next_roll: hash_next.clone(),
        client_seed: "A".repeat(40),
        nonce: 12345,
        symbol: "BTC".to_string(),
        result: true,
        is_high: true,
        number: 1,
        threshold: 0,
        chance: 0,
        payout: 0,
        bet_amount: 1,
        win_amount: 1,
    };
    let slot = encode_bet_result(&b);
    assert_eq!(slot.len(), 1024);

    // Regrouping the first 256 bits into nibbles gives back the hex
    // digits of hash_next_roll.
    let expected: Vec<u8> = hash_next
        .bytes()
        .map(|c| if c.is_ascii_digit() { c - b'0' } else { c - b'a' + 10 })
        .collect();
    let mut nibbles = Vec::new();
    for chunk in slot[..256].chunks(4) {
        nibbles.push(chunk[0] * 8 + chunk[1] * 4 + chunk[2] * 2 + chunk[3]);
    }
    assert_eq!(nibbles, expected);

    // The nonce bits sit after the three string slots, least
    // significant bit first.
    let nonce_bits = &slot[768..800];
    let mut nonce: u32 = 0;
    for (i, bit) in nonce_bits.iter().enumerate() {
        nonce |= (*bit as u32) << i;
    }
    assert_eq!(nonce, 12345);

    // Everything after the 32 nonce bits is padding.
    assert!(slot[800..].iter().all(|b| *b == 0));
}

#[test]
fn window_encoding_is_one_slot_per_entry() {
    let mut w = HistoryWindow::new(10);
    for i in 0..10u32 {
        w.push(sample(i));
    }
    let encoded = w.encode();
    assert_eq!(encoded.len(), 1024 * 10);
    // The first slot equals the standalone encoding of the first entry.
    let first = encode_bet_result(&w.to_vec()[0]);
    assert_eq!(&encoded[..1024], first.as_slice());
}
