use terracotta_core::error::Error;
use terracotta_core::room::{base32_encode, create_room, join_room, room_code_from_seed, validate_format};

#[test]
fn well_formed_code_is_accepted() {
    assert_eq!(validate_format("U/AAAA-BBBB-CCCC-DDDD"), Ok(()));
    assert_eq!(join_room(Some("U/AAAA-BBBB-CCCC-DDDD")), Ok(()));
}

#[test]
fn wrong_prefix_is_rejected() {
    assert_eq!(validate_format("X/AAAA-BBBB-CCCC-DDDD"), Err(Error::Prefix));
    assert_eq!(join_room(Some("X/AAAA-BBBB-CCCC-DDDD")), Err(Error::Prefix));
}

#[test]
fn three_parts_are_rejected() {
    assert_eq!(validate_format("U/AAAA-BBBB-CCCC"), Err(Error::SegmentCount));
    assert_eq!(join_room(Some("U/AAAA-BBBB-CCCC")), Err(Error::SegmentCount));
}

#[test]
fn fifteen_symbols_are_rejected() {
    assert_eq!(validate_format("U/AAA-BBBB-CCCC-DDDD"), Err(Error::Length));
    assert_eq!(join_room(Some("U/AAA-BBBB-CCCC-DDDD")), Err(Error::Length));
}

#[test]
fn absent_code_is_rejected() {
    assert_eq!(join_room(None), Err(Error::NullRoomCode));
}

#[test]
fn prefix_is_checked_before_the_parts() {
    assert_eq!(validate_format(""), Err(Error::Prefix));
    assert_eq!(validate_format("U"), Err(Error::Prefix));
    assert_eq!(validate_format("u/AAAA-BBBB-CCCC-DDDD"), Err(Error::Prefix));
    assert_eq!(validate_format("AAAA-BBBB-CCCC-DDDD"), Err(Error::Prefix));
    assert_eq!(validate_format("-/AAAA-BBBB-CCCC-DDDD"), Err(Error::Prefix));
    assert_eq!(validate_format("X"), Err(Error::Prefix));
    assert_eq!(validate_format("X/-"), Err(Error::Prefix));
}

#[test]
fn part_count_is_checked_before_the_length() {
    assert_eq!(validate_format("U/"), Err(Error::SegmentCount));
    assert_eq!(validate_format("U/A-B"), Err(Error::SegmentCount));
    assert_eq!(validate_format("U/AAAA-BBBB-CCCC-DDDD-EEEE"), Err(Error::SegmentCount));
    assert_eq!(validate_format("U/AAAAAAAAAAAAAAAA"), Err(Error::SegmentCount));
    assert_eq!(validate_format("U/----"), Err(Error::SegmentCount));
    assert_eq!(validate_format("U/-----------------"), Err(Error::SegmentCount));
}

#[test]
fn empty_parts_count_as_parts() {
    assert_eq!(validate_format("U/---"), Err(Error::Length));
    assert_eq!(validate_format("U/AAAAAAAAAAAAAAAA---"), Ok(()));
    assert_eq!(validate_format("U/---AAAAAAAAAAAAAAAA"), Ok(()));
    assert_eq!(validate_format("U/AAAAAAAAAAAAAAA---"), Err(Error::Length));
}

#[test]
fn only_the_shape_is_checked() {
    assert_eq!(validate_format("U/aaaa-bbbb-cccc-dddd"), Ok(()));
    assert_eq!(validate_format("U/0000-1111-8888-9999"), Ok(()));
    assert_eq!(validate_format("U/AAAAA-BBBBB-CCCCC-DDDDD"), Ok(()));
    assert_eq!(validate_format("U/A-BB-CCC-DDDDDDDDDD"), Ok(()));
    assert_eq!(validate_format("U/    -    -    -    "), Ok(()));
}

#[test]
fn length_counts_characters() {
    assert_eq!(validate_format("U/\u{e9}\u{e9}\u{e9}\u{e9}-BBBB-CCCC-DDDD"), Ok(()));
    assert_eq!(validate_format("U/\u{e9}\u{e9}\u{e9}-BBBB-CCCC-DDDD"), Err(Error::Length));
}

#[test]
fn encoding_has_exact_values() {
    assert_eq!(base32_encode(0), "AAAAAAAAAAAAAAAA");
    assert_eq!(base32_encode(1), "AAAAAAAAAAAAAAAB");
    assert_eq!(base32_encode(31), "AAAAAAAAAAAAAAA7");
    assert_eq!(base32_encode(32), "AAAAAAAAAAAAAABA");
    assert_eq!(base32_encode(1023), "AAAAAAAAAAAAAA77");
    assert_eq!(base32_encode(1u64 << 60), "AAABAAAAAAAAAAAA");
    assert_eq!(base32_encode(1u64 << 63), "AAAIAAAAAAAAAAAA");
    assert_eq!(base32_encode(0x0123_4567_89AB_CDEF), "AAAACI2FM6E2XTPP");
    assert_eq!(base32_encode(12345678901234567890), "AAAKWVFJRTVR6CWS");
    assert_eq!(base32_encode(u64::MAX), "AAAP777777777777");
}

#[test]
fn encoding_uses_every_symbol_in_order() {
    let alphabet = "ABCDEFGHIJKLMNOPQRSTUVWXYZ234567";
    for (value, symbol) in alphabet.chars().enumerate() {
        let encoded = base32_encode(value as u64);
        assert_eq!(encoded.len(), 16);
        assert_eq!(encoded.chars().last(), Some(symbol));
        assert!(encoded.starts_with("AAAAAAAAAAAAAAA"));
    }
}

#[test]
fn encoding_is_deterministic() {
    for seed in [0u64, 1, 42, 0xDEAD_BEEF, u64::MAX / 3, u64::MAX] {
        assert_eq!(base32_encode(seed), base32_encode(seed));
        assert_eq!(room_code_from_seed(seed), room_code_from_seed(seed));
    }
}

#[test]
fn distinct_seeds_have_distinct_encodings() {
    let seeds = [0u64, 1, 31, 32, 33, 1 << 5, 1 << 10, 1 << 59, 1 << 60, u64::MAX - 1, u64::MAX];
    for (i, a) in seeds.iter().enumerate() {
        for (j, b) in seeds.iter().enumerate() {
            assert_eq!(i == j || a == b, base32_encode(*a) == base32_encode(*b));
        }
    }
}

#[test]
fn room_code_has_exact_values() {
    assert_eq!(room_code_from_seed(0), "U/AAAA-AAAA-AAAA-AAAA");
    assert_eq!(room_code_from_seed(1), "U/AAAA-AAAA-AAAA-AAAB");
    assert_eq!(room_code_from_seed(0x0123_4567_89AB_CDEF), "U/AAAA-CI2F-M6E2-XTPP");
    assert_eq!(room_code_from_seed(12345678901234567890), "U/AAAK-WVFJ-RTVR-6CWS");
    assert_eq!(room_code_from_seed(u64::MAX), "U/AAAP-7777-7777-7777");
}

#[test]
fn room_code_groups_the_encoding() {
    for seed in [7u64, 1 << 20, 0xFEED_FACE_CAFE_F00D, u64::MAX] {
        let encoded = base32_encode(seed);
        let expected = format!(
            "U/{}-{}-{}-{}",
            &encoded[0..4],
            &encoded[4..8],
            &encoded[8..12],
            &encoded[12..16]
        );
        assert_eq!(room_code_from_seed(seed), expected);
    }
}

#[test]
fn every_generated_code_is_valid() {
    for seed in [0u64, 1, 31, 1 << 32, 0x0123_4567_89AB_CDEF, u64::MAX] {
        assert_eq!(validate_format(&room_code_from_seed(seed)), Ok(()));
    }
    for _ in 0..64 {
        let code = create_room(Some("lobby")).expect("a name was given");
        assert_eq!(join_room(Some(&code)), Ok(()));
    }
}

#[test]
fn created_room_has_the_shape_of_a_code() {
    let code = create_room(Some("")).expect("a name was given");
    assert_eq!(code.len(), 21);
    assert!(code.starts_with("U/AAA"));
    let parts: Vec<&str> = code[2..].split('-').collect();
    assert_eq!(parts.len(), 4);
    for part in parts {
        assert_eq!(part.len(), 4);
        assert!(part.chars().all(|c| "ABCDEFGHIJKLMNOPQRSTUVWXYZ234567".contains(c)));
    }
}

#[test]
fn created_rooms_differ() {
    let mut codes = Vec::new();
    for _ in 0..32 {
        codes.push(create_room(Some("same name")).expect("a name was given"));
    }
    codes.sort();
    codes.dedup();
    assert!(codes.len() > 1);
}

#[test]
fn absent_room_name_is_rejected() {
    assert_eq!(create_room(None), Err(Error::NullRoomName));
}
