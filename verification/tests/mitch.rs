use mitch_cli::address::address_names;
use mitch_cli::mitch::{
    battery_charge, byte_sample, find_uuid, is_power_reply, le_i16, word_sample, CommandFrames,
    Commands, COMMAND_CHAR, DATA_CHAR, SERVICE,
};
use mitch_cli::text::contains;
use uuid::Uuid;

#[test]
fn identifiers_are_those_of_the_device() {
    for (number, text) in [
        (COMMAND_CHAR, "d5913036-2d8a-41ee-85b9-4e361aa5c8a7"),
        (DATA_CHAR, "09bf2c52-d1d9-c0b7-4145-475964544307"),
        (SERVICE, "c8c0a708-e361-4b5e-a365-98fa6b0a836f"),
    ] {
        assert_eq!(Uuid::parse_str(text).unwrap().as_u128(), number);
    }
}

#[test]
fn words_are_little_endian() {
    for (low, high) in [(0u8, 0u8), (1, 0), (0, 1), (255, 127), (0, 128), (255, 255), (52, 18)] {
        assert_eq!(le_i16(low, high), i16::from_le_bytes([low, high]));
    }
    assert_eq!(le_i16(0, 128), -32768);
    assert_eq!(word_sample(&vec![0, 0, 0, 0, 52, 18, 0, 128, 254, 255]), vec![4660, -32768, -2]);
}

#[test]
fn bytes_become_values() {
    assert_eq!(byte_sample(&vec![1, 2, 3, 4, 5, 255]), Some(vec![5, 255]));
    assert_eq!(byte_sample(&vec![1, 2, 3, 4]), Some(vec![]));
    assert_eq!(byte_sample(&vec![1, 2, 3]), None);
}

#[test]
fn charge_follows_the_error_code() {
    assert_eq!(battery_charge(&vec![0, 0, 0, 0, 63]), Some(63));
    assert_eq!(battery_charge(&vec![0, 0, 0, 9, 63]), None);
    assert!(is_power_reply(&vec![0, 0, 0, 9]));
    assert!(!is_power_reply(&vec![0, 0, 0, 0]));
    assert!(!is_power_reply(&vec![]));
}

#[test]
fn frames_go_with_their_commands() {
    let frames = CommandFrames { start_pressure_stream: vec![2, 3], get_power: vec![135, 0] };
    assert_eq!(frames.frame(Commands::StartPressureStream), &vec![2, 3]);
    assert_eq!(frames.frame(Commands::GetPower), &vec![135, 0]);
}

#[test]
fn uuid_is_found_where_it_stands_first() {
    assert_eq!(find_uuid(&vec![5, 7, 9, 7], 7), Some(1));
    assert_eq!(find_uuid(&vec![5, 7, 9, 7], 8), None);
    assert_eq!(find_uuid(&vec![], 8), None);
}

#[test]
fn addresses_are_written_in_upper_case() {
    assert_eq!(
        address_names(&vec![[0x2A, 0xCC, 0x00, 0x34, 0xFA, 0x00], [0, 1, 2, 3, 4, 0xff]]),
        vec!["2A:CC:00:34:FA:00".to_string(), "00:01:02:03:04:FF".to_string()]
    );
}

#[test]
fn words_are_found_in_text() {
    assert!(contains("abcabd", "abd"));
    assert!(contains("abc", "abc"));
    assert!(contains("abc", ""));
    assert!(contains("", ""));
    assert!(!contains("abc", "abcd"));
    assert!(!contains("aab", "ba"));
    assert!(contains("größe", "öß"));
}
