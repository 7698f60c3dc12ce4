use jobsched::frame::{announced_length, length_prefix, LENGTH_LIMIT};
use jobsched::socket::{may_listen, Removal, SOCKET_PATH};
use jobsched::text::{decimal_text, join_texts, signed_decimal_text};

fn strings(words: &[&str]) -> Vec<String> {
    words.iter().map(|w| w.to_string()).collect()
}

#[test]
fn decimal_numbers_are_written_as_std_writes_them() {
    for n in [0u32, 1, 9, 10, 11, 99, 100, 101, 4096, 1_000_000, 4_294_967_295] {
        assert_eq!(decimal_text(n), n.to_string());
    }
    assert_eq!(decimal_text(90210), "90210");
}

#[test]
fn signed_numbers_are_written_as_std_writes_them() {
    for i in [0i32, 7, -1, -9, -10, 137, i32::MAX, i32::MIN] {
        assert_eq!(signed_decimal_text(i), i.to_string());
    }
    assert_eq!(signed_decimal_text(i32::MIN), "-2147483648");
}

#[test]
fn decimal_numbers_read_back() {
    for n in [0u32, 5, 10, 65_535, u32::MAX] {
        assert_eq!(decimal_text(n).parse::<u32>().unwrap(), n);
    }
}

#[test]
fn joined_words_have_separators_between_neighbours() {
    assert_eq!(join_texts(&strings(&[]), " "), "");
    assert_eq!(join_texts(&strings(&["one"]), " "), "one");
    assert_eq!(join_texts(&strings(&["one", "two", "three"]), " "), "one two three");
    assert_eq!(join_texts(&strings(&["", "", ""]), " "), "  ");
    assert_eq!(join_texts(&strings(&["a", "b"]), ", "), "a, b");
}

#[test]
fn prefix_has_the_lowest_byte_first() {
    assert_eq!(length_prefix(&vec![]), vec![0, 0, 0, 0]);
    assert_eq!(length_prefix(&vec![9; 5]), vec![5, 0, 0, 0]);
    assert_eq!(length_prefix(&vec![9; 0x0102]), vec![2, 1, 0, 0]);
    assert_eq!(length_prefix(&vec![9; 0x01_0203]), vec![3, 2, 1, 0]);
    let long: Vec<u8> = vec![0; 70_000];
    assert_eq!(length_prefix(&long), (long.len() as u32).to_le_bytes().to_vec());
}

#[test]
fn announced_length_weighs_the_bytes() {
    assert_eq!(announced_length([0, 0, 0, 0]), 0);
    assert_eq!(announced_length([1, 0, 0, 0]), 1);
    assert_eq!(announced_length([4, 3, 2, 1]), 0x0102_0304);
    assert_eq!(announced_length([255, 255, 255, 255]), u32::MAX);
    assert_eq!(LENGTH_LIMIT, u32::MAX as u64 + 1);
}

#[test]
fn prefix_announces_the_length_of_its_body() {
    for n in [0usize, 1, 255, 256, 257, 65_535, 65_536, 1_000_000] {
        let prefix = length_prefix(&vec![0; n]);
        assert_eq!(prefix.len(), 4);
        assert_eq!(announced_length([prefix[0], prefix[1], prefix[2], prefix[3]]) as usize, n);
    }
}

#[test]
fn daemon_listens_unless_the_old_socket_is_in_the_way() {
    assert!(may_listen(&Removal::Removed));
    assert!(may_listen(&Removal::NotFound));
    assert!(!may_listen(&Removal::Failed));
    assert_eq!(SOCKET_PATH, "/tmp/jobsched.sock");
}
