use sv2_framing::text::{bytes_list, joined, numbered, push_decimal, reads_as};

#[test]
fn decimal_reads_as_the_standard_library_prints() {
    for n in [0u32, 1, 9, 10, 11, 99, 100, 101, 255, 1000, 65535, 99999, 4294967295] {
        let mut text = String::from("n=");
        push_decimal(&mut text, n);
        assert_eq!(text, format!("n={}", n));
        assert_eq!(numbered("", n), n.to_string());
    }
}

#[test]
fn bytes_list_reads_as_the_debug_form() {
    let lists: Vec<Vec<u8>> = vec![vec![], vec![0], vec![7, 8], vec![255, 0, 10, 100], (0u8..=255).collect()];
    for list in lists {
        assert_eq!(bytes_list(&list), format!("{:?}", list));
    }
}

#[test]
fn joined_and_reads_as() {
    assert_eq!(joined("ab", "cd"), "abcd");
    assert_eq!(joined("", ""), "");
    assert!(reads_as("mining.notify", "mining.notify"));
    assert!(!reads_as("mining.notify", "mining.notif"));
    assert!(!reads_as("", "x"));
    assert!(reads_as("", ""));
}
