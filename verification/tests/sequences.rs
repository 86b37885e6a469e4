use desktop_tui::csi::scan_escape_sequence;

fn scan(text: &str) -> Option<(Vec<u32>, bool, char, usize)> {
    let chars: Vec<char> = text.chars().collect();
    scan_escape_sequence(&chars, 0).map(|(sequence, len)| (sequence.params, sequence.private, sequence.final_byte, len))
}

#[test]
fn parameters_are_read_in_order() {
    assert_eq!(scan("\x1b[2;5H"), Some((vec![2, 5], false, 'H', 6)));
    assert_eq!(scan("\x1b[38;2;10;20;30m"), Some((vec![38, 2, 10, 20, 30], false, 'm', 16)));
    assert_eq!(scan("\x1b[m"), Some((vec![], false, 'm', 3)));
    assert_eq!(scan("\x1b[0m"), Some((vec![0], false, 'm', 4)));
    assert_eq!(scan("\x1b[007mrest"), Some((vec![7], false, 'm', 6)));
}

#[test]
fn empty_parameters_read_as_zero() {
    assert_eq!(scan("\x1b[;H"), Some((vec![0], false, 'H', 4)));
    assert_eq!(scan("\x1b[;5H"), Some((vec![0, 5], false, 'H', 5)));
    assert_eq!(scan("\x1b[3;H"), Some((vec![3], false, 'H', 5)));
    assert_eq!(scan("\x1b[;;m"), Some((vec![0, 0], false, 'm', 5)));
    assert_eq!(scan("\x1b[1;;2m"), Some((vec![1, 0, 2], false, 'm', 7)));
}

#[test]
fn parameters_beyond_32_bits_read_as_zero() {
    assert_eq!(scan("\x1b[4294967295A"), Some((vec![4294967295], false, 'A', 13)));
    assert_eq!(scan("\x1b[4294967296A"), Some((vec![0], false, 'A', 13)));
    assert_eq!(scan("\x1b[99999999999999999999;7A"), Some((vec![0, 7], false, 'A', 25)));
    assert_eq!(scan("\x1b[00000000000000000012A"), Some((vec![12], false, 'A', 23)));
}

#[test]
fn private_marker_is_recognised() {
    assert_eq!(scan("\x1b[?25l"), Some((vec![25], true, 'l', 6)));
    assert_eq!(scan("\x1b[?25h"), Some((vec![25], true, 'h', 6)));
    assert_eq!(scan("\x1b[?h"), Some((vec![], true, 'h', 4)));
    assert_eq!(scan("\x1b[1?h"), None);
}

#[test]
fn incomplete_sequences_are_not_recognised() {
    assert_eq!(scan("\x1b["), None);
    assert_eq!(scan("\x1b[1"), None);
    assert_eq!(scan("\x1b[1;2"), None);
    assert_eq!(scan("\x1b[?"), None);
    assert_eq!(scan("\x1b[1 m"), None);
    assert_eq!(scan("\x1b[1\u{e9}"), None);
    assert_eq!(scan("\x1b[\x1b[m"), None);
    assert_eq!(scan(""), None);
}

#[test]
fn scanning_starts_where_it_is_told() {
    let chars: Vec<char> = "xy\x1b[12Cz".chars().collect();
    let (sequence, len) = scan_escape_sequence(&chars, 2).expect("a sequence");
    assert_eq!(sequence.params, vec![12]);
    assert!(!sequence.private);
    assert_eq!(sequence.final_byte, 'C');
    assert_eq!(len, 5);
    assert!(scan_escape_sequence(&chars, 6).is_none());
    assert!(scan_escape_sequence(&chars, 7).is_none());
}
