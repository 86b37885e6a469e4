use desktop_tui::shortcut::{taskbar_order, Entry};

fn entries(list: &[(&str, Option<u32>)]) -> Vec<Entry> {
    list.iter().map(|(name, position)| Entry { name: name.to_string(), position: *position }).collect()
}

#[test]
fn ordered_by_position() {
    let list = entries(&[("editor", Some(3)), ("shell", Some(1)), ("mail", Some(2))]);
    assert_eq!(taskbar_order(&list), vec![1, 2, 0]);
}

#[test]
fn missing_position_counts_as_99() {
    let list = entries(&[("a", None), ("b", Some(100)), ("c", Some(98)), ("d", Some(99)), ("e", Some(0))]);
    assert_eq!(taskbar_order(&list), vec![4, 2, 0, 3, 1]);
}

#[test]
fn equal_positions_keep_the_order_of_loading() {
    let list = entries(&[("a", Some(5)), ("b", Some(5)), ("c", None), ("d", Some(5)), ("e", None)]);
    assert_eq!(taskbar_order(&list), vec![0, 1, 3, 2, 4]);
}

#[test]
fn later_entries_of_a_name_are_dropped() {
    let list = entries(&[("shell", Some(9)), ("editor", Some(4)), ("shell", Some(1)), ("editor", None), ("Shell", Some(2))]);
    assert_eq!(taskbar_order(&list), vec![4, 1, 0]);
}

#[test]
fn no_entries_give_no_order() {
    assert_eq!(taskbar_order(&[]), Vec::<usize>::new());
    let list = entries(&[("only", None)]);
    assert_eq!(taskbar_order(&list), vec![0]);
}
