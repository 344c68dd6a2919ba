use winserial::ports::PortSelector;

#[test]
fn repopulate_with_empty_result_clears_choices() {
    let mut sel = PortSelector::new();
    sel.repopulate(vec![String::from("COM1"), String::from("COM3")]);
    assert_eq!(sel.choices.len(), 2);
    sel.repopulate(Vec::new());
    assert!(sel.choices.is_empty());
    assert!(sel.selection_string().is_none());
}

#[test]
fn repopulate_fully_replaces_prior_choices() {
    let mut sel = PortSelector::new();
    sel.repopulate(vec![String::from("COM1"), String::from("COM2")]);
    sel.select(1);
    sel.repopulate(vec![String::from("ttyUSB0")]);
    assert_eq!(sel.choices, vec![String::from("ttyUSB0")]);
    // the old selection does not survive the new query
    assert!(sel.selection_string().is_none());
}

#[test]
fn selection_string_names_the_picked_port() {
    let mut sel = PortSelector::new();
    assert!(sel.selection_string().is_none());
    sel.repopulate(vec![String::from("COM1"), String::from("COM7")]);
    assert!(sel.select(1));
    assert_eq!(sel.selection_string(), Some(String::from("COM7")));
}

#[test]
fn out_of_range_pick_changes_nothing() {
    let mut sel = PortSelector::new();
    sel.repopulate(vec![String::from("COM1")]);
    assert!(sel.select(0));
    assert!(!sel.select(5));
    assert_eq!(sel.selection_string(), Some(String::from("COM1")));
}
