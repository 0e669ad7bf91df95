use portfolio::tabs::TabSelector;

#[test]
fn first_entry_starts_selected() {
    let t = TabSelector::new(3);
    assert!(t.is_selected(0));
    assert!(!t.is_selected(1));
}

#[test]
fn selecting_moves_the_one_selection() {
    let mut t = TabSelector::new(3);
    t.select(2);
    assert!(t.is_selected(2));
    assert!(!t.is_selected(0));
    assert_eq!(t.selected, 2);
}

#[test]
fn out_of_range_selection_is_ignored() {
    let mut t = TabSelector::new(3);
    t.select(1);
    t.select(7);
    assert_eq!(t.selected, 1);
    assert!(t.selected < t.count);
}
