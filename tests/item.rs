use common_ops::Item;

#[test]
fn index_of_each_field() {
    assert_eq!(Item::First.index(), 0);
    assert_eq!(Item::Second.index(), 1);
    assert_eq!(Item::Third.index(), 2);
}

#[test]
fn index_is_distinct_per_field() {
    let all = [Item::First, Item::Second, Item::Third];
    for a in all.iter() {
        assert!(a.index() < 3);
        for b in all.iter() {
            assert_eq!(a.index() == b.index(), a == b);
        }
    }
}

#[test]
fn index_selects_slot_of_three_element_array() {
    let slots = [10u32, 20, 30];
    assert_eq!(slots[Item::First.index()], 10);
    assert_eq!(slots[Item::Second.index()], 20);
    assert_eq!(slots[Item::Third.index()], 30);
}
