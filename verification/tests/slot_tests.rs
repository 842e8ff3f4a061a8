use looper::slot::SlotTable;

#[test]
fn put_then_get_returns_value() {
    let mut t: SlotTable<u32> = SlotTable::new();
    let i = t.put(7);
    assert_eq!(t.get(i), Some(&7));
    assert!(!t.is_empty());
    assert_eq!(t.occupied_len(), 1);
}

#[test]
fn next_index_predicts_put() {
    let mut t: SlotTable<u32> = SlotTable::new();
    let predicted = t.next_index();
    let i = t.put(1);
    assert_eq!(predicted, i);
    let predicted2 = t.next_index();
    let j = t.put(2);
    assert_eq!(predicted2, j);
    assert_ne!(i, j);
}

#[test]
fn take_frees_and_index_is_reused() {
    let mut t: SlotTable<u32> = SlotTable::new();
    let i = t.put(1);
    let j = t.put(2);
    assert_eq!(t.take(i), Some(1));
    assert_eq!(t.get(i), None);
    let k = t.put(3);
    assert_eq!(k, i, "a freed index is reused");
    assert_eq!(t.get(j), Some(&2));
    assert_eq!(t.get(k), Some(&3));
}

#[test]
fn take_out_hides_value_until_restore() {
    let mut t: SlotTable<u32> = SlotTable::new();
    let i = t.put(5);
    let v = t.take_out(i);
    assert_eq!(v, Some(5));
    assert_eq!(t.get(i), None, "a taken slot reads as absent");
    assert_eq!(t.occupied_len(), 1, "a taken slot is still occupied");
    assert!(t.restore(i, 5));
    assert_eq!(t.get(i), Some(&5));
}

#[test]
fn remove_while_taken_prevents_restore() {
    let mut t: SlotTable<u32> = SlotTable::new();
    let i = t.put(5);
    let v = t.take_out(i).unwrap();
    assert_eq!(t.take(i), None, "removing a taken slot yields no value");
    assert!(!t.restore(i, v), "the in-flight value is dropped, not restored");
    assert_eq!(t.get(i), None);
    assert!(t.is_empty());
}

#[test]
fn restore_does_not_clobber_a_reused_slot() {
    let mut t: SlotTable<u32> = SlotTable::new();
    let i = t.put(5);
    let v = t.take_out(i).unwrap();
    assert_eq!(t.take(i), None);
    let j = t.put(9);
    assert_eq!(j, i, "the freed index was reused");
    assert!(!t.restore(i, v), "restore must not overwrite the new occupant");
    assert_eq!(t.get(i), Some(&9));
}

#[test]
fn get_mut_updates_in_place() {
    let mut t: SlotTable<u32> = SlotTable::new();
    let i = t.put(1);
    if let Some(p) = t.get_mut(i) {
        *p = 10;
    } else {
        panic!("value must be present");
    }
    assert_eq!(t.get(i), Some(&10));
}

#[test]
fn empty_table_is_empty() {
    let t: SlotTable<u32> = SlotTable::new();
    assert!(t.is_empty());
    assert_eq!(t.occupied_len(), 0);
}
