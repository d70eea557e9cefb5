use kube_tui::selection::{ResourceCollection, SelectOp};

#[test]
fn new_collection_is_empty_with_index_zero() {
    let c: ResourceCollection<u32> = ResourceCollection::new();
    assert_eq!(c.len(), 0);
    assert!(c.is_empty());
    assert_eq!(c.selected_index(), 0);
    assert_eq!(c.get_selected(), None);
    assert_eq!(c.get(0), None);
}

#[test]
fn movement_on_empty_collection_does_nothing() {
    let mut c: ResourceCollection<u32> = ResourceCollection::new();
    c.move_down();
    assert_eq!(c.selected_index(), 0);
    c.move_up();
    assert_eq!(c.selected_index(), 0);
    c.select(3);
    assert_eq!(c.selected_index(), 0);
    c.reset_selection();
    assert_eq!(c.selected_index(), 0);
    assert_eq!(c.get_selected(), None);
}

#[test]
fn move_down_stops_at_last_item() {
    let mut c = ResourceCollection::from_items(vec![10u32, 20, 30]);
    assert_eq!(c.selected_index(), 0);
    c.move_down();
    assert_eq!(c.selected_index(), 1);
    c.move_down();
    assert_eq!(c.selected_index(), 2);
    c.move_down();
    assert_eq!(c.selected_index(), 2);
    assert_eq!(c.get_selected(), Some(&30));
}

#[test]
fn move_up_stops_at_first_item() {
    let mut c = ResourceCollection::from_items(vec![10u32, 20, 30]);
    c.select(2);
    c.move_up();
    assert_eq!(c.selected_index(), 1);
    c.move_up();
    assert_eq!(c.selected_index(), 0);
    c.move_up();
    assert_eq!(c.selected_index(), 0);
    assert_eq!(c.get_selected(), Some(&10));
}

#[test]
fn any_sequence_of_moves_keeps_the_index_in_range() {
    for len in 0usize..5 {
        let mut c = ResourceCollection::from_items((0..len).collect::<Vec<usize>>());
        // A fixed but irregular pattern of ups and downs.
        let mut state: u32 = 12345;
        for _ in 0..200 {
            state = state.wrapping_mul(1103515245).wrapping_add(12345);
            if (state >> 16) & 1 == 0 {
                c.move_up();
            } else {
                c.move_down();
            }
            if len == 0 {
                assert_eq!(c.selected_index(), 0);
            } else {
                assert!(c.selected_index() < len);
            }
        }
    }
}

#[test]
fn reset_selection_is_idempotent() {
    let mut c = ResourceCollection::from_items(vec![1u8, 2, 3, 4]);
    c.select(3);
    c.reset_selection();
    let once = (c.selected_index(), c.items().clone());
    c.reset_selection();
    let twice = (c.selected_index(), c.items().clone());
    assert_eq!(once, twice);
    assert_eq!(c.selected_index(), 0);
}

#[test]
fn select_out_of_range_leaves_selection() {
    let mut c = ResourceCollection::from_items(vec!['a', 'b', 'c']);
    c.select(1);
    c.select(3);
    assert_eq!(c.selected_index(), 1);
    c.select(usize::MAX);
    assert_eq!(c.selected_index(), 1);
    c.select(2);
    assert_eq!(c.selected_index(), 2);
}

#[test]
fn replace_keeps_selection_only_for_same_length() {
    let mut c = ResourceCollection::from_items(vec![1u32, 2, 3]);
    c.select(2);
    c.replace(vec![7, 8, 9]);
    assert_eq!(c.selected_index(), 2);
    assert_eq!(c.get_selected(), Some(&9));
    c.replace(vec![7, 8]);
    assert_eq!(c.selected_index(), 0);
    c.select(1);
    c.replace(vec![1, 2, 3, 4]);
    assert_eq!(c.selected_index(), 0);
    c.replace(Vec::new());
    assert_eq!(c.selected_index(), 0);
    assert_eq!(c.get_selected(), None);
}

#[test]
fn clear_empties_and_resets() {
    let mut c = ResourceCollection::from_items(vec![1u32, 2, 3]);
    c.select(2);
    c.clear();
    assert!(c.is_empty());
    assert_eq!(c.selected_index(), 0);
}

#[test]
fn apply_performs_the_named_operation() {
    let mut c = ResourceCollection::from_items(vec![1u32, 2, 3]);
    c.apply(SelectOp::Down);
    assert_eq!(c.selected_index(), 1);
    c.apply(SelectOp::To(2));
    assert_eq!(c.selected_index(), 2);
    c.apply(SelectOp::Up);
    assert_eq!(c.selected_index(), 1);
    c.apply(SelectOp::Reset);
    assert_eq!(c.selected_index(), 0);
    assert_eq!(c.get(1), Some(&2));
    assert_eq!(c.get(3), None);
}
