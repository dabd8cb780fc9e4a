use netdash::ui::stateful_list::StatefulList;

fn letters(names: &[&str]) -> Vec<String> {
    names.iter().map(|name| name.to_string()).collect()
}

#[test]
fn with_items_selects_nothing() {
    let list = StatefulList::with_items(letters(&["A", "B", "C"]));
    assert_eq!(list.selected(), None);
    assert_eq!(list.selected_item(), None);
    assert_eq!(list.items(), &letters(&["A", "B", "C"]));
    assert_eq!(list.len(), 3);
    assert!(!list.is_empty());
}

#[test]
fn with_items_on_one_item_selects_nothing() {
    let list = StatefulList::with_items(vec![7u32]);
    assert_eq!(list.selected(), None);
}

#[test]
fn with_items_on_no_item_is_empty() {
    let list: StatefulList<u32> = StatefulList::with_items(Vec::new());
    assert_eq!(list.selected(), None);
    assert_eq!(list.len(), 0);
    assert!(list.is_empty());
}

#[test]
fn first_next_selects_first_item() {
    let mut list = StatefulList::with_items(letters(&["A", "B", "C"]));
    list.next();
    assert_eq!(list.selected(), Some(0));
    assert_eq!(list.selected_item(), Some(&"A".to_string()));
}

#[test]
fn first_previous_selects_first_item() {
    let mut list = StatefulList::with_items(letters(&["A", "B", "C"]));
    list.previous();
    assert_eq!(list.selected(), Some(0));
}

#[test]
fn next_visits_items_in_order_and_wraps() {
    let mut list = StatefulList::with_items(letters(&["A", "B", "C"]));
    let mut seen = Vec::new();
    for _ in 0..7 {
        list.next();
        seen.push(list.selected());
    }
    assert_eq!(
        seen,
        vec![Some(0), Some(1), Some(2), Some(0), Some(1), Some(2), Some(0)]
    );
}

#[test]
fn as_many_nexts_as_items_end_on_last_item() {
    for n in 1..6usize {
        let mut list = StatefulList::with_items((0..n).collect::<Vec<usize>>());
        for _ in 0..n {
            list.next();
        }
        assert_eq!(list.selected(), Some(n - 1));
        list.next();
        assert_eq!(list.selected(), Some(0));
    }
}

#[test]
fn single_item_next_returns_to_index_zero() {
    let mut list = StatefulList::with_items(vec!["only"]);
    list.next();
    assert_eq!(list.selected(), Some(0));
    list.next();
    assert_eq!(list.selected(), Some(0));
    list.previous();
    assert_eq!(list.selected(), Some(0));
}

#[test]
fn full_round_of_next_returns_to_start() {
    for n in 1..6usize {
        for start in 0..n {
            let mut list = StatefulList::with_items((0..n).collect::<Vec<usize>>());
            for _ in 0..=start {
                list.next();
            }
            assert_eq!(list.selected(), Some(start));
            for _ in 0..n {
                list.next();
            }
            assert_eq!(list.selected(), Some(start));
            for _ in 0..n {
                list.previous();
            }
            assert_eq!(list.selected(), Some(start));
        }
    }
}

#[test]
fn previous_from_first_item_wraps_to_last() {
    let mut list = StatefulList::with_items(letters(&["A", "B", "C", "D"]));
    list.next();
    assert_eq!(list.selected(), Some(0));
    list.previous();
    assert_eq!(list.selected(), Some(3));
    assert_eq!(list.selected_item(), Some(&"D".to_string()));
    list.previous();
    assert_eq!(list.selected(), Some(2));
}

#[test]
fn previous_undoes_next() {
    let mut list = StatefulList::with_items(letters(&["A", "B", "C"]));
    list.next();
    list.next();
    list.next();
    assert_eq!(list.selected(), Some(2));
    list.next();
    list.previous();
    assert_eq!(list.selected(), Some(2));
    list.previous();
    list.next();
    assert_eq!(list.selected(), Some(2));
}

#[test]
fn steps_on_empty_list_select_nothing() {
    let mut list: StatefulList<String> = StatefulList::with_items(Vec::new());
    list.next();
    assert_eq!(list.selected(), None);
    list.previous();
    assert_eq!(list.selected(), None);
    list.next();
    list.next();
    assert_eq!(list.selected(), None);
    assert!(list.is_empty());
}

#[test]
fn replace_items_keeps_index_in_range() {
    let mut list = StatefulList::with_items(letters(&["A", "B", "C"]));
    list.next();
    list.next();
    assert_eq!(list.selected(), Some(1));
    list.replace_items(letters(&["X", "Y", "Z", "W"]));
    assert_eq!(list.selected(), Some(1));
    assert_eq!(list.selected_item(), Some(&"Y".to_string()));
    assert_eq!(list.items(), &letters(&["X", "Y", "Z", "W"]));
    list.replace_items(letters(&["P", "Q"]));
    assert_eq!(list.selected(), Some(1));
    assert_eq!(list.selected_item(), Some(&"Q".to_string()));
}

#[test]
fn replace_items_clamps_index_to_last() {
    let mut list = StatefulList::with_items((0..10).collect::<Vec<u32>>());
    for _ in 0..8 {
        list.next();
    }
    assert_eq!(list.selected(), Some(7));
    list.replace_items(vec![100, 101, 102]);
    assert_eq!(list.selected(), Some(2));
    assert_eq!(list.selected_item(), Some(&102));
    list.replace_items(vec![5]);
    assert_eq!(list.selected(), Some(0));
}

#[test]
fn replace_items_with_index_equal_to_new_length_clamps() {
    let mut list = StatefulList::with_items(letters(&["A", "B", "C"]));
    list.next();
    list.next();
    list.next();
    list.replace_items(letters(&["X", "Y"]));
    assert_eq!(list.selected(), Some(1));
}

#[test]
fn replace_items_by_nothing_drops_selection() {
    let mut list = StatefulList::with_items(letters(&["A", "B", "C"]));
    list.next();
    assert_eq!(list.selected(), Some(0));
    list.replace_items(Vec::new());
    assert_eq!(list.selected(), None);
    assert!(list.is_empty());
    list.replace_items(letters(&["X"]));
    assert_eq!(list.selected(), None);
}

#[test]
fn replace_items_without_selection_selects_nothing() {
    let mut list = StatefulList::with_items(letters(&["A"]));
    list.replace_items(letters(&["X", "Y", "Z"]));
    assert_eq!(list.selected(), None);
    assert_eq!(list.len(), 3);
    list.next();
    assert_eq!(list.selected(), Some(0));
}

#[test]
fn replace_items_twice_changes_nothing_more() {
    let mut list = StatefulList::with_items(letters(&["A", "B", "C", "D"]));
    for _ in 0..4 {
        list.next();
    }
    list.replace_items(letters(&["X", "Y"]));
    let once = list.selected();
    list.replace_items(letters(&["X", "Y"]));
    assert_eq!(list.selected(), once);
    assert_eq!(list.items(), &letters(&["X", "Y"]));
}

#[test]
fn scenario_three_items_select_last_replace_with_two() {
    let mut list = StatefulList::with_items(letters(&["A", "B", "C"]));
    list.next();
    list.next();
    list.next();
    assert_eq!(list.selected(), Some(2));
    assert_eq!(list.selected_item(), Some(&"C".to_string()));
    list.replace_items(letters(&["X", "Y"]));
    assert_eq!(list.selected(), Some(1));
    assert_eq!(list.selected_item(), Some(&"Y".to_string()));
}
