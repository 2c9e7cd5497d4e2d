use password_manager::list::Items;
use password_manager::options::Options;
use password_manager::password::PasswordType;

fn three_items() -> Items<u8> {
    Items::new(vec![10u8, 20, 30])
}

#[test]
fn should_wrap_sub() {
    let mut items = three_items();

    items.select(0);
    items.previous();

    assert_eq!(items.selected(), Some(2));
}

#[test]
fn should_wrap_add() {
    let mut items = three_items();

    items.select(2);
    items.next();

    assert_eq!(items.selected(), Some(0));
}

#[test]
fn new_list_selects_first_item() {
    let items = three_items();
    assert_eq!(items.selected(), Some(0));
    assert_eq!(items.get_selected(), Some(&10));
    assert_eq!(items.len(), 3);
    assert_eq!(items.items(), &vec![10u8, 20, 30]);
}

#[test]
fn next_moves_one_forward() {
    let mut items = three_items();
    items.next();
    assert_eq!(items.selected(), Some(1));
    assert_eq!(items.get_selected(), Some(&20));
    items.next();
    assert_eq!(items.selected(), Some(2));
    assert_eq!(items.get_selected(), Some(&30));
}

#[test]
fn previous_moves_one_backward() {
    let mut items = three_items();
    items.select(2);
    items.previous();
    assert_eq!(items.selected(), Some(1));
    items.previous();
    assert_eq!(items.selected(), Some(0));
}

#[test]
fn select_out_of_range_is_ignored() {
    let mut items = three_items();
    items.select(1);
    items.select(3);
    assert_eq!(items.selected(), Some(1));
    items.select(usize::MAX);
    assert_eq!(items.selected(), Some(1));
    assert_eq!(items.get_selected(), Some(&20));
}

#[test]
fn select_last_index_is_accepted() {
    let mut items = three_items();
    items.select(2);
    assert_eq!(items.selected(), Some(2));
}

#[test]
fn navigation_without_cursor_changes_nothing() {
    let mut items = three_items();
    items.deselect();
    assert_eq!(items.selected(), None);
    assert_eq!(items.get_selected(), None);
    items.next();
    assert_eq!(items.selected(), None);
    items.previous();
    assert_eq!(items.selected(), None);
    items.select(1);
    assert_eq!(items.selected(), Some(1));
}

#[test]
fn single_item_list_stays_on_its_item() {
    let mut items = Items::new(vec!['x']);
    items.next();
    assert_eq!(items.selected(), Some(0));
    items.previous();
    assert_eq!(items.selected(), Some(0));
}

#[test]
fn next_then_previous_returns_to_start() {
    for len in 1..=6usize {
        for start in 0..len {
            let mut items = Items::new((0..len).collect::<Vec<usize>>());
            items.select(start);
            items.next();
            items.previous();
            assert_eq!(items.selected(), Some(start));
            items.previous();
            items.next();
            assert_eq!(items.selected(), Some(start));
        }
    }
}

#[test]
fn cursor_stays_in_range_under_any_walk() {
    // A fixed pseudo-random walk of forward and backward steps.
    let mut bits: u64 = 0x9E37_79B9_7F4A_7C15;
    for len in 1..=7usize {
        let mut items = Items::new((0..len).collect::<Vec<usize>>());
        let mut expected = 0usize;
        for _ in 0..200 {
            bits = bits.wrapping_mul(6364136223846793005).wrapping_add(1442695040888963407);
            if (bits >> 33) & 1 == 0 {
                items.next();
                expected = (expected + 1) % len;
            } else {
                items.previous();
                expected = (expected + len - 1) % len;
            }
            let cursor = items.selected().unwrap();
            assert!(cursor < len);
            assert_eq!(cursor, expected);
            assert_eq!(items.get_selected(), Some(&cursor));
        }
    }
}

#[test]
fn clone_keeps_items_and_cursor() {
    let mut items = three_items();
    items.select(2);
    let copy = items.clone();
    assert_eq!(copy, items);
    assert_eq!(copy.selected(), Some(2));
    assert_eq!(copy.items(), &vec![10u8, 20, 30]);
}

#[test]
fn default_category_list_is_the_registry() {
    let items = Items::<PasswordType>::default();
    assert_eq!(
        items.items(),
        &vec![
            PasswordType::Pin,
            PasswordType::Random {
                numbers: true,
                symbols: true
            }
        ]
    );
    assert_eq!(items.selected(), Some(0));
    assert_eq!(items.get_selected(), Some(&PasswordType::Pin));
}

#[test]
fn default_option_list_holds_both_switches() {
    let items = Items::<Options>::default();
    assert_eq!(items.items(), &vec![Options::Numbers, Options::Symbols]);
    assert_eq!(items.selected(), Some(0));
}
