use firmware::layout::{arrange_rows, arrange_rows_checked, layout_profile_items, ItemPlacement};

#[test]
fn two_short_names_share_a_row() {
    let rows = arrange_rows(128, &vec![8, 11], 6);
    assert_eq!(rows.to_vec(), vec![2]);
}

#[test]
fn wrapping_adds_spacing_after_first_break() {
    // 60 + 60 > 100: the second item opens a row; from then on every item takes 2 more.
    let rows = arrange_rows(100, &vec![10, 10, 3, 3, 10], 6);
    assert_eq!(rows.to_vec(), vec![1, 3, 1]);
    assert_eq!(rows.to_vec().iter().map(|&n| n as usize).sum::<usize>(), 5);
}

#[test]
fn empty_menu_has_one_empty_row() {
    assert_eq!(arrange_rows(128, &vec![], 6).to_vec(), vec![0]);
}

#[test]
fn more_than_four_rows_do_not_fit() {
    // An item wider than the display closes the (empty) first row.
    assert_eq!(arrange_rows_checked(10, &vec![5, 5, 5], 6).unwrap().to_vec(), vec![0, 1, 1, 1]);
    assert!(arrange_rows_checked(10, &vec![5, 5, 5, 5], 6).is_none());
    assert!(arrange_rows_checked(10, &vec![u32::MAX], 2).is_none());
}

#[test]
fn profile_menu_is_centred() {
    let items = layout_profile_items(128, &vec![8, 11], 6, 10, 1).unwrap();
    assert_eq!(
        items,
        vec![
            ItemPlacement { index: 0, x: 3, y: 30, width: 48, selected: false },
            ItemPlacement { index: 1, x: 59, y: 30, width: 66, selected: true },
        ]
    );
}

#[test]
fn second_row_goes_to_fixed_line() {
    let items = layout_profile_items(100, &vec![10, 10], 6, 10, 0).unwrap();
    assert_eq!(
        items,
        vec![
            ItemPlacement { index: 0, x: 16, y: 30, width: 60, selected: true },
            ItemPlacement { index: 1, x: 16, y: 18, width: 60, selected: false },
        ]
    );
}

#[test]
fn row_wider_than_display_does_not_fit() {
    assert!(layout_profile_items(60, &vec![10], 6, 10, 0).is_none());
}
