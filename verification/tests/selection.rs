use rusttop::selection::Selection;

#[test]
fn new_selection_highlights_nothing() {
    let selection = Selection::new(3);
    assert_eq!(selection.current(), None);
    assert_eq!(selection.rows(), 3);
}

#[test]
fn advance_from_nothing_selects_first_row() {
    let mut selection = Selection::new(3);
    selection.advance();
    assert_eq!(selection.current(), Some(0));
}

#[test]
fn retreat_from_nothing_selects_first_row() {
    let mut selection = Selection::new(3);
    selection.retreat();
    assert_eq!(selection.current(), Some(0));
}

#[test]
fn advance_walks_down_and_wraps_to_first_row() {
    let mut selection = Selection::new(3);
    selection.advance();
    assert_eq!(selection.current(), Some(0));
    selection.advance();
    assert_eq!(selection.current(), Some(1));
    selection.advance();
    assert_eq!(selection.current(), Some(2));
    selection.advance();
    assert_eq!(selection.current(), Some(0));
}

#[test]
fn retreat_walks_up_and_wraps_to_last_row() {
    let mut selection = Selection::new(3);
    selection.advance();
    selection.retreat();
    assert_eq!(selection.current(), Some(2));
    selection.retreat();
    assert_eq!(selection.current(), Some(1));
    selection.retreat();
    assert_eq!(selection.current(), Some(0));
}

#[test]
fn empty_list_ignores_advance_and_retreat() {
    let mut selection = Selection::new(0);
    selection.advance();
    assert_eq!(selection.current(), None);
    selection.retreat();
    assert_eq!(selection.current(), None);
    selection.advance();
    selection.advance();
    assert_eq!(selection.current(), None);
    assert_eq!(selection.rows(), 0);
}

#[test]
fn single_row_list_stays_on_its_row() {
    let mut selection = Selection::new(1);
    selection.advance();
    assert_eq!(selection.current(), Some(0));
    selection.advance();
    assert_eq!(selection.current(), Some(0));
    selection.retreat();
    assert_eq!(selection.current(), Some(0));
}

#[test]
fn as_many_advances_as_rows_return_to_the_start() {
    for rows in 1..=7usize {
        for start in 0..rows {
            let mut selection = Selection::new(rows);
            for _ in 0..=start {
                selection.advance();
            }
            assert_eq!(selection.current(), Some(start));
            for _ in 0..rows {
                selection.advance();
            }
            assert_eq!(selection.current(), Some(start));
        }
    }
}

#[test]
fn first_selected_row_comes_back_after_a_full_cycle() {
    for rows in 1..=7usize {
        let mut selection = Selection::new(rows);
        selection.advance();
        let first = selection.current();
        assert_eq!(first, Some(0));
        for _ in 0..rows {
            selection.advance();
        }
        assert_eq!(selection.current(), first);
    }
}

#[test]
fn advance_moves_by_one_modulo_the_row_count() {
    let rows = 5usize;
    let mut selection = Selection::new(rows);
    selection.advance();
    for step in 1..=12usize {
        selection.advance();
        assert_eq!(selection.current(), Some(step % rows));
    }
}

#[test]
fn advance_and_retreat_undo_each_other() {
    for rows in 1..=6usize {
        for start in 0..rows {
            let mut selection = Selection::new(rows);
            for _ in 0..=start {
                selection.advance();
            }
            selection.advance();
            selection.retreat();
            assert_eq!(selection.current(), Some(start));
            selection.retreat();
            selection.advance();
            assert_eq!(selection.current(), Some(start));
        }
    }
}

#[test]
fn advance_then_retreat_across_the_last_row() {
    let mut selection = Selection::new(4);
    selection.retreat();
    selection.retreat();
    assert_eq!(selection.current(), Some(3));
    selection.advance();
    assert_eq!(selection.current(), Some(0));
    selection.retreat();
    assert_eq!(selection.current(), Some(3));
}

#[test]
fn resize_keeps_a_row_that_still_exists() {
    let mut selection = Selection::new(5);
    selection.advance();
    selection.advance();
    selection.resize(2);
    assert_eq!(selection.current(), Some(1));
    assert_eq!(selection.rows(), 2);
    selection.resize(9);
    assert_eq!(selection.current(), Some(1));
    assert_eq!(selection.rows(), 9);
}

#[test]
fn resize_drops_a_row_that_is_gone() {
    let mut selection = Selection::new(5);
    selection.retreat();
    selection.retreat();
    assert_eq!(selection.current(), Some(4));
    selection.resize(4);
    assert_eq!(selection.current(), None);
    assert_eq!(selection.rows(), 4);
}

#[test]
fn resize_to_empty_list_drops_the_selection() {
    let mut selection = Selection::new(2);
    selection.advance();
    assert_eq!(selection.current(), Some(0));
    selection.resize(0);
    assert_eq!(selection.current(), None);
    selection.advance();
    assert_eq!(selection.current(), None);
}

#[test]
fn resize_without_selection_stays_without() {
    let mut selection = Selection::new(2);
    selection.resize(10);
    assert_eq!(selection.current(), None);
    assert_eq!(selection.rows(), 10);
}

#[test]
fn wrap_uses_the_new_length_after_resize() {
    let mut selection = Selection::new(2);
    selection.advance();
    selection.resize(4);
    selection.retreat();
    assert_eq!(selection.current(), Some(3));
    selection.advance();
    assert_eq!(selection.current(), Some(0));
}
