use rusty_matrix::error::{decimal_string, Error};
use rusty_matrix::printable::render_grid;

#[test]
fn decimal_string_writes_every_digit() {
    assert_eq!(decimal_string(0), "0");
    assert_eq!(decimal_string(7), "7");
    assert_eq!(decimal_string(9), "9");
    assert_eq!(decimal_string(10), "10");
    assert_eq!(decimal_string(1234567890), "1234567890");
    assert_eq!(decimal_string(usize::MAX), format!("{}", usize::MAX));
}

#[test]
fn extents_differ_names_both_extents() {
    assert_eq!(
        Error::extents_differ(3, 2),
        Error::NotEq(String::from("3 != 2"))
    );
    assert_eq!(
        Error::extents_differ(0, 100),
        Error::NotEq(String::from("0 != 100"))
    );
}

#[test]
fn shapes_differ_names_both_shapes() {
    assert_eq!(
        Error::shapes_differ(3, 2, 2, 3),
        Error::NotEq(String::from("3x2 != 2x3"))
    );
    assert_eq!(
        Error::shapes_differ(10, 0, 1, 25),
        Error::NotEq(String::from("10x0 != 1x25"))
    );
}

#[test]
fn render_grid_ends_cells_with_tabs_and_rows_with_line_feeds() {
    let texts = vec![
        String::from("a"),
        String::from("bc"),
        String::from(""),
        String::from("d"),
        String::from("e"),
        String::from("f"),
    ];

    assert_eq!(render_grid(&texts, 3, 2), "a\tbc\t\t\nd\te\tf\t\n");
    assert_eq!(render_grid(&texts, 2, 3), "a\tbc\t\n\td\t\ne\tf\t\n");
    assert_eq!(render_grid(&texts, 6, 1), "a\tbc\t\td\te\tf\t\n");
    assert_eq!(render_grid(&Vec::new(), 0, 3), "\n\n\n");
    assert_eq!(render_grid(&Vec::new(), 3, 0), "");
}
