use ncc::text::{parse_number, split_fields};
use ncc::{parse_rectangle, resolve, Rectangle};

fn chars(s: &str) -> Vec<char> {
    s.chars().collect()
}

#[test]
fn rectangle_of_four_numbers() {
    assert_eq!(parse_rectangle("1 1 1 1"), Some(Rectangle { x: 1, y: 1, width: 1, height: 1 }));
    assert_eq!(
        parse_rectangle("10 20 640 480"),
        Some(Rectangle { x: 10, y: 20, width: 640, height: 480 })
    );
    assert_eq!(
        parse_rectangle("  0\t4294967295 \n +7   007 "),
        Some(Rectangle { x: 0, y: 4294967295, width: 7, height: 7 })
    );
}

#[test]
fn rectangle_wants_exactly_four_fields() {
    assert_eq!(parse_rectangle(""), None);
    assert_eq!(parse_rectangle("   "), None);
    assert_eq!(parse_rectangle("1"), None);
    assert_eq!(parse_rectangle("1 2 3"), None);
    assert_eq!(parse_rectangle("1 2 3 4 5"), None);
    assert_eq!(parse_rectangle("1,2,3,4"), None);
}

#[test]
fn rectangle_wants_numbers() {
    assert_eq!(parse_rectangle("1 2 3 x"), None);
    assert_eq!(parse_rectangle("-1 2 3 4"), None);
    assert_eq!(parse_rectangle("1 2.0 3 4"), None);
    assert_eq!(parse_rectangle("1 2 3 4294967296"), None);
    assert_eq!(parse_rectangle("1 2 + 4"), None);
    assert_eq!(parse_rectangle("1 2 3 ٣"), None);
}

#[test]
fn numerals() {
    assert_eq!(parse_number(&chars("0")), Some(0));
    assert_eq!(parse_number(&chars("42")), Some(42));
    assert_eq!(parse_number(&chars("+42")), Some(42));
    assert_eq!(parse_number(&chars("000000000000042")), Some(42));
    assert_eq!(parse_number(&chars("4294967295")), Some(u32::MAX));
    assert_eq!(parse_number(&chars("4294967296")), None);
    assert_eq!(parse_number(&chars("99999999999999999999999999")), None);
    assert_eq!(parse_number(&chars("")), None);
    assert_eq!(parse_number(&chars("+")), None);
    assert_eq!(parse_number(&chars("++1")), None);
    assert_eq!(parse_number(&chars("1+")), None);
    assert_eq!(parse_number(&chars("-0")), None);
    assert_eq!(parse_number(&chars("12a")), None);
}

#[test]
fn fields_are_runs_between_spaces() {
    assert_eq!(split_fields(""), Vec::<Vec<char>>::new());
    assert_eq!(split_fields(" \t\r\n"), Vec::<Vec<char>>::new());
    assert_eq!(split_fields("ab"), vec![chars("ab")]);
    assert_eq!(split_fields(" ab  c\td "), vec![chars("ab"), chars("c"), chars("d")]);
    assert_eq!(split_fields("a\u{b}b\u{c}c"), vec![chars("a"), chars("b"), chars("c")]);
}

#[test]
fn requested_region_goes_to_both_images() {
    let r = Rectangle { x: 1, y: 2, width: 3, height: 4 };
    assert_eq!(resolve(Some(r), (10, 10), (20, 5)), (r, r));
}

#[test]
fn without_a_request_each_image_is_taken_in_full() {
    assert_eq!(
        resolve(None, (10, 11), (20, 5)),
        (
            Rectangle { x: 0, y: 0, width: 10, height: 11 },
            Rectangle { x: 0, y: 0, width: 20, height: 5 }
        )
    );
    assert_eq!(Rectangle::full(3, 4), Rectangle { x: 0, y: 0, width: 3, height: 4 });
}

#[test]
fn rectangle_fits_within_an_image() {
    let r = Rectangle { x: 1, y: 1, width: 2, height: 2 };
    assert!(r.fits_within(3, 3));
    assert!(!r.fits_within(2, 3));
    assert!(!r.fits_within(3, 2));
    let edge = Rectangle { x: u32::MAX, y: 0, width: 1, height: 0 };
    assert!(!edge.fits_within(u32::MAX, u32::MAX));
    assert!(Rectangle { x: 3, y: 3, width: 0, height: 0 }.fits_within(3, 3));
}
