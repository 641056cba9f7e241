use zellij_sshd::pane_size::Offset;
use zellij_sshd::pane_size::Size;
use zellij_sshd::pane_size::SizeInPixels;
use zellij_sshd::pane_size::Viewport;

#[test]
fn size_from_str() {
    let configs = "rows=1,cols=2";
    let result = Size::from_str(configs);
    println!("{:?}", result);
}

#[test]
fn size_from_str_reads_both_fields() {
    assert_eq!(Size::from_str("rows=1,cols=2"), Ok(Size { rows: 1, cols: 2 }));
    assert_eq!(Size::from_str("cols=80,rows=24"), Ok(Size { rows: 24, cols: 80 }));
}

#[test]
fn size_from_str_trims_whitespace() {
    assert_eq!(Size::from_str(" rows = 3 , cols = 4 "), Ok(Size { rows: 3, cols: 4 }));
}

#[test]
fn size_from_str_later_entry_wins() {
    assert_eq!(Size::from_str("rows=1,rows=9,cols=2"), Ok(Size { rows: 9, cols: 2 }));
}

#[test]
fn size_from_str_ignores_unknown_keys() {
    assert_eq!(Size::from_str("depth=5,rows=1,cols=2"), Ok(Size { rows: 1, cols: 2 }));
}

#[test]
fn size_from_str_rejects_malformed_entries() {
    assert_eq!(Size::from_str(""), Err("invalid size key".to_string()));
    assert_eq!(Size::from_str("rows"), Err("invalid size key".to_string()));
    assert_eq!(Size::from_str("rows=1=2"), Err("invalid size key".to_string()));
}

#[test]
fn size_from_str_rejects_bad_numbers() {
    assert_eq!(
        Size::from_str("rows=,cols=2"),
        Err("cannot parse integer from empty string".to_string())
    );
    assert_eq!(
        Size::from_str("rows=12a,cols=2"),
        Err("invalid digit found in string".to_string())
    );
    assert_eq!(
        Size::from_str("rows=99999999999999999999999999999,cols=2"),
        Err("number too large to fit in target type".to_string())
    );
}

#[test]
fn size_from_str_accepts_leading_plus() {
    assert_eq!(Size::from_str("rows=+7,cols=+8"), Ok(Size { rows: 7, cols: 8 }));
}

#[test]
fn viewport_positive_size() {
    let v = Viewport { x: 0, y: 0, rows: 1, cols: 1 };
    assert!(v.has_positive_size());
    let flat = Viewport { x: 0, y: 0, rows: 0, cols: 1 };
    assert!(!flat.has_positive_size());
    let narrow = Viewport { x: 0, y: 0, rows: 1, cols: 0 };
    assert!(!narrow.has_positive_size());
}

#[test]
fn viewport_from_size() {
    let v = Viewport::from(Size { rows: 7, cols: 9 });
    assert_eq!(v, Viewport { x: 0, y: 0, rows: 7, cols: 9 });
}

#[test]
fn offset_constructors() {
    assert_eq!(Offset::frame(2), Offset { top: 2, bottom: 2, right: 2, left: 2 });
    assert_eq!(
        Offset::shift_right_and_top(3, 4),
        Offset { top: 4, bottom: 0, right: 3, left: 0 }
    );
    assert_eq!(Offset::shift(5, 6), Offset { top: 0, bottom: 5, right: 6, left: 0 });
}

#[test]
fn pixel_size_holds_fields() {
    let p = SizeInPixels { height: 10, width: 20 };
    assert_eq!(p.height, 10);
    assert_eq!(p.width, 20);
}
