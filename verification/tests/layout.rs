use env_reader::layout::{layout, Rect};

#[test]
fn ten_rows_split_into_expected_bands() {
    let r = layout(Rect::new(0, 0, 40, 10));
    assert_eq!(r.header.height, 2);
    assert_eq!(r.footer.height, 1);
    assert_eq!(r.list.height + r.detail.height, 7);
    assert!(r.list.height >= 3 && r.list.height <= 4);
    assert!(r.detail.height >= 3 && r.detail.height <= 4);
    assert!((r.list.height as i32 - r.detail.height as i32).abs() <= 1);
    assert_eq!(r.header.width, 40);
    assert_eq!(r.list.width, 40);
    assert_eq!(r.detail.width, 40);
    assert_eq!(r.footer.width, 40);
}

#[test]
fn regions_stack_without_gap() {
    let r = layout(Rect::new(3, 5, 20, 12));
    assert_eq!(r.header.y, 5);
    assert_eq!(r.list.y, r.header.y + r.header.height);
    assert_eq!(r.detail.y, r.list.y + r.list.height);
    assert_eq!(r.footer.y, r.detail.y + r.detail.height);
    assert_eq!(
        r.header.height + r.list.height + r.detail.height + r.footer.height,
        12
    );
}

#[test]
fn degenerate_heights_shrink_to_zero() {
    for h in 0..5u16 {
        let r = layout(Rect::new(0, 0, 10, h));
        assert_eq!(
            r.header.height + r.list.height + r.detail.height + r.footer.height,
            h
        );
    }
    let r0 = layout(Rect::new(0, 0, 10, 0));
    assert_eq!(r0.header.height, 0);
    assert_eq!(r0.footer.height, 0);
    let r1 = layout(Rect::new(0, 0, 10, 1));
    assert_eq!(r1.header.height, 1);
    assert_eq!(r1.footer.height, 0);
    let r2 = layout(Rect::new(0, 0, 10, 2));
    assert_eq!(r2.header.height, 2);
    assert_eq!(r2.footer.height, 0);
    let r3 = layout(Rect::new(0, 0, 10, 3));
    assert_eq!(r3.header.height, 2);
    assert_eq!(r3.footer.height, 1);
    assert_eq!(r3.list.height + r3.detail.height, 0);
}
