use ravenwm::geometry::Rectangle;

#[test]
fn new_keeps_fields() {
    let r = Rectangle::new(-3, 4, 10, 20);
    assert_eq!(r, Rectangle { x: -3, y: 4, width: 10, height: 20 });
}

#[test]
fn edges_of_rectangle() {
    let r = Rectangle::new(-3, 4, 10, 20);
    assert_eq!(r.left(), -3);
    assert_eq!(r.top(), 4);
    assert_eq!(r.right(), 7);
    assert_eq!(r.bottom(), 24);
}

#[test]
fn deflate_screen_by_gap() {
    let mut r = Rectangle::new(0, 0, 800, 600);
    r.deflate(16, 16);
    assert_eq!(r, Rectangle::new(16, 16, 768, 568));
}

#[test]
fn inflate_restores_deflated() {
    let mut r = Rectangle::new(0, 0, 800, 600);
    r.deflate(16, 16);
    r.inflate(16, 16);
    assert_eq!(r, Rectangle::new(0, 0, 800, 600));
}

#[test]
fn inflate_grows_both_sides() {
    let mut r = Rectangle::new(5, 6, 10, 12);
    r.inflate(2, 3);
    assert_eq!(r, Rectangle::new(3, 3, 14, 18));
}

#[test]
fn inflate_by_negative_shrinks() {
    let mut r = Rectangle::new(5, 6, 10, 12);
    r.inflate(-5, -6);
    assert_eq!(r, Rectangle::new(10, 12, 0, 0));
}
