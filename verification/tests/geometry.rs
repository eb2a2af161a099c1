use sixtyfps_gl_backend::graphics::{Point, Rect};

#[test]
fn translate_moves_origin_and_keeps_size() {
    let r = Rect { x: 10, y: -5, width: 30, height: 40 };
    let t = r.translate(Point { x: 100, y: 200 });
    assert_eq!(t, Rect { x: 110, y: 195, width: 30, height: 40 });
}

#[test]
fn intersection_of_overlapping_rectangles() {
    let a = Rect { x: 0, y: 0, width: 100, height: 100 };
    let b = Rect { x: 60, y: -20, width: 100, height: 50 };
    let i = a.intersection(&b);
    assert_eq!(i, Rect { x: 60, y: 0, width: 40, height: 30 });
}

#[test]
fn intersection_of_disjoint_rectangles_is_empty() {
    let a = Rect { x: 0, y: 0, width: 10, height: 10 };
    let b = Rect { x: 50, y: 50, width: 10, height: 10 };
    let i = a.intersection(&b);
    assert!(i.is_empty());
    assert_eq!(i.width, 0);
    assert_eq!(i.height, 0);
}

#[test]
fn intersection_with_nested_rectangle_is_the_inner_one() {
    let outer = Rect { x: 0, y: 0, width: 100, height: 100 };
    let inner = Rect { x: 20, y: 30, width: 10, height: 5 };
    assert_eq!(outer.intersection(&inner), inner);
    assert_eq!(inner.intersection(&outer), inner);
}

#[test]
fn emptiness_follows_width_and_height() {
    assert!(Rect { x: 0, y: 0, width: 0, height: 10 }.is_empty());
    assert!(Rect { x: 0, y: 0, width: 10, height: -1 }.is_empty());
    assert!(!Rect { x: -5, y: -5, width: 1, height: 1 }.is_empty());
}
