use rusty::math::Rect;
use rusty::math::Vec2;

#[test]
fn rect_contains_point() {
    let rect = Rect { x: 0, y: 0, width: 32, height: 32 };
    assert!(rect.contains(Vec2 { x: 10, y: 10 }))
}

#[test]
fn rect_contains_limits() {
    let rect = Rect { x: 32, y: 32, width: 32, height: 32 };
    assert!(rect.contains(Vec2 { x: 32, y: 32 }));

    assert!(rect.contains(Vec2 { x: 64, y: 64 }));
}

#[test]
fn rect_position() {
    let rect = Rect { x: 32, y: 32, width: 32, height: 32 };
    assert_eq!(rect.position(), Vec2 { x: 32, y: 32 });
    let rect = Rect { x: 300, y: 32, width: 32, height: 32 };
    assert_eq!(rect.position(), Vec2 { x: 300, y: 32 })
}

#[test]
fn rect_does_not_contain_outside_point() {
    let rect = Rect { x: 0, y: 0, width: 32, height: 32 };
    assert!(!rect.contains(Vec2 { x: 33, y: 10 }));
    assert!(!rect.contains(Vec2 { x: 10, y: -1 }));
}
