use psp_gfx::record::Vertex;
use psp_gfx::rect::{coordinate_sum, Rect};
use psp_gfx::vertex::{Transform, VertexLayout, Width};

#[test]
fn corners_of_a_rectangle() {
    let r = Rect { x: 0, y: 45, w: 480, h: 45 };
    let v = r.to_sprites_vertices();
    assert_eq!(v[0], Vertex { x: 0, y: 45, ..Vertex::default() });
    assert_eq!(v[1], Vertex { x: 480, y: 90, ..Vertex::default() });
}

#[test]
fn corners_keep_sixteen_bits() {
    let r = Rect { x: -1, y: -2, w: 1, h: 0x10005 };
    let v = r.to_sprites_vertices();
    assert_eq!(v[0].x, 0xffff);
    assert_eq!(v[0].y, 0xfffe);
    assert_eq!(v[1].x, 0);
    assert_eq!(v[1].y, 3);
}

#[test]
fn corners_at_the_limits() {
    let r = Rect { x: i32::MAX, y: i32::MIN, w: i32::MAX, h: i32::MIN };
    let v = r.to_sprites_vertices();
    assert_eq!(v[0].x, 0xffff);
    assert_eq!(v[0].y, 0);
    assert_eq!(v[1].x, 0xfffe);
    assert_eq!(v[1].y, 0);
}

#[test]
fn coordinate_sums() {
    assert_eq!(coordinate_sum(0, 0), 0);
    assert_eq!(coordinate_sum(100, 200), 300);
    assert_eq!(coordinate_sum(-1, 0), 0xffff);
    assert_eq!(coordinate_sum(0x7fff, 1), 0x8000);
    assert_eq!(coordinate_sum(-5, 5), 0);
    assert_eq!(coordinate_sum(i32::MIN, i32::MIN), 0);
    assert_eq!(coordinate_sum(-3, 0) as u16 as i16, -3);
}

#[test]
fn sprite_layout() {
    let l = Rect::layout();
    assert_eq!(
        l,
        VertexLayout::new(Width::Bits16, Transform::Flat).with_texture(Some(Width::Bits16))
    );
    assert_eq!(l.stride(), 12);
}
