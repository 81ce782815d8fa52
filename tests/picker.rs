use darkwallet::draw::DrawRegistry;
use darkwallet::gfx::{DrawInstruction, DrawMesh, Point, Rectangle};
use darkwallet::prop::{Property, PropertyError, PropertyType, Role, Value};
use darkwallet::scene::{SceneError, SceneGraph};
use darkwallet::visual::{EmojiPicker, Visual, VisualError};
use darkwallet::expr::load_var;
use darkwallet::picker::{
    calc_off_x, click_point, emoji_at, emoji_positions, emojis_per_line, grid_instrs, handle_touch,
    max_scroll, wheel_scroll, TouchInfo, TouchPhase,
};

const U: i64 = 1_000_000;

#[test]
fn per_line_and_spacing() {
    // 2000 wide, 30 per emoji: 66 fit, spread 1970 / 65 apart
    assert_eq!(emojis_per_line(2000 * U, 30 * U), 66);
    assert_eq!(calc_off_x(2000 * U, 30 * U), Some(1970 * U / 65));
    assert_eq!(calc_off_x(40 * U, 30 * U), None);
    assert_eq!(emojis_per_line(-1, 30 * U), -1);
}

#[test]
fn scroll_limits() {
    // 10 per line, 95 emojis: 9 full rows of 10 high = 90, minus 40
    assert_eq!(max_scroll(95, 100 * U, 40 * U, 10 * U), Some(50 * U));
    assert_eq!(max_scroll(5, 100 * U, 40 * U, 10 * U), Some(0));
    assert_eq!(max_scroll(5, 5 * U, 40 * U, 10 * U), None);
}

#[test]
fn clicked_emoji() {
    // 10 per line in 100 wide
    let at = |x: i64, y: i64, scroll: i64| emoji_at(Point { x: x * U, y: y * U }, scroll * U, 100 * U, 10 * U, 50);
    assert_eq!(at(5, 5, 0), Some(0));
    assert_eq!(at(15, 5, 0), Some(1));
    assert_eq!(at(5, 15, 0), Some(10));
    assert_eq!(at(5, 5, 10), Some(10));
    assert_eq!(at(95, 45, 0), Some(49));
    assert_eq!(at(5, 55, 0), None);
    assert_eq!(at(-5, -5, 0), Some(0));
}

#[test]
fn wheel_scroll_is_clamped() {
    assert_eq!(wheel_scroll(10 * U, 2 * U, U, Some(100 * U)), 8 * U);
    assert_eq!(wheel_scroll(10 * U, 2 * U, 10 * U, Some(100 * U)), 0);
    assert_eq!(wheel_scroll(10 * U, 2 * U, -100 * U, Some(100 * U)), 100 * U);
    assert_eq!(wheel_scroll(10 * U, 2 * U, -100 * U, None), 210 * U);
}

#[test]
fn layout_wraps_lines_and_stops_below() {
    let pos = emoji_positions(5, 30 * U, 10 * U, 10 * U, Some(10 * U), 0);
    let got: Vec<(i64, i64)> = pos.iter().map(|p| (p.x / U, p.y / U)).collect();
    assert_eq!(got, vec![(5, 5), (15, 5), (25, 5), (5, 15), (15, 15)]);
    // With no height, the line break already passes the bottom.
    let pos = emoji_positions(5, 30 * U, 0, 10 * U, Some(10 * U), 0);
    assert_eq!(pos.len(), 3);
}

#[test]
fn grid_pairs_positions_with_meshes() {
    let meshes: Vec<DrawMesh> = (0..4).map(|t| DrawMesh { verts: vec![], indices: vec![], texture: Some(t) }).collect();
    let rect = Rectangle::new(0, 0, 30 * U, 100 * U);
    let (scroll, instrs) = grid_instrs(rect, 7 * U, 10 * U, meshes);
    assert_eq!(scroll, 0);
    assert_eq!(instrs.len(), 9);
    assert!(matches!(instrs[0], DrawInstruction::ApplyView(r) if r == rect));
    assert!(matches!(instrs[7], DrawInstruction::Move(Point { x, y }) if x == 5 * U && y == 15 * U));
    assert!(matches!(&instrs[8], DrawInstruction::Draw(m) if m.texture == Some(3)));
}

#[test]
fn mouse_click_inside_only() {
    let rect = Rectangle::new(10, 10, 100, 100);
    assert_eq!(click_point(&rect, &Point { x: 20, y: 30 }), Some(Point { x: 10, y: 20 }));
    assert_eq!(click_point(&rect, &Point { x: 5, y: 30 }), None);
}

#[test]
fn touch_tap_and_scroll() {
    let rect = Rectangle::new(0, 0, 100 * U, 100 * U);
    let p = |x: i64, y: i64| Point { x: x * U, y: y * U };
    let out = handle_touch(None, TouchPhase::Started, 0, p(10, 50), rect, 5 * U, Some(40 * U));
    assert!(out.handled);
    let info = out.info;
    assert_eq!(info, Some(TouchInfo { start_pos: p(10, 50), start_scroll: 5 * U, is_scroll: false }));
    // A tap: lifted without moving.
    let tap = handle_touch(info, TouchPhase::Ended, 0, p(10, 50), rect, 5 * U, Some(40 * U));
    assert_eq!(tap.click, Some(p(10, 50)));
    assert_eq!(tap.info, None);
    // A drag up by 20 scrolls down by 20, held to the maximum.
    let drag = handle_touch(info, TouchPhase::Moved, 0, p(10, 30), rect, 5 * U, Some(40 * U));
    assert_eq!(drag.scroll, Some(25 * U));
    let far = handle_touch(info, TouchPhase::Moved, 0, p(10, 0), rect, 5 * U, Some(40 * U));
    assert_eq!(far.scroll, Some(40 * U));
    let lifted = handle_touch(drag.info, TouchPhase::Ended, 0, p(10, 30), rect, 25 * U, Some(40 * U));
    assert_eq!(lifted.click, None);
    // Other fingers and touches outside are not taken.
    assert!(!handle_touch(None, TouchPhase::Started, 1, p(10, 50), rect, 0, Some(0)).handled);
    assert!(!handle_touch(None, TouchPhase::Started, 0, p(200, 50), rect, 0, Some(0)).handled);
    assert!(!handle_touch(None, TouchPhase::Moved, 0, p(10, 50), rect, 0, Some(0)).handled);
}

fn picker_scene() -> (SceneGraph, u64) {
    let mut g = SceneGraph::new();
    let n = g.create("emoji_picker");
    for (name, typ) in [
        ("rect", PropertyType::Rect),
        ("z_index", PropertyType::Uint32),
        ("priority", PropertyType::Uint32),
        ("scroll", PropertyType::Num),
        ("emoji_size", PropertyType::Num),
        ("mouse_scroll_speed", PropertyType::Num),
    ] {
        g.add_property(n, Property::new(name, typ)).unwrap();
    }
    g.add_signal(n, "emoji_select").unwrap();
    let set = |g: &mut SceneGraph, name: &str, slot: usize, v: Value| {
        g.set_property(n, &name.to_string(), Role::Internal, slot, v).unwrap();
    };
    set(&mut g, "rect", 2, Value::Num(100 * U));
    set(&mut g, "rect", 3, Value::Num(40 * U));
    set(&mut g, "z_index", 0, Value::Uint32(2));
    set(&mut g, "priority", 0, Value::Uint32(7));
    set(&mut g, "emoji_size", 0, Value::Num(10 * U));
    set(&mut g, "mouse_scroll_speed", 0, Value::Num(2 * U));
    (g, n)
}

fn scroll_of(g: &SceneGraph, n: u64) -> i64 {
    match g.get_value(n, &"scroll".to_string(), 0) {
        Some(Value::Num(v)) => *v,
        _ => panic!("no scroll"),
    }
}

fn meshes(n: u64) -> Vec<DrawMesh> {
    (0..n).map(|t| DrawMesh { verts: vec![], indices: vec![], texture: Some(t) }).collect()
}

fn payloads(n: u8) -> Vec<Vec<u8>> {
    (0..n).map(|k| vec![1, k]).collect()
}

#[test]
fn picker_draws_its_grid() {
    let (mut g, n) = picker_scene();
    let mut p = EmojiPicker::with_key(&g, n, 5).unwrap();
    let (u, stored) = p.draw(&mut g, &Rectangle::new(0, 0, 100 * U, 40 * U), meshes(95)).unwrap();
    assert_eq!(stored, Ok(()));
    assert_eq!(u.key, 5);
    let dc = &u.draw_calls[0].1;
    assert_eq!(dc.z_index, 2);
    assert!(matches!(dc.instrs[0], DrawInstruction::ApplyView(r) if r == Rectangle::new(0, 0, 100 * U, 40 * U)));
    // 10 per line, rows every 10: lines at 5, 15, 25, 35, 45, and the sixth
    // line break passes the bottom (40 + 10).
    assert_eq!(dc.instrs.len(), 1 + 2 * 50);
    assert_eq!(p.max_scroll(&g, 95), Some(Some(50 * U)));
}

#[test]
fn picker_holds_back_scroll_when_drawing() {
    let (mut g, n) = picker_scene();
    g.set_property(n, &"scroll".to_string(), Role::Internal, 0, Value::Num(70 * U)).unwrap();
    let mut p = EmojiPicker::with_key(&g, n, 5).unwrap();
    let (_, stored) = p.draw(&mut g, &Rectangle::new(0, 0, 1, 1), meshes(95)).unwrap();
    assert_eq!(stored, Ok(()));
    assert_eq!(scroll_of(&g, n), 50 * U);
    // A scroll the application set is kept, and the refusal reported.
    g.set_property(n, &"scroll".to_string(), Role::App, 0, Value::Num(70 * U)).unwrap();
    let (u, stored) = p.get_draw_calls(&mut g, &Rectangle::new(0, 0, 1, 1), meshes(95)).unwrap();
    assert_eq!(stored, Err(SceneError::Property(PropertyError::RoleConflict)));
    assert_eq!(scroll_of(&g, n), 70 * U);
    assert_eq!(u.key, 5);
}

#[test]
fn picker_draw_fails_without_rect() {
    let (mut g, n) = picker_scene();
    let mut p = EmojiPicker::with_key(&g, n, 5).unwrap();
    let bare = g.create("bare");
    assert_eq!(EmojiPicker::with_key(&g, bare, 5).unwrap_err(), VisualError::NotFound);
    assert_eq!(EmojiPicker::new(&g, 99).unwrap_err(), VisualError::NotFound);
    // A rectangle bound to a missing variable fails to evaluate.
    g.set_property_expr(n, &"rect".to_string(), Role::App, 2, load_var("missing")).unwrap();
    assert!(p.draw(&mut g, &Rectangle::new(0, 0, 1, 1), meshes(1)).is_none());
    assert_eq!(p.redraw(&mut g, &mut DrawRegistry::new(), 1, meshes(1)), (false, Ok(())));
}

#[test]
fn picker_wheel_scrolls_while_hovered() {
    let (mut g, n) = picker_scene();
    let mut p = EmojiPicker::with_key(&g, n, 5).unwrap();
    assert_eq!(p.handle_mouse_wheel(&mut g, -U, 95), Ok(false));
    assert!(!p.handle_mouse_move(&g, Point { x: 50 * U, y: 20 * U }));
    assert!(p.is_mouse_hover);
    assert_eq!(p.handle_mouse_wheel(&mut g, -U, 95), Ok(true));
    assert_eq!(scroll_of(&g, n), 2 * U);
    assert_eq!(p.handle_mouse_wheel(&mut g, -100 * U, 95), Ok(true));
    assert_eq!(scroll_of(&g, n), 50 * U);
}

#[test]
fn picker_wheel_keeps_an_application_scroll() {
    let (mut g, n) = picker_scene();
    g.set_property(n, &"scroll".to_string(), Role::App, 0, Value::Num(3 * U)).unwrap();
    let mut p = EmojiPicker::with_key(&g, n, 5).unwrap();
    p.handle_mouse_move(&g, Point { x: 50 * U, y: 20 * U });
    assert_eq!(
        p.handle_mouse_wheel(&mut g, -U, 95),
        Err(SceneError::Property(PropertyError::RoleConflict))
    );
    assert_eq!(scroll_of(&g, n), 3 * U);
}

#[test]
fn picker_click_selects_and_publishes_emoji() {
    let (mut g, n) = picker_scene();
    g.set_property(n, &"rect".to_string(), Role::Internal, 0, Value::Num(100 * U)).unwrap();
    let l1 = g.register(n, &"emoji_select".to_string()).unwrap();
    let l2 = g.register(n, &"emoji_select".to_string()).unwrap();
    let p = EmojiPicker::with_key(&g, n, 5).unwrap();
    let list = payloads(95);
    assert_eq!(p.handle_mouse_btn_up(&mut g, Point { x: 125 * U, y: 15 * U }, &list), (true, Ok(Some(12))));
    assert_eq!(p.handle_mouse_btn_up(&mut g, Point { x: 135 * U, y: 5 * U }, &list), (true, Ok(Some(3))));
    assert_eq!(p.handle_mouse_btn_up(&mut g, Point { x: 50 * U, y: 15 * U }, &list), (false, Ok(None)));
    // Inside, but below the last emoji: taken, nothing selected.
    assert_eq!(p.handle_mouse_btn_up(&mut g, Point { x: 195 * U, y: 39 * U }, &payloads(30)), (true, Ok(None)));
    for l in [l1, l2] {
        assert_eq!(g.recv(n, &"emoji_select".to_string(), l), Some(vec![1, 12]));
        assert_eq!(g.recv(n, &"emoji_select".to_string(), l), Some(vec![1, 3]));
        assert_eq!(g.recv(n, &"emoji_select".to_string(), l), None);
    }
}

#[test]
fn picker_touch_tap_and_drag() {
    let (mut g, n) = picker_scene();
    let l = g.register(n, &"emoji_select".to_string()).unwrap();
    let list = payloads(95);
    let mut p = EmojiPicker::with_key(&g, n, 5).unwrap();
    let at = |x: i64, y: i64| Point { x: x * U, y: y * U };
    assert_eq!(p.handle_touch(&mut g, TouchPhase::Started, 0, at(35, 25), &list), (true, None, Ok(())));
    assert_eq!(p.handle_touch(&mut g, TouchPhase::Started, 1, at(35, 25), &list), (false, None, Ok(())));
    assert!(p.touch_info.is_some());
    assert_eq!(p.handle_touch(&mut g, TouchPhase::Ended, 0, at(35, 25), &list), (true, Some(23), Ok(())));
    assert_eq!(g.recv(n, &"emoji_select".to_string(), l), Some(vec![1, 23]));
    assert_eq!(p.handle_touch(&mut g, TouchPhase::Started, 0, at(35, 25), &list), (true, None, Ok(())));
    assert_eq!(p.handle_touch(&mut g, TouchPhase::Moved, 0, at(35, 15), &list), (true, None, Ok(())));
    assert_eq!(scroll_of(&g, n), 10 * U);
    assert_eq!(p.handle_touch(&mut g, TouchPhase::Ended, 0, at(35, 15), &list), (true, None, Ok(())));
    assert_eq!(p.handle_touch(&mut g, TouchPhase::Moved, 0, at(35, 15), &list), (false, None, Ok(())));
    assert_eq!(g.recv(n, &"emoji_select".to_string(), l), None);
    assert_eq!(p.handle_touch(&mut g, TouchPhase::Started, 0, at(135, 15), &list), (false, None, Ok(())));
    assert!(p.touch_info.is_none());
}

#[test]
fn visuals_dispatch_and_clear_their_entries() {
    let (mut g, n) = picker_scene();
    let mut registry = DrawRegistry::new();
    let mut p = EmojiPicker::with_key(&g, n, 5).unwrap();
    p.draw(&mut g, &Rectangle::new(0, 0, 100 * U, 40 * U), meshes(3));
    assert_eq!(p.redraw(&mut g, &mut registry, 1, meshes(3)), (true, Ok(())));
    assert_eq!(registry.entries[0].1.instrs.len(), 7);
    let v = Visual::EmojiPicker(p);
    assert_eq!(v.priority(&g), Some(7));
    assert_eq!(v.dc_key(), 5);
    assert_eq!(v.node(), n);
    v.destroy(&mut registry, 2);
    assert!(registry.entries[0].1.instrs.is_empty());
}

fn narrow(width: i64) -> (SceneGraph, u64) {
    let (mut g, n) = picker_scene();
    g.set_property(n, &"rect".to_string(), Role::Internal, 2, Value::Num(width * U)).unwrap();
    (g, n)
}

#[test]
fn narrow_picker_still_takes_touches_and_wheel() {
    // 5 wide with emojis 10 wide: no emoji fits on a line, the rows never end.
    let (mut g, n) = narrow(5);
    let list = payloads(95);
    let mut p = EmojiPicker::with_key(&g, n, 5).unwrap();
    assert_eq!(p.max_scroll(&g, 95), Some(None));
    let at = |x: i64, y: i64| Point { x: x * U, y: y * U };
    assert_eq!(p.handle_touch(&mut g, TouchPhase::Started, 0, at(2, 30), &list), (true, None, Ok(())));
    assert_eq!(p.handle_touch(&mut g, TouchPhase::Moved, 0, at(2, 10), &list), (true, None, Ok(())));
    assert_eq!(scroll_of(&g, n), 20 * U);
    assert_eq!(p.handle_touch(&mut g, TouchPhase::Ended, 0, at(2, 10), &list), (true, None, Ok(())));
    assert!(p.touch_info.is_none());
    // A tap reads as the first emoji.
    assert_eq!(p.handle_touch(&mut g, TouchPhase::Started, 0, at(2, 30), &list), (true, None, Ok(())));
    assert_eq!(p.handle_touch(&mut g, TouchPhase::Ended, 0, at(2, 30), &list), (true, Some(0), Ok(())));
    p.handle_mouse_move(&g, at(2, 2));
    assert_eq!(p.handle_mouse_wheel(&mut g, -100 * U, 95), Ok(true));
    assert_eq!(scroll_of(&g, n), 220 * U);
}

#[test]
fn one_emoji_per_line_draws_one_column() {
    let (mut g, n) = narrow(15);
    let mut p = EmojiPicker::with_key(&g, n, 5).unwrap();
    let (u, _) = p.draw(&mut g, &Rectangle::new(0, 0, 15 * U, 40 * U), meshes(10)).unwrap();
    let instrs = &u.draw_calls[0].1.instrs;
    // Rows at 5, 15, 25, 35, 45; the next starts below 40 + 10.
    assert_eq!(instrs.len(), 1 + 2 * 5);
    assert!(matches!(instrs[3], DrawInstruction::Move(Point { x, y }) if x == 5 * U && y == 15 * U));
}

#[test]
fn hover_depends_on_rect_alone() {
    let (mut g, n) = picker_scene();
    g.set_property(n, &"emoji_size".to_string(), Role::App, 0, Value::Num(0)).unwrap();
    let mut p = EmojiPicker::with_key(&g, n, 5).unwrap();
    assert!(!p.handle_mouse_move(&g, Point { x: 50 * U, y: 20 * U }));
    assert!(p.is_mouse_hover);
    assert!(!p.handle_mouse_move(&g, Point { x: 150 * U, y: 20 * U }));
    assert!(!p.is_mouse_hover);
}

#[test]
fn visual_dispatches_events() {
    let (mut g, n) = picker_scene();
    let list = payloads(95);
    let mut v = Visual::EmojiPicker(EmojiPicker::with_key(&g, n, 5).unwrap());
    let mut subs = darkwallet::observer::Subscriptions::new();
    v.start(&mut subs);
    assert_eq!(subs.subs.len(), 2);
    assert!(v.draw(&mut g, &Rectangle::new(0, 0, 100 * U, 40 * U), meshes(3)).is_some());
    assert!(!v.handle_mouse_move(&g, Point { x: 50 * U, y: 20 * U }));
    assert_eq!(v.handle_mouse_wheel(&mut g, -U, 95), Ok(true));
    assert_eq!(v.handle_mouse_btn_up(&mut g, Point { x: 5 * U, y: 5 * U }, &list), (true, Ok(Some(0))));
    assert_eq!(v.handle_touch(&mut g, TouchPhase::Started, 0, Point { x: 5 * U, y: 5 * U }, &list), (true, None, Ok(())));
}
