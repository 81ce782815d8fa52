use darkwallet::draw::DrawRegistry;
use darkwallet::expr::{const_value, load_var};
use darkwallet::gfx::{Color, DrawCall, DrawInstruction, Point, Rectangle};
use darkwallet::mesh::MeshBuilder;
use darkwallet::observer::{listener_step, ListenerAction, ListenerEvent, ListenerState, Subscriptions};
use darkwallet::prop::{Property, PropertyType, Role, Value};
use darkwallet::scene::{ChangeEvent, SceneGraph};
use darkwallet::shape::VectorShape;
use darkwallet::visual::{VectorArt, VisualError};

const WHITE: Color = Color { r: 1_000_000, g: 1_000_000, b: 1_000_000, a: 1_000_000 };

fn call(z: u32, n: usize) -> DrawCall {
    let mut instrs = Vec::new();
    for _ in 0..n {
        instrs.push(DrawInstruction::Move(Point { x: 0, y: 0 }));
    }
    DrawCall { instrs, z_index: z }
}

#[test]
fn frame_orders_by_z_then_insertion() {
    let mut r = DrawRegistry::new();
    r.replace_draw_calls(1, vec![(10, call(2, 1)), (20, call(1, 1)), (30, call(2, 1)), (40, call(0, 1))]);
    let order: Vec<u64> = r.assemble_frame().iter().map(|&i| r.entries[i].0).collect();
    assert_eq!(order, vec![40, 20, 10, 30]);
    assert_eq!(r.timestamp, 1);
}

#[test]
fn replacing_keeps_one_entry_per_key() {
    let mut r = DrawRegistry::new();
    r.replace_draw_calls(1, vec![(7, call(0, 1)), (8, call(0, 1))]);
    r.replace_draw_calls(2, vec![(7, call(5, 3))]);
    assert_eq!(r.entries.len(), 2);
    assert_eq!(r.entries[0].0, 7);
    assert_eq!(r.entries[0].1.instrs.len(), 3);
    assert_eq!(r.entries[0].1.z_index, 5);
    assert_eq!(r.find(8), Some(1));
    assert_eq!(r.find(9), None);
}

#[test]
fn append_shifts_indices() {
    let mut m = MeshBuilder::new();
    let v = darkwallet::gfx::Vertex { pos: Point { x: 0, y: 0 }, color: WHITE, uv: Point { x: 0, y: 0 } };
    m.append(vec![v, v], vec![0, 1]);
    m.append(vec![v, v, v], vec![0, 2, 1]);
    assert_eq!(m.verts.len(), 5);
    assert_eq!(m.indices, vec![0, 1, 2, 4, 3]);
}

#[test]
fn draw_box_without_clip() {
    let mut m = MeshBuilder::new();
    m.draw_box(&Rectangle::new(10, 20, 30, 40), WHITE, &Rectangle::new(0, 0, 1_000_000, 1_000_000));
    let pos: Vec<(i64, i64)> = m.verts.iter().map(|v| (v.pos.x, v.pos.y)).collect();
    assert_eq!(pos, vec![(10, 20), (40, 20), (10, 60), (40, 60)]);
    assert_eq!(m.indices, vec![0, 2, 1, 1, 2, 3]);
}

#[test]
fn draw_box_clipped_interpolates_uv() {
    let mut m = MeshBuilder::with_clip(Rectangle::new(0, 0, 50, 100));
    m.draw_box(&Rectangle::new(0, 0, 100, 100), WHITE, &Rectangle::new(0, 0, 1_000_000, 1_000_000));
    let top_right = m.verts[1];
    assert_eq!((top_right.pos.x, top_right.pos.y), (50, 0));
    assert_eq!((top_right.uv.x, top_right.uv.y), (500_000, 0));
    let mut m = MeshBuilder::with_clip(Rectangle::new(200, 200, 10, 10));
    m.draw_box(&Rectangle::new(0, 0, 100, 100), WHITE, &Rectangle::new(0, 0, 1, 1));
    assert!(m.verts.is_empty());
    assert!(m.indices.is_empty());
}

#[test]
fn draw_outline_adds_four_boxes() {
    let mut m = MeshBuilder::new();
    m.draw_outline(&Rectangle::new(0, 0, 100, 50), WHITE, 2);
    assert_eq!(m.verts.len(), 16);
    assert_eq!(m.indices.len(), 24);
    // right side starts at x2 - thickness
    assert_eq!(m.verts[8].pos.x, 98);
    // bottom side starts at y2 - thickness
    assert_eq!(m.verts[12].pos.y, 48);
}

fn scene_with_art() -> (SceneGraph, u64) {
    let mut g = SceneGraph::new();
    let n = g.create("bg");
    g.add_property(n, Property::new("is_visible", PropertyType::Bool)).unwrap();
    g.add_property(n, Property::new("rect", PropertyType::Rect)).unwrap();
    g.add_property(n, Property::new("z_index", PropertyType::Uint32)).unwrap();
    g.add_property(n, Property::new("priority", PropertyType::Uint32)).unwrap();
    g.set_property(n, &"is_visible".to_string(), Role::App, 0, Value::Bool(true)).unwrap();
    g.set_property(n, &"rect".to_string(), Role::App, 0, Value::Num(5)).unwrap();
    g.set_property_expr(n, &"rect".to_string(), Role::App, 2, load_var("w")).unwrap();
    g.set_property_expr(n, &"rect".to_string(), Role::App, 3, load_var("h")).unwrap();
    g.set_property(n, &"z_index".to_string(), Role::App, 0, Value::Uint32(1)).unwrap();
    (g, n)
}

fn filled_shape() -> VectorShape {
    let mut shape = VectorShape::new();
    shape.add_filled_box(const_value(0), const_value(0), load_var("w"), load_var("h"), WHITE);
    shape
}

#[test]
fn vector_art_draws_its_shape_at_its_rect() {
    let (mut g, n) = scene_with_art();
    let mut art = VectorArt::with_key(&g, n, filled_shape(), 77).unwrap();
    let update = art.draw(&mut g, &Rectangle::new(0, 0, 300, 400)).unwrap();
    assert_eq!(update.key, 77);
    assert_eq!(update.draw_calls.len(), 1);
    let (key, dc) = &update.draw_calls[0];
    assert_eq!(*key, 77);
    assert_eq!(dc.z_index, 1);
    assert!(matches!(dc.instrs[0], DrawInstruction::Move(Point { x: 5, y: 0 })));
    match &dc.instrs[1] {
        DrawInstruction::Draw(mesh) => {
            let pos: Vec<(i64, i64)> = mesh.verts.iter().map(|v| (v.pos.x, v.pos.y)).collect();
            assert_eq!(pos, vec![(0, 0), (300, 0), (0, 400), (300, 400)]);
            assert_eq!(mesh.indices, vec![0, 2, 1, 1, 2, 3]);
        },
        _ => panic!("expected a mesh"),
    }
}

#[test]
fn hidden_vector_art_draws_nothing() {
    let (mut g, n) = scene_with_art();
    g.set_property(n, &"is_visible".to_string(), Role::App, 0, Value::Bool(false)).unwrap();
    let art = VectorArt::with_key(&g, n, filled_shape(), 1).unwrap();
    let update = art.get_draw_calls(&mut g, &Rectangle::new(0, 0, 1, 1)).unwrap();
    assert!(update.draw_calls[0].1.instrs.is_empty());
}

#[test]
fn destroying_vector_art_clears_its_entry() {
    let (mut g, n) = scene_with_art();
    let mut registry = DrawRegistry::new();
    registry.replace_draw_calls(0, vec![(5, call(0, 2))]);
    let mut art = VectorArt::with_key(&g, n, filled_shape(), 9).unwrap();
    art.draw(&mut g, &Rectangle::new(0, 0, 10, 10));
    assert!(art.redraw(&mut g, &mut registry, 1));
    assert_eq!(registry.entries[1].1.instrs.len(), 2);
    art.destroy(&mut registry, 2);
    assert_eq!(registry.entries.len(), 2);
    assert_eq!(registry.entries[1].0, 9);
    assert!(registry.entries[1].1.instrs.is_empty());
    assert_eq!(registry.entries[0].1.instrs.len(), 2);
    assert_eq!(registry.timestamp, 2);
}

#[test]
fn redraw_before_first_draw_does_nothing() {
    let (mut g, n) = scene_with_art();
    let mut registry = DrawRegistry::new();
    let art = VectorArt::with_key(&g, n, filled_shape(), 9).unwrap();
    assert!(!art.redraw(&mut g, &mut registry, 1));
    assert!(registry.entries.is_empty());
}

#[test]
fn random_keys_are_drawn_per_object() {
    let (g, n) = scene_with_art();
    let a = VectorArt::new(&g, n, VectorShape::new()).unwrap();
    let b = VectorArt::new(&g, n, VectorShape::new()).unwrap();
    let c = VectorArt::new(&g, n, VectorShape::new()).unwrap();
    assert!(a.dc_key != b.dc_key || b.dc_key != c.dc_key);
}

#[test]
fn subscriptions_dispatch_and_end_with_their_object() {
    let mut subs = Subscriptions::new();
    subs.subscribe(1, 10, "rect");
    subs.subscribe(2, 10, "rect");
    subs.subscribe(1, 10, "z_index");
    subs.subscribe(3, 11, "rect");
    let ev = ChangeEvent { node: 10, prop: "rect".to_string() };
    assert_eq!(subs.dispatch(&ev), vec![1, 2]);
    subs.unsubscribe_object(1);
    assert_eq!(subs.dispatch(&ev), vec![2]);
    assert_eq!(subs.subs.len(), 2);
}

#[test]
fn listener_steps() {
    assert_eq!(
        listener_step(ListenerState::Idle, ListenerEvent::Changed, true, true),
        (ListenerState::Scheduled, ListenerAction::Redraw)
    );
    assert_eq!(
        listener_step(ListenerState::Idle, ListenerEvent::Changed, false, true),
        (ListenerState::Idle, ListenerAction::Exit)
    );
    assert_eq!(
        listener_step(ListenerState::Scheduled, ListenerEvent::RedrawDone, true, true),
        (ListenerState::Idle, ListenerAction::Wait)
    );
}

#[test]
fn start_subscribes_to_drawn_properties() {
    let (mut g, n) = scene_with_art();
    let art = VectorArt::with_key(&g, n, filled_shape(), 31).unwrap();
    let mut subs = Subscriptions::new();
    art.start(&mut subs);
    g.take_changes();
    g.set_property(n, &"z_index".to_string(), Role::App, 0, Value::Uint32(4)).unwrap();
    let changes = g.take_changes();
    assert_eq!(changes.len(), 1);
    assert_eq!(subs.dispatch(&changes[0]), vec![31]);
    let other = ChangeEvent { node: n, prop: "priority".to_string() };
    assert!(subs.dispatch(&other).is_empty());
}

#[test]
fn vector_art_rect_sees_only_parent_size() {
    let (mut g, n) = scene_with_art();
    g.set_property(n, &"rect".to_string(), Role::App, 0, Value::Num(0)).unwrap();
    let mut art = VectorArt::with_key(&g, n, filled_shape(), 3).unwrap();
    let u = art.draw(&mut g, &Rectangle::new(10, 20, 300, 400)).unwrap();
    let rect: Vec<i64> = (0..4)
        .map(|k| match g.get_value(n, &"rect".to_string(), k) {
            Some(Value::Num(v)) => *v,
            _ => panic!("no rect"),
        })
        .collect();
    assert_eq!(rect, vec![0, 0, 300, 400]);
    assert!(matches!(u.draw_calls[0].1.instrs[0], DrawInstruction::Move(Point { x: 0, y: 0 })));
}

#[test]
fn vector_art_needs_its_properties() {
    let mut g = SceneGraph::new();
    let n = g.create("bare");
    assert_eq!(VectorArt::new(&g, n, VectorShape::new()).unwrap_err(), VisualError::NotFound);
    assert_eq!(VectorArt::with_key(&g, 99, VectorShape::new(), 1).unwrap_err(), VisualError::NotFound);
    g.add_property(n, Property::new("is_visible", PropertyType::Bool)).unwrap();
    g.add_property(n, Property::new("rect", PropertyType::Rect)).unwrap();
    g.add_property(n, Property::new("z_index", PropertyType::Uint32)).unwrap();
    assert_eq!(VectorArt::with_key(&g, n, VectorShape::new(), 1).unwrap_err(), VisualError::NotFound);
    g.add_property(n, Property::new("priority", PropertyType::Uint32)).unwrap();
    assert!(VectorArt::with_key(&g, n, VectorShape::new(), 1).is_ok());
}
