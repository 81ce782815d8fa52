use darkwallet::expr::load_var;
use darkwallet::gfx::Rectangle;
use darkwallet::prop::{Property, PropertyError, PropertyType, Role, Value};
use darkwallet::scene::{SceneError, SceneGraph};

fn s(x: &str) -> String {
    x.to_string()
}

#[test]
fn lookup_by_path() {
    let mut g = SceneGraph::new();
    let root = g.create("");
    let window = g.create("window");
    let layer = g.create("dev_chat_layer");
    assert_eq!(g.link(root, window), Ok(()));
    assert_eq!(g.link(window, layer), Ok(()));
    assert_eq!(g.lookup_node(root, "/window/dev_chat_layer"), Ok(layer));
    assert_eq!(g.lookup_node(root, "window//dev_chat_layer/"), Ok(layer));
    assert_eq!(g.lookup_node(root, "/"), Ok(root));
    assert_eq!(g.lookup_node(root, "/window/menu_layer"), Err(SceneError::NotFound));
}

#[test]
fn link_errors() {
    let mut g = SceneGraph::new();
    let a = g.create("a");
    let b = g.create("b");
    let c = g.create("c");
    assert_eq!(g.link(a, b), Ok(()));
    assert_eq!(g.link(c, b), Err(SceneError::AlreadyLinked));
    assert_eq!(g.link(b, a), Err(SceneError::Cycle));
    assert_eq!(g.link(a, a), Err(SceneError::Cycle));
    assert_eq!(g.link(a, 99), Err(SceneError::NotFound));
    assert_eq!(g.link(b, c), Ok(()));
    assert_eq!(g.link(c, a), Err(SceneError::Cycle));
}

#[test]
fn created_ids_are_fresh() {
    let mut g = SceneGraph::new();
    let a = g.create("a");
    let b = g.create("a");
    assert_ne!(a, b);
}

#[test]
fn writes_publish_change_events() {
    let mut g = SceneGraph::new();
    let n = g.create("bg");
    g.add_property(n, Property::new("rect", PropertyType::Rect)).unwrap();
    g.add_property(n, Property::new("z_index", PropertyType::Uint32)).unwrap();
    assert_eq!(g.set_property(n, &s("z_index"), Role::App, 0, Value::Uint32(1)), Ok(()));
    assert_eq!(g.set_property(n, &s("z_index"), Role::App, 0, Value::Uint32(1)), Ok(()));
    assert_eq!(g.set_property_expr(n, &s("rect"), Role::App, 2, load_var("w")), Ok(()));
    let changes = g.take_changes();
    let names: Vec<&str> = changes.iter().map(|c| c.prop.as_str()).collect();
    assert_eq!(names, vec!["z_index", "z_index", "rect"]);
    assert!(changes.iter().all(|c| c.node == n));
    assert!(g.take_changes().is_empty());
}

#[test]
fn refused_writes_publish_nothing() {
    let mut g = SceneGraph::new();
    let n = g.create("bg");
    g.add_property(n, Property::new("z_index", PropertyType::Uint32)).unwrap();
    g.set_property(n, &s("z_index"), Role::App, 0, Value::Uint32(4)).unwrap();
    g.take_changes();
    assert_eq!(
        g.set_property(n, &s("z_index"), Role::Internal, 0, Value::Uint32(5)),
        Err(SceneError::Property(PropertyError::RoleConflict))
    );
    assert_eq!(g.set_property(n, &s("z_index"), Role::App, 1, Value::Uint32(5)), Err(SceneError::BadSlot));
    assert_eq!(g.set_property(n, &s("nope"), Role::App, 0, Value::Uint32(5)), Err(SceneError::NotFound));
    assert!(g.take_changes().is_empty());
    assert!(matches!(g.get_value(n, &s("z_index"), 0), Some(Value::Uint32(4))));
}

#[test]
fn eval_property_on_node() {
    let mut g = SceneGraph::new();
    let n = g.create("bg");
    g.add_property(n, Property::new("rect", PropertyType::Rect)).unwrap();
    g.set_property_expr(n, &s("rect"), Role::App, 3, load_var("h")).unwrap();
    assert_eq!(g.eval_property(n, &s("rect"), &Rectangle::new(0, 0, 10, 20)), Ok(()));
    assert!(matches!(g.get_value(n, &s("rect"), 3), Some(Value::Num(20))));
}

#[test]
fn trigger_delivers_to_every_listener_once_in_order() {
    let mut g = SceneGraph::new();
    let n = g.create("button");
    g.add_signal(n, "click").unwrap();
    let l1 = g.register(n, &s("click")).unwrap();
    let l2 = g.register(n, &s("click")).unwrap();
    let l3 = g.register(n, &s("click")).unwrap();
    assert_eq!(g.trigger(n, &s("click"), &vec![1]), Ok(()));
    assert_eq!(g.trigger(n, &s("click"), &vec![2, 2]), Ok(()));
    for l in [l1, l2, l3] {
        assert_eq!(g.recv(n, &s("click"), l), Some(vec![1]));
        assert_eq!(g.recv(n, &s("click"), l), Some(vec![2, 2]));
        assert_eq!(g.recv(n, &s("click"), l), None);
    }
}

#[test]
fn trigger_of_unknown_signal_is_not_found() {
    let mut g = SceneGraph::new();
    let n = g.create("button");
    assert_eq!(g.trigger(n, &s("click"), &vec![]), Err(SceneError::NotFound));
    assert_eq!(g.register(n, &s("click")), Err(SceneError::NotFound));
}

#[test]
fn destroy_cascades_to_descendants() {
    let mut g = SceneGraph::new();
    let root = g.create("");
    let a = g.create("a");
    let b = g.create("b");
    let c = g.create("c");
    let other = g.create("other");
    g.link(root, a).unwrap();
    g.link(a, b).unwrap();
    g.link(b, c).unwrap();
    g.add_signal(c, "click").unwrap();
    assert_eq!(g.destroy(a), Err(SceneError::AlreadyLinked));
    assert_eq!(g.unlink(a), Ok(()));
    assert_eq!(g.lookup_node(root, "a"), Err(SceneError::NotFound));
    assert_eq!(g.destroy(a), Ok(()));
    let ids: Vec<u64> = g.nodes.iter().map(|n| n.id).collect();
    assert_eq!(ids, vec![root, other]);
    assert_eq!(g.trigger(c, &s("click"), &vec![1]), Err(SceneError::NotFound));
    assert_eq!(g.destroy(a), Err(SceneError::NotFound));
}

#[test]
fn unlink_needs_a_parent() {
    let mut g = SceneGraph::new();
    let a = g.create("a");
    assert_eq!(g.unlink(a), Err(SceneError::NotFound));
    assert_eq!(g.unlink(42), Err(SceneError::NotFound));
}
