use darkwallet::expr::load_var;
use darkwallet::gfx::Rectangle;
use darkwallet::parser::Compiler;
use darkwallet::prop::{Property, PropertyError, PropertyType, Role, Value, may_overwrite};
use darkwallet::expr::EvalError;

fn num(p: &Property, i: usize) -> i64 {
    p.get_num(i)
}

#[test]
fn literal_write_reads_back() {
    let mut p = Property::new("scroll", PropertyType::Num);
    assert_eq!(p.set_num(Role::App, 0, 1_250_000), Ok(()));
    assert_eq!(num(&p, 0), 1_250_000);
    assert_eq!(p.role, Role::App);
}

#[test]
fn bound_slot_holds_evaluation_after_eval() {
    let mut p = Property::new("uv", PropertyType::Rect);
    let code = Compiler::new().compile("w / 2").unwrap();
    assert_eq!(p.set_expr(Role::App, 2, code), Ok(()));
    // The value is only computed by eval.
    assert_eq!(num(&p, 2), 0);
    assert_eq!(p.eval(&Rectangle::new(0, 0, 300_000_000, 1)), Ok(()));
    assert_eq!(num(&p, 2), 150_000_000);
}

#[test]
fn rect_bound_to_parent_size_ignores_parent_offset() {
    let mut p = Property::new("rect", PropertyType::Rect);
    p.set_num(Role::App, 0, 0).unwrap();
    p.set_num(Role::App, 1, 0).unwrap();
    p.set_expr(Role::App, 2, load_var("w")).unwrap();
    p.set_expr(Role::App, 3, load_var("h")).unwrap();
    let parent = Rectangle::new(10_000_000, 20_000_000, 300_000_000, 400_000_000);
    assert_eq!(p.eval(&parent), Ok(()));
    assert_eq!((num(&p, 0), num(&p, 1), num(&p, 2), num(&p, 3)), (0, 0, 300_000_000, 400_000_000));
}

#[test]
fn lower_role_write_after_higher_role_conflicts() {
    let mut p = Property::new("z_index", PropertyType::Uint32);
    assert_eq!(p.set(Role::App, 0, Value::Uint32(3)), Ok(()));
    assert_eq!(p.set(Role::Internal, 0, Value::Uint32(9)), Err(PropertyError::RoleConflict));
    assert_eq!(p.get_u32(0), 3);
    assert_eq!(p.role, Role::App);
}

#[test]
fn internal_then_app_writes_succeed() {
    let mut p = Property::new("is_visible", PropertyType::Bool);
    assert_eq!(p.set(Role::Internal, 0, Value::Bool(true)), Ok(()));
    assert_eq!(p.set(Role::App, 0, Value::Bool(false)), Ok(()));
    assert!(!p.get_bool(0));
    assert!(may_overwrite(Role::App, Role::Internal));
    assert!(!may_overwrite(Role::Internal, Role::App));
}

#[test]
fn wrong_type_is_refused() {
    let mut p = Property::new("text", PropertyType::Str);
    assert_eq!(p.set(Role::App, 0, Value::Num(1)), Err(PropertyError::WrongType));
    assert_eq!(p.set_expr(Role::App, 0, load_var("w")), Err(PropertyError::WrongType));
    assert_eq!(p.set(Role::App, 0, Value::Str("hi".to_string())), Ok(()));
    assert_eq!(p.get_str(0), "hi");
}

#[test]
fn failed_eval_changes_nothing() {
    let mut p = Property::new("rect", PropertyType::Rect);
    p.set_num(Role::App, 0, 5).unwrap();
    p.set_expr(Role::App, 0, load_var("w")).unwrap();
    p.set_expr(Role::App, 1, load_var("missing")).unwrap();
    assert_eq!(p.eval(&Rectangle::new(0, 0, 7, 7)), Err(EvalError::UndefinedVar));
    assert_eq!(num(&p, 0), 5);
}

#[test]
fn new_property_has_typed_defaults() {
    let p = Property::new("color", PropertyType::Color);
    assert_eq!(p.len(), 4);
    assert!(matches!(p.vals[3], Value::Num(0)));
    assert_eq!(p.role, Role::Internal);
}
