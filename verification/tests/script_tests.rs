use peregrine::material_error::MaterialError;
use peregrine::script::{load_material, script_limits};

#[test]
fn script_with_metadata_functions_loads() {
    let source = r#"// Name: 时间显示
        fn defaults() { #{} }
        fn schema() { [] }
        fn is_dynamic() { true }
        fn refresh_interval_ms() { 500 }
        fn build(params, screen) { [] }
    "#;
    let (_, meta) = load_material("builtin.time".to_string(), source).unwrap();
    assert_eq!(meta.id, "builtin.time");
    assert_eq!(meta.display_name, "时间显示");
    assert!(meta.is_dynamic);
    assert_eq!(meta.refresh_interval_ms, 500);
}

#[test]
fn missing_optional_functions_mean_static_and_unthrottled() {
    let source = "fn defaults() { #{} } fn schema() { [] } fn build(p, s) { [] }";
    let (_, meta) = load_material("builtin.cross".to_string(), source).unwrap();
    assert_eq!(meta.display_name, "cross");
    assert!(!meta.is_dynamic);
    assert_eq!(meta.refresh_interval_ms, 0);
    let negative = "fn refresh_interval_ms() { -5 } fn is_dynamic() { 1 }";
    let (_, meta) = load_material("user.x".to_string(), negative).unwrap();
    assert!(!meta.is_dynamic);
    assert_eq!(meta.refresh_interval_ms, 0);
}

#[test]
fn unparsable_script_is_a_parse_error() {
    match load_material("user.bad".to_string(), "fn build( {") {
        Err(MaterialError::Parse { id, message }) => {
            assert_eq!(id, "user.bad");
            assert!(!message.is_empty());
        }
        Err(other) => panic!("expected a parse error, got {:?}", other),
        Ok(_) => panic!("expected a parse error"),
    }
}

#[test]
fn script_limits_are_the_runtime_limits() {
    let l = script_limits();
    assert_eq!((l.max_operations, l.max_call_levels, l.max_expr_depth, l.max_function_expr_depth), (1_000_000, 64, 128, 128));
}
