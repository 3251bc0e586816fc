use fmc_noise::signature::{
    arg_exprs, decimal, fn_type_from_signature, normalize_signature, rename_lifetime, Argument,
    SignatureError,
};

fn named(name: &str, ty: &str) -> Argument {
    Argument::Named { name: name.to_string(), ty: ty.to_string() }
}

fn pattern(ty: &str) -> Argument {
    Argument::Pattern { ty: ty.to_string() }
}

#[test]
fn decimal_notation() {
    assert_eq!(decimal(0), "0");
    assert_eq!(decimal(7), "7");
    assert_eq!(decimal(10), "10");
    assert_eq!(decimal(42), "42");
    assert_eq!(decimal(1203), "1203");
    assert_eq!(decimal(usize::MAX), usize::MAX.to_string());
}

#[test]
fn lifetimes_are_renamed() {
    assert_eq!(rename_lifetime("a"), "__mv_inner_a");
    assert_eq!(rename_lifetime("static"), "__mv_inner_static");
}

#[test]
fn arguments_are_handed_on_by_name() {
    let arguments = vec![Argument::Receiver, named("x", "f32"), named("width", "usize")];
    assert_eq!(arg_exprs(&arguments), vec!["self", "x", "width"]);
    assert!(arg_exprs(&Vec::new()).is_empty());
}

#[test]
fn patterns_get_a_name_from_their_place() {
    let arguments = vec![named("node", "&Node"), pattern("(f32, f32)"), pattern("[u8; 4]")];
    let (normalized, callable) = normalize_signature(&arguments);
    assert_eq!(
        normalized,
        vec![
            named("node", "&Node"),
            named("__multiversion_arg_1", "(f32, f32)"),
            named("__multiversion_arg_2", "[u8; 4]"),
        ]
    );
    assert_eq!(callable, vec!["node", "__multiversion_arg_1", "__multiversion_arg_2"]);
}

#[test]
fn normalizing_keeps_the_receiver() {
    let arguments = vec![Argument::Receiver, pattern("u8")];
    let (normalized, callable) = normalize_signature(&arguments);
    assert_eq!(normalized, vec![Argument::Receiver, named("__multiversion_arg_1", "u8")]);
    assert_eq!(callable, vec!["self", "__multiversion_arg_1"]);
}

#[test]
fn pointer_type_takes_the_types() {
    let arguments = vec![named("node", "&Node"), pattern("(f32, f32)")];
    assert_eq!(
        fn_type_from_signature(&arguments),
        Ok(vec!["&Node".to_string(), "(f32, f32)".to_string()])
    );
    assert_eq!(fn_type_from_signature(&Vec::new()), Ok(Vec::new()));
}

#[test]
fn associated_functions_have_no_pointer_type() {
    let arguments = vec![named("x", "f32"), Argument::Receiver];
    assert_eq!(fn_type_from_signature(&arguments), Err(SignatureError::AssociatedFn));
}
