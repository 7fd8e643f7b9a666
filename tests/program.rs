use librasac_parser::{Expression, FunctionDefinition, Parameter, Program, Statement};

fn func(name: &str, params: &[&str]) -> FunctionDefinition {
    let parameters = params
        .iter()
        .map(|p| Parameter::new(p.to_string(), "Field".to_string()))
        .collect();
    FunctionDefinition::new(name.to_string(), parameters, Vec::new())
}

#[test]
fn new_program_is_empty() {
    let p = Program::new();
    assert!(p.statements.is_empty());
    assert!(p.functions.is_empty());
    assert!(p.directives.is_empty());
    assert!(p.custom_directives.is_empty());
    assert!(p.main.is_none());
    let q = Program::with_capacity(8);
    assert!(q.functions.is_empty());
    assert!(q.main.is_none());
}

#[test]
fn statements_keep_order() {
    let mut p = Program::new();
    p.push_statement(Statement::Constrain(Expression::Ident("a".to_string())));
    p.push_statement(Statement::Let(
        "b".to_string(),
        Expression::Literal("1".to_string()),
    ));
    assert_eq!(p.statements.len(), 2);
    assert_eq!(
        p.statements[0],
        Statement::Constrain(Expression::Ident("a".to_string()))
    );
    assert_eq!(
        p.statements[1],
        Statement::Let("b".to_string(), Expression::Literal("1".to_string()))
    );
    assert!(p.functions.is_empty());
}

#[test]
fn second_main_replaces_first() {
    let mut p = Program::new();
    p.push_constraint_function(func("main", &["a"]));
    p.push_constraint_function(func("main", &["b", "c"]));
    assert_eq!(p.main, Some(func("main", &["b", "c"])));
    assert!(p.functions.is_empty());
}

#[test]
fn other_functions_are_appended() {
    let mut p = Program::new();
    p.push_constraint_function(func("helper", &[]));
    p.push_constraint_function(func("mainly", &[]));
    p.push_constraint_function(func("helper", &["x"]));
    assert_eq!(
        p.functions,
        vec![func("helper", &[]), func("mainly", &[]), func("helper", &["x"])]
    );
    assert!(p.main.is_none());
}

#[test]
fn abi_absent_without_main() {
    let mut p = Program::new();
    assert_eq!(p.abi(), None);
    p.push_constraint_function(func("helper", &["x"]));
    assert_eq!(p.abi(), None);
}

#[test]
fn abi_lists_main_parameters_in_order() {
    let mut p = Program::new();
    p.push_constraint_function(func("main", &["x", "y"]));
    assert_eq!(p.abi(), Some(vec!["x".to_string(), "y".to_string()]));
}

#[test]
fn abi_of_main_without_parameters_is_empty() {
    let mut p = Program::new();
    p.push_constraint_function(func("main", &[]));
    assert_eq!(p.abi(), Some(Vec::new()));
}

#[test]
fn unnamed_directive_goes_to_directives() {
    let mut p = Program::new();
    p.push_directive_function(None, func("d", &[]));
    assert_eq!(p.directives, vec![func("d", &[])]);
    assert!(p.custom_directives.is_empty());
    assert!(p.functions.is_empty());
    assert!(p.main.is_none());
}

#[test]
fn named_directive_goes_to_custom_directives() {
    let mut p = Program::new();
    p.push_directive_function(Some("foo".to_string()), func("f", &[]));
    assert_eq!(p.custom_directives, vec![("foo".to_string(), func("f", &[]))]);
    assert!(p.directives.is_empty());
}

#[test]
fn duplicate_custom_directive_names_are_kept() {
    let mut p = Program::new();
    p.push_directive_function(Some("foo".to_string()), func("f", &[]));
    p.push_directive_function(Some("foo".to_string()), func("g", &[]));
    assert_eq!(
        p.custom_directives,
        vec![
            ("foo".to_string(), func("f", &[])),
            ("foo".to_string(), func("g", &[]))
        ]
    );
}
