use runestick::index_scopes::{
    Closure, CompileError, Function, IndexClosure, IndexFunction, IndexScope, IndexScopeGuard,
    IndexScopes, InternalError, MetaClosureCapture,
};
use runestick::span::Span;

fn span() -> Span {
    Span::new(3, 5)
}

fn capture(name: &str) -> MetaClosureCapture {
    MetaClosureCapture { ident: name.to_owned() }
}

#[test]
fn closure_captures_variable_of_enclosing_function() {
    let mut scopes = IndexScopes::new();
    let function = scopes.push_function();
    scopes.declare("x", span()).unwrap();
    let closure = scopes.push_closure();
    scopes.mark_use("x");
    assert_eq!(
        closure.into_closure(&mut scopes, span()),
        Ok(Closure { captures: vec![capture("x")], generator: false })
    );
    assert_eq!(function.into_function(&mut scopes, span()), Ok(Function { generator: false }));
    assert_eq!(scopes.len(), 1);
}

#[test]
fn yield_makes_the_function_a_generator() {
    let mut scopes = IndexScopes::new();
    let function = scopes.push_function();
    assert_eq!(scopes.mark_yield(span()), Ok(()));
    assert_eq!(function.into_function(&mut scopes, span()), Ok(Function { generator: true }));
}

#[test]
fn two_nested_closures_capture_once_each() {
    let mut scopes = IndexScopes::new();
    scopes.declare("v", span()).unwrap();
    let outer = scopes.push_closure();
    let inner = scopes.push_closure();
    scopes.mark_use("v");
    scopes.mark_use("v");
    scopes.mark_use("v");
    assert_eq!(
        inner.into_closure(&mut scopes, span()),
        Ok(Closure { captures: vec![capture("v")], generator: false })
    );
    assert_eq!(
        outer.into_closure(&mut scopes, span()),
        Ok(Closure { captures: vec![capture("v")], generator: false })
    );
}

#[test]
fn a_later_closure_captures_from_the_closure_around_it() {
    let mut scopes = IndexScopes::new();
    scopes.declare("v", span()).unwrap();
    let outer = scopes.push_closure();
    scopes.mark_use("v");
    let inner = scopes.push_closure();
    scopes.mark_use("v");
    assert_eq!(
        inner.into_closure(&mut scopes, span()),
        Ok(Closure { captures: vec![capture("v")], generator: false })
    );
    assert_eq!(
        outer.into_closure(&mut scopes, span()),
        Ok(Closure { captures: vec![capture("v")], generator: false })
    );
}

#[test]
fn captures_keep_the_order_of_first_use() {
    let mut scopes = IndexScopes::new();
    scopes.declare("a", span()).unwrap();
    scopes.declare("b", span()).unwrap();
    let closure = scopes.push_closure();
    scopes.declare("local", span()).unwrap();
    scopes.mark_use("b");
    scopes.mark_use("local");
    scopes.mark_use("a");
    scopes.mark_use("b");
    scopes.mark_use("unknown");
    assert_eq!(
        closure.into_closure(&mut scopes, span()),
        Ok(Closure { captures: vec![capture("b"), capture("a")], generator: false })
    );
}

#[test]
fn nothing_is_captured_across_a_function() {
    let mut scopes = IndexScopes::new();
    scopes.declare("global", span()).unwrap();
    let function = scopes.push_function();
    let closure = scopes.push_closure();
    let scope = scopes.push_scope();
    scopes.mark_use("global");
    assert!(scope.pop(&mut scopes));
    assert_eq!(
        closure.into_closure(&mut scopes, span()),
        Ok(Closure { captures: vec![], generator: false })
    );
    assert_eq!(function.into_function(&mut scopes, span()), Ok(Function { generator: false }));
}

#[test]
fn a_local_of_the_closure_is_not_captured() {
    let mut scopes = IndexScopes::new();
    scopes.declare("x", span()).unwrap();
    let closure = scopes.push_closure();
    scopes.declare("x", span()).unwrap();
    let scope = scopes.push_scope();
    scopes.mark_use("x");
    scope.pop(&mut scopes);
    assert_eq!(
        closure.into_closure(&mut scopes, span()),
        Ok(Closure { captures: vec![], generator: false })
    );
}

#[test]
fn yield_marks_the_nearest_closure_or_function() {
    let mut scopes = IndexScopes::new();
    let function = scopes.push_function();
    let closure = scopes.push_closure();
    let scope = scopes.push_scope();
    assert_eq!(scopes.mark_yield(span()), Ok(()));
    scope.pop(&mut scopes);
    assert_eq!(
        closure.into_closure(&mut scopes, span()),
        Ok(Closure { captures: vec![], generator: true })
    );
    assert_eq!(function.into_function(&mut scopes, span()), Ok(Function { generator: false }));
}

#[test]
fn yield_outside_of_functions_fails() {
    let mut scopes = IndexScopes::new();
    let guard = scopes.push_scope();
    assert_eq!(
        scopes.mark_yield(span()),
        Err(CompileError::YieldOutsideFunction { span: span() })
    );
    guard.pop(&mut scopes);
}

#[test]
fn guards_close_levels() {
    let mut scopes = IndexScopes::new();
    assert_eq!(scopes.len(), 1);
    let a = scopes.push_scope();
    let b = scopes.push_closure();
    let c = scopes.push_function();
    assert_eq!((a.depth, b.depth, c.depth), (2, 3, 4));
    assert_eq!(scopes.len(), 4);
    assert!(c.pop(&mut scopes));
    assert!(b.pop(&mut scopes));
    assert!(a.pop(&mut scopes));
    assert_eq!(scopes.len(), 1);
    let root = scopes.push_scope();
    assert!(root.pop(&mut scopes));
    let last = scopes.push_scope();
    assert!(last.pop(&mut scopes));
}

#[test]
fn closing_the_wrong_level_is_an_internal_error() {
    let mut scopes = IndexScopes::new();
    let guard = scopes.push_scope();
    assert_eq!(
        guard.into_closure(&mut scopes, span()),
        Err(CompileError::Internal { error: InternalError::ExpectedClosure, span: span() })
    );
    assert_eq!(scopes.len(), 1);
    let guard = scopes.push_closure();
    assert_eq!(
        guard.into_function(&mut scopes, span()),
        Err(CompileError::Internal { error: InternalError::ExpectedFunction, span: span() })
    );
    assert_eq!(scopes.len(), 1);
}

#[test]
fn empty_scopes_are_an_internal_error() {
    let mut scopes = IndexScopes::new();
    // a guard closes whatever level is innermost: this one closes the root
    assert!(IndexScopeGuard { depth: 1 }.pop(&mut scopes));
    assert_eq!(scopes.len(), 0);
    assert!(!IndexScopeGuard { depth: 0 }.pop(&mut scopes));
    assert_eq!(
        scopes.declare("x", span()),
        Err(CompileError::Internal { error: InternalError::EmptyScopes, span: span() })
    );
    assert_eq!(
        IndexScopeGuard { depth: 0 }.into_closure(&mut scopes, span()),
        Err(CompileError::Internal { error: InternalError::MissingScope, span: span() })
    );
    assert_eq!(
        IndexScopeGuard { depth: 0 }.into_function(&mut scopes, span()),
        Err(CompileError::Internal { error: InternalError::MissingScope, span: span() })
    );
    assert_eq!(
        scopes.mark_yield(span()),
        Err(CompileError::YieldOutsideFunction { span: span() })
    );
    scopes.mark_use("x");
    assert_eq!(scopes.len(), 0);
}

#[test]
fn scopes_remember_declarations() {
    let mut scope = IndexScope::new();
    assert!(!scope.declares(&"a".to_owned()));
    scope.declare("a".to_owned(), span());
    scope.declare("b".to_owned(), span());
    scope.declare("a".to_owned(), Span::new(9, 10));
    assert!(scope.declares(&"a".to_owned()));
    assert!(scope.declares(&"b".to_owned()));
    assert!(!scope.declares(&"c".to_owned()));
    let _closure = IndexClosure::new();
    let _function = IndexFunction::new();
    assert_eq!(
        CompileError::internal(InternalError::MissingScope, span()),
        CompileError::Internal { error: InternalError::MissingScope, span: span() }
    );
}
