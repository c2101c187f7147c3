use oc_wasm_safe::component::{Invoker, Lister, MethodLister};
use oc_wasm_safe::token::{TokenKind, Tokens};

#[test]
fn lister_is_taken_once() {
    let mut tokens = Tokens::new();
    assert!(Lister::take(&mut tokens).is_some());
    for _ in 0..5 {
        assert!(Lister::take(&mut tokens).is_none());
    }
}

#[test]
fn method_lister_is_taken_once() {
    let mut tokens = Tokens::new();
    assert!(MethodLister::take(&mut tokens).is_some());
    for _ in 0..5 {
        assert!(MethodLister::take(&mut tokens).is_none());
    }
}

#[test]
fn invoker_is_taken_once() {
    let mut tokens = Tokens::new();
    assert!(Invoker::take(&mut tokens).is_some());
    for _ in 0..5 {
        assert!(Invoker::take(&mut tokens).is_none());
    }
}

#[test]
fn the_three_tokens_are_independent() {
    let mut tokens = Tokens::new();
    assert!(Invoker::take(&mut tokens).is_some());
    assert!(Lister::take(&mut tokens).is_some());
    assert!(Invoker::take(&mut tokens).is_none());
    assert!(MethodLister::take(&mut tokens).is_some());
    assert!(Lister::take(&mut tokens).is_none());
    assert!(MethodLister::take(&mut tokens).is_none());
}

#[test]
fn the_record_knows_what_was_taken() {
    let mut tokens = Tokens::new();
    assert!(!tokens.is_taken(TokenKind::Lister));
    assert!(!tokens.is_taken(TokenKind::MethodLister));
    assert!(!tokens.is_taken(TokenKind::Invoker));
    assert!(tokens.claim(TokenKind::MethodLister));
    assert!(!tokens.is_taken(TokenKind::Lister));
    assert!(tokens.is_taken(TokenKind::MethodLister));
    assert!(!tokens.is_taken(TokenKind::Invoker));
    assert!(!tokens.claim(TokenKind::MethodLister));
    assert!(tokens.is_taken(TokenKind::MethodLister));
}
