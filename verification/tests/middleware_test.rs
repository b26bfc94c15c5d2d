use atomic_websocket::middleware::{ChainStep, MiddlewareChain, MiddlewareResult};

#[test]
fn test_middleware_result_equality() {
    assert_eq!(MiddlewareResult::Continue, MiddlewareResult::Continue);
    assert_eq!(MiddlewareResult::Stop, MiddlewareResult::Stop);
    assert_ne!(MiddlewareResult::Continue, MiddlewareResult::Stop);
}

#[test]
fn test_middleware_result_copy() {
    let r = MiddlewareResult::Continue;
    let r2 = r;
    assert_eq!(r, r2);
}

#[test]
fn without_middlewares_everything_passes() {
    let (_, step) = MiddlewareChain::start(0);
    assert_eq!(step, ChainStep::Pass);
}

#[test]
fn all_are_asked_in_order_while_they_agree() {
    let (mut chain, step) = MiddlewareChain::start(3);
    assert_eq!(step, ChainStep::Ask(0));
    assert_eq!(chain.on_connect_answer(true), ChainStep::Ask(1));
    assert_eq!(chain.on_connect_answer(true), ChainStep::Ask(2));
    assert_eq!(chain.on_connect_answer(true), ChainStep::Pass);
}

#[test]
fn the_first_objection_ends_the_questions() {
    let (mut chain, _) = MiddlewareChain::start(3);
    assert_eq!(
        chain.on_message_answer(MiddlewareResult::Continue),
        ChainStep::Ask(1)
    );
    assert_eq!(
        chain.on_message_answer(MiddlewareResult::Stop),
        ChainStep::Stop
    );
    let (mut chain, _) = MiddlewareChain::start(1);
    assert_eq!(chain.on_connect_answer(false), ChainStep::Stop);
}
