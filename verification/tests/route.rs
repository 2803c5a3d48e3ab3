use rpc_it::route::{ExecError, RouteFailResponse, RouteTable, Router, RouterBuilder, RouterFunc, RouterFuncBuilder};
use rpc_it::service::RouteFunction;
use rpc_it::codec::DeserializeError;

#[test]
fn route_table_insert_and_lookup() {
    let mut t = RouteTable::new();
    assert_eq!(t.lookup("a"), None);
    assert_eq!(t.insert_route("a", 1), Ok(()));
    assert_eq!(t.insert_route("b", 2), Ok(()));
    assert_eq!(t.lookup("a"), Some(1));
    assert_eq!(t.lookup("b"), Some(2));
    assert_eq!(t.insert_route("a", 5), Err(()));
    assert_eq!(t.lookup("a"), Some(5));
    assert_eq!(t.lookup("c"), None);
}

#[test]
fn route_table_traits() {
    let mut t = RouteTable::new();
    assert_eq!(RouterFuncBuilder::add_route(&mut t, "x", 3), Ok(()));
    let f = RouterFuncBuilder::finish(t);
    assert_eq!(RouterFunc::route(&f, "x"), Some(3));

    let mut t = RouteTable::new();
    assert_eq!(RouteFunction::add_route(&mut t, "y", 4), Ok(()));
    assert_eq!(RouteFunction::add_route(&mut t, "y", 6), Err(()));
    assert_eq!(RouteFunction::route(&t, "y"), Some(6));
    let done = RouteFunction::finish(t).unwrap();
    assert_eq!(done.lookup("y"), Some(6));
}

type Handler = Box<dyn Fn(&mut Option<u32>) -> Result<(), ExecError>>;

#[test]
fn router_dispatch() {
    let mut b: RouterBuilder<Handler> = RouterBuilder::default();
    let ok: Handler = Box::new(|x: &mut Option<u32>| {
        x.take();
        Ok(())
    });
    let bad: Handler = Box::new(|_x: &mut Option<u32>| Err(ExecError::RequestOnNotifyHandler));
    assert_eq!(b.try_add_routed_handler("ok", ok), Ok(0));
    assert_eq!(b.try_add_routed_handler("bad", bad), Ok(1));
    b.push_handler(Box::new(|_x: &mut Option<u32>| Err(ExecError::ParseError(DeserializeError))));
    assert_eq!(b.try_add_route_to_last("parse"), Ok(()));
    assert_eq!(b.try_add_route_to_last("parse"), Err(()));
    let dup: Handler = Box::new(|_x: &mut Option<u32>| Ok(()));
    // a refused handler is not registered, yet its path now routes to the
    // index it would have had: the next registered handler
    assert_eq!(b.try_add_routed_handler("ok", dup), Err(()));
    b.push_handler(Box::new(|_x: &mut Option<u32>| Err(ExecError::RouteFailed)));
    let r: Router<Handler> = b.finish();

    assert_eq!(r.route("ok", 7), Err((Some(7), ExecError::RouteFailed)));
    assert_eq!(r.route("bad", 7), Err((Some(7), ExecError::RequestOnNotifyHandler)));
    assert_eq!(r.route("parse", 8), Err((Some(8), ExecError::ParseError(DeserializeError))));
    assert_eq!(r.route("none", 9), Err((Some(9), ExecError::RouteFailed)));
}

#[test]
fn router_pop_handler() {
    let mut b: RouterBuilder<u8> = RouterBuilder::new(RouteTable::new());
    b.push_handler(1);
    b.push_handler(2);
    b.pop_handler();
    assert_eq!(b.try_add_route_to_last("one"), Ok(()));
    b.pop_handler();
    b.pop_handler();
}

#[test]
fn route_fail_response_conversions() {
    assert_eq!(RouteFailResponse::from(()), RouteFailResponse::Panic);
    assert_eq!(RouteFailResponse::from(true), RouteFailResponse::IgnoreAndContinue);
    assert_eq!(RouteFailResponse::from(false), RouteFailResponse::Abort);
    assert_eq!(ExecError::from(DeserializeError), ExecError::ParseError(DeserializeError));
}
