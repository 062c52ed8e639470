use tx_rs::{with_tx, Tx};

fn ok(v: i32) -> impl Tx<(), Item = i32, Err = String> {
    with_tx(move |_: &mut ()| Ok::<i32, String>(v))
}

fn err(msg: &'static str) -> impl Tx<(), Item = i32, Err = String> {
    with_tx(move |_: &mut ()| Err::<i32, String>(msg.to_string()))
}

#[test]
fn map_identity_on_values() {
    assert_eq!(ok(5).map(|v| v).run(&mut ()), ok(5).run(&mut ()));
    assert_eq!(err("e").map(|v| v).run(&mut ()), err("e").run(&mut ()));
}

#[test]
fn map_composition_on_values() {
    let f = |v: i32| v + 1;
    let g = |v: i32| v * 10;
    assert_eq!(ok(4).map(f).map(g).run(&mut ()), ok(4).map(move |v| g(f(v))).run(&mut ()));
    assert_eq!(ok(4).map(f).map(g).run(&mut ()), Ok(50));
}

#[test]
fn map_keeps_failures_on_values() {
    assert_eq!(err("boom").map(|v| v * 2).run(&mut ()), Err("boom".to_string()));
}

#[test]
fn map_err_keeps_successes_on_values() {
    assert_eq!(ok(3).map_err(|e: String| e.len()).run(&mut ()), Ok(3));
}

#[test]
fn and_then_associativity_on_values() {
    let f = |v: i32| ok(v + 1);
    let g = |v: i32| ok(v * 3);
    let left = ok(1).and_then(f).and_then(g).run(&mut ());
    let right = ok(1).and_then(move |v| f(v).and_then(g)).run(&mut ());
    assert_eq!(left, right);
    assert_eq!(left, Ok(6));
}

#[test]
fn and_then_stops_on_failure_on_values() {
    let r = err("first").and_then(|v: i32| ok(v)).run(&mut ());
    assert_eq!(r, Err("first".to_string()));
}

#[test]
fn or_else_stops_on_success_on_values() {
    let r = ok(8).or_else(|_e: String| err("fallback")).run(&mut ());
    assert_eq!(r, Ok(8));
}

#[test]
fn join3_is_nested_join_on_values() {
    let triple = ok(1).join3(ok(2), ok(3)).run(&mut ());
    let nested = ok(1).join(ok(2)).join(ok(3)).run(&mut ());
    assert_eq!(triple, nested.map(|((a, b), c)| (a, b, c)));

    let triple = ok(1).join3(err("b"), err("c")).run(&mut ());
    let nested = ok(1).join(err("b")).join(err("c")).run(&mut ());
    assert_eq!(triple, nested.map(|((a, b), c)| (a, b, c)));
    assert_eq!(triple, Err("b".to_string()));
}

#[test]
fn join4_is_join3_then_join_on_values() {
    let quad = ok(1).join4(ok(2), ok(3), ok(4)).run(&mut ());
    let nested = ok(1).join3(ok(2), ok(3)).join(ok(4)).run(&mut ());
    assert_eq!(quad, nested.map(|((a, b, c), d)| (a, b, c, d)));
    assert_eq!(quad, Ok((1, 2, 3, 4)));

    let quad = ok(1).join4(ok(2), ok(3), err("d")).run(&mut ());
    let nested = ok(1).join3(ok(2), ok(3)).join(err("d")).run(&mut ());
    assert_eq!(quad, nested.map(|((a, b, c), d)| (a, b, c, d)));
}

#[test]
fn try_map_of_total_function_is_map_on_values() {
    let tried = ok(6).try_map(|v| Ok::<i32, String>(v - 1)).run(&mut ());
    let mapped = ok(6).map(|v| v - 1).run(&mut ());
    assert_eq!(tried, mapped);
}

#[test]
fn try_recover_of_total_function_is_recover_on_values() {
    let tried = err("x").try_recover(|e: String| Ok::<i32, String>(e.len() as i32)).run(&mut ());
    let recovered = err("x").recover(|e: String| e.len() as i32).run(&mut ());
    assert_eq!(tried, recovered);
    assert_eq!(tried, Ok(1));
}

#[test]
fn recover_and_abort_on_values() {
    assert!(err("e").recover(|_e: String| 0).run(&mut ()).is_ok());
    let same = with_tx(|_: &mut ()| Ok::<String, String>("item".to_string()));
    assert_eq!(same.abort(|v: String| v + " stopped").run(&mut ()), Err("item stopped".to_string()));
}

#[test]
fn with_tx_is_the_closure_on_values() {
    let c = |_: &mut ()| Ok::<i32, String>(12);
    assert_eq!(with_tx(c).run(&mut ()), c.run(&mut ()));
}
