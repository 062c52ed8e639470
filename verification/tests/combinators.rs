use tx_rs::{with_tx, Tx};

#[test]
fn test_map() {
    let tx = with_tx(|_| Ok::<i32, ()>(21));
    assert_eq!(tx.map(|v| v * 2).run(&mut ()), Ok(42));

    let tx = with_tx(|_| Err::<i32, ()>(()));
    assert_eq!(tx.map(|v| v * 2).run(&mut ()), Err(()));
}

#[test]
fn test_and_then() {
    let tx1 = with_tx(|_| Ok::<i32, ()>(21));
    let f = |v| with_tx(move |_| Ok::<i32, ()>(v * 2));
    assert_eq!(tx1.and_then(f).run(&mut ()), Ok(42));

    let tx1 = with_tx(|_| Err::<i32, ()>(()));
    let f = |v| with_tx(move |_| Ok::<i32, ()>(v * 2));
    assert_eq!(tx1.and_then(f).run(&mut ()), Err(()));
}

#[test]
fn test_then() {
    let tx1 = with_tx(|_| Ok::<i32, ()>(21));
    let f = |v| {
        with_tx(move |_| match v {
            Ok(v) => Ok::<i32, ()>(v * 2),
            Err(e) => Err::<i32, ()>(e),
        })
    };
    assert_eq!(tx1.then(f).run(&mut ()), Ok(42));

    let tx1 = with_tx(|_| Err::<i32, ()>(()));
    let f = |v| {
        with_tx(move |_| match v {
            Ok(v) => Ok::<i32, ()>(v * 2),
            Err(e) => Err::<i32, ()>(e),
        })
    };
    assert_eq!(tx1.then(f).run(&mut ()), Err(()));
}

#[test]
fn test_or_else() {
    let tx1 = with_tx(|_| Ok::<i32, ()>(21));
    let f = |_: ()| with_tx(|_| Ok::<i32, ()>(42));
    assert_eq!(tx1.or_else(f).run(&mut ()), Ok(21));

    let tx1 = with_tx(|_| Err::<i32, ()>(()));
    let f = |_: ()| with_tx(|_| Ok::<i32, ()>(42));
    assert_eq!(tx1.or_else(f).run(&mut ()), Ok(42));
}

#[test]
fn test_join() {
    let tx1 = with_tx(|_| Ok::<i32, ()>(42));
    let tx2 = with_tx(|_| Ok::<&str, ()>("ok"));
    assert_eq!(tx1.join(tx2).run(&mut ()), Ok((42, "ok")));

    let tx1 = with_tx(|_| Err::<i32, ()>(()));
    let tx2 = with_tx(|_| Ok::<&str, ()>("ng"));
    assert_eq!(tx1.join(tx2).run(&mut ()), Err(()));

    let tx1 = with_tx(|_| Ok::<i32, ()>(42));
    let tx2 = with_tx(|_| Err::<&str, ()>(()));
    assert_eq!(tx1.join(tx2).run(&mut ()), Err(()));
}

#[test]
fn test_join3() {
    let tx1 = with_tx(|_| Ok::<i32, ()>(42));
    let tx2 = with_tx(|_| Ok::<&str, ()>("ok"));
    let tx3 = with_tx(|_| Ok::<bool, ()>(true));
    assert_eq!(tx1.join3(tx2, tx3).run(&mut ()), Ok((42, "ok", true)));

    let tx1 = with_tx(|_| Err::<i32, ()>(()));
    let tx2 = with_tx(|_| Ok::<&str, ()>("ng"));
    let tx3 = with_tx(|_| Ok::<bool, ()>(false));
    assert_eq!(tx1.join3(tx2, tx3).run(&mut ()), Err(()));

    let tx1 = with_tx(|_| Ok::<i32, ()>(42));
    let tx2 = with_tx(|_| Err::<&str, ()>(()));
    let tx3 = with_tx(|_| Ok::<bool, ()>(false));
    assert_eq!(tx1.join3(tx2, tx3).run(&mut ()), Err(()));

    let tx1 = with_tx(|_| Ok::<i32, ()>(42));
    let tx2 = with_tx(|_| Ok::<&str, ()>("ok"));
    let tx3 = with_tx(|_| Err::<bool, ()>(()));
    assert_eq!(tx1.join3(tx2, tx3).run(&mut ()), Err(()));
}

#[test]
fn test_join4() {
    let tx1 = with_tx(|_| Ok::<i32, ()>(42));
    let tx2 = with_tx(|_| Ok::<&str, ()>("ok"));
    let tx3 = with_tx(|_| Ok::<bool, ()>(true));
    let tx4 = with_tx(|_| Ok::<f32, ()>(3.14));
    assert_eq!(
        tx1.join4(tx2, tx3, tx4).run(&mut ()),
        Ok((42, "ok", true, 3.14))
    );

    let tx1 = with_tx(|_| Err::<i32, ()>(()));
    let tx2 = with_tx(|_| Ok::<&str, ()>("ng"));
    let tx3 = with_tx(|_| Ok::<bool, ()>(false));
    let tx4 = with_tx(|_| Ok::<f32, ()>(3.14));
    assert_eq!(tx1.join4(tx2, tx3, tx4).run(&mut ()), Err(()));

    let tx1 = with_tx(|_| Ok::<i32, ()>(42));
    let tx2 = with_tx(|_| Err::<&str, ()>(()));
    let tx3 = with_tx(|_| Ok::<bool, ()>(false));
    let tx4 = with_tx(|_| Ok::<f32, ()>(3.14));
    assert_eq!(tx1.join4(tx2, tx3, tx4).run(&mut ()), Err(()));

    let tx1 = with_tx(|_| Ok::<i32, ()>(42));
    let tx2 = with_tx(|_| Ok::<&str, ()>("ok"));
    let tx3 = with_tx(|_| Err::<bool, ()>(()));
    let tx4 = with_tx(|_| Ok::<f32, ()>(3.14));
    assert_eq!(tx1.join4(tx2, tx3, tx4).run(&mut ()), Err(()));

    let tx1 = with_tx(|_| Ok::<i32, ()>(42));
    let tx2 = with_tx(|_| Ok::<&str, ()>("ok"));
    let tx3 = with_tx(|_| Ok::<bool, ()>(true));
    let tx4 = with_tx(|_| Err::<i32, ()>(()));
    assert_eq!(tx1.join4(tx2, tx3, tx4).run(&mut ()), Err(()));
}

#[test]
fn test_map_err() {
    let tx1 = with_tx(|_| Err::<i32, ()>(()));
    let f = |_: ()| "ng";
    assert_eq!(tx1.map_err(f).run(&mut ()), Err("ng"));

    let tx1 = with_tx(|_| Ok::<i32, ()>(42));
    let f = |_: ()| "ng";
    assert_eq!(tx1.map_err(f).run(&mut ()), Ok(42));
}

#[test]
fn test_try_map() {
    let tx1 = with_tx(|_| Ok::<i32, &str>(10));
    let f = |_| Err::<i32, &str>("too small");
    assert_eq!(tx1.try_map(f).run(&mut ()), Err("too small"));

    let tx1 = with_tx(|_| Ok::<i32, &str>(21));
    let f = |v| Ok::<i32, &str>(v * 2);
    assert_eq!(tx1.try_map(f).run(&mut ()), Ok(42));
}

#[test]
fn test_recover() {
    let tx1 = with_tx(|_| Err::<i32, &str>("error"));
    let f = |_: &str| 42;
    assert_eq!(tx1.recover(f).run(&mut ()), Ok(42));

    let tx1 = with_tx(|_| Ok::<i32, &str>(21));
    let f = |_: &str| 42;
    assert_eq!(tx1.recover(f).run(&mut ()), Ok(21));
}

#[test]
fn test_try_recover() {
    let tx1 = with_tx(|_| Err::<i32, &str>("error"));
    let f = |_: &str| Ok::<i32, &str>(42);
    assert_eq!(tx1.try_recover(f).run(&mut ()), Ok(42));

    let tx1 = with_tx(|_| Ok::<i32, &str>(21));
    let f = |_: &str| Ok::<i32, &str>(42);
    assert_eq!(tx1.try_recover(f).run(&mut ()), Ok(21));

    let tx1 = with_tx(|_| Ok::<i32, &str>(21));
    let f = |_: &str| Err::<i32, &str>("error again");
    assert_eq!(tx1.try_recover(f).run(&mut ()), Ok(21));

    let tx1 = with_tx(|_| Err::<i32, &str>("error"));
    let f = |_: &str| Err::<i32, &str>("error again");
    assert_eq!(tx1.try_recover(f).run(&mut ()), Err("error again"));
}
