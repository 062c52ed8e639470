use tx_rs::{with_tx, Tx};

fn bump(ctx: &mut i32) -> Result<i32, String> {
    *ctx += 1;
    Ok(*ctx)
}

fn bump_then_fail(ctx: &mut i32) -> Result<i32, String> {
    *ctx += 1;
    Err(format!("failed at {}", *ctx))
}

#[test]
fn closure_is_a_transaction() {
    let mut ctx = 0;
    assert_eq!(bump.run(&mut ctx), Ok(1));
    assert_eq!(ctx, 1);
    assert_eq!((|c: &mut i32| Ok::<i32, ()>(*c * 10)).run(&mut ctx), Ok(10));
}

#[test]
fn with_tx_runs_the_closure_once() {
    let mut ctx = 41;
    assert_eq!(with_tx(bump).run(&mut ctx), Ok(42));
    assert_eq!(ctx, 42);
}

#[test]
fn map_sees_the_context_after_the_inner_run() {
    let mut ctx = 1;
    assert_eq!(with_tx(bump).map(|v| v * 100).run(&mut ctx), Ok(200));
    assert_eq!(ctx, 2);
}

#[test]
fn and_then_runs_second_on_context_left_by_first() {
    let mut ctx = 0;
    let r = with_tx(bump).and_then(|v| with_tx(move |c: &mut i32| {
        *c += 10;
        Ok::<(i32, i32), String>((v, *c))
    }))
    .run(&mut ctx);
    assert_eq!(r, Ok((1, 11)));
    assert_eq!(ctx, 11);
}

#[test]
fn and_then_does_not_run_second_after_failure() {
    let mut ctx = 0;
    let r = with_tx(bump_then_fail)
        .and_then(|v| with_tx(move |c: &mut i32| {
            *c += 10;
            Ok::<i32, String>(v)
        }))
        .run(&mut ctx);
    assert_eq!(r, Err("failed at 1".to_string()));
    assert_eq!(ctx, 1);
}

#[test]
fn or_else_does_not_run_fallback_after_success() {
    let mut ctx = 0;
    let r = with_tx(bump)
        .or_else(|_e: String| with_tx(|c: &mut i32| {
            *c += 10;
            Ok::<i32, String>(-1)
        }))
        .run(&mut ctx);
    assert_eq!(r, Ok(1));
    assert_eq!(ctx, 1);
}

#[test]
fn or_else_runs_fallback_on_context_left_by_failure() {
    let mut ctx = 0;
    let r = with_tx(bump_then_fail)
        .or_else(|e: String| with_tx(move |c: &mut i32| {
            *c += 10;
            Ok::<i32, String>(e.len() as i32 + *c)
        }))
        .run(&mut ctx);
    assert_eq!(r, Ok(11 + 11));
    assert_eq!(ctx, 11);
}

#[test]
fn then_passes_the_whole_result() {
    let mut ctx = 5;
    let r = with_tx(bump_then_fail)
        .then(|res: Result<i32, String>| with_tx(move |c: &mut i32| {
            *c *= 2;
            Ok::<bool, String>(res.is_err())
        }))
        .run(&mut ctx);
    assert_eq!(r, Ok(true));
    assert_eq!(ctx, 12);
}

#[test]
fn join_runs_second_even_when_first_fails() {
    let mut ctx = 0;
    let r = with_tx(bump_then_fail).join(with_tx(bump)).run(&mut ctx);
    assert_eq!(r, Err("failed at 1".to_string()));
    assert_eq!(ctx, 2);
}

#[test]
fn join_reports_the_first_error() {
    let mut ctx = 0;
    let r = with_tx(bump_then_fail)
        .join(with_tx(bump_then_fail))
        .run(&mut ctx);
    assert_eq!(r, Err("failed at 1".to_string()));
    assert_eq!(ctx, 2);
}

#[test]
fn join3_runs_all_in_order() {
    let mut ctx = 0;
    let r = with_tx(bump).join3(with_tx(bump), with_tx(bump)).run(&mut ctx);
    assert_eq!(r, Ok((1, 2, 3)));
    assert_eq!(ctx, 3);
}

#[test]
fn join3_runs_all_even_after_a_failure() {
    let mut ctx = 0;
    let r = with_tx(bump)
        .join3(with_tx(bump_then_fail), with_tx(bump_then_fail))
        .run(&mut ctx);
    assert_eq!(r, Err("failed at 2".to_string()));
    assert_eq!(ctx, 3);
}

#[test]
fn join4_runs_all_in_order() {
    let mut ctx = 0;
    let r = with_tx(bump)
        .join4(with_tx(bump), with_tx(bump), with_tx(bump))
        .run(&mut ctx);
    assert_eq!(r, Ok((1, 2, 3, 4)));
    assert_eq!(ctx, 4);
}

#[test]
fn join4_reports_the_first_of_several_errors() {
    let mut ctx = 0;
    let r = with_tx(bump)
        .join4(with_tx(bump), with_tx(bump_then_fail), with_tx(bump_then_fail))
        .run(&mut ctx);
    assert_eq!(r, Err("failed at 3".to_string()));
    assert_eq!(ctx, 4);
}
