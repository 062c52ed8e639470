use tx_rs::Tx;

struct Constant(i32);

impl Tx<()> for Constant {
    type Item = i32;
    type Err = i32;

    fn run(self, _: &mut ()) -> Result<i32, i32> {
        Ok(self.0)
    }
}

struct Failing(i32);

impl Tx<()> for Failing {
    type Item = i32;
    type Err = i32;

    fn run(self, _: &mut ()) -> Result<i32, i32> {
        Err(self.0)
    }
}

#[test]
fn user_transactions_combine() {
    assert_eq!(Constant(3).join(Constant(4)).run(&mut ()), Ok((3, 4)));
    assert_eq!(Constant(3).map(|v| v + 1).run(&mut ()), Ok(4));
    assert_eq!(Failing(9).map(|v| v + 1).run(&mut ()), Err(9));
}

#[test]
fn abort_turns_success_into_failure() {
    assert_eq!(Constant(7).abort(|v: i32| v * 3).run(&mut ()), Err(21));
}

#[test]
fn abort_keeps_failure() {
    assert_eq!(Failing(5).abort(|v: i32| v * 3).run(&mut ()), Err(5));
}

#[test]
fn try_abort_decides_on_success() {
    assert_eq!(
        Constant(7).try_abort(|v: i32| if v > 5 { Err(v) } else { Ok(v) }).run(&mut ()),
        Err(7)
    );
    assert_eq!(
        Constant(3).try_abort(|v: i32| if v > 5 { Err(v) } else { Ok(v) }).run(&mut ()),
        Ok(3)
    );
}

#[test]
fn try_abort_keeps_failure() {
    assert_eq!(Failing(8).try_abort(|v: i32| Ok::<i32, i32>(v)).run(&mut ()), Err(8));
}

#[test]
fn map_err_leaves_success_and_maps_failure() {
    assert_eq!(Constant(1).map_err(|e: i32| e * 2).run(&mut ()), Ok(1));
    assert_eq!(Failing(4).map_err(|e: i32| e * 2).run(&mut ()), Err(8));
}

#[test]
fn recover_never_fails() {
    assert_eq!(Failing(4).recover(|e: i32| -e).run(&mut ()), Ok(-4));
    assert_eq!(Constant(4).recover(|e: i32| -e).run(&mut ()), Ok(4));
}

#[test]
fn try_map_keeps_failure_without_calling_f() {
    assert_eq!(
        Failing(2).try_map(|_v: i32| -> Result<i32, i32> { panic!("not called") }).run(&mut ()),
        Err(2)
    );
}

#[test]
fn try_recover_keeps_success_without_calling_f() {
    assert_eq!(
        Constant(2)
            .try_recover(|_e: i32| -> Result<i32, String> { panic!("not called") })
            .run(&mut ()),
        Ok(2)
    );
}
