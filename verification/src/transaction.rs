//! The `Tx` trait, its closure implementation and the combinators.
//!
//! Every transaction is modelled by two spec functions:
//! - `ready(ctx)`: running the transaction on a context holding `ctx` is allowed;
//! - `outcome(ctx, ctx_after, r)`: running it on `ctx` may leave the context at
//!   `ctx_after` and return `r`.
//! The model is a relation, not a function, because the closures a transaction
//! is built from may leave some of their results open.
use vstd::prelude::*;

verus! {

/// A transaction over a context of type `Ctx`.
pub trait Tx<Ctx> {
    /// What a successful run returns.
    type Item;

    /// What a failed run returns.
    type Err;

    /// Running this transaction on a context holding `ctx` is allowed.
    /// By default it is allowed on every context.
    open spec fn ready(&self, ctx: Ctx) -> bool {
        true
    }

    /// Running this transaction on `ctx` may leave the context at `ctx_after`
    /// and return `r`. By default nothing is promised of a run.
    open spec fn outcome(&self, ctx: Ctx, ctx_after: Ctx, r: Result<Self::Item, Self::Err>) -> bool {
        true
    }

    /// Runs the transaction once on the context.
    fn run(self, ctx: &mut Ctx) -> (r: Result<Self::Item, Self::Err>)
        requires
            self.ready(*old(ctx)),
        ensures
            self.outcome(*old(ctx), *final(ctx), r),
    ;

    /// A transaction that runs `self` and passes a successful item through `f`.
    fn map<F, T>(self, f: F) -> (m: MapTx<Self, F>)
        where
            F: FnOnce(Self::Item) -> T,
            Self: Sized,
        ensures
            m.first() == self,
            m.func() == f,
    {
        MapTx { tx1: self, f }
    }

    /// A transaction that runs `self` and, on success, the transaction that
    /// `f` builds from the item.
    fn and_then<Tx2, F>(self, f: F) -> (m: AndThen<Self, F>)
        where
            F: FnOnce(Self::Item) -> Tx2,
            Self: Sized,
        ensures
            m.first() == self,
            m.func() == f,
    {
        AndThen { tx1: self, f }
    }

    /// A transaction that runs `self` and then, whatever its result, the
    /// transaction that `f` builds from that result.
    fn then<Tx2, F>(self, f: F) -> (m: Then<Self, F>)
        where
            F: FnOnce(Result<Self::Item, Self::Err>) -> Tx2,
            Self: Sized,
        ensures
            m.first() == self,
            m.func() == f,
    {
        Then { tx1: self, f }
    }

    /// A transaction that runs `self` and, on failure, the transaction that
    /// `f` builds from the error.
    fn or_else<Tx2, F>(self, f: F) -> (m: OrElse<Self, F>)
        where
            F: FnOnce(Self::Err) -> Tx2,
            Self: Sized,
        ensures
            m.first() == self,
            m.func() == f,
    {
        OrElse { tx1: self, f }
    }

    /// A transaction that runs `self`, then `tx2`, and pairs their items.
    fn join<Tx2>(self, tx2: Tx2) -> (m: Join<Self, Tx2>)
        where
            Self: Sized,
        ensures
            m.first() == self,
            m.second() == tx2,
    {
        Join { tx1: self, tx2 }
    }

    /// A transaction that runs `self`, `tx2` and `tx3` in turn and collects
    /// their items.
    fn join3<Tx2, Tx3>(self, tx2: Tx2, tx3: Tx3) -> (m: Join3<Self, Tx2, Tx3>)
        where
            Self: Sized,
        ensures
            m.first() == self,
            m.second() == tx2,
            m.third() == tx3,
    {
        Join3 { tx1: self, tx2, tx3 }
    }

    /// A transaction that runs `self`, `tx2`, `tx3` and `tx4` in turn and
    /// collects their items.
    fn join4<Tx2, Tx3, Tx4>(self, tx2: Tx2, tx3: Tx3, tx4: Tx4) -> (m: Join4<Self, Tx2, Tx3, Tx4>)
        where
            Self: Sized,
        ensures
            m.first() == self,
            m.second() == tx2,
            m.third() == tx3,
            m.fourth() == tx4,
    {
        Join4 { tx1: self, tx2, tx3, tx4 }
    }

    /// A transaction that runs `self` and passes an error through `f`.
    fn map_err<F, E>(self, f: F) -> (m: MapErr<Self, F>)
        where
            F: FnOnce(Self::Err) -> E,
            Self: Sized,
        ensures
            m.first() == self,
            m.func() == f,
    {
        MapErr { tx1: self, f }
    }

    /// A transaction that runs `self` and replaces a successful item by the
    /// result of `f` on it.
    fn try_map<F, T, E>(self, f: F) -> (m: TryMap<Self, F>)
        where
            F: FnOnce(Self::Item) -> Result<T, E>,
            Self: Sized,
        ensures
            m.first() == self,
            m.func() == f,
    {
        TryMap { tx1: self, f }
    }

    /// A transaction that runs `self` and turns an error into an item with `f`.
    fn recover<F>(self, f: F) -> (m: Recover<Self, F>)
        where
            F: FnOnce(Self::Err) -> Self::Item,
            Self: Sized,
        ensures
            m.first() == self,
            m.func() == f,
    {
        Recover { tx1: self, f }
    }

    /// A transaction that runs `self` and replaces an error by the result of
    /// `f` on it.
    fn try_recover<F, E>(self, f: F) -> (m: TryRecover<Self, F>)
        where
            F: FnOnce(Self::Err) -> Result<Self::Item, E>,
            Self: Sized,
        ensures
            m.first() == self,
            m.func() == f,
    {
        TryRecover { tx1: self, f }
    }

    /// A transaction that runs `self` and makes a success fail with what `f`
    /// builds from the item. The result runs when `f` takes the item and
    /// returns an error of `self`.
    fn abort<F, T>(self, f: F) -> (m: Abort<Self, F>)
        where
            F: FnOnce(Self::Err) -> T,
            Self: Sized,
        ensures
            m.first() == self,
            m.func() == f,
    {
        Abort { tx1: self, f }
    }

    /// A transaction that runs `self` and replaces a success by what `f`
    /// returns on the item. The result runs when `f` takes the item and
    /// returns a result of `self`'s types.
    fn try_abort<F, T, E>(self, f: F) -> (m: TryAbort<Self, F>)
        where
            F: FnOnce(Self::Err) -> Result<T, E>,
            Self: Sized,
        ensures
            m.first() == self,
            m.func() == f,
    {
        TryAbort { tx1: self, f }
    }
}

/// A closure over the context is a transaction: running it calls it.
impl<Ctx, T, E, F> Tx<Ctx> for F where F: FnOnce(&mut Ctx) -> Result<T, E> {
    type Item = T;

    type Err = E;

    open spec fn ready(&self, ctx: Ctx) -> bool {
        closure_ready(*self, ctx)
    }

    open spec fn outcome(&self, ctx: Ctx, ctx_after: Ctx, r: Result<T, E>) -> bool {
        closure_outcome(*self, ctx, r)
    }

    fn run(self, ctx: &mut Ctx) -> (r: Result<T, E>)
        ensures
            exists|m: &mut Ctx|
                mut_ref_current(m) == *old(ctx) && mut_ref_future(m) == *final(ctx)
                    && #[trigger] call_ensures(self, (m,), r),
    {
        self(ctx)
    }
}

/// The closure `f` may be called on every reference to a context holding `ctx`.
pub open spec fn closure_ready<Ctx, T, E, F: FnOnce(&mut Ctx) -> Result<T, E>>(
    f: F,
    ctx: Ctx,
) -> bool {
    forall|m: &mut Ctx| mut_ref_current(m) == ctx ==> #[trigger] call_requires(f, (m,))
}

/// `r` is a result that the closure `f` may return when called on a context
/// holding `ctx`. It does not fix the context that the call leaves behind:
/// that is the final value of the reference, which only a prophetic spec
/// function could name. The `run` of a closure and of `WithTx` state it in
/// their own `ensures` instead.
pub open spec fn closure_outcome<Ctx, T, E, F: FnOnce(&mut Ctx) -> Result<T, E>>(
    f: F,
    ctx: Ctx,
    r: Result<T, E>,
) -> bool {
    exists|m: &mut Ctx| mut_ref_current(m) == ctx && #[trigger] call_ensures(f, (m,), r)
}

// ---------------------------------------------------------------- shared parts

/// `tx1` is ready on `ctx` and `f` accepts every item that `tx1` may yield from there.
pub open spec fn item_fn_ready<Ctx, Tx1: Tx<Ctx>, F: FnOnce(Tx1::Item) -> T, T>(
    tx1: Tx1,
    f: F,
    ctx: Ctx,
) -> bool {
    &&& tx1.ready(ctx)
    &&& forall|c: Ctx, x: Tx1::Item| #[trigger] tx1.outcome(ctx, c, Ok(x)) ==> call_requires(f, (x,))
}

/// `tx1` is ready on `ctx` and `f` accepts every error that `tx1` may return from there.
pub open spec fn error_fn_ready<Ctx, Tx1: Tx<Ctx>, F: FnOnce(Tx1::Err) -> T, T>(
    tx1: Tx1,
    f: F,
    ctx: Ctx,
) -> bool {
    &&& tx1.ready(ctx)
    &&& forall|c: Ctx, e: Tx1::Err| #[trigger] tx1.outcome(ctx, c, Err(e)) ==> call_requires(f, (e,))
}

/// `tx1` may fail from `ctx` to `ctx_after` with an error that `f` may turn into `y`.
pub open spec fn error_mapped<Ctx, Tx1: Tx<Ctx>, F: FnOnce(Tx1::Err) -> T, T>(
    tx1: Tx1,
    f: F,
    ctx: Ctx,
    ctx_after: Ctx,
    y: T,
) -> bool {
    exists|e: Tx1::Err| tx1.outcome(ctx, ctx_after, Err(e)) && #[trigger] call_ensures(f, (e,), y)
}

/// `tx1` may succeed from `ctx` to `ctx_after` with an item that `f` may turn into `y`.
pub open spec fn item_mapped<Ctx, Tx1: Tx<Ctx>, F: FnOnce(Tx1::Item) -> T, T>(
    tx1: Tx1,
    f: F,
    ctx: Ctx,
    ctx_after: Ctx,
    y: T,
) -> bool {
    exists|x: Tx1::Item| tx1.outcome(ctx, ctx_after, Ok(x)) && #[trigger] call_ensures(f, (x,), y)
}

// ---------------------------------------------------------------- map

/// `map` yields `f` of an item of `tx1`, or the error of `tx1` unchanged.
pub open spec fn map_outcome<Ctx, Tx1: Tx<Ctx>, F: FnOnce(Tx1::Item) -> T, T>(
    tx1: Tx1,
    f: F,
    ctx: Ctx,
    ctx_after: Ctx,
    r: Result<T, Tx1::Err>,
) -> bool {
    match r {
        Ok(y) => item_mapped(tx1, f, ctx, ctx_after, y),
        Err(e) => tx1.outcome(ctx, ctx_after, Err(e)),
    }
}

fn map<Ctx, Tx1, F, T>(tx1: Tx1, f: F) -> (g: impl FnOnce(&mut Ctx) -> Result<T, Tx1::Err>)
    where
        Tx1: Tx<Ctx>,
        F: FnOnce(Tx1::Item) -> T,
    ensures
        forall|m: &mut Ctx|
            item_fn_ready(tx1, f, mut_ref_current(m)) ==> #[trigger] call_requires(g, (m,)),
        forall|m: &mut Ctx, r: Result<T, Tx1::Err>| #[trigger]
            call_ensures(g, (m,), r) ==> map_outcome(
                tx1,
                f,
                mut_ref_current(m),
                mut_ref_future(m),
                r,
            ),
{
    move |ctx: &mut Ctx| -> (r: Result<T, Tx1::Err>)
        requires
            item_fn_ready(tx1, f, *old(ctx)),
        ensures
            map_outcome(tx1, f, *old(ctx), *final(ctx), r),
        {
            match tx1.run(ctx) {
                Ok(x) => {
                    let y = f(x);
                    Ok(y)
                },
                Err(e) => Err(e),
            }
        }
}

/// Runs `tx1`, then passes a successful item through `f`.
pub struct MapTx<Tx1, F> {
    tx1: Tx1,
    f: F,
}

impl<Tx1, F> MapTx<Tx1, F> {
    /// The transaction run first.
    pub closed spec fn first(&self) -> Tx1 {
        self.tx1
    }

    /// The function applied to its item.
    pub closed spec fn func(&self) -> F {
        self.f
    }
}

impl<Ctx, Tx1, T, F> Tx<Ctx> for MapTx<Tx1, F> where Tx1: Tx<Ctx>, F: FnOnce(Tx1::Item) -> T {
    type Item = T;

    type Err = Tx1::Err;

    open spec fn ready(&self, ctx: Ctx) -> bool {
        item_fn_ready(self.first(), self.func(), ctx)
    }

    open spec fn outcome(&self, ctx: Ctx, ctx_after: Ctx, r: Result<T, Tx1::Err>) -> bool {
        map_outcome(self.first(), self.func(), ctx, ctx_after, r)
    }

    fn run(self, ctx: &mut Ctx) -> (r: Result<T, Tx1::Err>) {
        map(self.tx1, self.f)(ctx)
    }
}

// ---------------------------------------------------------------- and_then

/// `and_then` is ready when `tx1` is, `f` accepts every item `tx1` may yield,
/// and every transaction `f` may build is ready where `tx1` may leave the context.
pub open spec fn and_then_ready<Ctx, Tx1: Tx<Ctx>, Tx2: Tx<Ctx, Err = Tx1::Err>, F: FnOnce(
    Tx1::Item,
) -> Tx2>(tx1: Tx1, f: F, ctx: Ctx) -> bool {
    &&& tx1.ready(ctx)
    &&& forall|c: Ctx, x: Tx1::Item| #[trigger]
        tx1.outcome(ctx, c, Ok(x)) ==> {
            &&& call_requires(f, (x,))
            &&& forall|tx2: Tx2| #[trigger] call_ensures(f, (x,), tx2) ==> tx2.ready(c)
        }
}

/// `and_then` fails as `tx1` does, or yields what the transaction built from
/// the item of `tx1` yields.
pub open spec fn and_then_outcome<Ctx, Tx1: Tx<Ctx>, Tx2: Tx<Ctx, Err = Tx1::Err>, F: FnOnce(
    Tx1::Item,
) -> Tx2>(tx1: Tx1, f: F, ctx: Ctx, ctx_after: Ctx, r: Result<Tx2::Item, Tx1::Err>) -> bool {
    ||| (r is Err && tx1.outcome(ctx, ctx_after, Err(r->Err_0)))
    ||| continued_on_item::<Ctx, Tx1, Tx2, F>(tx1, f, ctx, ctx_after, r)
}

/// `tx1` may succeed from `ctx` to some `mid` with an item from which `f` may
/// build a transaction that may run from `mid` to `ctx_after` with result `r`.
pub open spec fn continued_on_item<Ctx, Tx1: Tx<Ctx>, Tx2: Tx<Ctx, Err = Tx1::Err>, F: FnOnce(
    Tx1::Item,
) -> Tx2>(tx1: Tx1, f: F, ctx: Ctx, ctx_after: Ctx, r: Result<Tx2::Item, Tx1::Err>) -> bool {
    exists|mid: Ctx, x: Tx1::Item, tx2: Tx2|
        #![trigger tx1.outcome(ctx, mid, Ok(x)), call_ensures(f, (x,), tx2)]
        tx1.outcome(ctx, mid, Ok(x)) && call_ensures(f, (x,), tx2) && tx2.outcome(mid, ctx_after, r)
}

fn and_then<Ctx, Tx1, Tx2, F>(tx1: Tx1, f: F) -> (g: impl FnOnce(&mut Ctx) -> Result<
    Tx2::Item,
    Tx1::Err,
>)
    where
        Tx1: Tx<Ctx>,
        Tx2: Tx<Ctx, Err = Tx1::Err>,
        F: FnOnce(Tx1::Item) -> Tx2,
    ensures
        forall|m: &mut Ctx|
            and_then_ready::<Ctx, Tx1, Tx2, F>(tx1, f, mut_ref_current(m)) ==> #[trigger] call_requires(
                g,
                (m,),
            ),
        forall|m: &mut Ctx, r: Result<Tx2::Item, Tx1::Err>| #[trigger]
            call_ensures(g, (m,), r) ==> and_then_outcome::<Ctx, Tx1, Tx2, F>(
                tx1,
                f,
                mut_ref_current(m),
                mut_ref_future(m),
                r,
            ),
{
    move |ctx: &mut Ctx| -> (r: Result<Tx2::Item, Tx1::Err>)
        requires
            and_then_ready::<Ctx, Tx1, Tx2, F>(tx1, f, *old(ctx)),
        ensures
            and_then_outcome::<Ctx, Tx1, Tx2, F>(tx1, f, *old(ctx), *final(ctx), r),
        {
            match tx1.run(ctx) {
                Ok(x) => {
                    let tx2 = f(x);
                    let r = tx2.run(ctx);
                    r
                },
                Err(e) => Err(e),
            }
        }
}

/// Runs `tx1` and, on success, the transaction that `f` builds from its item.
pub struct AndThen<Tx1, F> {
    tx1: Tx1,
    f: F,
}

impl<Tx1, F> AndThen<Tx1, F> {
    /// The transaction run first.
    pub closed spec fn first(&self) -> Tx1 {
        self.tx1
    }

    /// The function that builds the second transaction.
    pub closed spec fn func(&self) -> F {
        self.f
    }

    /// The value that `tx1.and_then(f)` builds.
    pub closed spec fn of(tx1: Tx1, f: F) -> Self {
        AndThen { tx1, f }
    }

    /// What `of` builds holds `tx1` and `f`.
    pub proof fn lemma_of(tx1: Tx1, f: F)
        ensures
            Self::of(tx1, f).first() == tx1,
            Self::of(tx1, f).func() == f,
    {
    }
}

impl<Ctx, Tx1, Tx2, F> Tx<Ctx> for AndThen<Tx1, F> where
    Tx1: Tx<Ctx>,
    Tx2: Tx<Ctx, Err = Tx1::Err>,
    F: FnOnce(Tx1::Item) -> Tx2,
 {
    type Item = Tx2::Item;

    type Err = Tx1::Err;

    open spec fn ready(&self, ctx: Ctx) -> bool {
        and_then_ready::<Ctx, Tx1, Tx2, F>(self.first(), self.func(), ctx)
    }

    open spec fn outcome(&self, ctx: Ctx, ctx_after: Ctx, r: Result<Tx2::Item, Tx1::Err>) -> bool {
        and_then_outcome::<Ctx, Tx1, Tx2, F>(self.first(), self.func(), ctx, ctx_after, r)
    }

    fn run(self, ctx: &mut Ctx) -> (r: Result<Tx2::Item, Tx1::Err>) {
        and_then(self.tx1, self.f)(ctx)
    }
}

// ---------------------------------------------------------------- then

/// `then` is ready when `tx1` is, `f` accepts every result `tx1` may return,
/// and every transaction `f` may build is ready where `tx1` may leave the context.
pub open spec fn then_ready<Ctx, Tx1: Tx<Ctx>, Tx2: Tx<Ctx, Err = Tx1::Err>, F: FnOnce(
    Result<Tx1::Item, Tx1::Err>,
) -> Tx2>(tx1: Tx1, f: F, ctx: Ctx) -> bool {
    &&& tx1.ready(ctx)
    &&& forall|c: Ctx, r1: Result<Tx1::Item, Tx1::Err>| #[trigger]
        tx1.outcome(ctx, c, r1) ==> {
            &&& call_requires(f, (r1,))
            &&& forall|tx2: Tx2| #[trigger] call_ensures(f, (r1,), tx2) ==> tx2.ready(c)
        }
}

/// `then` yields what the transaction that `f` builds from the result of `tx1` yields.
pub open spec fn then_outcome<Ctx, Tx1: Tx<Ctx>, Tx2: Tx<Ctx, Err = Tx1::Err>, F: FnOnce(
    Result<Tx1::Item, Tx1::Err>,
) -> Tx2>(tx1: Tx1, f: F, ctx: Ctx, ctx_after: Ctx, r: Result<Tx2::Item, Tx1::Err>) -> bool {
    exists|mid: Ctx, r1: Result<Tx1::Item, Tx1::Err>, tx2: Tx2|
        #![trigger tx1.outcome(ctx, mid, r1), call_ensures(f, (r1,), tx2)]
        tx1.outcome(ctx, mid, r1) && call_ensures(f, (r1,), tx2) && tx2.outcome(mid, ctx_after, r)
}

fn then<Ctx, Tx1, Tx2, F>(tx1: Tx1, f: F) -> (g: impl FnOnce(&mut Ctx) -> Result<
    Tx2::Item,
    Tx1::Err,
>)
    where
        Tx1: Tx<Ctx>,
        Tx2: Tx<Ctx, Err = Tx1::Err>,
        F: FnOnce(Result<Tx1::Item, Tx1::Err>) -> Tx2,
    ensures
        forall|m: &mut Ctx|
            then_ready::<Ctx, Tx1, Tx2, F>(tx1, f, mut_ref_current(m)) ==> #[trigger] call_requires(
                g,
                (m,),
            ),
        forall|m: &mut Ctx, r: Result<Tx2::Item, Tx1::Err>| #[trigger]
            call_ensures(g, (m,), r) ==> then_outcome::<Ctx, Tx1, Tx2, F>(
                tx1,
                f,
                mut_ref_current(m),
                mut_ref_future(m),
                r,
            ),
{
    move |ctx: &mut Ctx| -> (r: Result<Tx2::Item, Tx1::Err>)
        requires
            then_ready::<Ctx, Tx1, Tx2, F>(tx1, f, *old(ctx)),
        ensures
            then_outcome::<Ctx, Tx1, Tx2, F>(tx1, f, *old(ctx), *final(ctx), r),
        {
            let r1 = tx1.run(ctx);
            let tx2 = f(r1);
            let r = tx2.run(ctx);
            r
        }
}

/// Runs `tx1` and then, whatever its result, the transaction that `f` builds
/// from that result.
pub struct Then<Tx1, F> {
    tx1: Tx1,
    f: F,
}

impl<Tx1, F> Then<Tx1, F> {
    /// The transaction run first.
    pub closed spec fn first(&self) -> Tx1 {
        self.tx1
    }

    /// The function that builds the second transaction.
    pub closed spec fn func(&self) -> F {
        self.f
    }
}

impl<Ctx, Tx1, Tx2, F> Tx<Ctx> for Then<Tx1, F> where
    Tx1: Tx<Ctx>,
    Tx2: Tx<Ctx, Err = Tx1::Err>,
    F: FnOnce(Result<Tx1::Item, Tx1::Err>) -> Tx2,
 {
    type Item = Tx2::Item;

    type Err = Tx1::Err;

    open spec fn ready(&self, ctx: Ctx) -> bool {
        then_ready::<Ctx, Tx1, Tx2, F>(self.first(), self.func(), ctx)
    }

    open spec fn outcome(&self, ctx: Ctx, ctx_after: Ctx, r: Result<Tx2::Item, Tx1::Err>) -> bool {
        then_outcome::<Ctx, Tx1, Tx2, F>(self.first(), self.func(), ctx, ctx_after, r)
    }

    fn run(self, ctx: &mut Ctx) -> (r: Result<Tx2::Item, Tx1::Err>) {
        then(self.tx1, self.f)(ctx)
    }
}

// ---------------------------------------------------------------- or_else

/// `or_else` is ready when `tx1` is, `f` accepts every error `tx1` may return,
/// and every transaction `f` may build is ready where `tx1` may leave the context.
pub open spec fn or_else_ready<Ctx, Tx1: Tx<Ctx>, Tx2: Tx<
    Ctx,
    Item = Tx1::Item,
    Err = Tx1::Err,
>, F: FnOnce(Tx1::Err) -> Tx2>(tx1: Tx1, f: F, ctx: Ctx) -> bool {
    &&& tx1.ready(ctx)
    &&& forall|c: Ctx, e: Tx1::Err| #[trigger]
        tx1.outcome(ctx, c, Err(e)) ==> {
            &&& call_requires(f, (e,))
            &&& forall|tx2: Tx2| #[trigger] call_ensures(f, (e,), tx2) ==> tx2.ready(c)
        }
}

/// `or_else` succeeds as `tx1` does, or yields what the transaction built
/// from the error of `tx1` yields.
pub open spec fn or_else_outcome<Ctx, Tx1: Tx<Ctx>, Tx2: Tx<
    Ctx,
    Item = Tx1::Item,
    Err = Tx1::Err,
>, F: FnOnce(Tx1::Err) -> Tx2>(
    tx1: Tx1,
    f: F,
    ctx: Ctx,
    ctx_after: Ctx,
    r: Result<Tx1::Item, Tx1::Err>,
) -> bool {
    ||| (r is Ok && tx1.outcome(ctx, ctx_after, r))
    ||| continued_on_error::<Ctx, Tx1, Tx2, F>(tx1, f, ctx, ctx_after, r)
}

/// `tx1` may fail from `ctx` to some `mid` with an error from which `f` may
/// build a transaction that may run from `mid` to `ctx_after` with result `r`.
pub open spec fn continued_on_error<Ctx, Tx1: Tx<Ctx>, Tx2: Tx<
    Ctx,
    Item = Tx1::Item,
    Err = Tx1::Err,
>, F: FnOnce(Tx1::Err) -> Tx2>(
    tx1: Tx1,
    f: F,
    ctx: Ctx,
    ctx_after: Ctx,
    r: Result<Tx1::Item, Tx1::Err>,
) -> bool {
    exists|mid: Ctx, e: Tx1::Err, tx2: Tx2|
        #![trigger tx1.outcome(ctx, mid, Err(e)), call_ensures(f, (e,), tx2)]
        tx1.outcome(ctx, mid, Err(e)) && call_ensures(f, (e,), tx2) && tx2.outcome(mid, ctx_after, r)
}

fn or_else<Ctx, Tx1, Tx2, F>(tx1: Tx1, f: F) -> (g: impl FnOnce(&mut Ctx) -> Result<
    Tx2::Item,
    Tx1::Err,
>)
    where
        Tx1: Tx<Ctx>,
        Tx2: Tx<Ctx, Item = Tx1::Item, Err = Tx1::Err>,
        F: FnOnce(Tx1::Err) -> Tx2,
    ensures
        forall|m: &mut Ctx|
            or_else_ready::<Ctx, Tx1, Tx2, F>(tx1, f, mut_ref_current(m)) ==> #[trigger] call_requires(
                g,
                (m,),
            ),
        forall|m: &mut Ctx, r: Result<Tx2::Item, Tx1::Err>| #[trigger]
            call_ensures(g, (m,), r) ==> or_else_outcome::<Ctx, Tx1, Tx2, F>(
                tx1,
                f,
                mut_ref_current(m),
                mut_ref_future(m),
                r,
            ),
{
    move |ctx: &mut Ctx| -> (r: Result<Tx2::Item, Tx1::Err>)
        requires
            or_else_ready::<Ctx, Tx1, Tx2, F>(tx1, f, *old(ctx)),
        ensures
            or_else_outcome::<Ctx, Tx1, Tx2, F>(tx1, f, *old(ctx), *final(ctx), r),
        {
            match tx1.run(ctx) {
                Ok(t) => Ok(t),
                Err(e) => {
                    let tx2 = f(e);
                    let r = tx2.run(ctx);
                    r
                },
            }
        }
}

/// Runs `tx1` and, on failure, the transaction that `f` builds from its error.
pub struct OrElse<Tx1, F> {
    tx1: Tx1,
    f: F,
}

impl<Tx1, F> OrElse<Tx1, F> {
    /// The transaction run first.
    pub closed spec fn first(&self) -> Tx1 {
        self.tx1
    }

    /// The function that builds the fallback transaction.
    pub closed spec fn func(&self) -> F {
        self.f
    }
}

impl<Ctx, Tx1, Tx2, F> Tx<Ctx> for OrElse<Tx1, F> where
    Tx1: Tx<Ctx>,
    Tx2: Tx<Ctx, Item = Tx1::Item, Err = Tx1::Err>,
    F: FnOnce(Tx1::Err) -> Tx2,
 {
    type Item = Tx1::Item;

    type Err = Tx1::Err;

    open spec fn ready(&self, ctx: Ctx) -> bool {
        or_else_ready::<Ctx, Tx1, Tx2, F>(self.first(), self.func(), ctx)
    }

    open spec fn outcome(&self, ctx: Ctx, ctx_after: Ctx, r: Result<Tx1::Item, Tx1::Err>) -> bool {
        or_else_outcome::<Ctx, Tx1, Tx2, F>(self.first(), self.func(), ctx, ctx_after, r)
    }

    fn run(self, ctx: &mut Ctx) -> (r: Result<Tx1::Item, Tx1::Err>) {
        or_else(self.tx1, self.f)(ctx)
    }
}

// ---------------------------------------------------------------- join

/// The result of a join of two results: both items when both succeeded,
/// else the first error.
pub open spec fn join2_result<A, B, E>(r1: Result<A, E>, r2: Result<B, E>) -> Result<(A, B), E> {
    match (r1, r2) {
        (Ok(a), Ok(b)) => Ok((a, b)),
        (Err(e), _) => Err(e),
        (_, Err(e)) => Err(e),
    }
}

/// The result of a join of three results: all items when all succeeded,
/// else the first error.
pub open spec fn join3_result<A, B, C, E>(r1: Result<A, E>, r2: Result<B, E>, r3: Result<C, E>) -> Result<
    (A, B, C),
    E,
> {
    match (r1, r2, r3) {
        (Ok(a), Ok(b), Ok(c)) => Ok((a, b, c)),
        (Err(e), _, _) => Err(e),
        (_, Err(e), _) => Err(e),
        (_, _, Err(e)) => Err(e),
    }
}

/// The result of a join of four results: all items when all succeeded,
/// else the first error.
pub open spec fn join4_result<A, B, C, D, E>(
    r1: Result<A, E>,
    r2: Result<B, E>,
    r3: Result<C, E>,
    r4: Result<D, E>,
) -> Result<(A, B, C, D), E> {
    match (r1, r2, r3, r4) {
        (Ok(a), Ok(b), Ok(c), Ok(d)) => Ok((a, b, c, d)),
        (Err(e), _, _, _) => Err(e),
        (_, Err(e), _, _) => Err(e),
        (_, _, Err(e), _) => Err(e),
        (_, _, _, Err(e)) => Err(e),
    }
}

/// `join` is ready when `tx1` is and `tx2` is ready wherever `tx1` may leave
/// the context, whatever its result.
pub open spec fn join_ready<Ctx, Tx1: Tx<Ctx>, Tx2: Tx<Ctx, Err = Tx1::Err>>(
    tx1: Tx1,
    tx2: Tx2,
    ctx: Ctx,
) -> bool {
    &&& tx1.ready(ctx)
    &&& forall|c1: Ctx, r1: Result<Tx1::Item, Tx1::Err>| #[trigger]
        tx1.outcome(ctx, c1, r1) ==> tx2.ready(c1)
}

/// `join` runs `tx1` and then `tx2`, both in every case, and combines their
/// results with `join2_result`.
pub open spec fn join_outcome<Ctx, Tx1: Tx<Ctx>, Tx2: Tx<Ctx, Err = Tx1::Err>>(
    tx1: Tx1,
    tx2: Tx2,
    ctx: Ctx,
    ctx_after: Ctx,
    r: Result<(Tx1::Item, Tx2::Item), Tx1::Err>,
) -> bool {
    exists|c1: Ctx, r1: Result<Tx1::Item, Tx1::Err>, r2: Result<Tx2::Item, Tx1::Err>|
        #![trigger tx1.outcome(ctx, c1, r1), tx2.outcome(c1, ctx_after, r2)]
        tx1.outcome(ctx, c1, r1) && tx2.outcome(c1, ctx_after, r2) && r == join2_result(r1, r2)
}

fn join<Ctx, Tx1, Tx2>(tx1: Tx1, tx2: Tx2) -> (g: impl FnOnce(&mut Ctx) -> Result<
    (Tx1::Item, Tx2::Item),
    Tx1::Err,
>)
    where
        Tx1: Tx<Ctx>,
        Tx2: Tx<Ctx, Err = Tx1::Err>,
    ensures
        forall|m: &mut Ctx|
            join_ready(tx1, tx2, mut_ref_current(m)) ==> #[trigger] call_requires(g, (m,)),
        forall|m: &mut Ctx, r: Result<(Tx1::Item, Tx2::Item), Tx1::Err>| #[trigger]
            call_ensures(g, (m,), r) ==> join_outcome(
                tx1,
                tx2,
                mut_ref_current(m),
                mut_ref_future(m),
                r,
            ),
{
    move |ctx: &mut Ctx| -> (r: Result<(Tx1::Item, Tx2::Item), Tx1::Err>)
        requires
            join_ready(tx1, tx2, *old(ctx)),
        ensures
            join_outcome(tx1, tx2, *old(ctx), *final(ctx), r),
        {
            let r1 = tx1.run(ctx);
            let r2 = tx2.run(ctx);
            let ghost (g1, g2) = (r1, r2);
            let r = match (r1, r2) {
                (Ok(t), Ok(u)) => Ok((t, u)),
                (Err(e), _) | (_, Err(e)) => Err(e),
            };
            assert(r == join2_result(g1, g2));
            r
        }
}

/// Runs `tx1` and then `tx2`, and pairs their items.
pub struct Join<Tx1, Tx2> {
    tx1: Tx1,
    tx2: Tx2,
}

impl<Tx1, Tx2> Join<Tx1, Tx2> {
    /// The transaction run first.
    pub closed spec fn first(&self) -> Tx1 {
        self.tx1
    }

    /// The transaction run second.
    pub closed spec fn second(&self) -> Tx2 {
        self.tx2
    }
}

impl<Ctx, Tx1, Tx2> Tx<Ctx> for Join<Tx1, Tx2> where Tx1: Tx<Ctx>, Tx2: Tx<Ctx, Err = Tx1::Err> {
    type Item = (Tx1::Item, Tx2::Item);

    type Err = Tx1::Err;

    open spec fn ready(&self, ctx: Ctx) -> bool {
        join_ready(self.first(), self.second(), ctx)
    }

    open spec fn outcome(
        &self,
        ctx: Ctx,
        ctx_after: Ctx,
        r: Result<(Tx1::Item, Tx2::Item), Tx1::Err>,
    ) -> bool {
        join_outcome(self.first(), self.second(), ctx, ctx_after, r)
    }

    fn run(self, ctx: &mut Ctx) -> (r: Result<(Tx1::Item, Tx2::Item), Tx1::Err>) {
        join(self.tx1, self.tx2)(ctx)
    }
}

// ---------------------------------------------------------------- join3

/// `join3` is ready when each transaction is ready wherever the ones before
/// it may leave the context, whatever their results.
pub open spec fn join3_ready<Ctx, Tx1: Tx<Ctx>, Tx2: Tx<Ctx, Err = Tx1::Err>, Tx3: Tx<
    Ctx,
    Err = Tx1::Err,
>>(tx1: Tx1, tx2: Tx2, tx3: Tx3, ctx: Ctx) -> bool {
    &&& tx1.ready(ctx)
    &&& forall|c1: Ctx, r1: Result<Tx1::Item, Tx1::Err>| #[trigger]
        tx1.outcome(ctx, c1, r1) ==> {
            &&& tx2.ready(c1)
            &&& forall|c2: Ctx, r2: Result<Tx2::Item, Tx1::Err>| #[trigger]
                tx2.outcome(c1, c2, r2) ==> tx3.ready(c2)
        }
}

/// `join3` runs the three transactions in turn, all in every case, and
/// combines their results with `join3_result`.
pub open spec fn join3_outcome<Ctx, Tx1: Tx<Ctx>, Tx2: Tx<Ctx, Err = Tx1::Err>, Tx3: Tx<
    Ctx,
    Err = Tx1::Err,
>>(
    tx1: Tx1,
    tx2: Tx2,
    tx3: Tx3,
    ctx: Ctx,
    ctx_after: Ctx,
    r: Result<(Tx1::Item, Tx2::Item, Tx3::Item), Tx1::Err>,
) -> bool {
    exists|
        c1: Ctx,
        c2: Ctx,
        r1: Result<Tx1::Item, Tx1::Err>,
        r2: Result<Tx2::Item, Tx1::Err>,
        r3: Result<Tx3::Item, Tx1::Err>,
    |
        #![trigger tx1.outcome(ctx, c1, r1), tx2.outcome(c1, c2, r2), tx3.outcome(c2, ctx_after, r3)]
        tx1.outcome(ctx, c1, r1) && tx2.outcome(c1, c2, r2) && tx3.outcome(c2, ctx_after, r3) && r
            == join3_result(r1, r2, r3)
}

fn join3<Ctx, Tx1, Tx2, Tx3>(tx1: Tx1, tx2: Tx2, tx3: Tx3) -> (g: impl FnOnce(&mut Ctx) -> Result<
    (Tx1::Item, Tx2::Item, Tx3::Item),
    Tx1::Err,
>)
    where
        Tx1: Tx<Ctx>,
        Tx2: Tx<Ctx, Err = Tx1::Err>,
        Tx3: Tx<Ctx, Err = Tx1::Err>,
    ensures
        forall|m: &mut Ctx|
            join3_ready(tx1, tx2, tx3, mut_ref_current(m)) ==> #[trigger] call_requires(g, (m,)),
        forall|m: &mut Ctx, r: Result<(Tx1::Item, Tx2::Item, Tx3::Item), Tx1::Err>| #[trigger]
            call_ensures(g, (m,), r) ==> join3_outcome(
                tx1,
                tx2,
                tx3,
                mut_ref_current(m),
                mut_ref_future(m),
                r,
            ),
{
    move |ctx: &mut Ctx| -> (r: Result<(Tx1::Item, Tx2::Item, Tx3::Item), Tx1::Err>)
        requires
            join3_ready(tx1, tx2, tx3, *old(ctx)),
        ensures
            join3_outcome(tx1, tx2, tx3, *old(ctx), *final(ctx), r),
        {
            let r1 = tx1.run(ctx);
            let r2 = tx2.run(ctx);
            let r3 = tx3.run(ctx);
            let ghost (g1, g2, g3) = (r1, r2, r3);
            let r = match (r1, r2, r3) {
                (Ok(t), Ok(u), Ok(v)) => Ok((t, u, v)),
                (Err(e), _, _) | (_, Err(e), _) | (_, _, Err(e)) => Err(e),
            };
            assert(r == join3_result(g1, g2, g3));
            r
        }
}

/// Runs `tx1`, `tx2` and `tx3` in turn and collects their items.
pub struct Join3<Tx1, Tx2, Tx3> {
    tx1: Tx1,
    tx2: Tx2,
    tx3: Tx3,
}

impl<Tx1, Tx2, Tx3> Join3<Tx1, Tx2, Tx3> {
    /// The transaction run first.
    pub closed spec fn first(&self) -> Tx1 {
        self.tx1
    }

    /// The transaction run second.
    pub closed spec fn second(&self) -> Tx2 {
        self.tx2
    }

    /// The transaction run third.
    pub closed spec fn third(&self) -> Tx3 {
        self.tx3
    }
}

impl<Ctx, Tx1, Tx2, Tx3> Tx<Ctx> for Join3<Tx1, Tx2, Tx3> where
    Tx1: Tx<Ctx>,
    Tx2: Tx<Ctx, Err = Tx1::Err>,
    Tx3: Tx<Ctx, Err = Tx1::Err>,
 {
    type Item = (Tx1::Item, Tx2::Item, Tx3::Item);

    type Err = Tx1::Err;

    open spec fn ready(&self, ctx: Ctx) -> bool {
        join3_ready(self.first(), self.second(), self.third(), ctx)
    }

    open spec fn outcome(
        &self,
        ctx: Ctx,
        ctx_after: Ctx,
        r: Result<(Tx1::Item, Tx2::Item, Tx3::Item), Tx1::Err>,
    ) -> bool {
        join3_outcome(self.first(), self.second(), self.third(), ctx, ctx_after, r)
    }

    fn run(self, ctx: &mut Ctx) -> (r: Result<(Tx1::Item, Tx2::Item, Tx3::Item), Tx1::Err>) {
        join3(self.tx1, self.tx2, self.tx3)(ctx)
    }
}

// ---------------------------------------------------------------- join4

/// `join4` is ready when each transaction is ready wherever the ones before
/// it may leave the context, whatever their results.
pub open spec fn join4_ready<Ctx, Tx1: Tx<Ctx>, Tx2: Tx<Ctx, Err = Tx1::Err>, Tx3: Tx<
    Ctx,
    Err = Tx1::Err,
>, Tx4: Tx<Ctx, Err = Tx1::Err>>(tx1: Tx1, tx2: Tx2, tx3: Tx3, tx4: Tx4, ctx: Ctx) -> bool {
    &&& tx1.ready(ctx)
    &&& forall|c1: Ctx, r1: Result<Tx1::Item, Tx1::Err>| #[trigger]
        tx1.outcome(ctx, c1, r1) ==> {
            &&& tx2.ready(c1)
            &&& forall|c2: Ctx, r2: Result<Tx2::Item, Tx1::Err>| #[trigger]
                tx2.outcome(c1, c2, r2) ==> {
                    &&& tx3.ready(c2)
                    &&& forall|c3: Ctx, r3: Result<Tx3::Item, Tx1::Err>| #[trigger]
                        tx3.outcome(c2, c3, r3) ==> tx4.ready(c3)
                }
        }
}

/// `join4` runs the four transactions in turn, all in every case, and
/// combines their results with `join4_result`.
pub open spec fn join4_outcome<Ctx, Tx1: Tx<Ctx>, Tx2: Tx<Ctx, Err = Tx1::Err>, Tx3: Tx<
    Ctx,
    Err = Tx1::Err,
>, Tx4: Tx<Ctx, Err = Tx1::Err>>(
    tx1: Tx1,
    tx2: Tx2,
    tx3: Tx3,
    tx4: Tx4,
    ctx: Ctx,
    ctx_after: Ctx,
    r: Result<(Tx1::Item, Tx2::Item, Tx3::Item, Tx4::Item), Tx1::Err>,
) -> bool {
    exists|
        c1: Ctx,
        c2: Ctx,
        c3: Ctx,
        r1: Result<Tx1::Item, Tx1::Err>,
        r2: Result<Tx2::Item, Tx1::Err>,
        r3: Result<Tx3::Item, Tx1::Err>,
        r4: Result<Tx4::Item, Tx1::Err>,
    |
        #![trigger tx1.outcome(ctx, c1, r1), tx2.outcome(c1, c2, r2), tx3.outcome(c2, c3, r3), tx4.outcome(c3, ctx_after, r4)]
        tx1.outcome(ctx, c1, r1) && tx2.outcome(c1, c2, r2) && tx3.outcome(c2, c3, r3)
            && tx4.outcome(c3, ctx_after, r4) && r == join4_result(r1, r2, r3, r4)
}

fn join4<Ctx, Tx1, Tx2, Tx3, Tx4>(tx1: Tx1, tx2: Tx2, tx3: Tx3, tx4: Tx4) -> (g: impl FnOnce(
    &mut Ctx,
) -> Result<(Tx1::Item, Tx2::Item, Tx3::Item, Tx4::Item), Tx1::Err>)
    where
        Tx1: Tx<Ctx>,
        Tx2: Tx<Ctx, Err = Tx1::Err>,
        Tx3: Tx<Ctx, Err = Tx1::Err>,
        Tx4: Tx<Ctx, Err = Tx1::Err>,
    ensures
        forall|m: &mut Ctx|
            join4_ready(tx1, tx2, tx3, tx4, mut_ref_current(m)) ==> #[trigger] call_requires(
                g,
                (m,),
            ),
        forall|m: &mut Ctx, r: Result<(Tx1::Item, Tx2::Item, Tx3::Item, Tx4::Item), Tx1::Err>|
            #[trigger]
            call_ensures(g, (m,), r) ==> join4_outcome(
                tx1,
                tx2,
                tx3,
                tx4,
                mut_ref_current(m),
                mut_ref_future(m),
                r,
            ),
{
    move |ctx: &mut Ctx| -> (r: Result<(Tx1::Item, Tx2::Item, Tx3::Item, Tx4::Item), Tx1::Err>)
        requires
            join4_ready(tx1, tx2, tx3, tx4, *old(ctx)),
        ensures
            join4_outcome(tx1, tx2, tx3, tx4, *old(ctx), *final(ctx), r),
        {
            let r1 = tx1.run(ctx);
            let r2 = tx2.run(ctx);
            let r3 = tx3.run(ctx);
            let r4 = tx4.run(ctx);
            let ghost (g1, g2, g3, g4) = (r1, r2, r3, r4);
            let r = match (r1, r2, r3, r4) {
                (Ok(t), Ok(u), Ok(v), Ok(w)) => Ok((t, u, v, w)),
                (Err(e), _, _, _) | (_, Err(e), _, _) | (_, _, Err(e), _) | (_, _, _, Err(e)) => Err(
                    e,
                ),
            };
            assert(r == join4_result(g1, g2, g3, g4));
            r
        }
}

/// Runs `tx1`, `tx2`, `tx3` and `tx4` in turn and collects their items.
pub struct Join4<Tx1, Tx2, Tx3, Tx4> {
    tx1: Tx1,
    tx2: Tx2,
    tx3: Tx3,
    tx4: Tx4,
}

impl<Tx1, Tx2, Tx3, Tx4> Join4<Tx1, Tx2, Tx3, Tx4> {
    /// The transaction run first.
    pub closed spec fn first(&self) -> Tx1 {
        self.tx1
    }

    /// The transaction run second.
    pub closed spec fn second(&self) -> Tx2 {
        self.tx2
    }

    /// The transaction run third.
    pub closed spec fn third(&self) -> Tx3 {
        self.tx3
    }

    /// The transaction run fourth.
    pub closed spec fn fourth(&self) -> Tx4 {
        self.tx4
    }
}

impl<Ctx, Tx1, Tx2, Tx3, Tx4> Tx<Ctx> for Join4<Tx1, Tx2, Tx3, Tx4> where
    Tx1: Tx<Ctx>,
    Tx2: Tx<Ctx, Err = Tx1::Err>,
    Tx3: Tx<Ctx, Err = Tx1::Err>,
    Tx4: Tx<Ctx, Err = Tx1::Err>,
 {
    type Item = (Tx1::Item, Tx2::Item, Tx3::Item, Tx4::Item);

    type Err = Tx1::Err;

    open spec fn ready(&self, ctx: Ctx) -> bool {
        join4_ready(self.first(), self.second(), self.third(), self.fourth(), ctx)
    }

    open spec fn outcome(
        &self,
        ctx: Ctx,
        ctx_after: Ctx,
        r: Result<(Tx1::Item, Tx2::Item, Tx3::Item, Tx4::Item), Tx1::Err>,
    ) -> bool {
        join4_outcome(self.first(), self.second(), self.third(), self.fourth(), ctx, ctx_after, r)
    }

    fn run(self, ctx: &mut Ctx) -> (r: Result<
        (Tx1::Item, Tx2::Item, Tx3::Item, Tx4::Item),
        Tx1::Err,
    >) {
        join4(self.tx1, self.tx2, self.tx3, self.tx4)(ctx)
    }
}

// ---------------------------------------------------------------- map_err

/// `map_err` yields the item of `tx1` unchanged, or `f` of its error.
pub open spec fn map_err_outcome<Ctx, Tx1: Tx<Ctx>, F: FnOnce(Tx1::Err) -> E, E>(
    tx1: Tx1,
    f: F,
    ctx: Ctx,
    ctx_after: Ctx,
    r: Result<Tx1::Item, E>,
) -> bool {
    match r {
        Ok(t) => tx1.outcome(ctx, ctx_after, Ok(t)),
        Err(e) => error_mapped(tx1, f, ctx, ctx_after, e),
    }
}

fn map_err<Ctx, Tx1, F, E>(tx1: Tx1, f: F) -> (g: impl FnOnce(&mut Ctx) -> Result<Tx1::Item, E>)
    where
        Tx1: Tx<Ctx>,
        F: FnOnce(Tx1::Err) -> E,
    ensures
        forall|m: &mut Ctx|
            error_fn_ready(tx1, f, mut_ref_current(m)) ==> #[trigger] call_requires(g, (m,)),
        forall|m: &mut Ctx, r: Result<Tx1::Item, E>| #[trigger]
            call_ensures(g, (m,), r) ==> map_err_outcome(
                tx1,
                f,
                mut_ref_current(m),
                mut_ref_future(m),
                r,
            ),
{
    move |ctx: &mut Ctx| -> (r: Result<Tx1::Item, E>)
        requires
            error_fn_ready(tx1, f, *old(ctx)),
        ensures
            map_err_outcome(tx1, f, *old(ctx), *final(ctx), r),
        {
            match tx1.run(ctx) {
                Ok(t) => Ok(t),
                Err(e) => {
                    let e2 = f(e);
                    Err(e2)
                },
            }
        }
}

/// Runs `tx1` and passes an error through `f`.
pub struct MapErr<Tx1, F> {
    tx1: Tx1,
    f: F,
}

impl<Tx1, F> MapErr<Tx1, F> {
    /// The transaction run first.
    pub closed spec fn first(&self) -> Tx1 {
        self.tx1
    }

    /// The function applied to its error.
    pub closed spec fn func(&self) -> F {
        self.f
    }
}

impl<Ctx, Tx1, F, E> Tx<Ctx> for MapErr<Tx1, F> where Tx1: Tx<Ctx>, F: FnOnce(Tx1::Err) -> E {
    type Item = Tx1::Item;

    type Err = E;

    open spec fn ready(&self, ctx: Ctx) -> bool {
        error_fn_ready(self.first(), self.func(), ctx)
    }

    open spec fn outcome(&self, ctx: Ctx, ctx_after: Ctx, r: Result<Tx1::Item, E>) -> bool {
        map_err_outcome(self.first(), self.func(), ctx, ctx_after, r)
    }

    fn run(self, ctx: &mut Ctx) -> (r: Result<Tx1::Item, E>) {
        map_err(self.tx1, self.f)(ctx)
    }
}

// ---------------------------------------------------------------- try_map

/// `try_map` fails as `tx1` does, or yields what `f` returns on the item of `tx1`.
pub open spec fn try_map_outcome<Ctx, Tx1: Tx<Ctx>, F: FnOnce(Tx1::Item) -> Result<T, Tx1::Err>, T>(
    tx1: Tx1,
    f: F,
    ctx: Ctx,
    ctx_after: Ctx,
    r: Result<T, Tx1::Err>,
) -> bool {
    ||| (r is Err && tx1.outcome(ctx, ctx_after, Err(r->Err_0)))
    ||| item_mapped(tx1, f, ctx, ctx_after, r)
}

fn try_map<Ctx, Tx1, F, T>(tx1: Tx1, f: F) -> (g: impl FnOnce(&mut Ctx) -> Result<T, Tx1::Err>)
    where
        Tx1: Tx<Ctx>,
        F: FnOnce(Tx1::Item) -> Result<T, Tx1::Err>,
    ensures
        forall|m: &mut Ctx|
            item_fn_ready(tx1, f, mut_ref_current(m)) ==> #[trigger] call_requires(g, (m,)),
        forall|m: &mut Ctx, r: Result<T, Tx1::Err>| #[trigger]
            call_ensures(g, (m,), r) ==> try_map_outcome(
                tx1,
                f,
                mut_ref_current(m),
                mut_ref_future(m),
                r,
            ),
{
    move |ctx: &mut Ctx| -> (r: Result<T, Tx1::Err>)
        requires
            item_fn_ready(tx1, f, *old(ctx)),
        ensures
            try_map_outcome(tx1, f, *old(ctx), *final(ctx), r),
        {
            match tx1.run(ctx) {
                Ok(t) => {
                    let r = f(t);
                    r
                },
                Err(e) => Err(e),
            }
        }
}

/// Runs `tx1` and replaces a successful item by the result of `f` on it.
pub struct TryMap<Tx1, F> {
    tx1: Tx1,
    f: F,
}

impl<Tx1, F> TryMap<Tx1, F> {
    /// The transaction run first.
    pub closed spec fn first(&self) -> Tx1 {
        self.tx1
    }

    /// The function applied to its item.
    pub closed spec fn func(&self) -> F {
        self.f
    }
}

impl<Ctx, Tx1, F, T> Tx<Ctx> for TryMap<Tx1, F> where
    Tx1: Tx<Ctx>,
    F: FnOnce(Tx1::Item) -> Result<T, Tx1::Err>,
 {
    type Item = T;

    type Err = Tx1::Err;

    open spec fn ready(&self, ctx: Ctx) -> bool {
        item_fn_ready(self.first(), self.func(), ctx)
    }

    open spec fn outcome(&self, ctx: Ctx, ctx_after: Ctx, r: Result<T, Tx1::Err>) -> bool {
        try_map_outcome(self.first(), self.func(), ctx, ctx_after, r)
    }

    fn run(self, ctx: &mut Ctx) -> (r: Result<T, Tx1::Err>) {
        try_map(self.tx1, self.f)(ctx)
    }
}

// ---------------------------------------------------------------- recover

/// `recover` always succeeds: with the item of `tx1`, or with `f` of its error.
pub open spec fn recover_outcome<Ctx, Tx1: Tx<Ctx>, F: FnOnce(Tx1::Err) -> Tx1::Item>(
    tx1: Tx1,
    f: F,
    ctx: Ctx,
    ctx_after: Ctx,
    r: Result<Tx1::Item, Tx1::Err>,
) -> bool {
    match r {
        Ok(t) => tx1.outcome(ctx, ctx_after, Ok(t)) || error_mapped(tx1, f, ctx, ctx_after, t),
        Err(_) => false,
    }
}

fn recover<Ctx, Tx1, F>(tx1: Tx1, f: F) -> (g: impl FnOnce(&mut Ctx) -> Result<
    Tx1::Item,
    Tx1::Err,
>)
    where
        Tx1: Tx<Ctx>,
        F: FnOnce(Tx1::Err) -> Tx1::Item,
    ensures
        forall|m: &mut Ctx|
            error_fn_ready(tx1, f, mut_ref_current(m)) ==> #[trigger] call_requires(g, (m,)),
        forall|m: &mut Ctx, r: Result<Tx1::Item, Tx1::Err>| #[trigger]
            call_ensures(g, (m,), r) ==> recover_outcome(
                tx1,
                f,
                mut_ref_current(m),
                mut_ref_future(m),
                r,
            ),
{
    move |ctx: &mut Ctx| -> (r: Result<Tx1::Item, Tx1::Err>)
        requires
            error_fn_ready(tx1, f, *old(ctx)),
        ensures
            recover_outcome(tx1, f, *old(ctx), *final(ctx), r),
        {
            match tx1.run(ctx) {
                Ok(t) => Ok(t),
                Err(e) => {
                    let t = f(e);
                    Ok(t)
                },
            }
        }
}

/// Runs `tx1` and turns an error into an item with `f`.
pub struct Recover<Tx1, F> {
    tx1: Tx1,
    f: F,
}

impl<Tx1, F> Recover<Tx1, F> {
    /// The transaction run first.
    pub closed spec fn first(&self) -> Tx1 {
        self.tx1
    }

    /// The function applied to its error.
    pub closed spec fn func(&self) -> F {
        self.f
    }
}

impl<Ctx, Tx1, F> Tx<Ctx> for Recover<Tx1, F> where
    Tx1: Tx<Ctx>,
    F: FnOnce(Tx1::Err) -> Tx1::Item,
 {
    type Item = Tx1::Item;

    type Err = Tx1::Err;

    open spec fn ready(&self, ctx: Ctx) -> bool {
        error_fn_ready(self.first(), self.func(), ctx)
    }

    open spec fn outcome(&self, ctx: Ctx, ctx_after: Ctx, r: Result<Tx1::Item, Tx1::Err>) -> bool {
        recover_outcome(self.first(), self.func(), ctx, ctx_after, r)
    }

    fn run(self, ctx: &mut Ctx) -> (r: Result<Tx1::Item, Tx1::Err>) {
        recover(self.tx1, self.f)(ctx)
    }
}

// ---------------------------------------------------------------- try_recover

/// `try_recover` succeeds as `tx1` does, or yields what `f` returns on its error.
pub open spec fn try_recover_outcome<Ctx, Tx1: Tx<Ctx>, F: FnOnce(Tx1::Err) -> Result<
    Tx1::Item,
    E,
>, E>(tx1: Tx1, f: F, ctx: Ctx, ctx_after: Ctx, r: Result<Tx1::Item, E>) -> bool {
    ||| (r is Ok && tx1.outcome(ctx, ctx_after, Ok(r->Ok_0)))
    ||| error_mapped(tx1, f, ctx, ctx_after, r)
}

fn try_recover<Ctx, Tx1, F, E>(tx1: Tx1, f: F) -> (g: impl FnOnce(&mut Ctx) -> Result<
    Tx1::Item,
    E,
>)
    where
        Tx1: Tx<Ctx>,
        F: FnOnce(Tx1::Err) -> Result<Tx1::Item, E>,
    ensures
        forall|m: &mut Ctx|
            error_fn_ready(tx1, f, mut_ref_current(m)) ==> #[trigger] call_requires(g, (m,)),
        forall|m: &mut Ctx, r: Result<Tx1::Item, E>| #[trigger]
            call_ensures(g, (m,), r) ==> try_recover_outcome(
                tx1,
                f,
                mut_ref_current(m),
                mut_ref_future(m),
                r,
            ),
{
    move |ctx: &mut Ctx| -> (r: Result<Tx1::Item, E>)
        requires
            error_fn_ready(tx1, f, *old(ctx)),
        ensures
            try_recover_outcome(tx1, f, *old(ctx), *final(ctx), r),
        {
            match tx1.run(ctx) {
                Ok(t) => Ok(t),
                Err(e) => {
                    let r = f(e);
                    r
                },
            }
        }
}

/// Runs `tx1` and replaces an error by the result of `f` on it.
pub struct TryRecover<Tx1, F> {
    tx1: Tx1,
    f: F,
}

impl<Tx1, F> TryRecover<Tx1, F> {
    /// The transaction run first.
    pub closed spec fn first(&self) -> Tx1 {
        self.tx1
    }

    /// The function applied to its error.
    pub closed spec fn func(&self) -> F {
        self.f
    }
}

impl<Ctx, Tx1, F, E> Tx<Ctx> for TryRecover<Tx1, F> where
    Tx1: Tx<Ctx>,
    F: FnOnce(Tx1::Err) -> Result<Tx1::Item, E>,
 {
    type Item = Tx1::Item;

    type Err = E;

    open spec fn ready(&self, ctx: Ctx) -> bool {
        error_fn_ready(self.first(), self.func(), ctx)
    }

    open spec fn outcome(&self, ctx: Ctx, ctx_after: Ctx, r: Result<Tx1::Item, E>) -> bool {
        try_recover_outcome(self.first(), self.func(), ctx, ctx_after, r)
    }

    fn run(self, ctx: &mut Ctx) -> (r: Result<Tx1::Item, E>) {
        try_recover(self.tx1, self.f)(ctx)
    }
}

// ---------------------------------------------------------------- abort

/// `abort` always fails: with the error of `tx1`, or with `f` of its item.
pub open spec fn abort_outcome<Ctx, Tx1: Tx<Ctx>, F: FnOnce(Tx1::Item) -> Tx1::Err>(
    tx1: Tx1,
    f: F,
    ctx: Ctx,
    ctx_after: Ctx,
    r: Result<Tx1::Item, Tx1::Err>,
) -> bool {
    match r {
        Ok(_) => false,
        Err(e) => tx1.outcome(ctx, ctx_after, Err(e)) || item_mapped(tx1, f, ctx, ctx_after, e),
    }
}

fn abort<Ctx, Tx1, F>(tx1: Tx1, f: F) -> (g: impl FnOnce(&mut Ctx) -> Result<Tx1::Item, Tx1::Err>)
    where
        Tx1: Tx<Ctx>,
        F: FnOnce(Tx1::Item) -> Tx1::Err,
    ensures
        forall|m: &mut Ctx|
            item_fn_ready(tx1, f, mut_ref_current(m)) ==> #[trigger] call_requires(g, (m,)),
        forall|m: &mut Ctx, r: Result<Tx1::Item, Tx1::Err>| #[trigger]
            call_ensures(g, (m,), r) ==> abort_outcome(
                tx1,
                f,
                mut_ref_current(m),
                mut_ref_future(m),
                r,
            ),
{
    move |ctx: &mut Ctx| -> (r: Result<Tx1::Item, Tx1::Err>)
        requires
            item_fn_ready(tx1, f, *old(ctx)),
        ensures
            abort_outcome(tx1, f, *old(ctx), *final(ctx), r),
        {
            match tx1.run(ctx) {
                Ok(t) => {
                    let e = f(t);
                    Err(e)
                },
                Err(e) => Err(e),
            }
        }
}

/// Runs `tx1` and makes a success fail with the error that `f` builds from its item.
pub struct Abort<Tx1, F> {
    tx1: Tx1,
    f: F,
}

impl<Tx1, F> Abort<Tx1, F> {
    /// The transaction run first.
    pub closed spec fn first(&self) -> Tx1 {
        self.tx1
    }

    /// The function applied to its item.
    pub closed spec fn func(&self) -> F {
        self.f
    }
}

impl<Ctx, Tx1, F> Tx<Ctx> for Abort<Tx1, F> where
    Tx1: Tx<Ctx>,
    F: FnOnce(Tx1::Item) -> Tx1::Err,
 {
    type Item = Tx1::Item;

    type Err = Tx1::Err;

    open spec fn ready(&self, ctx: Ctx) -> bool {
        item_fn_ready(self.first(), self.func(), ctx)
    }

    open spec fn outcome(&self, ctx: Ctx, ctx_after: Ctx, r: Result<Tx1::Item, Tx1::Err>) -> bool {
        abort_outcome(self.first(), self.func(), ctx, ctx_after, r)
    }

    fn run(self, ctx: &mut Ctx) -> (r: Result<Tx1::Item, Tx1::Err>) {
        abort(self.tx1, self.f)(ctx)
    }
}

// ---------------------------------------------------------------- try_abort

/// `try_abort` fails as `tx1` does, or yields what `f` returns on its item.
pub open spec fn try_abort_outcome<Ctx, Tx1: Tx<Ctx>, F: FnOnce(Tx1::Item) -> Result<
    Tx1::Item,
    Tx1::Err,
>>(tx1: Tx1, f: F, ctx: Ctx, ctx_after: Ctx, r: Result<Tx1::Item, Tx1::Err>) -> bool {
    ||| (r is Err && tx1.outcome(ctx, ctx_after, r))
    ||| item_mapped(tx1, f, ctx, ctx_after, r)
}

fn try_abort<Ctx, Tx1, F>(tx1: Tx1, f: F) -> (g: impl FnOnce(&mut Ctx) -> Result<
    Tx1::Item,
    Tx1::Err,
>)
    where
        Tx1: Tx<Ctx>,
        F: FnOnce(Tx1::Item) -> Result<Tx1::Item, Tx1::Err>,
    ensures
        forall|m: &mut Ctx|
            item_fn_ready(tx1, f, mut_ref_current(m)) ==> #[trigger] call_requires(g, (m,)),
        forall|m: &mut Ctx, r: Result<Tx1::Item, Tx1::Err>| #[trigger]
            call_ensures(g, (m,), r) ==> try_abort_outcome(
                tx1,
                f,
                mut_ref_current(m),
                mut_ref_future(m),
                r,
            ),
{
    move |ctx: &mut Ctx| -> (r: Result<Tx1::Item, Tx1::Err>)
        requires
            item_fn_ready(tx1, f, *old(ctx)),
        ensures
            try_abort_outcome(tx1, f, *old(ctx), *final(ctx), r),
        {
            match tx1.run(ctx) {
                Ok(t) => {
                    let r = f(t);
                    r
                },
                Err(e) => Err(e),
            }
        }
}

/// Runs `tx1` and replaces a success by the result of `f` on its item.
pub struct TryAbort<Tx1, F> {
    tx1: Tx1,
    f: F,
}

impl<Tx1, F> TryAbort<Tx1, F> {
    /// The transaction run first.
    pub closed spec fn first(&self) -> Tx1 {
        self.tx1
    }

    /// The function applied to its item.
    pub closed spec fn func(&self) -> F {
        self.f
    }
}

impl<Ctx, Tx1, F> Tx<Ctx> for TryAbort<Tx1, F> where
    Tx1: Tx<Ctx>,
    F: FnOnce(Tx1::Item) -> Result<Tx1::Item, Tx1::Err>,
 {
    type Item = Tx1::Item;

    type Err = Tx1::Err;

    open spec fn ready(&self, ctx: Ctx) -> bool {
        item_fn_ready(self.first(), self.func(), ctx)
    }

    open spec fn outcome(&self, ctx: Ctx, ctx_after: Ctx, r: Result<Tx1::Item, Tx1::Err>) -> bool {
        try_abort_outcome(self.first(), self.func(), ctx, ctx_after, r)
    }

    fn run(self, ctx: &mut Ctx) -> (r: Result<Tx1::Item, Tx1::Err>) {
        try_abort(self.tx1, self.f)(ctx)
    }
}

// ---------------------------------------------------------------- with_tx

/// Wraps a closure over the context as a transaction.
pub fn with_tx<Ctx, F, T, E>(f: F) -> (w: WithTx<F>)
    where
        F: FnOnce(&mut Ctx) -> Result<T, E>,
    ensures
        w.func() == f,
{
    WithTx { f }
}

/// A transaction that calls a closure over the context.
pub struct WithTx<F> {
    f: F,
}

impl<F> WithTx<F> {
    /// The closure called when the transaction runs.
    pub closed spec fn func(&self) -> F {
        self.f
    }
}

impl<Ctx, F, T, E> Tx<Ctx> for WithTx<F> where F: FnOnce(&mut Ctx) -> Result<T, E> {
    type Item = T;

    type Err = E;

    open spec fn ready(&self, ctx: Ctx) -> bool {
        closure_ready(self.func(), ctx)
    }

    open spec fn outcome(&self, ctx: Ctx, ctx_after: Ctx, r: Result<T, E>) -> bool {
        closure_outcome(self.func(), ctx, r)
    }

    fn run(self, ctx: &mut Ctx) -> (r: Result<T, E>)
        ensures
            exists|m: &mut Ctx|
                mut_ref_current(m) == *old(ctx) && mut_ref_future(m) == *final(ctx)
                    && #[trigger] call_ensures(self.func(), (m,), r),
    {
        (self.f)(ctx)
    }
}


} // verus!
