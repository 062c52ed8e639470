//! Laws that relate the combinators to each other.
//!
//! Each law is stated over the `ready` / `outcome` model of the transactions
//! involved, for every transaction and every function that the combinators
//! accept.
use vstd::prelude::*;
use crate::transaction::{
    Abort, AndThen, Join, Join3, Join4, MapErr, MapTx, OrElse, Recover, TryMap, TryRecover, Tx,
    WithTx,
};

verus! {

/// A recovered transaction never fails.
pub proof fn recover_never_fails<Ctx, Tx1: Tx<Ctx>, F: FnOnce(Tx1::Err) -> Tx1::Item>(
    tx: Recover<Tx1, F>,
    ctx: Ctx,
    ctx_after: Ctx,
    r: Result<Tx1::Item, Tx1::Err>,
)
    requires
        tx.outcome(ctx, ctx_after, r),
    ensures
        r is Ok,
{
}

/// An aborted transaction never succeeds.
pub proof fn abort_never_succeeds<Ctx, Tx1: Tx<Ctx>, F: FnOnce(Tx1::Item) -> Tx1::Err>(
    tx: Abort<Tx1, F>,
    ctx: Ctx,
    ctx_after: Ctx,
    r: Result<Tx1::Item, Tx1::Err>,
)
    requires
        tx.outcome(ctx, ctx_after, r),
    ensures
        r is Err,
{
}

/// `map_err` leaves successes alone: it succeeds with an item exactly when the
/// inner transaction does, with the same item and the same context.
pub proof fn map_err_keeps_successes<Ctx, Tx1: Tx<Ctx>, F: FnOnce(Tx1::Err) -> E, E>(
    tx: MapErr<Tx1, F>,
    ctx: Ctx,
    ctx_after: Ctx,
    t: Tx1::Item,
)
    ensures
        tx.outcome(ctx, ctx_after, Ok(t)) <==> tx.first().outcome(ctx, ctx_after, Ok(t)),
{
}

/// `map` leaves failures alone: it fails with an error exactly when the inner
/// transaction does, with the same error and the same context.
pub proof fn map_keeps_failures<Ctx, Tx1: Tx<Ctx>, F: FnOnce(Tx1::Item) -> T, T>(
    tx: MapTx<Tx1, F>,
    ctx: Ctx,
    ctx_after: Ctx,
    e: Tx1::Err,
)
    ensures
        tx.outcome(ctx, ctx_after, Err(e)) <==> tx.first().outcome(ctx, ctx_after, Err(e)),
{
}

/// Mapping with a function that returns its argument changes nothing that
/// the transaction may do.
pub proof fn map_identity<Ctx, Tx1: Tx<Ctx>, F: FnOnce(Tx1::Item) -> Tx1::Item>(
    tx: MapTx<Tx1, F>,
    ctx: Ctx,
    ctx_after: Ctx,
    r: Result<Tx1::Item, Tx1::Err>,
)
    requires
        forall|x: Tx1::Item, y: Tx1::Item| #[trigger] call_ensures(tx.func(), (x,), y) ==> y == x,
        tx.outcome(ctx, ctx_after, r),
    ensures
        tx.first().outcome(ctx, ctx_after, r),
{
}

/// Mapping twice is mapping once with the composed function: when `h` may
/// turn `x` into `z` exactly when `f` may turn `x` into some `y` that `g`
/// may turn into `z`, `tx.map(f).map(g)` and `tx.map(h)` have the same outcomes.
pub proof fn map_composition<
    Ctx,
    Tx1: Tx<Ctx>,
    F: FnOnce(Tx1::Item) -> U,
    G: FnOnce(U) -> V,
    H: FnOnce(Tx1::Item) -> V,
    U,
    V,
>(
    twice: MapTx<MapTx<Tx1, F>, G>,
    once: MapTx<Tx1, H>,
    ctx: Ctx,
    ctx_after: Ctx,
    r: Result<V, Tx1::Err>,
)
    requires
        twice.first().first() == once.first(),
        forall|x: Tx1::Item, z: V| #[trigger]
            call_ensures(once.func(), (x,), z) <==> exists|y: U|
                call_ensures(twice.first().func(), (x,), y) && #[trigger] call_ensures(
                    twice.func(),
                    (y,),
                    z,
                ),
    ensures
        twice.outcome(ctx, ctx_after, r) <==> once.outcome(ctx, ctx_after, r),
{
    let tx1 = once.first();
    let f = twice.first().func();
    let g = twice.func();
    let h = once.func();
    if let Ok(z) = r {
        if twice.outcome(ctx, ctx_after, r) {
            let y = choose|y: U| twice.first().outcome(ctx, ctx_after, Ok(y)) && #[trigger] call_ensures(g, (y,), z);
            let x = choose|x: Tx1::Item| tx1.outcome(ctx, ctx_after, Ok(x)) && #[trigger] call_ensures(f, (x,), y);
            assert(call_ensures(h, (x,), z));
        }
        if once.outcome(ctx, ctx_after, r) {
            let x = choose|x: Tx1::Item| tx1.outcome(ctx, ctx_after, Ok(x)) && #[trigger] call_ensures(h, (x,), z);
            let y = choose|y: U| call_ensures(f, (x,), y) && #[trigger] call_ensures(g, (y,), z);
            assert(twice.first().outcome(ctx, ctx_after, Ok(y)));
        }
    }
}

/// When `tx1` fails with `e` and `tx2`, which runs all the same, ends with
/// `r2`, their join fails with `e`, and the context is where `tx2` left it.
pub proof fn join_reports_first_error<Ctx, Tx1: Tx<Ctx>, Tx2: Tx<Ctx, Err = Tx1::Err>>(
    tx: Join<Tx1, Tx2>,
    ctx: Ctx,
    mid: Ctx,
    ctx_after: Ctx,
    e: Tx1::Err,
    r2: Result<Tx2::Item, Tx1::Err>,
)
    requires
        tx.first().outcome(ctx, mid, Err(e)),
        tx.second().outcome(mid, ctx_after, r2),
    ensures
        tx.outcome(ctx, ctx_after, Err(e)),
{
    assert(crate::transaction::join2_result::<Tx1::Item, Tx2::Item, Tx1::Err>(Err(e), r2) == Err::<
        (Tx1::Item, Tx2::Item),
        Tx1::Err,
    >(e));
}

/// Flattens the item of a join nested to the left into a triple.
pub open spec fn flatten3<A, B, C, E>(r: Result<((A, B), C), E>) -> Result<(A, B, C), E> {
    match r {
        Ok(((a, b), c)) => Ok((a, b, c)),
        Err(e) => Err(e),
    }
}

/// Flattens the item of a join of a triple and a fourth item into a quadruple.
pub open spec fn flatten4<A, B, C, D, E>(r: Result<((A, B, C), D), E>) -> Result<(A, B, C, D), E> {
    match r {
        Ok(((a, b, c), d)) => Ok((a, b, c, d)),
        Err(e) => Err(e),
    }
}

/// `join3` is `join` nested to the left: `a.join3(b, c)` is ready and may end
/// with `r` exactly when `a.join(b).join(c)` is ready and may end with a
/// result that flattens to `r`.
pub proof fn join3_is_nested_join<
    Ctx,
    A: Tx<Ctx>,
    B: Tx<Ctx, Err = A::Err>,
    C: Tx<Ctx, Err = A::Err>,
>(
    triple: Join3<A, B, C>,
    nested: Join<Join<A, B>, C>,
    ctx: Ctx,
    ctx_after: Ctx,
    r: Result<(A::Item, B::Item, C::Item), A::Err>,
)
    requires
        nested.first().first() == triple.first(),
        nested.first().second() == triple.second(),
        nested.second() == triple.third(),
    ensures
        triple.ready(ctx) <==> nested.ready(ctx),
        triple.outcome(ctx, ctx_after, r) <==> exists|r2: Result<((A::Item, B::Item), C::Item), A::Err>|
            nested.outcome(ctx, ctx_after, r2) && r == #[trigger] flatten3(r2),
{
    let a = triple.first();
    let b = triple.second();
    let c = triple.third();
    let ab = nested.first();
    if triple.outcome(ctx, ctx_after, r) {
        let (c1, c2, r1, r2, r3) = choose|
            c1: Ctx,
            c2: Ctx,
            r1: Result<A::Item, A::Err>,
            r2: Result<B::Item, A::Err>,
            r3: Result<C::Item, A::Err>,
        |
            #![trigger a.outcome(ctx, c1, r1), b.outcome(c1, c2, r2), c.outcome(c2, ctx_after, r3)]
            a.outcome(ctx, c1, r1) && b.outcome(c1, c2, r2) && c.outcome(c2, ctx_after, r3) && r
                == crate::transaction::join3_result(r1, r2, r3);
        let r12 = crate::transaction::join2_result(r1, r2);
        assert(ab.outcome(ctx, c2, r12));
        let rn = crate::transaction::join2_result(r12, r3);
        assert(nested.outcome(ctx, ctx_after, rn));
        assert(r == flatten3(rn));
    }
    if exists|rn: Result<((A::Item, B::Item), C::Item), A::Err>|
        nested.outcome(ctx, ctx_after, rn) && r == #[trigger] flatten3(rn) {
        let rn = choose|rn: Result<((A::Item, B::Item), C::Item), A::Err>|
            nested.outcome(ctx, ctx_after, rn) && r == #[trigger] flatten3(rn);
        let (c2, r12, r3) = choose|c2: Ctx, r12: Result<(A::Item, B::Item), A::Err>, r3: Result<C::Item, A::Err>|
            #![trigger ab.outcome(ctx, c2, r12), c.outcome(c2, ctx_after, r3)]
            ab.outcome(ctx, c2, r12) && c.outcome(c2, ctx_after, r3) && rn
                == crate::transaction::join2_result(r12, r3);
        let (c1, r1, r2) = choose|c1: Ctx, r1: Result<A::Item, A::Err>, r2: Result<B::Item, A::Err>|
            #![trigger a.outcome(ctx, c1, r1), b.outcome(c1, c2, r2)]
            a.outcome(ctx, c1, r1) && b.outcome(c1, c2, r2) && r12
                == crate::transaction::join2_result(r1, r2);
        assert(r == crate::transaction::join3_result(r1, r2, r3));
        assert(triple.outcome(ctx, ctx_after, r));
    }
    if triple.ready(ctx) {
        assert forall|c2: Ctx, r12: Result<(A::Item, B::Item), A::Err>| #[trigger]
            ab.outcome(ctx, c2, r12) implies c.ready(c2) by {
            let (c1, r1, r2) = choose|c1: Ctx, r1: Result<A::Item, A::Err>, r2: Result<B::Item, A::Err>|
                #![trigger a.outcome(ctx, c1, r1), b.outcome(c1, c2, r2)]
                a.outcome(ctx, c1, r1) && b.outcome(c1, c2, r2) && r12
                    == crate::transaction::join2_result(r1, r2);
        }
        assert(nested.ready(ctx));
    }
    if nested.ready(ctx) {
        assert forall|c1: Ctx, r1: Result<A::Item, A::Err>| #[trigger]
            a.outcome(ctx, c1, r1) implies (b.ready(c1) && forall|c2: Ctx, r2: Result<B::Item, A::Err>| #[trigger]
                b.outcome(c1, c2, r2) ==> c.ready(c2)) by {
            assert forall|c2: Ctx, r2: Result<B::Item, A::Err>| #[trigger]
                b.outcome(c1, c2, r2) implies c.ready(c2) by {
                assert(ab.outcome(ctx, c2, crate::transaction::join2_result(r1, r2)));
            }
        }
        assert(triple.ready(ctx));
    }
}

/// When `tx1` cannot succeed from `ctx`, `tx1.and_then(f)` never calls `f`:
/// it ends exactly as `tx1` does.
pub proof fn and_then_stops_on_failure<
    Ctx,
    Tx1: Tx<Ctx>,
    Tx2: Tx<Ctx, Err = Tx1::Err>,
    F: FnOnce(Tx1::Item) -> Tx2,
>(tx: AndThen<Tx1, F>, ctx: Ctx, ctx_after: Ctx, r: Result<Tx2::Item, Tx1::Err>)
    requires
        forall|c: Ctx, x: Tx1::Item| !#[trigger] tx.first().outcome(ctx, c, Ok(x)),
    ensures
        tx.outcome(ctx, ctx_after, r) <==> (r is Err && tx.first().outcome(
            ctx,
            ctx_after,
            Err(r->Err_0),
        )),
{
}

/// When `tx1` cannot fail from `ctx`, `tx1.or_else(f)` never calls `f`: it
/// ends exactly as `tx1` does.
pub proof fn or_else_stops_on_success<
    Ctx,
    Tx1: Tx<Ctx>,
    Tx2: Tx<Ctx, Item = Tx1::Item, Err = Tx1::Err>,
    F: FnOnce(Tx1::Err) -> Tx2,
>(tx: OrElse<Tx1, F>, ctx: Ctx, ctx_after: Ctx, r: Result<Tx1::Item, Tx1::Err>)
    requires
        forall|c: Ctx, e: Tx1::Err| !#[trigger] tx.first().outcome(ctx, c, Err(e)),
    ensures
        tx.outcome(ctx, ctx_after, r) <==> tx.first().outcome(ctx, ctx_after, r),
{
    if let Err(e) = r {
        assert(!tx.first().outcome(ctx, ctx_after, Err(e)));
    }
}

/// `try_map` with a function that always succeeds is `map`: when `g` may
/// return `Ok(y)` exactly when `f` may return `y`, and never an error,
/// `tx.try_map(g)` and `tx.map(f)` have the same outcomes.
pub proof fn try_map_of_total_function_is_map<
    Ctx,
    Tx1: Tx<Ctx>,
    F: FnOnce(Tx1::Item) -> T,
    G: FnOnce(Tx1::Item) -> Result<T, Tx1::Err>,
    T,
>(
    mapped: MapTx<Tx1, F>,
    tried: TryMap<Tx1, G>,
    ctx: Ctx,
    ctx_after: Ctx,
    r: Result<T, Tx1::Err>,
)
    requires
        mapped.first() == tried.first(),
        forall|x: Tx1::Item, res: Result<T, Tx1::Err>| #[trigger]
            call_ensures(tried.func(), (x,), res) ==> res is Ok,
        forall|x: Tx1::Item, y: T| #[trigger]
            call_ensures(tried.func(), (x,), Ok::<T, Tx1::Err>(y)) <==> #[trigger] call_ensures(
                mapped.func(),
                (x,),
                y,
            ),
    ensures
        mapped.outcome(ctx, ctx_after, r) <==> tried.outcome(ctx, ctx_after, r),
{
    let tx1 = mapped.first();
    if let Ok(y) = r {
        if mapped.outcome(ctx, ctx_after, r) {
            let x = choose|x: Tx1::Item| tx1.outcome(ctx, ctx_after, Ok(x)) && #[trigger] call_ensures(mapped.func(), (x,), y);
            assert(call_ensures(tried.func(), (x,), r));
        }
        if tried.outcome(ctx, ctx_after, r) {
            let x = choose|x: Tx1::Item| tx1.outcome(ctx, ctx_after, Ok(x)) && #[trigger] call_ensures(tried.func(), (x,), r);
            assert(call_ensures(mapped.func(), (x,), y));
        }
    } else {
        if tried.outcome(ctx, ctx_after, r) && !tx1.outcome(ctx, ctx_after, Err(r->Err_0)) {
            let x = choose|x: Tx1::Item| tx1.outcome(ctx, ctx_after, Ok(x)) && #[trigger] call_ensures(tried.func(), (x,), r);
            assert(r is Ok);
        }
    }
}

/// `try_recover` with a function that always succeeds is `recover`: when `g`
/// may return `Ok(t)` exactly when `f` may return `t`, and never an error,
/// `tx.try_recover(g)` and `tx.recover(f)` have the same outcomes.
pub proof fn try_recover_of_total_function_is_recover<
    Ctx,
    Tx1: Tx<Ctx>,
    F: FnOnce(Tx1::Err) -> Tx1::Item,
    G: FnOnce(Tx1::Err) -> Result<Tx1::Item, Tx1::Err>,
>(
    recovered: Recover<Tx1, F>,
    tried: TryRecover<Tx1, G>,
    ctx: Ctx,
    ctx_after: Ctx,
    r: Result<Tx1::Item, Tx1::Err>,
)
    requires
        recovered.first() == tried.first(),
        forall|e: Tx1::Err, res: Result<Tx1::Item, Tx1::Err>| #[trigger]
            call_ensures(tried.func(), (e,), res) ==> res is Ok,
        forall|e: Tx1::Err, t: Tx1::Item| #[trigger]
            call_ensures(tried.func(), (e,), Ok::<Tx1::Item, Tx1::Err>(t)) <==> #[trigger] call_ensures(
                recovered.func(),
                (e,),
                t,
            ),
    ensures
        recovered.outcome(ctx, ctx_after, r) <==> tried.outcome(ctx, ctx_after, r),
{
    let tx1 = recovered.first();
    if let Ok(t) = r {
        if recovered.outcome(ctx, ctx_after, r) && !tx1.outcome(ctx, ctx_after, r) {
            let e = choose|e: Tx1::Err| tx1.outcome(ctx, ctx_after, Err(e)) && #[trigger] call_ensures(recovered.func(), (e,), t);
            assert(call_ensures(tried.func(), (e,), r));
        }
        if tried.outcome(ctx, ctx_after, r) && !tx1.outcome(ctx, ctx_after, r) {
            let e = choose|e: Tx1::Err| tx1.outcome(ctx, ctx_after, Err(e)) && #[trigger] call_ensures(tried.func(), (e,), r);
            assert(call_ensures(recovered.func(), (e,), t));
        }
    } else {
        if tried.outcome(ctx, ctx_after, r) {
            let e = choose|e: Tx1::Err| tx1.outcome(ctx, ctx_after, Err(e)) && #[trigger] call_ensures(tried.func(), (e,), r);
            assert(r is Ok);
        }
    }
}

/// `join4` is `join3` followed by a `join`: `a.join4(b, c, d)` is ready and
/// may end with `r` exactly when `a.join3(b, c).join(d)` is ready and may end
/// with a result that flattens to `r`.
pub proof fn join4_is_join3_then_join<
    Ctx,
    A: Tx<Ctx>,
    B: Tx<Ctx, Err = A::Err>,
    C: Tx<Ctx, Err = A::Err>,
    D: Tx<Ctx, Err = A::Err>,
>(
    quad: Join4<A, B, C, D>,
    nested: Join<Join3<A, B, C>, D>,
    ctx: Ctx,
    ctx_after: Ctx,
    r: Result<(A::Item, B::Item, C::Item, D::Item), A::Err>,
)
    requires
        nested.first().first() == quad.first(),
        nested.first().second() == quad.second(),
        nested.first().third() == quad.third(),
        nested.second() == quad.fourth(),
    ensures
        quad.ready(ctx) <==> nested.ready(ctx),
        quad.outcome(ctx, ctx_after, r) <==> exists|
            r2: Result<((A::Item, B::Item, C::Item), D::Item), A::Err>,
        | nested.outcome(ctx, ctx_after, r2) && r == #[trigger] flatten4(r2),
{
    let a = quad.first();
    let b = quad.second();
    let c = quad.third();
    let d = quad.fourth();
    let abc = nested.first();
    if quad.outcome(ctx, ctx_after, r) {
        let (c1, c2, c3, r1, r2, r3, r4) = choose|
            c1: Ctx,
            c2: Ctx,
            c3: Ctx,
            r1: Result<A::Item, A::Err>,
            r2: Result<B::Item, A::Err>,
            r3: Result<C::Item, A::Err>,
            r4: Result<D::Item, A::Err>,
        |
            #![trigger a.outcome(ctx, c1, r1), b.outcome(c1, c2, r2), c.outcome(c2, c3, r3), d.outcome(c3, ctx_after, r4)]
            a.outcome(ctx, c1, r1) && b.outcome(c1, c2, r2) && c.outcome(c2, c3, r3) && d.outcome(
                c3,
                ctx_after,
                r4,
            ) && r == crate::transaction::join4_result(r1, r2, r3, r4);
        let r123 = crate::transaction::join3_result(r1, r2, r3);
        assert(abc.outcome(ctx, c3, r123));
        let rn = crate::transaction::join2_result(r123, r4);
        assert(nested.outcome(ctx, ctx_after, rn));
        assert(r == flatten4(rn));
    }
    if exists|rn: Result<((A::Item, B::Item, C::Item), D::Item), A::Err>|
        nested.outcome(ctx, ctx_after, rn) && r == #[trigger] flatten4(rn) {
        let rn = choose|rn: Result<((A::Item, B::Item, C::Item), D::Item), A::Err>|
            nested.outcome(ctx, ctx_after, rn) && r == #[trigger] flatten4(rn);
        let (c3, r123, r4) = choose|
            c3: Ctx,
            r123: Result<(A::Item, B::Item, C::Item), A::Err>,
            r4: Result<D::Item, A::Err>,
        |
            #![trigger abc.outcome(ctx, c3, r123), d.outcome(c3, ctx_after, r4)]
            abc.outcome(ctx, c3, r123) && d.outcome(c3, ctx_after, r4) && rn
                == crate::transaction::join2_result(r123, r4);
        let (c1, c2, r1, r2, r3) = choose|
            c1: Ctx,
            c2: Ctx,
            r1: Result<A::Item, A::Err>,
            r2: Result<B::Item, A::Err>,
            r3: Result<C::Item, A::Err>,
        |
            #![trigger a.outcome(ctx, c1, r1), b.outcome(c1, c2, r2), c.outcome(c2, c3, r3)]
            a.outcome(ctx, c1, r1) && b.outcome(c1, c2, r2) && c.outcome(c2, c3, r3) && r123
                == crate::transaction::join3_result(r1, r2, r3);
        assert(r == crate::transaction::join4_result(r1, r2, r3, r4));
        assert(quad.outcome(ctx, ctx_after, r));
    }
    if quad.ready(ctx) {
        assert forall|c3: Ctx, r123: Result<(A::Item, B::Item, C::Item), A::Err>| #[trigger]
            abc.outcome(ctx, c3, r123) implies d.ready(c3) by {
            let (c1, c2, r1, r2, r3) = choose|
                c1: Ctx,
                c2: Ctx,
                r1: Result<A::Item, A::Err>,
                r2: Result<B::Item, A::Err>,
                r3: Result<C::Item, A::Err>,
            |
                #![trigger a.outcome(ctx, c1, r1), b.outcome(c1, c2, r2), c.outcome(c2, c3, r3)]
                a.outcome(ctx, c1, r1) && b.outcome(c1, c2, r2) && c.outcome(c2, c3, r3) && r123
                    == crate::transaction::join3_result(r1, r2, r3);
        }
        assert(nested.ready(ctx));
    }
    if nested.ready(ctx) {
        assert forall|c1: Ctx, r1: Result<A::Item, A::Err>| #[trigger]
            a.outcome(ctx, c1, r1) implies (b.ready(c1) && forall|c2: Ctx, r2: Result<B::Item, A::Err>| #[trigger]
                b.outcome(c1, c2, r2) ==> (c.ready(c2) && forall|c3: Ctx, r3: Result<C::Item, A::Err>| #[trigger]
                    c.outcome(c2, c3, r3) ==> d.ready(c3))) by {
            assert forall|c2: Ctx, r2: Result<B::Item, A::Err>| #[trigger]
                b.outcome(c1, c2, r2) implies (c.ready(c2) && forall|c3: Ctx, r3: Result<C::Item, A::Err>| #[trigger]
                    c.outcome(c2, c3, r3) ==> d.ready(c3)) by {
                assert forall|c3: Ctx, r3: Result<C::Item, A::Err>| #[trigger]
                    c.outcome(c2, c3, r3) implies d.ready(c3) by {
                    assert(abc.outcome(ctx, c3, crate::transaction::join3_result(r1, r2, r3)));
                }
            }
        }
        assert(quad.ready(ctx));
    }
}

/// `and_then` is associative: when `h` may build from `x` exactly the
/// transactions `f(x).and_then(g)` for the transactions `f(x)` that `f` may
/// build, `tx.and_then(f).and_then(g)` and `tx.and_then(h)` are ready on the
/// same contexts and have the same outcomes.
pub proof fn and_then_is_associative<
    Ctx,
    Tx1: Tx<Ctx>,
    Tx2: Tx<Ctx, Err = Tx1::Err>,
    Tx3: Tx<Ctx, Err = Tx1::Err>,
    F: FnOnce(Tx1::Item) -> Tx2,
    G: FnOnce(Tx2::Item) -> Tx3,
    H: FnOnce(Tx1::Item) -> AndThen<Tx2, G>,
>(
    left: AndThen<AndThen<Tx1, F>, G>,
    right: AndThen<Tx1, H>,
    ctx: Ctx,
    ctx_after: Ctx,
    r: Result<Tx3::Item, Tx1::Err>,
)
    requires
        left.first().first() == right.first(),
        forall|x: Tx1::Item| call_requires(right.func(), (x,)) <==> #[trigger] call_requires(left.first().func(), (x,)),
        forall|x: Tx1::Item, t: AndThen<Tx2, G>| #[trigger]
            call_ensures(right.func(), (x,), t) <==> (t.func() == left.func() && call_ensures(
                left.first().func(),
                (x,),
                t.first(),
            )),
    ensures
        left.ready(ctx) <==> right.ready(ctx),
        left.outcome(ctx, ctx_after, r) <==> right.outcome(ctx, ctx_after, r),
{
    let tx1 = right.first();
    let f = left.first().func();
    let g = left.func();
    let h = right.func();
    let ab = left.first();
    if left.ready(ctx) {
        assert forall|m1: Ctx, x: Tx1::Item| #[trigger] tx1.outcome(ctx, m1, Ok(x)) implies {
            &&& call_requires(h, (x,))
            &&& forall|t: AndThen<Tx2, G>| #[trigger] call_ensures(h, (x,), t) ==> t.ready(m1)
        } by {
            assert forall|t: AndThen<Tx2, G>| #[trigger] call_ensures(h, (x,), t) implies t.ready(m1) by {
                let t2 = t.first();
                assert(call_ensures(f, (x,), t2));
                assert forall|mid: Ctx, y: Tx2::Item| #[trigger] t2.outcome(m1, mid, Ok(y)) implies {
                    &&& call_requires(g, (y,))
                    &&& forall|t3: Tx3| #[trigger] call_ensures(g, (y,), t3) ==> t3.ready(mid)
                } by {
                    assert(ab.outcome(ctx, mid, Ok(y)));
                }
            }
        }
        assert(right.ready(ctx));
    }
    if right.ready(ctx) {
        assert forall|m1: Ctx, x: Tx1::Item| #[trigger] tx1.outcome(ctx, m1, Ok(x)) implies {
            &&& call_requires(f, (x,))
            &&& forall|t2: Tx2| #[trigger] call_ensures(f, (x,), t2) ==> t2.ready(m1)
        } by {
            assert forall|t2: Tx2| #[trigger] call_ensures(f, (x,), t2) implies t2.ready(m1) by {
                AndThen::<Tx2, G>::lemma_of(t2, g);
                assert(call_ensures(h, (x,), AndThen::<Tx2, G>::of(t2, g)));
            }
        }
        assert(ab.ready(ctx));
        assert forall|mid: Ctx, y: Tx2::Item| #[trigger] ab.outcome(ctx, mid, Ok(y)) implies {
            &&& call_requires(g, (y,))
            &&& forall|t3: Tx3| #[trigger] call_ensures(g, (y,), t3) ==> t3.ready(mid)
        } by {
            let (m1, x, t2) = choose|m1: Ctx, x: Tx1::Item, t2: Tx2|
                #![trigger tx1.outcome(ctx, m1, Ok(x)), call_ensures(f, (x,), t2)]
                tx1.outcome(ctx, m1, Ok(x)) && call_ensures(f, (x,), t2) && t2.outcome(m1, mid, Ok(y));
            AndThen::<Tx2, G>::lemma_of(t2, g);
            assert(call_ensures(h, (x,), AndThen::<Tx2, G>::of(t2, g)));
        }
        assert(left.ready(ctx));
    }
    if left.outcome(ctx, ctx_after, r) {
        if r is Err && ab.outcome(ctx, ctx_after, Err(r->Err_0)) {
            let e = r->Err_0;
            if !tx1.outcome(ctx, ctx_after, Err(e)) {
                let (m1, x, t2) = choose|m1: Ctx, x: Tx1::Item, t2: Tx2|
                    #![trigger tx1.outcome(ctx, m1, Ok(x)), call_ensures(f, (x,), t2)]
                    tx1.outcome(ctx, m1, Ok(x)) && call_ensures(f, (x,), t2) && t2.outcome(m1, ctx_after, Err(e));
                let t = AndThen::<Tx2, G>::of(t2, g);
                AndThen::<Tx2, G>::lemma_of(t2, g);
                assert(call_ensures(h, (x,), t));
                assert(t.outcome(m1, ctx_after, r));
                assert(right.outcome(ctx, ctx_after, r));
            }
        } else {
            let (mid, y, t3) = choose|mid: Ctx, y: Tx2::Item, t3: Tx3|
                #![trigger ab.outcome(ctx, mid, Ok(y)), call_ensures(g, (y,), t3)]
                ab.outcome(ctx, mid, Ok(y)) && call_ensures(g, (y,), t3) && t3.outcome(mid, ctx_after, r);
            let (m1, x, t2) = choose|m1: Ctx, x: Tx1::Item, t2: Tx2|
                #![trigger tx1.outcome(ctx, m1, Ok(x)), call_ensures(f, (x,), t2)]
                tx1.outcome(ctx, m1, Ok(x)) && call_ensures(f, (x,), t2) && t2.outcome(m1, mid, Ok(y));
            let t = AndThen::<Tx2, G>::of(t2, g);
            AndThen::<Tx2, G>::lemma_of(t2, g);
            assert(call_ensures(h, (x,), t));
            assert(t.outcome(m1, ctx_after, r));
            assert(right.outcome(ctx, ctx_after, r));
        }
    }
    if right.outcome(ctx, ctx_after, r) {
        if r is Err && tx1.outcome(ctx, ctx_after, Err(r->Err_0)) {
            assert(ab.outcome(ctx, ctx_after, Err(r->Err_0)));
        } else {
            let (m1, x, t) = choose|m1: Ctx, x: Tx1::Item, t: AndThen<Tx2, G>|
                #![trigger tx1.outcome(ctx, m1, Ok(x)), call_ensures(h, (x,), t)]
                tx1.outcome(ctx, m1, Ok(x)) && call_ensures(h, (x,), t) && t.outcome(m1, ctx_after, r);
            let t2 = t.first();
            assert(call_ensures(f, (x,), t2));
            if r is Err && t2.outcome(m1, ctx_after, Err(r->Err_0)) {
                assert(ab.outcome(ctx, ctx_after, Err(r->Err_0)));
            } else {
                let (mid, y, t3) = choose|mid: Ctx, y: Tx2::Item, t3: Tx3|
                    #![trigger t2.outcome(m1, mid, Ok(y)), call_ensures(g, (y,), t3)]
                    t2.outcome(m1, mid, Ok(y)) && call_ensures(g, (y,), t3) && t3.outcome(mid, ctx_after, r);
                assert(ab.outcome(ctx, mid, Ok(y)));
            }
        }
    }
}

/// Wrapping a closure with `with_tx` changes nothing: the wrapper is ready
/// and may end exactly as the closure, taken as a transaction itself.
pub proof fn with_tx_is_the_closure<Ctx, T, E, F: FnOnce(&mut Ctx) -> Result<T, E>>(
    tx: WithTx<F>,
    ctx: Ctx,
    ctx_after: Ctx,
    r: Result<T, E>,
)
    ensures
        tx.ready(ctx) <==> tx.func().ready(ctx),
        tx.outcome(ctx, ctx_after, r) <==> tx.func().outcome(ctx, ctx_after, r),
{
}

} // verus!
