//! Composable transactions over a shared context.
//!
//! A transaction is a value that, given mutable access to a context `Ctx`,
//! runs once and yields either an item or an error. Combinators build larger
//! transactions from smaller ones; every combinator states, over the
//! `ready` / `outcome` model of the `Tx` trait, what running it does.
pub mod laws;
pub mod notifier;
pub mod transaction;

pub use notifier::{Notifier, NotifierError};
pub use transaction::{
    with_tx, Abort, AndThen, Join, Join3, Join4, MapErr, MapTx, OrElse, Recover, Then, TryAbort,
    TryMap, TryRecover, Tx, WithTx,
};
