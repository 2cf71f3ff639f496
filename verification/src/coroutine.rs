//! Coroutine driver: the `GmailCoroutine` trait and its `GmailYield` /
//! `GmailCoroutineState` values.
//!
//! A coroutine never performs I/O itself: each `resume` either yields a
//! request to read from or write to the stream, or completes with the
//! outcome of the exchange. The caller passes `None` on the first resume
//! and after a write, and `Some(bytes)` after a read (`Some(&[])` at the
//! end of the stream).

use vstd::prelude::*;

verus! {

/// One step of a coroutine: an intermediate yield, or the completion.
#[derive(Debug)]
pub enum GmailCoroutineState<Y, R> {
    Yielded(Y),
    Complete(R),
}

/// A resumable state machine that yields `Yield` values until it
/// completes with a `Return` value.
pub trait GmailCoroutine {
    type Yield;
    type Return;

    fn resume(&mut self, arg: Option<&[u8]>) -> GmailCoroutineState<Self::Yield, Self::Return>;
}

/// The I/O a coroutine asks its caller to perform.
#[derive(Debug)]
pub enum GmailYield {
    /// Read bytes from the stream and pass them to the next resume.
    WantsRead,
    /// Write these bytes to the stream, then resume with `None`.
    WantsWrite(Vec<u8>),
}

} // verus!
