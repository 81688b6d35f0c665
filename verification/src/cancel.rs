//! Cooperative cancellation handles.
//!
//! One token is created per active job and a clone of it travels to every
//! safe point of that job (between download chunks, between inference
//! windows). Cancellation is a request flag, never preemption: the token is
//! polled, and any clone may be cancelled from another thread at any moment,
//! so nothing is promised about what `is_cancelled` returns — the pipeline
//! states what holds for either answer.

use vstd::prelude::*;
use tokio_util::sync::CancellationToken;

verus! {

/// tokio_util's cancellation token, opaque to the verifier: a value is only
/// created, cloned, cancelled and polled through the declarations below.
#[verifier::external_type_specification]
#[verifier::external_body]
pub struct ExCancellationToken(CancellationToken);

/// Relies on tokio_util::sync::CancellationToken::new: returns a fresh,
/// independent token.
pub assume_specification[ CancellationToken::new ]() -> CancellationToken;

/// Relies on Clone for tokio_util::sync::CancellationToken: the clone shares
/// the original's cancellation state.
pub assume_specification[ <CancellationToken as Clone>::clone ](
    t: &CancellationToken,
) -> CancellationToken;

/// Relies on tokio_util::sync::CancellationToken::cancel: signals
/// cancellation to this token and every clone of it.
pub assume_specification[ CancellationToken::cancel ](t: &CancellationToken);

/// Relies on tokio_util::sync::CancellationToken::is_cancelled: whether
/// cancel has been called on this token or a clone of it. Another thread may
/// cancel between two calls, so no relation between calls is stated.
pub assume_specification[ CancellationToken::is_cancelled ](t: &CancellationToken) -> bool;

} // verus!
