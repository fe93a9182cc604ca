use vstd::prelude::*;
use crate::receiver::error::TryRecvError;

verus! {

/// The receive capability of a one-shot channel. The awaitable receive —
/// which resolves exactly once, to the single transmitted value or to the
/// "dropped" failure — is an async operation that the verifier does not
/// model; the verified surface is the non-suspending probe.
pub trait AsyncReceiver<T> {
    /// Probes for the single value without suspending: `Empty` while the
    /// sender has not yet sent, `Closed` once the sender was dropped
    /// without sending.
    fn try_recv(&mut self) -> Result<T, TryRecvError>;
}

} // verus!
