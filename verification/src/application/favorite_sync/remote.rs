//! The upstream side of synchronization: the remote bound to the upstream
//! client, and what a change of one upstream favorite comes to.
use super::SyncTaskError;
use std::sync::Arc;
use vstd::prelude::*;

verus! {

/// The upstream favorites of the logged-in account, reached through the
/// upstream client `C` and the endpoint manager `E`, which fail over between
/// the service's endpoints.
pub struct JmFavoriteRemote<C, E> {
    pub jm: Arc<C>,
    pub endpoints: Arc<E>,
}

impl<C, E> JmFavoriteRemote<C, E> {
    pub fn new(jm: Arc<C>, endpoints: Arc<E>) -> (r: Self)
        ensures
            r.jm == jm,
            r.endpoints == endpoints,
    {
        JmFavoriteRemote { jm, endpoints }
    }
}

/// Whether the upstream favorite must be toggled: only when what the upstream
/// shows differs from the target.
pub fn toggle_needed(current: bool, target: bool) -> (r: bool)
    ensures
        r == (current != target),
{
    current != target
}

/// What bringing an upstream favorite to `target` came to, once the toggle
/// was sent (`toggle_error` holds its failure, if it failed) and the state
/// read again (`verified`, or the failure of that read): done when the state
/// read is the target; otherwise the toggle's failure, or the fact that the
/// target was not reached; when the read failed, both failures, or the read's.
pub fn toggle_outcome(target: bool, toggle_error: Option<String>, verified: Result<bool, String>) -> (r:
    Result<(), SyncTaskError>)
    ensures
        match verified {
            Ok(actual) => if actual == target {
                r is Ok
            } else {
                match toggle_error {
                    Some(t) => r matches Err(SyncTaskError::Remote(m)) && m@ == t@,
                    None => r matches Err(SyncTaskError::TargetNotReached),
                }
            },
            Err(v) => match toggle_error {
                Some(t) => r matches Err(SyncTaskError::ToggleAndVerify(a, b)) && a@ == t@ && b@
                    == v@,
                None => r matches Err(SyncTaskError::Remote(m)) && m@ == v@,
            },
        },
{
    match verified {
        Ok(actual) => {
            if actual == target {
                Ok(())
            } else {
                match toggle_error {
                    Some(t) => Err(SyncTaskError::Remote(t)),
                    None => Err(SyncTaskError::TargetNotReached),
                }
            }
        },
        Err(v) => match toggle_error {
            Some(t) => Err(SyncTaskError::ToggleAndVerify(t, v)),
            None => Err(SyncTaskError::Remote(v)),
        },
    }
}

} // verus!
