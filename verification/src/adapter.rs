//! The error sink: a failed result becomes exactly one generic error
//! notification on the workspace and is not propagated further.
//!
//! The surrounding application renders the failure's debug text and logs it
//! before handing the text here; re-entering the user-interface context from
//! background work is likewise the application's part, and when re-entry is
//! refused — the window is gone — this adapter is simply never reached.

use vstd::prelude::*;
use crate::workspace::{Workspace, error_shown};

verus! {

/// Consumes a result: `Ok` passes through as `Some` and leaves the workspace
/// untouched; `Err` carries the failure's debug text, is shown as the generic
/// error notification — replacing any error already on display — and becomes
/// `None`: handled, never re-raised.
pub fn notify_err<T>(result: Result<T, String>, workspace: &mut Workspace) -> (handled: Option<T>)
    requires
        old(workspace).wf(),
    ensures
        final(workspace).wf(),
        result matches Ok(value) ==> handled == Some(value) && final(workspace).entries() == old(
            workspace,
        ).entries(),
        result matches Err(err) ==> handled is None && error_shown(
            old(workspace).entries(),
            final(workspace).entries(),
            err@,
        ),
{
    match result {
        Ok(value) => Some(value),
        Err(err) => {
            workspace.show_error(err.as_str());
            None
        },
    }
}

} // verus!
