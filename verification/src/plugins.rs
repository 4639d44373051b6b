//! The one-time initialisation that must have succeeded before an engine is opened.

use vstd::prelude::*;
use crate::error::{Error, ErrorKind, wrapped};

verus! {

/// Proof that plugin initialisation has succeeded in this process. Opening an
/// engine asks for one, and only [`PluginsReady::confirm`] makes one.
#[derive(Debug)]
pub struct PluginsReady {
    _sealed: (),
}

/// Reports how plugin initialisation went. A report of `false` is no error
/// here: the caller has to stop on it. An engine failure carries its message.
pub fn init_trtllm_plugins(outcome: Result<bool, String>) -> (r: Result<bool, Error>)
    ensures
        match outcome {
            Ok(initialized) => r is Ok && r->Ok_0 == initialized,
            Err(reason) => r is Err && r->Err_0.kind == ErrorKind::BootstrapFailure
                && r->Err_0.message@ == wrapped("Failed to initialize plugins"@, reason@),
        },
{
    match outcome {
        Ok(initialized) => Ok(initialized),
        Err(reason) => Err(
            Error::wrap(ErrorKind::BootstrapFailure, "Failed to initialize plugins", reason.as_str()),
        ),
    }
}

impl PluginsReady {
    /// Turns the report of plugin initialisation into the capability to open
    /// engines, or into a bootstrap failure where the report was `false`.
    pub fn confirm(initialized: bool) -> (r: Result<PluginsReady, Error>)
        ensures
            initialized ==> r is Ok,
            !initialized ==> r is Err && r->Err_0.kind == ErrorKind::BootstrapFailure
                && r->Err_0.message@ == "Failed to initialize plugins"@,
    {
        if initialized {
            Ok(PluginsReady { _sealed: () })
        } else {
            Err(
                Error {
                    kind: ErrorKind::BootstrapFailure,
                    message: "Failed to initialize plugins".to_owned(),
                },
            )
        }
    }
}

} // verus!
