//! The launch-argument path and the startup query.
//!
//! At process start the shell may be handed one source-file path on the
//! command line. It is captured once and queried once. The startup query
//! swallows decryption failures: where the menu-driven path shows the
//! failure's message in a dialog, a bad startup path yields nothing at
//! all — a deliberate asymmetry the caller must not be able to observe.

use vstd::prelude::*;

use crate::content::{Content, DecryptError};

verus! {

/// The source path supplied as a launch argument, if one was: written at
/// most once, at process start, and read by the startup query.
pub struct StartupPath {
    /// The captured path, or `None` when no argument was given.
    pub path: Option<String>,
}

impl StartupPath {
    /// Capture the launch argument exactly as it was given, present or
    /// not.
    pub fn capture(arg: Option<String>) -> (r: StartupPath)
        ensures
            r.path == arg,
    {
        StartupPath { path: arg }
    }

    /// The stored path, for the shell to run the decryption against.
    pub fn stored(&self) -> (r: Option<&String>)
        ensures
            r matches Some(p) ==> self.path matches Some(q) && p == q,
            r is None <==> self.path is None,
    {
        self.path.as_ref()
    }
}

/// The startup query's answer. `run` is what happened for the stored path:
/// `None` when no path was stored (no run was attempted), otherwise the
/// run's outcome. Success hands the record through untouched; every
/// failure is swallowed — the caller gets an absent value, never an error.
pub fn initial_contents(run: Option<Result<Content, DecryptError>>) -> (r: Option<Content>)
    ensures
        run matches Some(Ok(c)) ==> r == Some(c),
        run is None ==> r is None,
        run matches Some(Err(e)) ==> r is None,
{
    match run {
        Some(outcome) => match outcome {
            Ok(c) => Some(c),
            Err(_) => None,
        },
        None => None,
    }
}

} // verus!
