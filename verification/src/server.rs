//! Resolution of the language server binary and assembly of its launch
//! command.
//!
//! The host searches its configured executable locations for the server
//! binary and hands the outcome of that search in; the logic here decides
//! what to do with it: return the found path (caching it for later calls),
//! or report that the binary is missing. The launch command attaches an empty
//! argument list and environment, as the server needs neither.

use vstd::prelude::*;

verus! {

/// The error reported when the server binary cannot be located.
pub open spec fn missing_binary_message() -> Seq<char> {
    "asm-lsp binary not found in the system PATH"@
}

/// A launch descriptor for the language server process: the executable path,
/// its arguments, and its environment entries.
#[derive(Clone, PartialEq, Eq, Debug)]
pub struct LaunchCommand {
    pub command: String,
    pub args: Vec<String>,
    pub env: Vec<(String, String)>,
}

/// The long-lived extension state: it holds the resolved binary path once a
/// search has succeeded, and later resolutions reuse it instead of searching
/// again.
#[derive(Debug)]
pub struct AsmExtension {
    pub cached_binary_path: Option<String>,
}

/// What resolution leaves in the cache and returns, given the cache at entry
/// and the outcome of the host's executable search: a cached path is returned
/// unchanged; otherwise a found path is returned and cached; otherwise the
/// missing-binary error is reported and the cache stays empty.
pub open spec fn resolution_correct(
    cache_before: Option<String>,
    which_result: Option<String>,
    cache_after: Option<String>,
    r: Result<String, String>,
) -> bool {
    match cache_before {
        Some(cached) => {
            &&& (r matches Ok(p) && p@ == cached@)
            &&& (cache_after matches Some(c) && c@ == cached@)
        },
        None => match which_result {
            Some(found) => {
                &&& (r matches Ok(p) && p@ == found@)
                &&& (cache_after matches Some(c) && c@ == found@)
            },
            None => {
                &&& (r matches Err(e) && e@ == missing_binary_message())
                &&& cache_after is None
            },
        },
    }
}

impl AsmExtension {
    /// A fresh extension instance with an empty cache.
    pub fn new() -> (r: Self)
        ensures
            r.cached_binary_path is None,
    {
        AsmExtension { cached_binary_path: None }
    }

    /// The cached binary path, if an earlier resolution filled it. A caller
    /// that finds it present need not run the executable search at all.
    pub fn cached_path(&self) -> (r: Option<String>)
        ensures
            r is Some <==> self.cached_binary_path is Some,
            r matches Some(p) ==> (self.cached_binary_path matches Some(c) && p@ == c@),
    {
        match &self.cached_binary_path {
            Some(p) => Some(p.clone()),
            None => None,
        }
    }

    /// Resolves the path of the server binary from the outcome of the host's
    /// executable search.
    ///
    /// A previously cached path wins over the search outcome; a found path is
    /// returned exactly as the search reported it and cached for later calls;
    /// an unsuccessful search yields the missing-binary error, which is never
    /// empty.
    pub fn language_server_binary_path(&mut self, which_result: Option<String>) -> (r: Result<
        String,
        String,
    >)
        ensures
            resolution_correct(
                old(self).cached_binary_path,
                which_result,
                final(self).cached_binary_path,
                r,
            ),
            r matches Err(e) ==> e@.len() > 0,
    {
        proof {
            reveal_strlit("asm-lsp binary not found in the system PATH");
        }
        match &self.cached_binary_path {
            Some(cached) => Ok(cached.clone()),
            None => match which_result {
                Some(found) => {
                    self.cached_binary_path = Some(found.clone());
                    Ok(found)
                },
                None => Err("asm-lsp binary not found in the system PATH".to_owned()),
            },
        }
    }

    /// Assembles the launch command for the language server from the outcome
    /// of the host's executable search.
    ///
    /// The command is the resolved binary path with an empty argument list
    /// and an empty environment; a failed resolution is propagated unchanged.
    pub fn language_server_command(&mut self, which_result: Option<String>) -> (r: Result<
        LaunchCommand,
        String,
    >)
        ensures
            ({
                let path_result: Result<String, String> = match r {
                    Ok(c) => Ok(c.command),
                    Err(e) => Err(e),
                };
                resolution_correct(
                    old(self).cached_binary_path,
                    which_result,
                    final(self).cached_binary_path,
                    path_result,
                )
            }),
            r matches Ok(c) ==> c.args@.len() == 0 && c.env@.len() == 0,
            r matches Err(e) ==> e@.len() > 0,
    {
        match self.language_server_binary_path(which_result) {
            Ok(path) => Ok(
                LaunchCommand { command: path, args: Vec::new(), env: Vec::new() },
            ),
            Err(e) => Err(e),
        }
    }
}

} // verus!
