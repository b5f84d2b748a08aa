//! The procedure-address resolver: how the renderer gets the addresses of
//! graphics procedures while the overlay is built.
//!
//! The renderer asks for procedures by name, one after the other, and has
//! no way to be told that one is missing. So every answer of the graphics
//! loader is noted in a [`ProcLog`], and a build during which a procedure
//! was missing is a failed build.

use vstd::prelude::*;
use vstd::string::StringSliceAdditionalSpecFns;
use crate::cname::{CName, has_nul};
use crate::overlay::{RenderError, saturating_sum};

verus! {

/// What to do about a request for the address of a graphics procedure.
pub enum ProcQuery {
    /// Ask the graphics loader for the procedure of this name.
    Ask(CName),
    /// The name holds a NUL byte, so it can match no procedure: the answer
    /// is the null address, and the loader is not asked.
    Unmatchable,
}

/// Decides how a request for the procedure called `name` is served.
pub fn proc_query(name: &str) -> (query: ProcQuery)
    ensures
        query is Unmatchable <==> has_nul(name.spec_bytes()),
        query matches ProcQuery::Ask(encoded) ==> encoded@ == name.spec_bytes(),
{
    match CName::new(name) {
        Some(encoded) => ProcQuery::Ask(encoded),
        None => ProcQuery::Unmatchable,
    }
}

/// The graphics loader's answers during one build of the overlay. A
/// procedure that the loader does not know makes the build a failure.
#[derive(Clone, Copy, Debug, PartialEq, Eq, Structural)]
pub struct ProcLog {
    /// How many answers were recorded, up to the largest count.
    pub asked: u64,
    /// How many of the answers were null, up to the largest count.
    pub missing: u64,
}

impl ProcLog {
    /// The log once the answer `address` has been recorded in it.
    pub open spec fn with(self, address: usize) -> ProcLog {
        ProcLog {
            asked: saturating_sum(self.asked, 1),
            missing: if address == 0 {
                saturating_sum(self.missing, 1)
            } else {
                self.missing
            },
        }
    }

    /// What the one who asked is told when the loader answers `address`.
    pub open spec fn checked(address: usize) -> Result<usize, RenderError> {
        if address == 0 {
            Err(RenderError::ContextInitFailed)
        } else {
            Ok(address)
        }
    }

    /// A log without answers.
    pub fn new() -> (log: ProcLog)
        ensures
            log == (ProcLog { asked: 0, missing: 0 }),
    {
        ProcLog { asked: 0, missing: 0 }
    }

    /// Records one answer of the loader and hands it on: the address, or
    /// `ContextInitFailed` where the loader answered with the null address.
    pub fn record(&mut self, address: usize) -> (checked: Result<usize, RenderError>)
        ensures
            checked == ProcLog::checked(address),
            *final(self) == old(self).with(address),
    {
        self.asked = self.asked.saturating_add(1);
        if address == 0 {
            self.missing = self.missing.saturating_add(1);
            Err(RenderError::ContextInitFailed)
        } else {
            Ok(address)
        }
    }

    /// The result of the build whose loader answers were recorded here:
    /// `built`, unless the build itself failed or a procedure was missing.
    pub fn verdict<H>(&self, built: Option<H>) -> (result: Result<H, RenderError>)
        ensures
            result == match built {
                Some(handles) if self.missing == 0 => Ok::<H, RenderError>(handles),
                _ => Err(RenderError::ContextInitFailed),
            },
    {
        match built {
            Some(handles) => if self.missing == 0 {
                Ok(handles)
            } else {
                Err(RenderError::ContextInitFailed)
            },
            None => Err(RenderError::ContextInitFailed),
        }
    }
}

/// Calls `gl_loader::get_proc_address`, which asks the system's OpenGL
/// library for the procedure called `name` and gives its address, or the
/// null address where the library is not loaded or has no such procedure.
/// Nothing is claimed of the address: it depends on what the process has
/// loaded. The name must hold no NUL byte, which the call would panic on.
#[verifier::external_body]
fn loader_proc_address(name: &str) -> (address: usize)
    requires
        !has_nul(name.spec_bytes()),
{
    gl_loader::get_proc_address(name) as usize
}

/// Resolves the graphics procedure called `procname` for the renderer and
/// notes the loader's answer in `log`.
///
/// A name with a NUL byte in it matches no procedure: the result is the
/// null address, the loader is not asked and nothing is noted. For every
/// other name the loader is asked once. Its answer is noted and, where it is
/// an address, returned; where the loader has no such procedure the result
/// is `ContextInitFailed`, and the build that asked is to be given up.
pub fn gl_get_proc_address(procname: &str, log: &mut ProcLog) -> (address: Result<
    usize,
    RenderError,
>)
    ensures
        has_nul(procname.spec_bytes()) ==> address == Ok::<usize, RenderError>(0) && *final(log)
            == *old(log),
        !has_nul(procname.spec_bytes()) ==> match address {
            Ok(found) => found != 0 && *final(log) == old(log).with(found),
            Err(error) => error == RenderError::ContextInitFailed && *final(log) == old(log).with(
                0,
            ),
        },
{
    match proc_query(procname) {
        ProcQuery::Ask(_) => {
            let answer = loader_proc_address(procname);
            log.record(answer)
        },
        ProcQuery::Unmatchable => Ok(0),
    }
}

} // verus!
