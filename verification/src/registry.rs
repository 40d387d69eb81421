//! The global test registry: owns the single harness of the process, installed
//! once and retrieved through explicit accessors that fail before setup.
//!
//! The process-scoped storage cell and the once-guard around the first call
//! belong to the unverified shell; the registry here is the state that cell
//! holds and the decisions its accessors make.

use vstd::prelude::*;
use vstd::string::StringExecFns;
use crate::harness::Harness;

verus! {

/// The programmer-usage error of accessing the harness before setup has
/// completed. It is fatal and non-recoverable, and deliberately not a
/// `RunOutcome`: a misused harness is not a failed test run.
#[derive(Clone, Copy, PartialEq, Eq, Structural, Debug)]
pub struct SetupMisuse {}

/// The text a misuse surfaces with.
pub open spec fn setup_misuse_text() -> Seq<char> {
    "call `load(context)` before using `get()`"@
}

impl SetupMisuse {
    /// The message the shell panics with on a misuse.
    pub fn message(&self) -> (s: String)
        ensures
            s@ == setup_misuse_text(),
    {
        String::from_str("call `load(context)` before using `get()`")
    }
}

/// The slot that holds the process's one harness. Empty until setup installs
/// the harness; a second install is a no-op, so no second harness ever takes
/// the first one's place.
pub struct TestRegistry {
    harness: Option<Harness>,
}

impl TestRegistry {
    pub open spec fn installed(&self) -> bool {
        self.harness_spec() is Some
    }

    pub closed spec fn harness_spec(&self) -> Option<Harness> {
        self.harness
    }

    /// Before setup nothing is installed.
    pub fn new() -> (r: TestRegistry)
        ensures
            !r.installed(),
    {
        TestRegistry { harness: None }
    }

    /// One-time installation. The first call installs the given harness and
    /// reports that it did; every later call is a no-op that leaves the
    /// registry — and so the harness every accessor returns — exactly as it
    /// was.
    pub fn install(&mut self, harness: Harness) -> (first: bool)
        ensures
            first == !old(self).installed(),
            !old(self).installed() ==> final(self).harness_spec() == Some(harness),
            old(self).installed() ==> final(self).harness_spec() == old(self).harness_spec(),
    {
        if self.harness.is_none() {
            self.harness = Some(harness);
            true
        } else {
            false
        }
    }

    /// Read access to the installed harness. Before installation this fails
    /// with `SetupMisuse` — and only then.
    pub fn get(&self) -> (r: Result<&Harness, SetupMisuse>)
        ensures
            r is Err <==> !self.installed(),
            r matches Ok(h) ==> self.harness_spec() == Some(*h),
    {
        match &self.harness {
            Some(h) => Ok(h),
            None => Err(SetupMisuse {}),
        }
    }

    /// Write access to the installed harness. Before installation this fails
    /// with `SetupMisuse` — and only then — and changes nothing.
    pub fn get_mut(&mut self) -> (r: Result<&mut Harness, SetupMisuse>)
        ensures
            r is Err <==> !old(self).installed(),
            r is Err ==> final(self).harness_spec() == old(self).harness_spec(),
            r matches Ok(h) ==> old(self).harness_spec() == Some(*h)
                && final(self).harness_spec() == Some(*final(h)),
    {
        match &mut self.harness {
            Some(h) => Ok(h),
            None => Err(SetupMisuse {}),
        }
    }
}

} // verus!
