//! Library lifecycle: the load hook's version tag and the at-most-once
//! installation of the process-wide logging sink.

use vstd::prelude::*;

verus! {

/// Version tag returned from the load hook: declares compatibility with the
/// host's JNI 1.6 interface.
pub const HOST_ABI_VERSION: i32 = 0x0001_0006;

/// The load hook's state transition: from "sink installed?" to
/// (sink installed afterwards, install the sink now?).
pub open spec fn load_transition(installed: bool) -> (bool, bool) {
    (true, !installed)
}

/// Tracks whether the process-wide logging sink has been installed, so that
/// repeated invocations of the load hook install it at most once.
pub struct LoadGuard {
    installed: bool,
}

impl LoadGuard {
    /// Whether the logging sink has already been installed.
    pub closed spec fn spec_installed(&self) -> bool {
        self.installed
    }

    /// A fresh process: no sink installed yet.
    pub fn new() -> (g: LoadGuard)
        ensures
            !g.spec_installed(),
    {
        LoadGuard { installed: false }
    }

    /// The load hook's decision: always report the supported host-ABI version,
    /// and request installation of the logging sink only on the first
    /// invocation.  The library never fails to load: even when the boundary
    /// cannot install the sink, the version tag is still returned.
    pub fn on_load(&mut self) -> (r: (i32, bool))
        ensures
            r.0 == HOST_ABI_VERSION,
            (final(self).spec_installed(), r.1) == load_transition(old(self).spec_installed()),
    {
        let install = !self.installed;
        self.installed = true;
        (HOST_ABI_VERSION, install)
    }

    /// Whether the sink has been installed.
    pub fn installed(&self) -> (r: bool)
        ensures
            r == self.spec_installed(),
    {
        self.installed
    }
}

/// Law: the load hook is idempotent.  The first invocation from a fresh
/// process installs the logging sink, and every invocation that follows any
/// earlier one declines, so the sink is installed at most once.
pub proof fn lemma_load_hook_installs_at_most_once(earlier: bool)
    ensures
        load_transition(false).1,
        !load_transition(load_transition(earlier).0).1,
{
}

} // verus!
