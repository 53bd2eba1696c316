//! Which of the two account stores an invocation should touch.

use vstd::prelude::*;

verus! {

/// One of the two account stores the tool can act on.
#[derive(Clone, Copy, Debug, PartialEq, Eq, Structural)]
pub enum Backend {
    Directory,
    Cluster,
}

/// The set of backends one invocation should affect.
///
/// Selecting neither backend is a caller error, not a silent no-op:
/// `new` refuses the empty selection, and every operation that consumes a
/// selector requires `wf()`.
#[derive(Clone, Copy, Debug, PartialEq, Eq, Structural)]
pub struct TargetSelector {
    pub directory: bool,
    pub cluster: bool,
}

impl View for TargetSelector {
    type V = Set<Backend>;

    open spec fn view(&self) -> Set<Backend> {
        Set::new(
            |b: Backend|
                match b {
                    Backend::Directory => self.directory,
                    Backend::Cluster => self.cluster,
                },
        )
    }
}

impl TargetSelector {
    /// At least one backend is selected.
    pub open spec fn wf(&self) -> bool {
        self.directory || self.cluster
    }

    /// Builds a selector, refusing the empty selection.
    pub fn new(directory: bool, cluster: bool) -> (r: Option<TargetSelector>)
        ensures
            r is Some <==> (directory || cluster),
            r matches Some(s) ==> s == (TargetSelector { directory, cluster }) && s.wf(),
    {
        if directory || cluster {
            Some(TargetSelector { directory, cluster })
        } else {
            None
        }
    }

    /// Whether `backend` is part of the selection.
    pub fn contains(&self, backend: Backend) -> (r: bool)
        ensures
            r == self@.contains(backend),
    {
        match backend {
            Backend::Directory => self.directory,
            Backend::Cluster => self.cluster,
        }
    }
}

} // verus!
