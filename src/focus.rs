//! The focus tracker: remembers which application was in front before the
//! capture window came up, so that it can be brought back afterwards.
use vstd::prelude::*;

verus! {

/// The identity of a running application.
#[derive(Clone, Debug, PartialEq, Eq)]
pub struct AppIdentity {
    pub bundle_id: String,
    pub pid: i32,
}

/// The snapshot once the front application `front` has been looked at: it
/// replaces the snapshot unless it is this application itself or could not
/// be read.
pub open spec fn capture_step(snap: Option<AppIdentity>, own: Seq<char>, front: Option<AppIdentity>) -> Option<
    AppIdentity,
> {
    match front {
        Some(f) => if f.bundle_id@ != own {
            Some(f)
        } else {
            snap
        },
        None => snap,
    }
}

/// The process to bring to the front when the snapshot is consumed: the one
/// remembered, unless it is this application itself.
pub open spec fn activation_of(snap: Option<AppIdentity>, own: Seq<char>) -> Option<i32> {
    match snap {
        Some(a) => if a.bundle_id@ != own {
            Some(a.pid)
        } else {
            None
        },
        None => None,
    }
}

/// Remembers the application that was in front before the capture window
/// took the focus.
pub struct FocusTracker {
    own_id: String,
    snapshot: Option<AppIdentity>,
}

impl FocusTracker {
    /// The identifier of this application, whose own focus is never
    /// remembered.
    pub closed spec fn own_id(&self) -> Seq<char> {
        self.own_id@
    }

    /// The application remembered, if any.
    pub closed spec fn snapshot(&self) -> Option<AppIdentity> {
        self.snapshot
    }

    /// A tracker for the application `own_id`, with nothing remembered.
    pub fn new(own_id: String) -> (r: FocusTracker)
        ensures
            r.own_id() == own_id@,
            r.snapshot() is None,
    {
        FocusTracker { own_id, snapshot: None }
    }

    /// The process id remembered, if any.
    pub fn pending_pid(&self) -> (r: Option<i32>)
        ensures
            r == match self.snapshot() {
                Some(a) => Some(a.pid),
                None => None::<i32>,
            },
    {
        match &self.snapshot {
            Some(a) => Some(a.pid),
            None => None,
        }
    }

    /// Remembers `frontmost`, the application found in front (`None` where
    /// it could not be read), unless it is this application itself.
    pub fn capture_previous_app(&mut self, frontmost: Option<AppIdentity>)
        ensures
            final(self).own_id() == old(self).own_id(),
            final(self).snapshot() == capture_step(
                old(self).snapshot(),
                old(self).own_id(),
                frontmost,
            ),
    {
        match frontmost {
            Some(f) => {
                if !(f.bundle_id == self.own_id) {
                    self.snapshot = Some(f);
                }
            },
            None => {},
        }
    }

    /// Consumes the snapshot and returns the process to bring to the front,
    /// if any.
    pub fn restore_previous_app(&mut self) -> (r: Option<i32>)
        ensures
            final(self).own_id() == old(self).own_id(),
            final(self).snapshot() is None,
            r == activation_of(old(self).snapshot(), old(self).own_id()),
    {
        let previous = self.snapshot.take();
        match previous {
            Some(p) => {
                if !(p.bundle_id == self.own_id) {
                    Some(p.pid)
                } else {
                    None
                }
            },
            None => None,
        }
    }
}

/// Looking at the front application when it is this application itself
/// leaves the snapshot as it was.
pub proof fn lemma_self_capture_ignored(snap: Option<AppIdentity>, own: Seq<char>, front: AppIdentity)
    requires
        front.bundle_id@ == own,
    ensures
        capture_step(snap, own, Some(front)) == snap,
{
}

/// One capture of another application followed by two restores asks for
/// exactly one activation, of that application, and the second restore asks
/// for none.
pub proof fn lemma_restore_consumes_once(snap: Option<AppIdentity>, own: Seq<char>, front: AppIdentity)
    requires
        front.bundle_id@ != own,
    ensures
        activation_of(capture_step(snap, own, Some(front)), own) == Some(front.pid),
        activation_of(None, own) is None,
{
}

} // verus!
