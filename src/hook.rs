//! Which hook script a recorded event triggers.
use vstd::prelude::*;

use crate::model::{Session, SessionEvent, SessionEventKind};

verus! {

/// What a hook script receives: the session and the event that triggered it.
#[derive(Clone, Copy, Debug, PartialEq, Eq, Structural)]
pub struct SessionEventArgs {
    /// The session the event belongs to.
    pub session: Session,
    /// The event that was recorded.
    pub session_event: SessionEvent,
}

/// The name of the hook script run for an event of kind `kind`: `start` for
/// events that open a running segment, `stop` for the others.
pub open spec fn hook_name(kind: SessionEventKind) -> Seq<char> {
    if kind.opens_segment() {
        "start"@
    } else {
        "stop"@
    }
}

/// Runs user hook scripts, kept in the directory `dir`, when events are
/// recorded.
#[derive(Clone, Debug)]
pub struct Runner {
    /// The directory that holds the hook scripts.
    pub dir: String,
}

impl Runner {
    /// A runner for the scripts in `dir`.
    pub fn new(dir: String) -> (r: Runner)
        ensures
            r.dir@ == dir@,
    {
        Runner { dir }
    }

    /// The file name of the script that `args` triggers.
    pub fn name(&self, args: &SessionEventArgs) -> (r: &'static str)
        ensures
            r@ == hook_name(args.session_event.kind),
    {
        if args.session_event.kind.is_start() {
            "start"
        } else {
            "stop"
        }
    }
}

} // verus!
