use vstd::prelude::*;

use crate::error::{Error, Platform, WorkerMode};
use crate::text::text_eq;

verus! {

/// Exit status of a worker that was refused or lost its endpoint.
pub const EXIT_FAILURE: i32 = 1;

/// Exit status of a worker shut down by its spawner.
pub const EXIT_SUCCESS: i32 = 0;

/// Where a worker process stands.
#[derive(Clone, Copy, Debug, PartialEq, Eq, Structural)]
pub enum WorkerPhase {
    Start,
    Binding,
    Serving,
    Refused,
    Terminated,
}

/// What the process reports back to the worker's state machine.
#[derive(Debug)]
pub enum WorkerEvent {
    /// The process was launched on this platform.
    Launched(Platform),
    /// Outcome of binding the endpoint; the error says why it failed.
    Bound(Result<(), String>),
    /// A request arrived over the endpoint.
    Request,
    /// The stage the request was dispatched to has finished with this outcome.
    Handled(Result<Vec<u8>, Error>),
    /// The spawner asked the worker to shut down.
    Shutdown,
    /// The endpoint failed while serving.
    ChannelLost(String),
}

/// What the worker asks the process to do next.
#[derive(Debug)]
pub enum WorkerAction {
    /// Bind the endpoint given at launch.
    Bind,
    /// Wait for the next request.
    Accept,
    /// Run the request through the service of this mode.
    Dispatch(WorkerMode),
    /// Write this outcome back over the endpoint.
    Reply(Result<Vec<u8>, Error>),
    /// Leave the process with this status, and this reason when it failed.
    Exit { code: i32, reason: Option<Error> },
    /// The event did not fit the current phase: nothing to do.
    Nothing,
}

/// A worker process: the service it offers and where it stands.
#[derive(Clone, Copy, Debug)]
pub struct Worker {
    pub mode: WorkerMode,
    pub phase: WorkerPhase,
}

/// Whether workers can run on `p`: it lacks the sandboxing they need.
pub open spec fn supports_workers(p: Platform) -> bool {
    !(p is Android)
}

/// Whether the worker has reached an end.
pub open spec fn is_terminal(p: WorkerPhase) -> bool {
    p is Refused || p is Terminated
}

/// One transition of a worker: the next worker and the action the process performs.
pub open spec fn worker_next(w: Worker, e: WorkerEvent) -> (Worker, WorkerAction) {
    match (w.phase, e) {
        (WorkerPhase::Start, WorkerEvent::Launched(p)) => if supports_workers(p) {
            (Worker { phase: WorkerPhase::Binding, ..w }, WorkerAction::Bind)
        } else {
            (
                Worker { phase: WorkerPhase::Refused, ..w },
                WorkerAction::Exit {
                    code: EXIT_FAILURE,
                    reason: Some(Error::PlatformUnsupported { platform: p, mode: w.mode }),
                },
            )
        },
        (WorkerPhase::Binding, WorkerEvent::Bound(res)) => match res {
            Ok(_) => (Worker { phase: WorkerPhase::Serving, ..w }, WorkerAction::Accept),
            Err(m) => (
                Worker { phase: WorkerPhase::Refused, ..w },
                WorkerAction::Exit { code: EXIT_FAILURE, reason: Some(Error::Transport(m)) },
            ),
        },
        (WorkerPhase::Serving, WorkerEvent::Request) => (w, WorkerAction::Dispatch(w.mode)),
        (WorkerPhase::Serving, WorkerEvent::Handled(out)) => (w, WorkerAction::Reply(out)),
        (WorkerPhase::Serving, WorkerEvent::Shutdown) => (
            Worker { phase: WorkerPhase::Terminated, ..w },
            WorkerAction::Exit { code: EXIT_SUCCESS, reason: None },
        ),
        (WorkerPhase::Serving, WorkerEvent::ChannelLost(m)) => (
            Worker { phase: WorkerPhase::Terminated, ..w },
            WorkerAction::Exit { code: EXIT_FAILURE, reason: Some(Error::Transport(m)) },
        ),
        _ => (w, WorkerAction::Nothing),
    }
}

/// The actions a worker asks for while it takes the events `evs` in order.
pub open spec fn worker_actions(w: Worker, evs: Seq<WorkerEvent>) -> Seq<WorkerAction>
    decreases evs.len(),
{
    if evs.len() == 0 {
        Seq::empty()
    } else {
        seq![worker_next(w, evs[0]).1] + worker_actions(worker_next(w, evs[0]).0, evs.drop_first())
    }
}

impl Worker {
    /// A worker that has just been launched in `mode`.
    pub open spec fn launched(mode: WorkerMode) -> Worker {
        Worker { mode, phase: WorkerPhase::Start }
    }

    /// A worker process about to serve in `mode`.
    pub fn new(mode: WorkerMode) -> (r: Worker)
        ensures
            r == Worker::launched(mode),
    {
        Worker { mode, phase: WorkerPhase::Start }
    }

    /// Whether the worker has reached an end.
    pub fn is_done(&self) -> (r: bool)
        ensures
            r == is_terminal(self.phase),
    {
        match self.phase {
            WorkerPhase::Refused | WorkerPhase::Terminated => true,
            _ => false,
        }
    }

    /// Takes one event and returns the action the process performs next.
    pub fn step(&mut self, event: WorkerEvent) -> (r: WorkerAction)
        ensures
            (*final(self), r) == worker_next(*old(self), event),
    {
        let w = *self;
        let (n, a) = match (w.phase, event) {
            (WorkerPhase::Start, WorkerEvent::Launched(p)) => if platform_supports_workers(p) {
                (Worker { phase: WorkerPhase::Binding, ..w }, WorkerAction::Bind)
            } else {
                (
                    Worker { phase: WorkerPhase::Refused, ..w },
                    WorkerAction::Exit {
                        code: EXIT_FAILURE,
                        reason: Some(Error::PlatformUnsupported { platform: p, mode: w.mode }),
                    },
                )
            },
            (WorkerPhase::Binding, WorkerEvent::Bound(res)) => match res {
                Ok(_) => (Worker { phase: WorkerPhase::Serving, ..w }, WorkerAction::Accept),
                Err(m) => (
                    Worker { phase: WorkerPhase::Refused, ..w },
                    WorkerAction::Exit { code: EXIT_FAILURE, reason: Some(Error::Transport(m)) },
                ),
            },
            (WorkerPhase::Serving, WorkerEvent::Request) => (w, WorkerAction::Dispatch(w.mode)),
            (WorkerPhase::Serving, WorkerEvent::Handled(out)) => (w, WorkerAction::Reply(out)),
            (WorkerPhase::Serving, WorkerEvent::Shutdown) => (
                Worker { phase: WorkerPhase::Terminated, ..w },
                WorkerAction::Exit { code: EXIT_SUCCESS, reason: None },
            ),
            (WorkerPhase::Serving, WorkerEvent::ChannelLost(m)) => (
                Worker { phase: WorkerPhase::Terminated, ..w },
                WorkerAction::Exit { code: EXIT_FAILURE, reason: Some(Error::Transport(m)) },
            ),
            (_, _) => (w, WorkerAction::Nothing),
        };
        *self = n;
        a
    }
}

/// Whether workers can run on `p`.
pub fn platform_supports_workers(p: Platform) -> (r: bool)
    ensures
        r == supports_workers(p),
{
    match p {
        Platform::Android => false,
        _ => true,
    }
}

/// The mode a worker is launched in, from its mode argument.
pub open spec fn mode_named(s: Seq<char>) -> Option<WorkerMode> {
    if s == "prepare"@ {
        Some(WorkerMode::Prepare)
    } else if s == "execute"@ {
        Some(WorkerMode::Execute)
    } else {
        None
    }
}

/// Reads a worker's mode argument: `prepare` or `execute`.
pub fn parse_mode(s: &str) -> (r: Option<WorkerMode>)
    ensures
        r == mode_named(s@),
{
    if text_eq(s, "prepare") {
        Some(WorkerMode::Prepare)
    } else if text_eq(s, "execute") {
        Some(WorkerMode::Execute)
    } else {
        None
    }
}

/// The platform an operating-system name stands for.
pub open spec fn platform_named(os: Seq<char>) -> Platform {
    if os == "linux"@ {
        Platform::Linux
    } else if os == "macos"@ {
        Platform::MacOs
    } else if os == "windows"@ {
        Platform::Windows
    } else if os == "android"@ {
        Platform::Android
    } else {
        Platform::Other
    }
}

/// Reads an operating-system name as reported by the target.
pub fn platform_from_os(os: &str) -> (r: Platform)
    ensures
        r == platform_named(os@),
{
    if text_eq(os, "linux") {
        Platform::Linux
    } else if text_eq(os, "macos") {
        Platform::MacOs
    } else if text_eq(os, "windows") {
        Platform::Windows
    } else if text_eq(os, "android") {
        Platform::Android
    } else {
        Platform::Other
    }
}

/// Once refused or terminated, a worker stays so and asks for nothing more.
pub proof fn lemma_terminal_is_quiet(w: Worker, evs: Seq<WorkerEvent>)
    requires
        is_terminal(w.phase),
    ensures
        worker_actions(w, evs).len() == evs.len(),
        forall|i: int|
            0 <= i < worker_actions(w, evs).len() ==> #[trigger] worker_actions(w, evs)[i] is Nothing,
    decreases evs.len(),
{
    if evs.len() > 0 {
        lemma_terminal_is_quiet(w, evs.drop_first());
    }
}

/// A prepare worker whose endpoint cannot be bound is refused with a
/// `Transport` error at its second step, and asks for nothing after that.
pub proof fn lemma_bind_failure_refuses(p: Platform, msg: String, later: Seq<WorkerEvent>)
    requires
        supports_workers(p),
    ensures
        ({
            let evs = seq![WorkerEvent::Launched(p), WorkerEvent::Bound(Err(msg))] + later;
            let acts = worker_actions(Worker::launched(WorkerMode::Prepare), evs);
            &&& acts[0] == WorkerAction::Bind
            &&& acts[1] == WorkerAction::Exit {
                code: EXIT_FAILURE,
                reason: Some(Error::Transport(msg)),
            }
            &&& forall|i: int| 2 <= i < acts.len() ==> #[trigger] acts[i] is Nothing
        }),
{
    let w = Worker::launched(WorkerMode::Prepare);
    let evs = seq![WorkerEvent::Launched(p), WorkerEvent::Bound(Err(msg))] + later;
    let e1 = evs.drop_first();
    let e2 = e1.drop_first();
    assert(e2 =~= later);
    let w1 = worker_next(w, evs[0]).0;
    let w2 = worker_next(w1, e1[0]).0;
    lemma_terminal_is_quiet(w2, later);
    let acts = worker_actions(w, evs);
    assert(worker_actions(w1, e1) == seq![worker_next(w1, e1[0]).1] + worker_actions(w2, later));
    assert(acts == seq![WorkerAction::Bind] + worker_actions(w1, e1));
    assert forall|i: int| 2 <= i < acts.len() implies #[trigger] acts[i] is Nothing by {
        assert(acts[i] == worker_actions(w2, later)[i - 2]);
    }
}

/// On a platform without worker support, either mode is refused at once with
/// `PlatformUnsupported` naming platform and mode, and the endpoint is never bound.
pub proof fn lemma_unsupported_platform_refuses(
    mode: WorkerMode,
    p: Platform,
    later: Seq<WorkerEvent>,
)
    requires
        !supports_workers(p),
    ensures
        ({
            let acts = worker_actions(
                Worker::launched(mode),
                seq![WorkerEvent::Launched(p)] + later,
            );
            &&& acts[0] == WorkerAction::Exit {
                code: EXIT_FAILURE,
                reason: Some(Error::PlatformUnsupported { platform: p, mode }),
            }
            &&& forall|i: int| 0 <= i < acts.len() ==> !(#[trigger] acts[i] is Bind)
        }),
{
    let w = Worker::launched(mode);
    let evs = seq![WorkerEvent::Launched(p)] + later;
    assert(evs.drop_first() =~= later);
    let w1 = worker_next(w, evs[0]).0;
    lemma_terminal_is_quiet(w1, later);
    let acts = worker_actions(w, evs);
    assert forall|i: int| 0 <= i < acts.len() implies !(#[trigger] acts[i] is Bind) by {
        if i > 0 {
            assert(acts[i] == worker_actions(w1, later)[i - 1]);
        }
    }
}

/// A request whose processing failed is answered with its error and leaves the
/// worker serving.
pub proof fn lemma_failed_request_keeps_serving(w: Worker, err: Error)
    requires
        w.phase is Serving,
    ensures
        worker_next(w, WorkerEvent::Handled(Err(err))) == (w, WorkerAction::Reply(Err(err))),
{
}

} // verus!
