use crate::utterance::Utterance;
use vstd::prelude::*;

verus! {

/// Spoken once when the worker starts, before anything taken from the queue.
pub const GREETING: &'static str = "Welcome to helix";

pub open spec fn greeting_text() -> Seq<char> {
    GREETING@
}

/// Where the worker stands between two events.
#[derive(PartialEq, Eq, Structural, Clone, Copy, Debug)]
pub enum WorkerPhase {
    /// Created; nothing spoken yet.
    Starting,
    /// The greeting has been handed to the backend.
    Greeting,
    /// Blocked on the queue for the next utterance.
    Waiting,
    /// An utterance taken from the queue has been handed to the backend.
    Speaking,
    /// The queue closed; the worker is done.
    Terminated,
}

/// What the surrounding loop reports back to the worker.
pub enum WorkerEvent {
    /// The worker's execution context has started.
    Started,
    /// The backend returned from a speak call; `true` when it succeeded.
    SpeakFinished(bool),
    /// The queue handed out an item, or `None` once every producer is gone
    /// and nothing is left in it.
    Received(Option<Utterance>),
}

/// What the surrounding loop is to do next.
pub enum WorkerAction {
    /// Call the backend's speak operation.
    Speak { text: String, interrupt: bool },
    /// Block on the queue for the next item.
    Receive,
    /// End the worker's execution context.
    Stop,
}

/// The phase an event is expected in, and nowhere else.
pub open spec fn expects(p: WorkerPhase, e: WorkerEvent) -> bool {
    match e {
        WorkerEvent::Started => p == WorkerPhase::Starting,
        WorkerEvent::SpeakFinished(_) => p == WorkerPhase::Greeting || p == WorkerPhase::Speaking,
        WorkerEvent::Received(_) => p == WorkerPhase::Waiting,
    }
}

/// The phase that follows `p` on event `e`.
pub open spec fn next_phase(p: WorkerPhase, e: WorkerEvent) -> WorkerPhase {
    if !expects(p, e) {
        p
    } else {
        match e {
            WorkerEvent::Started => WorkerPhase::Greeting,
            WorkerEvent::SpeakFinished(_) => WorkerPhase::Waiting,
            WorkerEvent::Received(Some(_)) => WorkerPhase::Speaking,
            WorkerEvent::Received(None) => WorkerPhase::Terminated,
        }
    }
}

/// The action is a speak call of exactly `text`, cutting off current speech.
pub open spec fn speaks(a: WorkerAction, text: Seq<char>) -> bool {
    match a {
        WorkerAction::Speak { text: t, interrupt } => t@ == text && interrupt,
        _ => false,
    }
}

/// The texts a worker hands to the backend after it has taken `received`
/// from the queue: the greeting, then each item in the order received.
pub open spec fn speech_order(received: Seq<Seq<char>>) -> Seq<Seq<char>> {
    seq![greeting_text()] + received
}

/// The event a worker in phase `p` is handed once every producer is gone and
/// the queue is empty; `ok` is the outcome of a speak call still under way.
pub open spec fn event_after_close(p: WorkerPhase, ok: bool) -> WorkerEvent {
    match p {
        WorkerPhase::Starting => WorkerEvent::Started,
        WorkerPhase::Greeting | WorkerPhase::Speaking => WorkerEvent::SpeakFinished(ok),
        _ => WorkerEvent::Received(None),
    }
}

/// After the greeting, the backend is handed exactly the texts taken from the
/// queue, each once and in the order they were taken; the greeting comes
/// first and only once before them.
pub proof fn speech_follows_queue_order(w: SpeechWorker)
    requires
        w.wf(),
        w.phase_spec() != WorkerPhase::Starting,
    ensures
        w.spoken().len() == w.received().len() + 1,
        w.spoken()[0] == greeting_text(),
        forall|i: int|
            0 <= i < w.received().len() ==> #[trigger] w.spoken()[i + 1] == w.received()[i],
{
}

/// A failed speak call takes the worker back to the queue just as a
/// successful one does, so the next utterance is still taken and spoken.
pub proof fn backend_failure_keeps_draining(p: WorkerPhase, u: Utterance)
    requires
        p == WorkerPhase::Greeting || p == WorkerPhase::Speaking,
    ensures
        next_phase(p, WorkerEvent::SpeakFinished(false)) == next_phase(
            p,
            WorkerEvent::SpeakFinished(true),
        ),
        next_phase(p, WorkerEvent::SpeakFinished(false)) == WorkerPhase::Waiting,
        expects(WorkerPhase::Waiting, WorkerEvent::Received(Some(u))),
        next_phase(WorkerPhase::Waiting, WorkerEvent::Received(Some(u))) == WorkerPhase::Speaking,
{
}

/// Once the queue is closed and drained, every event the worker can be handed
/// is one it expects, and at most three steps bring it to its end, whatever
/// the backend returns meanwhile; the end is final.
pub proof fn closed_queue_ends_worker(p: WorkerPhase, ok1: bool, ok2: bool, ok3: bool)
    ensures
        p != WorkerPhase::Terminated ==> expects(p, event_after_close(p, ok1)),
        ({
            let p1 = next_phase(p, event_after_close(p, ok1));
            let p2 = next_phase(p1, event_after_close(p1, ok2));
            let p3 = next_phase(p2, event_after_close(p2, ok3));
            p3 == WorkerPhase::Terminated
        }),
        forall|e: WorkerEvent|
            #[trigger] next_phase(WorkerPhase::Terminated, e) == WorkerPhase::Terminated,
{
}

/// The decisions of the worker that owns the speech backend. The loop that
/// runs it performs each returned action and reports the outcome back.
pub struct SpeechWorker {
    phase: WorkerPhase,
    received: Ghost<Seq<Seq<char>>>,
    spoken: Ghost<Seq<Seq<char>>>,
}

impl SpeechWorker {
    pub closed spec fn phase_spec(&self) -> WorkerPhase {
        self.phase
    }

    /// Texts taken from the queue so far, in order.
    pub closed spec fn received(&self) -> Seq<Seq<char>> {
        self.received@
    }

    /// Texts handed to the backend so far, in order.
    pub closed spec fn spoken(&self) -> Seq<Seq<char>> {
        self.spoken@
    }

    pub open spec fn wf(&self) -> bool {
        &&& self.phase_spec() == WorkerPhase::Starting ==> self.spoken().len() == 0
            && self.received().len() == 0
        &&& self.phase_spec() != WorkerPhase::Starting ==> self.spoken() == speech_order(
            self.received(),
        )
    }

    pub fn new() -> (w: SpeechWorker)
        ensures
            w.wf(),
            w.phase_spec() == WorkerPhase::Starting,
            w.received() == Seq::<Seq<char>>::empty(),
            w.spoken() == Seq::<Seq<char>>::empty(),
    {
        SpeechWorker {
            phase: WorkerPhase::Starting,
            received: Ghost(Seq::empty()),
            spoken: Ghost(Seq::empty()),
        }
    }

    pub fn phase(&self) -> (p: WorkerPhase)
        ensures
            p == self.phase_spec(),
    {
        self.phase
    }

    pub fn is_terminated(&self) -> (r: bool)
        ensures
            r == (self.phase_spec() == WorkerPhase::Terminated),
    {
        self.phase == WorkerPhase::Terminated
    }

    /// Whether `event` may be handed to `step` now.
    pub fn expects(&self, event: &WorkerEvent) -> (r: bool)
        ensures
            r == expects(self.phase_spec(), *event),
    {
        match event {
            WorkerEvent::Started => self.phase == WorkerPhase::Starting,
            WorkerEvent::SpeakFinished(_) => self.phase == WorkerPhase::Greeting || self.phase
                == WorkerPhase::Speaking,
            WorkerEvent::Received(_) => self.phase == WorkerPhase::Waiting,
        }
    }

    /// Takes the outcome of the last action and decides the next one. The
    /// outcome of a speak call never changes what follows it.
    pub fn step(&mut self, event: WorkerEvent) -> (a: WorkerAction)
        requires
            old(self).wf(),
            expects(old(self).phase_spec(), event),
        ensures
            final(self).wf(),
            final(self).phase_spec() == next_phase(old(self).phase_spec(), event),
            match event {
                WorkerEvent::Started => {
                    &&& speaks(a, greeting_text())
                    &&& final(self).received() == old(self).received()
                    &&& final(self).spoken() == seq![greeting_text()]
                },
                WorkerEvent::SpeakFinished(_) => {
                    &&& a is Receive
                    &&& final(self).received() == old(self).received()
                    &&& final(self).spoken() == old(self).spoken()
                },
                WorkerEvent::Received(Some(u)) => {
                    &&& speaks(a, u.0@)
                    &&& final(self).received() == old(self).received().push(u.0@)
                    &&& final(self).spoken() == old(self).spoken().push(u.0@)
                },
                WorkerEvent::Received(None) => {
                    &&& a is Stop
                    &&& final(self).received() == old(self).received()
                    &&& final(self).spoken() == old(self).spoken()
                },
            },
    {
        match event {
            WorkerEvent::Started => {
                self.phase = WorkerPhase::Greeting;
                self.spoken = Ghost(Seq::empty().push(greeting_text()));
                proof {
                    assert(self.spoken@ =~= speech_order(self.received@));
                }
                WorkerAction::Speak { text: GREETING.to_owned(), interrupt: true }
            },
            WorkerEvent::SpeakFinished(_) => {
                self.phase = WorkerPhase::Waiting;
                WorkerAction::Receive
            },
            WorkerEvent::Received(Some(u)) => {
                self.phase = WorkerPhase::Speaking;
                self.received = Ghost(self.received@.push(u.0@));
                self.spoken = Ghost(self.spoken@.push(u.0@));
                proof {
                    assert(self.spoken@ =~= speech_order(self.received@));
                }
                WorkerAction::Speak { text: u.0, interrupt: true }
            },
            WorkerEvent::Received(None) => {
                self.phase = WorkerPhase::Terminated;
                WorkerAction::Stop
            },
        }
    }
}

} // verus!
