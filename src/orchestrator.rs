//! The single-stream playback orchestrator: one control loop that owns the
//! playback state and the queue of pending sources, and decides for each event
//! what the loop around it does next.
use vstd::prelude::*;

use crate::command::{Intent, IntentModel};

verus! {

/// A command from the orchestrator to the running pipeline.
#[derive(Debug, Clone, Copy, PartialEq, Eq, Structural)]
pub enum ControlSignal {
    Stop,
    /// The new volume, in percent of full scale.
    SetVolume(u32),
}

/// What a pipeline hands to the orchestrator.
#[derive(Debug, Clone, PartialEq, Eq)]
pub enum OutputFrame {
    /// One encoded audio packet.
    Payload(Vec<u8>),
    /// The pipeline has finished, for whatever reason; it sends nothing more.
    EndOfStream,
}

pub enum OutputFrameModel {
    Payload(Seq<u8>),
    EndOfStream,
}

impl View for OutputFrame {
    type V = OutputFrameModel;

    open spec fn view(&self) -> OutputFrameModel {
        match self {
            OutputFrame::Payload(p) => OutputFrameModel::Payload(p@),
            OutputFrame::EndOfStream => OutputFrameModel::EndOfStream,
        }
    }
}

/// Why the control loop stopped.
#[derive(Debug, Clone, Copy, PartialEq, Eq, Structural)]
pub enum ExitReason {
    /// The process was asked to terminate.
    Terminated,
    /// A frame could not be handed to the session.
    ForwardFailed,
    /// The session's event stream failed or closed.
    SessionClosed,
}

/// Something the control loop observed.
#[derive(Debug, Clone, PartialEq, Eq)]
pub enum Event {
    /// A chat message, parsed.
    Intent(Intent),
    /// A frame from the active pipeline.
    Frame(OutputFrame),
    /// The last `Action::Forward` could not be delivered.
    ForwardFailed,
    /// The external termination signal.
    Terminate,
    /// The session's event stream failed or ended.
    SessionClosed,
}

pub enum EventModel {
    Intent(IntentModel),
    Frame(OutputFrameModel),
    ForwardFailed,
    Terminate,
    SessionClosed,
}

impl View for Event {
    type V = EventModel;

    open spec fn view(&self) -> EventModel {
        match self {
            Event::Intent(i) => EventModel::Intent(i@),
            Event::Frame(f) => EventModel::Frame(f@),
            Event::ForwardFailed => EventModel::ForwardFailed,
            Event::Terminate => EventModel::Terminate,
            Event::SessionClosed => EventModel::SessionClosed,
        }
    }
}

/// What the control loop must do next.
#[derive(Debug, Clone, PartialEq, Eq)]
pub enum Action {
    /// Start a pipeline on this source with a fresh control channel.
    Spawn(String),
    /// Send this signal to the active pipeline; a failed send is ignored.
    Control(ControlSignal),
    /// Hand this encoded packet to the session.
    Forward(Vec<u8>),
    /// Nothing.
    Nothing,
    /// Leave the loop and tear the session down.
    Exit(ExitReason),
}

pub enum ActionModel {
    Spawn(Seq<char>),
    Control(ControlSignal),
    Forward(Seq<u8>),
    Nothing,
    Exit(ExitReason),
}

impl View for Action {
    type V = ActionModel;

    open spec fn view(&self) -> ActionModel {
        match self {
            Action::Spawn(s) => ActionModel::Spawn(s@),
            Action::Control(c) => ActionModel::Control(*c),
            Action::Forward(p) => ActionModel::Forward(p@),
            Action::Nothing => ActionModel::Nothing,
            Action::Exit(r) => ActionModel::Exit(*r),
        }
    }
}

/// The abstract state of the orchestrator. `spawned` and `ended` count the
/// pipelines started and the end-of-stream frames taken from active pipelines.
pub struct OrchestratorModel {
    pub playing: bool,
    pub queue: Seq<Seq<char>>,
    pub done: bool,
    pub spawned: nat,
    pub ended: nat,
}

impl OrchestratorModel {
    /// At most one pipeline is alive, exactly while playing, and sources wait
    /// only behind a playing one.
    pub open spec fn wf(self) -> bool {
        &&& self.spawned == self.ended + if self.playing { 1nat } else { 0nat }
        &&& !self.playing ==> self.queue.len() == 0
    }

    /// The number of pipelines alive.
    pub open spec fn live(self) -> int {
        self.spawned - self.ended
    }
}

/// The transition of the orchestrator on event `e`: the next state and the action.
pub open spec fn next(m: OrchestratorModel, e: EventModel) -> (OrchestratorModel, ActionModel) {
    match e {
        EventModel::Intent(IntentModel::PlayRequest(s)) => if !m.playing {
            (OrchestratorModel { playing: true, spawned: m.spawned + 1, ..m }, ActionModel::Spawn(s))
        } else {
            (OrchestratorModel { queue: m.queue.push(s), ..m }, ActionModel::Nothing)
        },
        EventModel::Intent(IntentModel::Stop) => if m.playing {
            (m, ActionModel::Control(ControlSignal::Stop))
        } else {
            (m, ActionModel::Nothing)
        },
        EventModel::Intent(IntentModel::SetVolume(p)) => if m.playing {
            (m, ActionModel::Control(ControlSignal::SetVolume(p as u32)))
        } else {
            (m, ActionModel::Nothing)
        },
        EventModel::Intent(IntentModel::NoOp) => (m, ActionModel::Nothing),
        EventModel::Frame(OutputFrameModel::Payload(p)) => (m, ActionModel::Forward(p)),
        EventModel::Frame(OutputFrameModel::EndOfStream) => if !m.playing {
            (m, ActionModel::Nothing)
        } else if m.queue.len() > 0 {
            (
                OrchestratorModel {
                    queue: m.queue.drop_first(),
                    spawned: m.spawned + 1,
                    ended: m.ended + 1,
                    ..m
                },
                ActionModel::Spawn(m.queue[0]),
            )
        } else {
            (OrchestratorModel { playing: false, ended: m.ended + 1, ..m }, ActionModel::Nothing)
        },
        EventModel::ForwardFailed => (
            OrchestratorModel { done: true, ..m },
            ActionModel::Exit(ExitReason::ForwardFailed),
        ),
        EventModel::Terminate => (
            OrchestratorModel { done: true, ..m },
            ActionModel::Exit(ExitReason::Terminated),
        ),
        EventModel::SessionClosed => (
            OrchestratorModel { done: true, ..m },
            ActionModel::Exit(ExitReason::SessionClosed),
        ),
    }
}

/// The orchestrator's state: whether a pipeline is active, and the sources
/// waiting for it to end, oldest first.
pub struct Orchestrator {
    playing: bool,
    queue: std::collections::VecDeque<String>,
    done: bool,
    spawned: Ghost<nat>,
    ended: Ghost<nat>,
}

impl View for Orchestrator {
    type V = OrchestratorModel;

    closed spec fn view(&self) -> OrchestratorModel {
        OrchestratorModel {
            playing: self.playing,
            queue: self.queue@.map_values(|s: String| s@),
            done: self.done,
            spawned: self.spawned@,
            ended: self.ended@,
        }
    }
}

impl Orchestrator {
    /// An idle orchestrator with an empty queue.
    pub fn new() -> (r: Orchestrator)
        ensures
            r@.wf(),
            !r@.playing,
            !r@.done,
            r@.queue.len() == 0,
            r@.spawned == 0,
            r@.ended == 0,
    {
        let r = Orchestrator {
            playing: false,
            queue: std::collections::VecDeque::new(),
            done: false,
            spawned: Ghost(0),
            ended: Ghost(0),
        };
        assert(r@.queue =~= Seq::<Seq<char>>::empty());
        r
    }

    /// Whether a pipeline is active.
    pub fn is_playing(&self) -> (r: bool)
        ensures
            r == self@.playing,
    {
        self.playing
    }

    /// The number of sources waiting.
    pub fn queued(&self) -> (r: usize)
        ensures
            r == self@.queue.len(),
    {
        self.queue.len()
    }

    /// Whether the loop has been told to exit.
    pub fn is_done(&self) -> (r: bool)
        ensures
            r == self@.done,
    {
        self.done
    }

    /// Takes one event and returns what the loop must do.
    pub fn handle(&mut self, ev: Event) -> (r: Action)
        requires
            old(self)@.wf(),
            !old(self)@.done,
        ensures
            final(self)@.wf(),
            (final(self)@, r@) == next(old(self)@, ev@),
    {
        match ev {
            Event::Intent(Intent::PlayRequest(s)) => {
                if !self.playing {
                    self.playing = true;
                    self.spawned = Ghost(self.spawned@ + 1);
                    Action::Spawn(s)
                } else {
                    let ghost q = self.queue@;
                    self.queue.push_back(s);
                    assert(self.queue@.map_values(|s: String| s@) =~= q.map_values(
                        |s: String| s@,
                    ).push(s@));
                    Action::Nothing
                }
            },
            Event::Intent(Intent::Stop) => {
                if self.playing {
                    Action::Control(ControlSignal::Stop)
                } else {
                    Action::Nothing
                }
            },
            Event::Intent(Intent::SetVolume(p)) => {
                if self.playing {
                    Action::Control(ControlSignal::SetVolume(p))
                } else {
                    Action::Nothing
                }
            },
            Event::Intent(Intent::NoOp) => Action::Nothing,
            Event::Frame(OutputFrame::Payload(p)) => Action::Forward(p),
            Event::Frame(OutputFrame::EndOfStream) => {
                if !self.playing {
                    Action::Nothing
                } else {
                    let ghost q = self.queue@;
                    match self.queue.pop_front() {
                        Some(s) => {
                            assert(self.queue@.map_values(|s: String| s@) =~= q.map_values(
                                |s: String| s@,
                            ).drop_first());
                            self.spawned = Ghost(self.spawned@ + 1);
                            self.ended = Ghost(self.ended@ + 1);
                            Action::Spawn(s)
                        },
                        None => {
                            self.playing = false;
                            self.ended = Ghost(self.ended@ + 1);
                            Action::Nothing
                        },
                    }
                }
            },
            Event::ForwardFailed => {
                self.done = true;
                Action::Exit(ExitReason::ForwardFailed)
            },
            Event::Terminate => {
                self.done = true;
                Action::Exit(ExitReason::Terminated)
            },
            Event::SessionClosed => {
                self.done = true;
                Action::Exit(ExitReason::SessionClosed)
            },
        }
    }
}

/// Every transition keeps the orchestrator well formed, so no event ever leaves
/// more than one pipeline alive.
pub proof fn lemma_one_pipeline_at_a_time(m: OrchestratorModel, e: EventModel)
    requires
        m.wf(),
    ensures
        next(m, e).0.wf(),
        0 <= next(m, e).0.live() <= 1,
{
}

/// From idle, a play request starts exactly one pipeline; a second request that
/// comes while it plays is queued and starts none.
pub proof fn lemma_request_while_playing_is_queued(
    m: OrchestratorModel,
    a: Seq<char>,
    b: Seq<char>,
)
    requires
        m.wf(),
        !m.playing,
    ensures
        ({
            let (m1, act1) = next(m, EventModel::Intent(IntentModel::PlayRequest(a)));
            let (m2, act2) = next(m1, EventModel::Intent(IntentModel::PlayRequest(b)));
            &&& act1 == ActionModel::Spawn(a)
            &&& m1.playing && m1.live() == 1
            &&& m1.spawned == m.spawned + 1
            &&& act2 == ActionModel::Nothing
            &&& m2.playing && m2.live() == 1
            &&& m2.spawned == m1.spawned
            &&& m2.queue == seq![b]
        }),
{
}

/// A pipeline is started only while none is alive, or on the end-of-stream frame
/// of the active one: a queued source never starts before its predecessor ended.
pub proof fn lemma_spawn_only_after_end(m: OrchestratorModel, e: EventModel)
    requires
        m.wf(),
        next(m, e).1 is Spawn,
    ensures
        (!m.playing && e matches EventModel::Intent(IntentModel::PlayRequest(_))) || (m.playing
            && e == EventModel::Frame(OutputFrameModel::EndOfStream)),
{
}

/// While playing, `Stop` signals the active pipeline and changes nothing else;
/// its end-of-stream frame then starts the oldest queued source, or leaves the
/// orchestrator idle when nothing waits.
pub proof fn lemma_stop_then_advance(m: OrchestratorModel)
    requires
        m.wf(),
        m.playing,
    ensures
        next(m, EventModel::Intent(IntentModel::Stop)) == (
            m,
            ActionModel::Control(ControlSignal::Stop),
        ),
        ({
            let (m1, act) = next(m, EventModel::Frame(OutputFrameModel::EndOfStream));
            if m.queue.len() > 0 {
                &&& act == ActionModel::Spawn(m.queue[0])
                &&& m1.queue == m.queue.drop_first()
                &&& m1.playing && m1.live() == 1
            } else {
                &&& act == ActionModel::Nothing
                &&& !m1.playing && m1.live() == 0
            }
        }),
{
}

/// A frame that cannot be forwarded ends the control loop.
pub proof fn lemma_forward_failure_exits(m: OrchestratorModel)
    ensures
        next(m, EventModel::ForwardFailed).0.done,
        next(m, EventModel::ForwardFailed).1 == ActionModel::Exit(ExitReason::ForwardFailed),
{
}

} // verus!
