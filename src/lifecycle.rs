use vstd::prelude::*;
use crate::streams::{attach_policy, make_frame, should_attach, StreamFrame};

verus! {

/// Where one source's engine run stands. `Error` and `Eos` are terminal.
#[derive(Debug, Clone, PartialEq, Eq)]
pub enum StreamLifecycleState {
    Idle,
    Playing,
    Error(String),
    Eos,
}

/// What the engine reports to the worker that owns it.
#[derive(Debug, Clone)]
pub enum EngineEvent {
    /// The engine was built for the source's location.
    Constructed,
    /// The engine could not be built (bad location, missing backend).
    ConstructionFailed(String),
    /// A new internal data path came up during negotiation.
    PathAvailable { sink_linked: bool, src_linked: bool, caps: String },
    /// Attaching the decode chain to a data path failed.
    AttachFailed(String),
    /// A decoded sample is ready.
    SampleReady,
    /// Informational progress.
    Progress(String),
    /// The stream ended cleanly.
    Eos,
    /// The engine reported an error.
    Error(String),
    /// The event stream closed.
    Closed,
}

/// What the worker does in answer to an event.
#[derive(Debug, Clone, Copy, PartialEq, Eq)]
pub enum WorkerAction {
    /// Set the engine playing.
    Start,
    /// Attach the decode chain to the data path just reported.
    Attach,
    /// Copy the sample into a frame and send it on the shared channel.
    Forward,
    /// Log the information at low severity.
    Log,
    /// Nothing to do.
    Ignore,
    /// Bring the engine to a stopped, released state and return.
    Stop,
}

pub open spec fn is_terminal(s: StreamLifecycleState) -> bool {
    s is Error || s is Eos
}

/// The state after an event.
pub open spec fn next_state(s: StreamLifecycleState, e: EngineEvent) -> StreamLifecycleState {
    match s {
        StreamLifecycleState::Idle => match e {
            EngineEvent::Constructed => StreamLifecycleState::Playing,
            EngineEvent::ConstructionFailed(m) => StreamLifecycleState::Error(m),
            _ => s,
        },
        StreamLifecycleState::Playing => match e {
            EngineEvent::AttachFailed(m) => StreamLifecycleState::Error(m),
            EngineEvent::Error(m) => StreamLifecycleState::Error(m),
            EngineEvent::Eos => StreamLifecycleState::Eos,
            EngineEvent::Closed => StreamLifecycleState::Eos,
            _ => s,
        },
        _ => s,
    }
}

/// The action taken on an event.
pub open spec fn action_for(s: StreamLifecycleState, e: EngineEvent) -> WorkerAction {
    match s {
        StreamLifecycleState::Idle => match e {
            EngineEvent::Constructed => WorkerAction::Start,
            EngineEvent::ConstructionFailed(_) => WorkerAction::Stop,
            _ => WorkerAction::Ignore,
        },
        StreamLifecycleState::Playing => match e {
            EngineEvent::PathAvailable { sink_linked, src_linked, caps } =>
                if attach_policy(sink_linked, src_linked, caps@) {
                    WorkerAction::Attach
                } else {
                    WorkerAction::Ignore
                },
            EngineEvent::SampleReady => WorkerAction::Forward,
            EngineEvent::Progress(_) => WorkerAction::Log,
            EngineEvent::Constructed => WorkerAction::Ignore,
            EngineEvent::ConstructionFailed(_) => WorkerAction::Ignore,
            _ => WorkerAction::Stop,
        },
        _ => WorkerAction::Ignore,
    }
}

/// The actions taken on a sequence of events, starting in `s`.
pub open spec fn actions_of(s: StreamLifecycleState, evs: Seq<EngineEvent>) -> Seq<WorkerAction>
    decreases evs.len(),
{
    if evs.len() == 0 {
        Seq::empty()
    } else {
        seq![action_for(s, evs[0])] + actions_of(next_state(s, evs[0]), evs.drop_first())
    }
}

/// The state reached after a sequence of events, starting in `s`.
pub open spec fn state_after(s: StreamLifecycleState, evs: Seq<EngineEvent>) -> StreamLifecycleState
    decreases evs.len(),
{
    if evs.len() == 0 {
        s
    } else {
        state_after(next_state(s, evs[0]), evs.drop_first())
    }
}

/// How many of the actions are `Stop`.
pub open spec fn stop_count(acts: Seq<WorkerAction>) -> nat
    decreases acts.len(),
{
    if acts.len() == 0 {
        0
    } else {
        (if acts[0] is Stop { 1nat } else { 0nat }) + stop_count(acts.drop_first())
    }
}

/// How many of the actions are `Forward`, that is, how many frames are sent.
pub open spec fn forward_count(acts: Seq<WorkerAction>) -> nat
    decreases acts.len(),
{
    if acts.len() == 0 {
        0
    } else {
        (if acts[0] is Forward { 1nat } else { 0nat }) + forward_count(acts.drop_first())
    }
}

/// Once a worker has finished, later events change nothing: every action is
/// `Ignore`, so no frame is sent and the engine is not stopped again.
pub proof fn lemma_terminal_absorbs(s: StreamLifecycleState, evs: Seq<EngineEvent>)
    requires
        is_terminal(s),
    ensures
        state_after(s, evs) == s,
        actions_of(s, evs).len() == evs.len(),
        forall|i: int| 0 <= i < evs.len() ==> #[trigger] actions_of(s, evs)[i] is Ignore,
        stop_count(actions_of(s, evs)) == 0,
        forward_count(actions_of(s, evs)) == 0,
    decreases evs.len(),
{
    if evs.len() > 0 {
        lemma_terminal_absorbs(s, evs.drop_first());
        let rest = actions_of(s, evs.drop_first());
        let all = actions_of(s, evs);
        assert(all == seq![action_for(s, evs[0])] + rest);
        assert(all.drop_first() == rest);
        assert forall|i: int| 0 <= i < evs.len() implies #[trigger] all[i] is Ignore by {
            if i > 0 {
                assert(all[i] == rest[i - 1]);
            }
        }
    }
}

/// Teardown: on any run of events from a state that has not finished, the
/// engine is stopped once if the run ends finished and never otherwise.
pub proof fn lemma_stop_once_from(s: StreamLifecycleState, evs: Seq<EngineEvent>)
    requires
        !is_terminal(s),
    ensures
        stop_count(actions_of(s, evs)) == (if is_terminal(state_after(s, evs)) { 1nat } else { 0nat }),
    decreases evs.len(),
{
    if evs.len() > 0 {
        let t = next_state(s, evs[0]);
        let all = actions_of(s, evs);
        assert(all.drop_first() == actions_of(t, evs.drop_first()));
        if is_terminal(t) {
            lemma_terminal_absorbs(t, evs.drop_first());
        } else {
            lemma_stop_once_from(t, evs.drop_first());
        }
    }
}

/// Teardown guarantee: whatever the engine reports, from construction
/// failure to end of stream, a worker stops its engine exactly once on every
/// exit path, and only when it exits.
pub proof fn lemma_teardown_exactly_once(evs: Seq<EngineEvent>)
    ensures
        stop_count(actions_of(StreamLifecycleState::Idle, evs))
            == (if is_terminal(state_after(StreamLifecycleState::Idle, evs)) { 1nat } else { 0nat }),
        stop_count(actions_of(StreamLifecycleState::Idle, evs)) <= 1,
{
    lemma_stop_once_from(StreamLifecycleState::Idle, evs);
}

/// Isolation: a source whose engine cannot be built sends no frame, whatever
/// is reported afterwards, and releases its engine once.
pub proof fn lemma_failed_construction_sends_nothing(msg: String, evs: Seq<EngineEvent>)
    ensures
        forward_count(actions_of(StreamLifecycleState::Idle, seq![EngineEvent::ConstructionFailed(msg)] + evs)) == 0,
        stop_count(actions_of(StreamLifecycleState::Idle, seq![EngineEvent::ConstructionFailed(msg)] + evs)) == 1,
        state_after(StreamLifecycleState::Idle, seq![EngineEvent::ConstructionFailed(msg)] + evs)
            == StreamLifecycleState::Error(msg),
{
    let all_evs = seq![EngineEvent::ConstructionFailed(msg)] + evs;
    let t = StreamLifecycleState::Error(msg);
    assert(all_evs[0] == EngineEvent::ConstructionFailed(msg));
    assert(all_evs.drop_first() == evs);
    lemma_terminal_absorbs(t, evs);
    let all = actions_of(StreamLifecycleState::Idle, all_evs);
    assert(all.drop_first() == actions_of(t, evs));
}

/// An event that keeps a playing engine going: a sample or progress.
pub open spec fn is_producing(e: EngineEvent) -> bool {
    e is SampleReady || e is Progress
}

/// An engine that only ever produces keeps its worker playing: the worker
/// never stops it and never returns, so it is never joined.
pub proof fn lemma_producing_never_finishes(evs: Seq<EngineEvent>)
    requires
        forall|i: int| 0 <= i < evs.len() ==> is_producing(#[trigger] evs[i]),
    ensures
        state_after(StreamLifecycleState::Playing, evs) is Playing,
        stop_count(actions_of(StreamLifecycleState::Playing, evs)) == 0,
    decreases evs.len(),
{
    if evs.len() > 0 {
        assert(is_producing(evs[0]));
        let rest = evs.drop_first();
        assert forall|i: int| 0 <= i < rest.len() implies is_producing(#[trigger] rest[i]) by {
            assert(rest[i] == evs[i + 1]);
        }
        lemma_producing_never_finishes(rest);
        let all = actions_of(StreamLifecycleState::Playing, evs);
        assert(all.drop_first() == actions_of(StreamLifecycleState::Playing, rest));
    }
}


/// The worker that drives one source's engine run.
pub struct StreamWorker {
    pub name: String,
    pub state: StreamLifecycleState,
}

impl StreamWorker {
    /// A worker for the named source, before its engine is built.
    pub fn new(name: &str) -> (r: StreamWorker)
        ensures
            r.name@ == name@,
            r.state is Idle,
    {
        StreamWorker { name: name.to_owned(), state: StreamLifecycleState::Idle }
    }

    /// Whether the worker has finished its single engine run.
    pub fn is_finished(&self) -> (r: bool)
        ensures
            r == is_terminal(self.state),
    {
        match self.state {
            StreamLifecycleState::Error(_) | StreamLifecycleState::Eos => true,
            _ => false,
        }
    }

    /// Takes one event from the engine: moves to the next state and says
    /// what to do.
    pub fn handle(&mut self, event: EngineEvent) -> (r: WorkerAction)
        ensures
            final(self).name == old(self).name,
            final(self).state == next_state(old(self).state, event),
            r == action_for(old(self).state, event),
    {
        match self.state {
            StreamLifecycleState::Idle => match event {
                EngineEvent::Constructed => {
                    self.state = StreamLifecycleState::Playing;
                    WorkerAction::Start
                },
                EngineEvent::ConstructionFailed(m) => {
                    self.state = StreamLifecycleState::Error(m);
                    WorkerAction::Stop
                },
                _ => WorkerAction::Ignore,
            },
            StreamLifecycleState::Playing => match event {
                EngineEvent::PathAvailable { sink_linked, src_linked, caps } => {
                    if should_attach(sink_linked, src_linked, caps.as_str()) {
                        WorkerAction::Attach
                    } else {
                        WorkerAction::Ignore
                    }
                },
                EngineEvent::SampleReady => WorkerAction::Forward,
                EngineEvent::Progress(_) => WorkerAction::Log,
                EngineEvent::Constructed => WorkerAction::Ignore,
                EngineEvent::ConstructionFailed(_) => WorkerAction::Ignore,
                EngineEvent::AttachFailed(m) => {
                    self.state = StreamLifecycleState::Error(m);
                    WorkerAction::Stop
                },
                EngineEvent::Error(m) => {
                    self.state = StreamLifecycleState::Error(m);
                    WorkerAction::Stop
                },
                EngineEvent::Eos => {
                    self.state = StreamLifecycleState::Eos;
                    WorkerAction::Stop
                },
                EngineEvent::Closed => {
                    self.state = StreamLifecycleState::Eos;
                    WorkerAction::Stop
                },
            },
            _ => WorkerAction::Ignore,
        }
    }

    /// Feeds a whole sequence of engine events to the worker, in order, and
    /// returns the action taken on each.
    pub fn drive(&mut self, events: Vec<EngineEvent>) -> (r: Vec<WorkerAction>)
        ensures
            final(self).name == old(self).name,
            final(self).state == state_after(old(self).state, events@),
            r@ == actions_of(old(self).state, events@),
    {
        let ghost start = self.state;
        let mut rest = events;
        let mut acts: Vec<WorkerAction> = Vec::new();
        while rest.len() > 0
            invariant
                self.name == old(self).name,
                acts@ + actions_of(self.state, rest@) == actions_of(start, events@),
                state_after(self.state, rest@) == state_after(start, events@),
            decreases rest.len(),
        {
            let ghost before = self.state;
            let ghost evs = rest@;
            let e = rest.remove(0);
            assert(rest@ == evs.drop_first());
            let a = self.handle(e);
            assert(actions_of(before, evs) == seq![a] + actions_of(self.state, rest@));
            acts.push(a);
            assert(acts@ + actions_of(self.state, rest@) == actions_of(start, events@));
        }
        assert(acts@ + actions_of(self.state, rest@) == acts@);
        acts
    }

    /// The frame for a decoded sample, tagged with this worker's source.
    pub fn frame_of(&self, sample: &[u8]) -> (r: StreamFrame)
        ensures
            r.source@ == self.name@,
            r.data@ == sample@,
    {
        make_frame(self.name.as_str(), sample)
    }
}

} // verus!
