//! The life of the event subscription.
//!
//! A listener starts out subscribing. Once the subscription stands it streams:
//! every event is taken by the model and what it publishes is handed back. A
//! failure ends it for good: the break of the stream, or an event whose
//! handling fails. There is no retry; whoever runs the listener decides
//! whether to start a new one.

use vstd::prelude::*;
use crate::error::SyncError;
use crate::ingest::{
    apply, ignored, is_effect, note_views, Effect, NoteView, Outcome, Supply, SystemEvent, WmEvent,
};
use crate::state::{BspwmState, StateView};

verus! {

/// Where a listener stands.
#[derive(Debug, Clone, Copy, PartialEq, Eq, Structural)]
pub enum Phase {
    Subscribing,
    Streaming,
    Terminated,
}

/// What the outside world hands a listener.
#[derive(Debug, PartialEq, Eq)]
pub enum Input {
    /// The subscription stands.
    Subscribed,
    /// The subscription could not be made.
    SubscribeFailed,
    /// The window manager sent an event; with it come the replies to what the
    /// model demanded for it.
    Event(WmEvent, Supply),
    /// The window manager sent something that is no event.
    Malformed,
    /// The stream of events broke or ended.
    StreamFault,
}

/// A model together with the state of its event subscription.
#[derive(Debug, PartialEq, Eq)]
pub struct Listener {
    pub phase: Phase,
    pub state: BspwmState,
}

/// The mathematical content of a [`Listener`].
pub struct ListenerView {
    pub phase: Phase,
    pub state: StateView,
}

impl View for Listener {
    type V = ListenerView;

    open spec fn view(&self) -> ListenerView {
        ListenerView { phase: self.phase, state: self.state@ }
    }
}

/// One step of a listener: where it stands afterwards, and what the step did
/// to the model.
pub struct Turn {
    pub phase: Phase,
    pub effect: Effect,
}

/// The subscription broke: the model stays as it is and nothing is published.
pub open spec fn broken(s: StateView) -> Effect {
    Effect { state: s, published: Seq::empty(), failure: Some(SyncError::StreamFault) }
}

/// What one input does to a listener.
///
/// A terminated listener ignores everything. A subscribing listener waits for
/// the subscription to stand or fail. A streaming listener takes events, skips
/// what is no event, and terminates when the stream breaks or the handling of
/// an event fails.
pub open spec fn advance(l: ListenerView, input: Input) -> Turn {
    match l.phase {
        Phase::Terminated => Turn { phase: Phase::Terminated, effect: ignored(l.state) },
        Phase::Subscribing => match input {
            Input::Subscribed => Turn { phase: Phase::Streaming, effect: ignored(l.state) },
            Input::SubscribeFailed => Turn { phase: Phase::Terminated, effect: broken(l.state) },
            Input::StreamFault => Turn { phase: Phase::Terminated, effect: broken(l.state) },
            _ => Turn { phase: Phase::Subscribing, effect: ignored(l.state) },
        },
        Phase::Streaming => match input {
            Input::Event(event, supply) => {
                let effect = apply(l.state, event, supply);
                Turn {
                    phase: if effect.failure is Some {
                        Phase::Terminated
                    } else {
                        Phase::Streaming
                    },
                    effect,
                }
            },
            Input::StreamFault => Turn { phase: Phase::Terminated, effect: broken(l.state) },
            _ => Turn { phase: Phase::Streaming, effect: ignored(l.state) },
        },
    }
}

/// What a listener has done after a sequence of inputs.
pub struct Trace {
    pub listener: ListenerView,
    /// Everything that was published, in order.
    pub published: Seq<NoteView>,
    /// The failure that terminated the listener, if one did.
    pub failure: Option<SyncError>,
}

/// The listener after the inputs `inputs`, one after the other, and all that
/// it published on the way.
pub open spec fn run(l: ListenerView, inputs: Seq<Input>) -> Trace
    decreases inputs.len(),
{
    if inputs.len() == 0 {
        Trace { listener: l, published: Seq::empty(), failure: None }
    } else {
        let before = run(l, inputs.drop_last());
        let turn = advance(before.listener, inputs.last());
        Trace {
            listener: ListenerView { phase: turn.phase, state: turn.effect.state },
            published: before.published + turn.effect.published,
            failure: if before.failure is Some {
                before.failure
            } else {
                turn.effect.failure
            },
        }
    }
}

/// What a whole session of listening came to.
#[derive(Debug, PartialEq, Eq)]
pub struct Session {
    /// The listener as the last input left it.
    pub listener: Listener,
    /// Everything that was published, in order.
    pub published: Vec<SystemEvent>,
    /// The failure that terminated the listener, if one did.
    pub failure: Option<SyncError>,
}

/// A listener for a model that has yet to subscribe.
pub open spec fn fresh(s: StateView) -> ListenerView {
    ListenerView { phase: Phase::Subscribing, state: s }
}

/// Listens over the model `state` to the inputs `inputs`, one after the
/// other, from the making of the subscription on.
pub fn listen_to_bspwm(state: BspwmState, inputs: &Vec<Input>) -> (r: Session)
    ensures
        r.listener@ == run(fresh(state@), inputs@).listener,
        note_views(r.published@) == run(fresh(state@), inputs@).published,
        r.failure == run(fresh(state@), inputs@).failure,
{
    let ghost start = fresh(state@);
    let mut listener = Listener::new(state);
    let mut published: Vec<SystemEvent> = Vec::new();
    let mut failure: Option<SyncError> = None;
    let mut i: usize = 0;
    assert(note_views(published@) =~= Seq::<NoteView>::empty());
    assert(inputs@.take(0) =~= Seq::<Input>::empty());
    while i < inputs.len()
        invariant
            i <= inputs.len(),
            listener@ == run(start, inputs@.take(i as int)).listener,
            note_views(published@) == run(start, inputs@.take(i as int)).published,
            failure == run(start, inputs@.take(i as int)).failure,
        decreases inputs.len() - i,
    {
        assert(inputs@.take(i + 1).drop_last() =~= inputs@.take(i as int));
        assert(inputs@.take(i + 1).last() == inputs@[i as int]);
        let mut outcome = listener.step(&inputs[i]);
        let ghost before = note_views(published@);
        let ghost added = note_views(outcome.published@);
        published.append(&mut outcome.published);
        assert(note_views(published@) =~= before + added);
        if failure.is_none() {
            failure = outcome.failure;
        }
        i += 1;
    }
    assert(inputs@.take(i as int) =~= inputs@);
    Session { listener, published, failure }
}

fn quiet(failure: Option<SyncError>) -> (r: Outcome)
    ensures
        note_views(r.published@) == Seq::<NoteView>::empty(),
        r.failure == failure,
{
    let r = Outcome { published: Vec::new(), failure };
    assert(note_views(r.published@) =~= Seq::<NoteView>::empty());
    r
}

impl Listener {
    /// A listener for the model `state` that has yet to subscribe.
    pub fn new(state: BspwmState) -> (r: Listener)
        ensures
            r.phase == Phase::Subscribing,
            r.state == state,
    {
        Listener { phase: Phase::Subscribing, state }
    }

    /// Whether the listener has ended for good.
    pub fn is_terminated(&self) -> (r: bool)
        ensures
            r == (self.phase == Phase::Terminated),
    {
        match self.phase {
            Phase::Terminated => true,
            _ => false,
        }
    }

    /// Takes one input.
    ///
    /// Hands back what is to be published, and the failure that terminated the
    /// listener if the input did.
    pub fn step(&mut self, input: &Input) -> (r: Outcome)
        ensures
            final(self).phase == advance(old(self)@, *input).phase,
            is_effect(final(self).state@, r, advance(old(self)@, *input).effect),
    {
        match self.phase {
            Phase::Terminated => quiet(None),
            Phase::Subscribing => match input {
                Input::Subscribed => {
                    self.phase = Phase::Streaming;
                    quiet(None)
                },
                Input::SubscribeFailed => {
                    self.phase = Phase::Terminated;
                    quiet(Some(SyncError::StreamFault))
                },
                Input::StreamFault => {
                    self.phase = Phase::Terminated;
                    quiet(Some(SyncError::StreamFault))
                },
                _ => quiet(None),
            },
            Phase::Streaming => match input {
                Input::Event(event, supply) => {
                    let r = self.state.apply_event(*event, supply);
                    if r.failure.is_some() {
                        self.phase = Phase::Terminated;
                    }
                    r
                },
                Input::StreamFault => {
                    self.phase = Phase::Terminated;
                    quiet(Some(SyncError::StreamFault))
                },
                _ => quiet(None),
            },
        }
    }
}

} // verus!
