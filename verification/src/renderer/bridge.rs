//! The life of a render target, and the listeners bound to it.
//!
//! The library never touches the rendering engine or the host environment.
//! It decides: each operation takes the target's state and says which calls
//! are to be made on the engine, in order, and what the state is afterwards.
//! [`EchartsView::step`] and [`EchartsView::calls`] are that decision as a
//! transition function; the operations are proved against it.

use crate::document::{Json, Value};
use vstd::prelude::*;

verus! {

/// What the host environment answered when it was asked for the element to
/// draw into. The lookups are made in this order: the window, its document,
/// the element; the first that fails ends the search.
#[derive(Clone, Copy, Debug, PartialEq, Eq, Structural)]
pub enum HostLookup {
    /// There is no window.
    NoWindow,
    /// The window has no document.
    NoDocument,
    /// The document has no element with the identifier asked for.
    NoElement,
    /// The element is there.
    Found,
}

/// A call to make on the rendering engine.
#[derive(Debug, PartialEq)]
pub enum EngineCall {
    /// Create a render target in the host element, with the named theme and
    /// the size given; a size without width or height leaves that measure to
    /// the element's layout.
    Init { theme: String, size: Value },
    /// Hand the target a whole document.
    SetOption { option: Value },
    /// Have the target fit its host element again.
    Resize,
    /// Ask the target for its image, encoded as a data URL.
    GetDataUrl { option: Value },
}

/// An engine call as a mathematical value.
pub enum Call {
    Init { theme: Seq<char>, size: Json },
    SetOption { option: Json },
    Resize,
    GetDataUrl { option: Json },
}

impl View for EngineCall {
    type V = Call;

    open spec fn view(&self) -> Call {
        match self {
            EngineCall::Init { theme, size } => Call::Init { theme: theme@, size: size@ },
            EngineCall::SetOption { option } => Call::SetOption { option: option@ },
            EngineCall::Resize => Call::Resize,
            EngineCall::GetDataUrl { option } => Call::GetDataUrl { option: option@ },
        }
    }
}

/// The calls that a list of engine calls stands for, in order.
pub open spec fn calls_of(calls: Seq<EngineCall>) -> Seq<Call> {
    Seq::new(calls.len(), |i: int| calls[i]@)
}

/// Where a render target is in its life. Before it is attached there is no
/// target; once disposed it stays disposed.
#[derive(Clone, Copy, Debug, PartialEq, Eq, Structural)]
pub enum Phase {
    /// Attached to its host element, showing the document it was attached
    /// with.
    Attached,
    /// Updated with a later document at least once.
    Updated,
    /// Its host element is gone.
    Disposed,
}

/// What can happen to a render target.
pub enum Event {
    /// A new document is pushed.
    Update { option: Json },
    /// A resize is asked for.
    Resize,
    /// An image is asked for.
    Export { option: Json },
    /// A resize listener is registered.
    AddListener,
    /// The listener with this token is cancelled.
    RemoveListener { token: nat },
    /// The host reports a resize to the listener with this token.
    HostResize { token: nat },
    /// The host element is removed.
    HostRemoved,
}

/// The state of a render target.
pub struct EchartsView {
    pub phase: Phase,
    /// How many listener tokens have been handed out; the next one is this
    /// number.
    pub issued: nat,
    /// The tokens of the listeners that are registered and not cancelled.
    pub listeners: Set<nat>,
}

impl EchartsView {
    /// A target that has just been attached.
    pub open spec fn attached() -> Self {
        EchartsView { phase: Phase::Attached, issued: 0, listeners: Set::empty() }
    }

    /// Whether the target can still be used.
    pub open spec fn live(self) -> bool {
        self.phase != Phase::Disposed
    }

    /// Every listener bears a token that was handed out, and a disposed
    /// target has no listener.
    pub open spec fn wf(self) -> bool {
        &&& forall|token: nat| self.listeners.contains(token) ==> token < self.issued
        &&& !self.live() ==> self.listeners == Set::<nat>::empty()
    }

    /// The state after an event.
    pub open spec fn step(self, event: Event) -> Self {
        if !self.live() {
            self
        } else {
            match event {
                Event::Update { option } => EchartsView { phase: Phase::Updated, ..self },
                Event::Resize => self,
                Event::Export { option } => self,
                Event::AddListener => EchartsView {
                    issued: self.issued + 1,
                    listeners: self.listeners.insert(self.issued),
                    ..self
                },
                Event::RemoveListener { token } => EchartsView {
                    listeners: self.listeners.remove(token),
                    ..self
                },
                Event::HostResize { token } => self,
                Event::HostRemoved => EchartsView {
                    phase: Phase::Disposed,
                    listeners: Set::empty(),
                    ..self
                },
            }
        }
    }

    /// The engine calls that an event asks for, in order.
    pub open spec fn calls(self, event: Event) -> Seq<Call> {
        if !self.live() {
            Seq::empty()
        } else {
            match event {
                Event::Update { option } => seq![Call::SetOption { option }],
                Event::Resize => seq![Call::Resize],
                Event::Export { option } => seq![Call::GetDataUrl { option }],
                Event::HostResize { token } => if self.listeners.contains(token) {
                    seq![Call::Resize]
                } else {
                    Seq::empty()
                },
                _ => Seq::empty(),
            }
        }
    }

    /// The state after a sequence of events, taken in order.
    pub open spec fn run(self, events: Seq<Event>) -> Self
        decreases events.len(),
    {
        if events.len() == 0 {
            self
        } else {
            self.run(events.drop_last()).step(events.last())
        }
    }

    /// The engine calls that a sequence of events asks for: those of each
    /// event, one event after the other.
    pub open spec fn trace(self, events: Seq<Event>) -> Seq<Call>
        decreases events.len(),
    {
        if events.len() == 0 {
            Seq::empty()
        } else {
            self.trace(events.drop_last()) + self.run(events.drop_last()).calls(events.last())
        }
    }
}

/// The updates that push the given documents, one after the other.
pub open spec fn updates(options: Seq<Json>) -> Seq<Event> {
    Seq::new(options.len(), |i: int| Event::Update { option: options[i] })
}

/// The calls that hand over the given documents, one after the other.
pub open spec fn set_options(options: Seq<Json>) -> Seq<Call> {
    Seq::new(options.len(), |i: int| Call::SetOption { option: options[i] })
}

/// Every state that can be reached is well formed.
pub proof fn lemma_step_keeps_wf(state: EchartsView, event: Event)
    requires
        state.wf(),
    ensures
        state.step(event).wf(),
{
}

/// A disposed target stays as it is and asks for no call, whatever happens.
pub proof fn lemma_disposed_is_final(state: EchartsView, event: Event)
    requires
        !state.live(),
    ensures
        state.step(event) == state,
        state.calls(event) == Seq::<Call>::empty(),
{
}

/// Once a target is disposed it is disposed after every further sequence of
/// events, and none of them asks for a call.
pub proof fn lemma_disposed_forever(state: EchartsView, events: Seq<Event>)
    requires
        !state.live(),
    ensures
        state.run(events) == state,
        state.trace(events) == Seq::<Call>::empty(),
    decreases events.len(),
{
    if events.len() > 0 {
        lemma_disposed_forever(state, events.drop_last());
    }
}

/// Pushing the same document twice asks for the same call both times and
/// leaves the target where the first push left it.
pub proof fn lemma_update_idempotent(state: EchartsView, option: Json)
    ensures
        state.step(Event::Update { option }).calls(Event::Update { option }) == state.calls(
            Event::Update { option },
        ),
        state.step(Event::Update { option }).step(Event::Update { option }) == state.step(
            Event::Update { option },
        ),
{
}

/// The call that a push asks for depends on the document alone: two live
/// targets are asked for the same call.
pub proof fn lemma_update_call_is_the_document(a: EchartsView, b: EchartsView, option: Json)
    requires
        a.live(),
        b.live(),
    ensures
        a.calls(Event::Update { option }) == seq![Call::SetOption { option }],
        a.calls(Event::Update { option }) == b.calls(Event::Update { option }),
{
}

/// Updates are applied in the order issued: a live target that is pushed a
/// sequence of documents is handed exactly those documents, each once, in that
/// order.
pub proof fn lemma_updates_in_order(state: EchartsView, options: Seq<Json>)
    requires
        state.live(),
    ensures
        state.run(updates(options)).live(),
        state.trace(updates(options)) == set_options(options),
    decreases options.len(),
{
    if options.len() > 0 {
        let head = options.drop_last();
        lemma_updates_in_order(state, head);
        assert(updates(options).drop_last() =~= updates(head));
        assert(updates(options).last() == Event::Update { option: options.last() });
        assert(set_options(options) =~= set_options(head) + seq![
            Call::SetOption { option: options.last() },
        ]);
    } else {
        assert(set_options(options) =~= Seq::empty());
    }
}

/// A registered listener stays registered through every event but its own
/// cancellation and the removal of the host element, and while it is
/// registered a resize reported to it asks for a resize of the target.
pub proof fn lemma_listener_stays(state: EchartsView, token: nat, event: Event)
    requires
        state.wf(),
        state.listeners.contains(token),
        event != (Event::RemoveListener { token }),
        event != Event::HostRemoved,
    ensures
        state.step(event).listeners.contains(token),
        state.step(event).calls(Event::HostResize { token }) == seq![Call::Resize],
{
    assert(state.live()) by {
        if !state.live() {
            assert(state.listeners =~= Set::<nat>::empty());
        }
    }
}

/// A listener lives as long as its target: after any sequence of events in
/// which it is not cancelled and the host element is not removed, it is still
/// registered and still answers a resize.
pub proof fn lemma_listener_outlives(state: EchartsView, token: nat, events: Seq<Event>)
    requires
        state.wf(),
        state.listeners.contains(token),
        forall|i: int|
            0 <= i < events.len() ==> (#[trigger] events[i]) != (Event::RemoveListener { token })
                && events[i] != Event::HostRemoved,
    ensures
        state.run(events).wf(),
        state.run(events).listeners.contains(token),
        state.run(events).calls(Event::HostResize { token }) == seq![Call::Resize],
    decreases events.len(),
{
    if events.len() == 0 {
        assert(state.live()) by {
            if !state.live() {
                assert(state.listeners =~= Set::<nat>::empty());
            }
        }
    } else {
        let head = events.drop_last();
        assert forall|i: int| 0 <= i < head.len() implies (#[trigger] head[i]) != (
            Event::RemoveListener { token }
        ) && head[i] != Event::HostRemoved by {
            assert(head[i] == events[i]);
        }
        lemma_listener_outlives(state, token, head);
        assert(events.last() == events[events.len() - 1]);
        lemma_step_keeps_wf(state.run(head), events.last());
        lemma_listener_stays(state.run(head), token, events.last());
    }
}

/// A new listener gets a token that no listener has borne before, so the
/// listeners already there are not touched.
pub proof fn lemma_new_token_is_fresh(state: EchartsView)
    requires
        state.wf(),
        state.live(),
    ensures
        !state.listeners.contains(state.issued),
        state.step(Event::AddListener).listeners.contains(state.issued),
        forall|token: nat|
            state.listeners.contains(token) ==> state.step(Event::AddListener).listeners.contains(
                token,
            ),
{
}

/// After the host element is removed no listener is left.
pub proof fn lemma_removal_releases_listeners(state: EchartsView, token: nat)
    requires
        state.wf(),
    ensures
        !state.step(Event::HostRemoved).live(),
        !state.step(Event::HostRemoved).listeners.contains(token),
        state.step(Event::HostRemoved).calls(Event::HostResize { token }) == Seq::<Call>::empty(),
{
    if !state.live() {
        assert(state.listeners =~= Set::<nat>::empty());
    }
}

/// The handle to one render target: what the library knows of the target's
/// life and of the listeners bound to it.
#[derive(Debug, PartialEq, Eq)]
pub struct Echarts {
    phase: Phase,
    listeners: Vec<bool>,
}

impl View for Echarts {
    type V = EchartsView;

    closed spec fn view(&self) -> EchartsView {
        EchartsView {
            phase: self.phase,
            issued: self.listeners@.len(),
            listeners: if self.phase == Phase::Disposed {
                Set::empty()
            } else {
                Set::new(
                    |token: nat| token < self.listeners@.len() && self.listeners@[token as int],
                )
            },
        }
    }
}

impl Echarts {
    /// A handle is always in a well-formed state.
    pub proof fn lemma_wf(&self)
        ensures
            self@.wf(),
    {
    }

    /// The handle of a target that has just been attached.
    pub(crate) fn attached() -> (r: Self)
        ensures
            r@ == EchartsView::attached(),
    {
        let r = Echarts { phase: Phase::Attached, listeners: Vec::new() };
        proof {
            assert(r@.listeners =~= Set::<nat>::empty());
        }
        r
    }

    /// Where the target is in its life.
    pub fn phase(&self) -> (phase: Phase)
        ensures
            phase == self@.phase,
    {
        self.phase
    }

    /// Whether the target can still be used.
    pub fn is_live(&self) -> (live: bool)
        ensures
            live == self@.live(),
    {
        match self.phase {
            Phase::Disposed => false,
            _ => true,
        }
    }

    /// Whether the listener with this token is registered.
    pub fn has_listener(&self, token: usize) -> (registered: bool)
        ensures
            registered == self@.listeners.contains(token as nat),
    {
        self.is_live() && token < self.listeners.len() && self.listeners[token]
    }

    /// Records a push of `option` and returns the call that hands it to the
    /// engine; a disposed target is left alone and gets no call.
    pub(crate) fn push(&mut self, option: Value) -> (calls: Vec<EngineCall>)
        ensures
            final(self)@ == old(self)@.step(Event::Update { option: option@ }),
            calls_of(calls@) == old(self)@.calls(Event::Update { option: option@ }),
    {
        let mut calls: Vec<EngineCall> = Vec::new();
        if self.is_live() {
            self.phase = Phase::Updated;
            calls.push(EngineCall::SetOption { option });
            proof {
                assert(self@.listeners =~= old(self)@.listeners);
                assert(calls_of(calls@) =~= seq![Call::SetOption { option: option@ }]);
            }
        } else {
            proof {
                assert(calls_of(calls@) =~= Seq::empty());
            }
        }
        calls
    }

    /// The call that resizes the target; none for a disposed target.
    pub(crate) fn resize(&self) -> (calls: Vec<EngineCall>)
        ensures
            calls_of(calls@) == self@.calls(Event::Resize),
    {
        let mut calls: Vec<EngineCall> = Vec::new();
        if self.is_live() {
            calls.push(EngineCall::Resize);
            proof {
                assert(calls_of(calls@) =~= seq![Call::Resize]);
            }
        } else {
            proof {
                assert(calls_of(calls@) =~= Seq::empty());
            }
        }
        calls
    }

    /// The call that asks the target for its image under the given options;
    /// none for a disposed target.
    pub(crate) fn export(&self, option: Value) -> (calls: Vec<EngineCall>)
        ensures
            calls_of(calls@) == self@.calls(Event::Export { option: option@ }),
    {
        let mut calls: Vec<EngineCall> = Vec::new();
        if self.is_live() {
            calls.push(EngineCall::GetDataUrl { option });
            proof {
                assert(calls_of(calls@) =~= seq![Call::GetDataUrl { option: option@ }]);
            }
        } else {
            proof {
                assert(calls_of(calls@) =~= Seq::empty());
            }
        }
        calls
    }

    /// Registers a resize listener and returns its token: the number of
    /// tokens handed out before. A disposed target takes no listener.
    pub(crate) fn add_listener(&mut self) -> (token: Option<usize>)
        ensures
            final(self)@ == old(self)@.step(Event::AddListener),
            match token {
                Some(t) => old(self)@.live() && t == old(self)@.issued,
                None => !old(self)@.live(),
            },
    {
        if self.is_live() {
            let token = self.listeners.len();
            self.listeners.push(true);
            proof {
                assert(self@.listeners =~= old(self)@.listeners.insert(token as nat));
            }
            Some(token)
        } else {
            None
        }
    }

    /// Cancels the listener with this token. Returns whether there was such
    /// a listener; no other listener is touched, and the token is not handed
    /// out again.
    pub fn remove_resize_listener(&mut self, token: usize) -> (removed: bool)
        ensures
            final(self)@ == old(self)@.step(Event::RemoveListener { token: token as nat }),
            removed == old(self)@.listeners.contains(token as nat),
    {
        if self.is_live() && token < self.listeners.len() {
            let removed = self.listeners[token];
            self.listeners.set(token, false);
            proof {
                assert(self@.listeners =~= old(self)@.listeners.remove(token as nat));
            }
            removed
        } else {
            proof {
                assert(old(self)@.listeners.remove(token as nat) =~= old(self)@.listeners);
            }
            false
        }
    }

    /// What to do when the host reports a resize to the listener with this
    /// token: resize the target if the listener is registered, nothing
    /// otherwise.
    pub fn on_resize(&self, token: usize) -> (calls: Vec<EngineCall>)
        ensures
            calls_of(calls@) == self@.calls(Event::HostResize { token: token as nat }),
    {
        let mut calls: Vec<EngineCall> = Vec::new();
        if self.has_listener(token) {
            calls.push(EngineCall::Resize);
            proof {
                assert(calls_of(calls@) =~= seq![Call::Resize]);
            }
        } else {
            proof {
                assert(calls_of(calls@) =~= Seq::empty());
            }
        }
        calls
    }

    /// Records that the host element is gone: the target is disposed and all
    /// its listeners are released.
    pub fn host_removed(&mut self)
        ensures
            final(self)@ == old(self)@.step(Event::HostRemoved),
    {
        self.phase = Phase::Disposed;
        proof {
            assert(self@.listeners =~= Set::<nat>::empty());
            if !old(self)@.live() {
                assert(old(self)@.listeners =~= Set::<nat>::empty());
            }
        }
    }
}

} // verus!
