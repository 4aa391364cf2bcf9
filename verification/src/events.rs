//! The event system: typed events, subscriptions keyed by event kind,
//! and the dispatch decision.
//!
//! Handlers themselves are host-side closures; the system stores handler
//! identifiers and decides, for each published event, exactly which
//! handlers run and in which order (subscription order).

use vstd::prelude::*;

verus! {

/// The kinds of events the engine publishes.
#[derive(Clone, Copy, PartialEq, Eq, Structural, Debug)]
pub enum EventKind {
    WindowResize,
    KeyPress,
    KeyRelease,
    MousePress,
    MouseRelease,
    MouseMove,
    MouseScroll,
    WindowClose,
    Update,
    Render,
}

/// An event: every event type knows its kind and its name.
pub trait Event {
    /// The kind of this event, as a specification value.
    spec fn spec_kind(&self) -> EventKind;

    /// The kind of this event.
    fn kind(&self) -> (r: EventKind)
        ensures
            r == self.spec_kind(),
    ;

    /// The display name of this event type.
    fn name(&self) -> &'static str;
}

/// The window was resized to a new pixel size.
#[derive(Clone, Copy, PartialEq, Eq, Structural, Debug)]
pub struct WindowResizeEvent {
    pub width: u32,
    pub height: u32,
}

impl Event for WindowResizeEvent {
    open spec fn spec_kind(&self) -> EventKind {
        EventKind::WindowResize
    }

    fn kind(&self) -> EventKind {
        EventKind::WindowResize
    }

    fn name(&self) -> &'static str {
        "WindowResizeEvent"
    }
}

/// A key was pressed; the key is carried as its code.
#[derive(Clone, Copy, PartialEq, Eq, Structural, Debug)]
pub struct KeyPressEvent {
    pub key: u32,
}

impl Event for KeyPressEvent {
    open spec fn spec_kind(&self) -> EventKind {
        EventKind::KeyPress
    }

    fn kind(&self) -> EventKind {
        EventKind::KeyPress
    }

    fn name(&self) -> &'static str {
        "KeyPressEvent"
    }
}

/// A key was released.
#[derive(Clone, Copy, PartialEq, Eq, Structural, Debug)]
pub struct KeyReleaseEvent {
    pub key: u32,
}

impl Event for KeyReleaseEvent {
    open spec fn spec_kind(&self) -> EventKind {
        EventKind::KeyRelease
    }

    fn kind(&self) -> EventKind {
        EventKind::KeyRelease
    }

    fn name(&self) -> &'static str {
        "KeyReleaseEvent"
    }
}

/// A mouse button.
#[derive(Clone, Copy, PartialEq, Eq, Structural, Debug)]
pub enum MouseButtonKind {
    Left,
    Right,
    Middle,
    Other(u16),
}

/// A mouse button was pressed at a position (`f64` bit patterns).
#[derive(Clone, Copy, PartialEq, Eq, Structural, Debug)]
pub struct MousePressEvent {
    pub button: MouseButtonKind,
    pub x: u64,
    pub y: u64,
}

impl Event for MousePressEvent {
    open spec fn spec_kind(&self) -> EventKind {
        EventKind::MousePress
    }

    fn kind(&self) -> EventKind {
        EventKind::MousePress
    }

    fn name(&self) -> &'static str {
        "MousePressEvent"
    }
}

/// A mouse button was released at a position (`f64` bit patterns).
#[derive(Clone, Copy, PartialEq, Eq, Structural, Debug)]
pub struct MouseReleaseEvent {
    pub button: MouseButtonKind,
    pub x: u64,
    pub y: u64,
}

impl Event for MouseReleaseEvent {
    open spec fn spec_kind(&self) -> EventKind {
        EventKind::MouseRelease
    }

    fn kind(&self) -> EventKind {
        EventKind::MouseRelease
    }

    fn name(&self) -> &'static str {
        "MouseReleaseEvent"
    }
}

/// The mouse moved; positions and deltas are `f64` bit patterns.
#[derive(Clone, Copy, PartialEq, Eq, Structural, Debug)]
pub struct MouseMoveEvent {
    pub x: u64,
    pub y: u64,
    pub delta_x: u64,
    pub delta_y: u64,
}

impl Event for MouseMoveEvent {
    open spec fn spec_kind(&self) -> EventKind {
        EventKind::MouseMove
    }

    fn kind(&self) -> EventKind {
        EventKind::MouseMove
    }

    fn name(&self) -> &'static str {
        "MouseMoveEvent"
    }
}

/// The scroll wheel moved; deltas are `f32` bit patterns.
#[derive(Clone, Copy, PartialEq, Eq, Structural, Debug)]
pub struct MouseScrollEvent {
    pub delta_x: u32,
    pub delta_y: u32,
}

impl Event for MouseScrollEvent {
    open spec fn spec_kind(&self) -> EventKind {
        EventKind::MouseScroll
    }

    fn kind(&self) -> EventKind {
        EventKind::MouseScroll
    }

    fn name(&self) -> &'static str {
        "MouseScrollEvent"
    }
}

/// The window was asked to close.
#[derive(Clone, Copy, PartialEq, Eq, Structural, Debug)]
pub struct WindowCloseEvent;

impl Event for WindowCloseEvent {
    open spec fn spec_kind(&self) -> EventKind {
        EventKind::WindowClose
    }

    fn kind(&self) -> EventKind {
        EventKind::WindowClose
    }

    fn name(&self) -> &'static str {
        "WindowCloseEvent"
    }
}

/// One simulation tick; the delta time is an `f32` bit pattern in
/// seconds.
#[derive(Clone, Copy, PartialEq, Eq, Structural, Debug)]
pub struct UpdateEvent {
    pub delta_time: u32,
}

impl Event for UpdateEvent {
    open spec fn spec_kind(&self) -> EventKind {
        EventKind::Update
    }

    fn kind(&self) -> EventKind {
        EventKind::Update
    }

    fn name(&self) -> &'static str {
        "UpdateEvent"
    }
}

/// One frame is about to be rendered.
#[derive(Clone, Copy, PartialEq, Eq, Structural, Debug)]
pub struct RenderEvent;

impl Event for RenderEvent {
    open spec fn spec_kind(&self) -> EventKind {
        EventKind::Render
    }

    fn kind(&self) -> EventKind {
        EventKind::Render
    }

    fn name(&self) -> &'static str {
        "RenderEvent"
    }
}

/// One subscription: an event kind and the host-side handler identifier
/// registered for it.
#[derive(Clone, Copy, PartialEq, Eq, Structural, Debug)]
pub struct Subscription {
    pub kind: EventKind,
    pub handler_id: u64,
}

/// The handler identifiers registered for a kind, in subscription order.
pub open spec fn spec_handlers_for(subs: Seq<Subscription>, kind: EventKind) -> Seq<u64>
    decreases subs.len(),
{
    if subs.len() == 0 {
        Seq::empty()
    } else {
        let head: Seq<u64> = if subs[0].kind == kind {
            seq![subs[0].handler_id]
        } else {
            Seq::empty()
        };
        head + spec_handlers_for(subs.drop_first(), kind)
    }
}

/// The subscriptions left after removing every one of a kind.
pub open spec fn spec_without_kind(subs: Seq<Subscription>, kind: EventKind) -> Seq<Subscription>
    decreases subs.len(),
{
    if subs.len() == 0 {
        Seq::empty()
    } else {
        let head: Seq<Subscription> = if subs[0].kind == kind {
            Seq::empty()
        } else {
            seq![subs[0]]
        };
        head + spec_without_kind(subs.drop_first(), kind)
    }
}

/// Appending a subscription appends its handler to exactly its own
/// kind's handler list.
pub proof fn lemma_handlers_for_push(subs: Seq<Subscription>, s: Subscription, kind: EventKind)
    ensures
        spec_handlers_for(subs.push(s), kind) == spec_handlers_for(subs, kind) + (
        if s.kind == kind {
            seq![s.handler_id]
        } else {
            Seq::<u64>::empty()
        }),
    decreases subs.len(),
{
    let p = subs.push(s);
    let tail: Seq<u64> = if s.kind == kind {
        seq![s.handler_id]
    } else {
        Seq::empty()
    };
    if subs.len() == 0 {
        assert(p[0] == s);
        assert(p.drop_first() =~= Seq::<Subscription>::empty());
        assert(spec_handlers_for(Seq::<Subscription>::empty(), kind) == Seq::<u64>::empty());
        assert(spec_handlers_for(p, kind) =~= spec_handlers_for(subs, kind) + tail);
    } else {
        lemma_handlers_for_push(subs.drop_first(), s, kind);
        assert(p.drop_first() =~= subs.drop_first().push(s));
        assert(p[0] == subs[0]);
        assert(spec_handlers_for(p, kind) =~= spec_handlers_for(subs, kind) + tail);
    }
}

/// Appending a subscription of another kind leaves a kind's removal
/// result appended; one of the same kind disappears.
pub proof fn lemma_without_kind_push(subs: Seq<Subscription>, s: Subscription, kind: EventKind)
    ensures
        spec_without_kind(subs.push(s), kind) == spec_without_kind(subs, kind) + (
        if s.kind == kind {
            Seq::<Subscription>::empty()
        } else {
            seq![s]
        }),
    decreases subs.len(),
{
    let p = subs.push(s);
    let tail: Seq<Subscription> = if s.kind == kind {
        Seq::empty()
    } else {
        seq![s]
    };
    if subs.len() == 0 {
        assert(p[0] == s);
        assert(p.drop_first() =~= Seq::<Subscription>::empty());
        assert(spec_without_kind(Seq::<Subscription>::empty(), kind) == Seq::<
            Subscription,
        >::empty());
        assert(spec_without_kind(p, kind) =~= spec_without_kind(subs, kind) + tail);
    } else {
        lemma_without_kind_push(subs.drop_first(), s, kind);
        assert(p.drop_first() =~= subs.drop_first().push(s));
        assert(p[0] == subs[0]);
        assert(spec_without_kind(p, kind) =~= spec_without_kind(subs, kind) + tail);
    }
}

/// The event system: the ordered list of subscriptions.
pub struct EventSystem {
    handlers: Vec<Subscription>,
}

impl EventSystem {
    /// The subscriptions, for contracts.
    pub closed spec fn spec_subscriptions(&self) -> Seq<Subscription> {
        self.handlers@
    }

    /// An event system with no subscriptions.
    pub fn new() -> (r: EventSystem)
        ensures
            r.spec_subscriptions() == Seq::<Subscription>::empty(),
    {
        let r = EventSystem { handlers: Vec::new() };
        proof {
            assert(r.spec_subscriptions() =~= Seq::<Subscription>::empty());
        }
        r
    }

    /// Register a handler (by its host-side identifier) for an event
    /// kind; handlers run in subscription order.
    pub fn subscribe(&mut self, kind: EventKind, handler_id: u64)
        ensures
            final(self).spec_subscriptions() == old(self).spec_subscriptions().push(
                Subscription { kind, handler_id },
            ),
    {
        self.handlers.push(Subscription { kind, handler_id });
    }

    /// Publish an event: returns the identifiers of exactly the handlers
    /// registered for the event's kind, in subscription order.
    pub fn publish<E: Event>(&self, event: &E) -> (r: Vec<u64>)
        ensures
            r@ == spec_handlers_for(self.spec_subscriptions(), event.spec_kind()),
    {
        let kind = event.kind();
        let mut r: Vec<u64> = Vec::new();
        let mut i: usize = 0;
        while i < self.handlers.len()
            invariant
                0 <= i <= self.handlers@.len(),
                r@ == spec_handlers_for(self.handlers@.take(i as int), kind),
            decreases self.handlers@.len() - i,
        {
            proof {
                lemma_handlers_for_push(self.handlers@.take(i as int), self.handlers@[i as int], kind);
                assert(self.handlers@.take(i as int).push(self.handlers@[i as int])
                    =~= self.handlers@.take(i + 1));
            }
            if self.handlers[i].kind == kind {
                r.push(self.handlers[i].handler_id);
            }
            i += 1;
        }
        proof {
            assert(self.handlers@.take(self.handlers@.len() as int) =~= self.handlers@);
        }
        r
    }

    /// Remove every handler registered for a kind.
    pub fn clear(&mut self, kind: EventKind)
        ensures
            final(self).spec_subscriptions() == spec_without_kind(
                old(self).spec_subscriptions(),
                kind,
            ),
    {
        let mut kept: Vec<Subscription> = Vec::new();
        let mut i: usize = 0;
        while i < self.handlers.len()
            invariant
                0 <= i <= self.handlers@.len(),
                kept@ == spec_without_kind(self.handlers@.take(i as int), kind),
            decreases self.handlers@.len() - i,
        {
            proof {
                lemma_without_kind_push(self.handlers@.take(i as int), self.handlers@[i as int], kind);
                assert(self.handlers@.take(i as int).push(self.handlers@[i as int])
                    =~= self.handlers@.take(i + 1));
            }
            if !(self.handlers[i].kind == kind) {
                kept.push(self.handlers[i]);
            }
            i += 1;
        }
        proof {
            assert(self.handlers@.take(self.handlers@.len() as int) =~= self.handlers@);
        }
        self.handlers = kept;
    }

    /// Remove every handler of every kind.
    pub fn clear_all(&mut self)
        ensures
            final(self).spec_subscriptions() == Seq::<Subscription>::empty(),
    {
        self.handlers = Vec::new();
        proof {
            assert(self.handlers@ =~= Seq::<Subscription>::empty());
        }
    }
}

} // verus!
