//! The window state machine: the mutable window state (should-close flag,
//! title, exit-on-escape flag, event-loop settings), the close-on-escape
//! policy, and the three polling modes over a source of raw backend events.

use crate::events::{Button, ButtonState, InputEvent, RawEvent, Unsupported};
use crate::keys::Key;
use crate::translate::{translate, translation_of};
use vstd::prelude::*;

verus! {

/// The default frame-rate cap of fresh event-loop settings.
pub const DEFAULT_MAX_FPS: u64 = 60;

/// The default update rate of fresh event-loop settings.
pub const DEFAULT_UPS: u64 = 120;

/// The default delayed-updates reset of fresh event-loop settings.
pub const DEFAULT_UPS_RESET: u64 = 2;

/// Event-loop configuration: the adapter stores it for its callers and never
/// reads it itself.
#[derive(Clone, Copy, Debug, PartialEq, Eq)]
pub struct EventSettings {
    pub max_fps: u64,
    pub ups: u64,
    pub ups_reset: u64,
    pub swap_buffers: bool,
    pub bench_mode: bool,
    pub lazy: bool,
}

/// The value `EventSettings::new` returns.
pub open spec fn default_event_settings() -> EventSettings {
    EventSettings {
        max_fps: DEFAULT_MAX_FPS,
        ups: DEFAULT_UPS,
        ups_reset: DEFAULT_UPS_RESET,
        swap_buffers: true,
        bench_mode: false,
        lazy: false,
    }
}

impl EventSettings {
    /// Fresh settings with the default rates, buffer swapping on, benchmark
    /// and lazy modes off.
    pub fn new() -> (s: EventSettings)
        ensures
            s == default_event_settings(),
    {
        EventSettings {
            max_fps: DEFAULT_MAX_FPS,
            ups: DEFAULT_UPS,
            ups_reset: DEFAULT_UPS_RESET,
            swap_buffers: true,
            bench_mode: false,
            lazy: false,
        }
    }
}

/// The configuration a window is built from: the recognized options of the
/// generic window-settings shape, as plain values.
pub struct WindowConfig {
    pub title: String,
    pub width: u32,
    pub height: u32,
    pub exit_on_esc: bool,
}

/// The mutable window state the adapter owns, apart from the native handles:
/// the single source of truth for "is the window done".
pub struct WindowState {
    pub should_close: bool,
    pub title: String,
    pub exit_on_esc: bool,
    pub event_settings: EventSettings,
}

/// A keyboard press of Escape: the one event the close policy reacts to.
pub open spec fn is_escape_press(event: InputEvent) -> bool {
    &&& event matches InputEvent::Button(args)
    &&& args.state == ButtonState::Press
    &&& args.button == Button::Keyboard(Key::Escape)
}

/// How the close policy changes the state for one translated event: the
/// should-close flag becomes true exactly when it already was, or the flag
/// is armed and the event is a keyboard press of Escape; nothing else moves.
pub open spec fn close_policy_applied(
    pre: WindowState,
    post: WindowState,
    event: InputEvent,
) -> bool {
    &&& post.should_close == (pre.should_close || (pre.exit_on_esc && is_escape_press(event)))
    &&& post.title == pre.title
    &&& post.exit_on_esc == pre.exit_on_esc
    &&& post.event_settings == pre.event_settings
}

impl WindowState {
    /// A fresh window state: not closing, with the configured title and
    /// exit-on-escape flag, and default event-loop settings.
    pub fn new(config: &WindowConfig) -> (w: WindowState)
        ensures
            w.should_close == false,
            w.title@ == config.title@,
            w.exit_on_esc == config.exit_on_esc,
            w.event_settings == default_event_settings(),
    {
        WindowState {
            should_close: false,
            title: config.title.clone(),
            exit_on_esc: config.exit_on_esc,
            event_settings: EventSettings::new(),
        }
    }

    /// Requests (or, from outside the adapter, revokes) window closure.
    pub fn set_should_close(&mut self, value: bool)
        ensures
            final(self).should_close == value,
            final(self).title == old(self).title,
            final(self).exit_on_esc == old(self).exit_on_esc,
            final(self).event_settings == old(self).event_settings,
    {
        self.should_close = value;
    }

    /// Whether closure has been requested.
    pub fn should_close(&self) -> (r: bool)
        ensures
            r == self.should_close,
    {
        self.should_close
    }

    /// The current title.
    pub fn get_title(&self) -> (r: String)
        ensures
            r@ == self.title@,
    {
        self.title.clone()
    }

    /// Replaces the title. (The embedding layer pushes the same value to the
    /// native display, so the two never observably diverge.)
    pub fn set_title(&mut self, value: String)
        ensures
            final(self).title@ == value@,
            final(self).should_close == old(self).should_close,
            final(self).exit_on_esc == old(self).exit_on_esc,
            final(self).event_settings == old(self).event_settings,
    {
        self.title = value;
    }

    /// Whether an Escape press requests closure.
    pub fn get_exit_on_esc(&self) -> (r: bool)
        ensures
            r == self.exit_on_esc,
    {
        self.exit_on_esc
    }

    /// Arms or disarms the close-on-escape policy.
    pub fn set_exit_on_esc(&mut self, value: bool)
        ensures
            final(self).exit_on_esc == value,
            final(self).should_close == old(self).should_close,
            final(self).title == old(self).title,
            final(self).event_settings == old(self).event_settings,
    {
        self.exit_on_esc = value;
    }

    /// The stored event-loop settings.
    pub fn get_event_settings(&self) -> (r: EventSettings)
        ensures
            r == self.event_settings,
    {
        self.event_settings
    }

    /// Replaces the stored event-loop settings.
    pub fn set_event_settings(&mut self, settings: EventSettings)
        ensures
            final(self).event_settings == settings,
            final(self).should_close == old(self).should_close,
            final(self).title == old(self).title,
            final(self).exit_on_esc == old(self).exit_on_esc,
    {
        self.event_settings = settings;
    }

    /// Builder-style composition over `set_title`.
    pub fn title(self, value: String) -> (w: WindowState)
        ensures
            w.title@ == value@,
            w.should_close == self.should_close,
            w.exit_on_esc == self.exit_on_esc,
            w.event_settings == self.event_settings,
    {
        let mut w = self;
        w.set_title(value);
        w
    }

    /// Builder-style composition over `set_exit_on_esc`.
    pub fn exit_on_esc(self, value: bool) -> (w: WindowState)
        ensures
            w.exit_on_esc == value,
            w.should_close == self.should_close,
            w.title == self.title,
            w.event_settings == self.event_settings,
    {
        let mut w = self;
        w.set_exit_on_esc(value);
        w
    }

    /// Applies the close policy to one translated event, after translation
    /// and before the event reaches the caller: a keyboard press of Escape
    /// sets the should-close flag when exit-on-escape is armed, and no other
    /// event or flag combination changes anything. The flag is never cleared
    /// here: once closing is requested, the adapter itself never revokes it.
    pub fn apply_close_policy(&mut self, event: &InputEvent)
        ensures
            close_policy_applied(*old(self), *final(self), *event),
            old(self).should_close ==> final(self).should_close,
    {
        if self.exit_on_esc {
            match event {
                InputEvent::Button(args) => {
                    match (args.state, args.button) {
                        (ButtonState::Press, Button::Keyboard(Key::Escape)) => {
                            self.should_close = true;
                        },
                        _ => {},
                    }
                },
                _ => {},
            }
        }
    }

    /// One decision step shared by all three polling modes: a "no event"
    /// marker yields nothing and touches nothing; any real raw event is
    /// translated, the close policy is applied to a successful translation,
    /// and the outcome is handed back.
    pub fn handle_raw(&mut self, raw: RawEvent) -> (r: Option<Result<InputEvent, Unsupported>>)
        ensures
            r is None <==> raw == RawEvent::NoEvent,
            raw == RawEvent::NoEvent ==> *final(self) == *old(self),
            r matches Some(tr) ==> translation_of(raw, tr),
            r matches Some(Ok(event)) ==> close_policy_applied(*old(self), *final(self), event),
            r matches Some(Err(e)) ==> *final(self) == *old(self),
            old(self).should_close ==> final(self).should_close,
    {
        match raw {
            RawEvent::NoEvent => None,
            _ => {
                let tr = translate(raw);
                match &tr {
                    Ok(event) => self.apply_close_policy(event),
                    Err(_) => {},
                }
                Some(tr)
            },
        }
    }

    /// Non-blocking retrieval: takes exactly one raw event from the source;
    /// nothing pending (a "no event" marker) yields `None` at once, anything
    /// else is translated with the close policy applied.
    pub fn poll_event(&mut self, source: &mut EventSource) -> (r: Option<
        Result<InputEvent, Unsupported>,
    >)
        requires
            old(source).wf(),
        ensures
            final(source).wf(),
            final(source).pending@ == old(source).pending@,
            final(source).cursor == old(source).advanced_cursor(),
            r is None <==> old(source).next_raw_spec() == RawEvent::NoEvent,
            r is None ==> *final(self) == *old(self),
            r matches Some(tr) ==> translation_of(old(source).next_raw_spec(), tr),
            r matches Some(Ok(event)) ==> close_policy_applied(*old(self), *final(self), event),
            r matches Some(Err(e)) ==> *final(self) == *old(self),
            old(self).should_close ==> final(self).should_close,
    {
        let raw = source.next_raw();
        self.handle_raw(raw)
    }

    /// Timed retrieval: by the time the native layer hands a raw event over,
    /// the wait is done, so the decision is the one `poll_event` makes — a
    /// wait that expired (a "no event" marker) yields exactly one `None`,
    /// with no internal retry; anything else is translated with the close
    /// policy applied. Bounding the native wait's duration is the embedding
    /// layer's concern.
    pub fn wait_event_timeout(&mut self, source: &mut EventSource) -> (r: Option<
        Result<InputEvent, Unsupported>,
    >)
        requires
            old(source).wf(),
        ensures
            final(source).wf(),
            final(source).pending@ == old(source).pending@,
            final(source).cursor == old(source).advanced_cursor(),
            r is None <==> old(source).next_raw_spec() == RawEvent::NoEvent,
            r is None ==> *final(self) == *old(self),
            r matches Some(tr) ==> translation_of(old(source).next_raw_spec(), tr),
            r matches Some(Ok(event)) ==> close_policy_applied(*old(self), *final(self), event),
            r matches Some(Err(e)) ==> *final(self) == *old(self),
            old(self).should_close ==> final(self).should_close,
    {
        self.poll_event(source)
    }

    /// Blocking retrieval: consumes consecutive "no event" markers until a
    /// real raw event arrives, then translates it and applies the close
    /// policy. Never hands a "no event" marker to translation. Against the
    /// native backend the wait would block until an event exists; a source
    /// that runs out of real events here yields `None` instead.
    pub fn wait_event(&mut self, source: &mut EventSource) -> (r: Option<
        Result<InputEvent, Unsupported>,
    >)
        requires
            old(source).wf(),
        ensures
            final(source).wf(),
            final(source).pending@ == old(source).pending@,
            old(source).cursor <= final(source).cursor,
            forall|k: int|
                old(source).cursor <= k < final(source).cursor - 1 ==> old(source).pending@[k]
                    == RawEvent::NoEvent,
            r is None ==> final(source).cursor == old(source).pending@.len() && *final(self)
                == *old(self) && (forall|k: int|
                old(source).cursor <= k < old(source).pending@.len() ==> old(source).pending@[k]
                    == RawEvent::NoEvent),
            r matches Some(tr) ==> old(source).cursor < final(source).cursor && old(
                source,
            ).pending@[final(source).cursor - 1] != RawEvent::NoEvent && translation_of(
                old(source).pending@[final(source).cursor - 1],
                tr,
            ),
            r matches Some(Ok(event)) ==> close_policy_applied(*old(self), *final(self), event),
            r matches Some(Err(e)) ==> *final(self) == *old(self),
            old(self).should_close ==> final(self).should_close,
    {
        loop
            invariant
                source.wf(),
                *self == *old(self),
                source.pending@ == old(source).pending@,
                old(source).cursor <= source.cursor,
                forall|k: int|
                    old(source).cursor <= k < source.cursor ==> source.pending@[k]
                        == RawEvent::NoEvent,
            decreases source.pending@.len() - source.cursor,
        {
            if source.cursor >= source.pending.len() {
                return None;
            }
            let raw = source.next_raw();
            match raw {
                RawEvent::NoEvent => {},
                _ => {
                    return self.handle_raw(raw);
                },
            }
        }
    }
}

/// A source of raw backend events standing where the native queue stands:
/// it yields its pending events in order, then "no event" markers, as a
/// drained native queue would.
pub struct EventSource {
    pub pending: Vec<RawEvent>,
    pub cursor: usize,
}

impl EventSource {
    /// The cursor never points past the pending events.
    pub open spec fn wf(self) -> bool {
        self.cursor <= self.pending@.len()
    }

    /// The raw event the next retrieval yields: the next pending event, or
    /// the "no event" marker once the source is drained.
    pub open spec fn next_raw_spec(self) -> RawEvent {
        if self.cursor < self.pending@.len() {
            self.pending@[self.cursor as int]
        } else {
            RawEvent::NoEvent
        }
    }

    /// Where the cursor stands after one retrieval.
    pub open spec fn advanced_cursor(self) -> usize {
        if self.cursor < self.pending@.len() {
            (self.cursor + 1) as usize
        } else {
            self.cursor
        }
    }

    /// A source that will yield the given events in order.
    pub fn new(pending: Vec<RawEvent>) -> (s: EventSource)
        ensures
            s.wf(),
            s.pending@ == pending@,
            s.cursor == 0,
    {
        EventSource { pending, cursor: 0 }
    }

    /// Yields the next pending raw event, or the "no event" marker when the
    /// source is drained.
    pub fn next_raw(&mut self) -> (r: RawEvent)
        requires
            old(self).wf(),
        ensures
            final(self).wf(),
            final(self).pending@ == old(self).pending@,
            final(self).cursor == old(self).advanced_cursor(),
            r == old(self).next_raw_spec(),
    {
        if self.cursor < self.pending.len() {
            let raw = self.pending[self.cursor];
            self.cursor = self.cursor + 1;
            raw
        } else {
            RawEvent::NoEvent
        }
    }
}

} // verus!
