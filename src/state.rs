//! The overlay's shared state and the reconciliation state machine that
//! moves it: out-of-band actions, direct show/hide overrides, the derived
//! visibility and interactivity, change detection, and the idle monitor.

use vstd::prelude::*;
use crate::record::{StatusRecord, StatusRecordView};
use crate::rules::{
    ActivityFlags, DisplayRules, RulesView, derived_visible, flag_or_false, record_flags,
    record_status, record_text, unwrap_flag, text_of, status_of,
};
use crate::text::same_text;

verus! {

/// What the window should be told after a state change.
#[derive(Clone, Copy, Debug, PartialEq, Eq, Structural)]
pub struct WindowRequests {
    /// `Some(true)` to show the window, `Some(false)` to hide it.
    pub visibility: Option<bool>,
    /// `Some(b)` to make the window interactive (`true`) or click-through.
    pub interactive: Option<bool>,
    /// Whether the canonical state is to be emitted to the presentation layer.
    pub emit: bool,
}

/// The outcome of reconciling one record.
#[derive(Clone, Copy, Debug, PartialEq, Eq, Structural)]
pub enum Reaction {
    /// The settings window is to be opened; the state is untouched.
    OpenSettings,
    /// The process is to end; the state is untouched.
    Quit,
    /// The window requests that the change calls for, none when nothing changed.
    Window(WindowRequests),
}

pub open spec fn no_requests() -> WindowRequests {
    WindowRequests { visibility: None, interactive: None, emit: false }
}

impl WindowRequests {
    pub open spec fn is_empty(self) -> bool {
        self.visibility is None && self.interactive is None && !self.emit
    }
}

/// The payload emitted to the presentation layer.
pub struct StatusUpdate {
    pub status: String,
    pub text: String,
    pub is_listening: bool,
    pub is_speaking: bool,
    pub wake_word_detected: bool,
}

/// The overlay's state; a hidden window is never interactive.
pub struct OverlayState {
    visible: bool,
    interactive: bool,
    status: String,
    text: String,
    is_listening: bool,
    is_speaking: bool,
    wake_word_detected: bool,
    pinned: bool,
    overlay_enabled: bool,
    last_activity_ms: u64,
}

/// The mathematical content of an [`OverlayState`].
pub struct OverlayView {
    pub visible: bool,
    pub interactive: bool,
    pub status: Seq<char>,
    pub text: Seq<char>,
    pub flags: ActivityFlags,
    /// The source asked explicitly for the window to stay shown.
    pub pinned: bool,
    pub overlay_enabled: bool,
    /// Milliseconds on the caller's monotonic clock of the last accepted change.
    pub last_activity_ms: u64,
}

impl View for OverlayState {
    type V = OverlayView;

    closed spec fn view(&self) -> OverlayView {
        OverlayView {
            visible: self.visible,
            interactive: self.interactive,
            status: self.status@,
            text: self.text@,
            flags: ActivityFlags {
                listening: self.is_listening,
                speaking: self.is_speaking,
                wake_word: self.wake_word_detected,
            },
            pinned: self.pinned,
            overlay_enabled: self.overlay_enabled,
            last_activity_ms: self.last_activity_ms,
        }
    }
}

pub open spec fn later(a: u64, b: u64) -> u64 {
    if b > a {
        b
    } else {
        a
    }
}

/// The state that a record asks for, before change detection.
pub open spec fn target_of(s: OverlayView, r: StatusRecordView, rules: RulesView) -> OverlayView {
    let flags = record_flags(r, rules);
    let visible = derived_visible(r, rules);
    OverlayView {
        visible,
        interactive: flags.listening && visible,
        status: record_status(r),
        text: record_text(r),
        flags,
        pinned: flag_or_false(r.overlay_visible),
        overlay_enabled: s.overlay_enabled,
        last_activity_ms: s.last_activity_ms,
    }
}

/// The two states agree on what change detection compares: visibility,
/// interactivity, text and flags. The label and the pin are not compared;
/// they are written only along with an accepted change.
pub open spec fn same_display(a: OverlayView, b: OverlayView) -> bool {
    a.visible == b.visible && a.interactive == b.interactive && a.text == b.text && a.flags
        == b.flags
}

/// The requests that take the window from `s` to `n`, with an emission.
pub open spec fn requests_between(s: OverlayView, n: OverlayView) -> WindowRequests {
    WindowRequests {
        visibility: if n.visible != s.visible {
            Some(n.visible)
        } else {
            None
        },
        interactive: if n.interactive != s.interactive {
            Some(n.interactive)
        } else {
            None
        },
        emit: true,
    }
}

/// The state and requests after the window is explicitly shown (`show`,
/// then interactive when `interactive`) or hidden (never interactive).
pub open spec fn visibility_set(s: OverlayView, show: bool, interactive: bool, now: u64) -> (
    OverlayView,
    WindowRequests,
) {
    let t = OverlayView { visible: show, interactive: show && interactive, pinned: show, ..s };
    if same_display(s, t) {
        (s, no_requests())
    } else {
        let n = OverlayView { last_activity_ms: later(s.last_activity_ms, now), ..t };
        (n, requests_between(s, n))
    }
}

/// An explicit show or hide from the presentation layer: a shown window
/// keeps its interactivity.
pub open spec fn overridden(s: OverlayView, show: bool, now: u64) -> (OverlayView, WindowRequests) {
    visibility_set(s, show, s.interactive, now)
}

/// An explicit show or hide carried by a record: interactivity is evaluated
/// afresh, interactive while shown and listening.
pub open spec fn record_override(s: OverlayView, show: bool, now: u64) -> (
    OverlayView,
    WindowRequests,
) {
    visibility_set(s, show, s.flags.listening, now)
}

/// The state and reaction after reconciling record `r` at time `now`.
pub open spec fn reconciled(s: OverlayView, r: StatusRecordView, rules: RulesView, now: u64) -> (
    OverlayView,
    Reaction,
) {
    if r.action is Some {
        let a = r.action->0;
        (
            s,
            if a == "open_settings"@ {
                Reaction::OpenSettings
            } else if a == "quit"@ {
                Reaction::Quit
            } else {
                Reaction::Window(no_requests())
            },
        )
    } else if flag_or_false(r.show_overlay) {
        let (n, w) = record_override(s, true, now);
        (n, Reaction::Window(w))
    } else if flag_or_false(r.hide_overlay) {
        let (n, w) = record_override(s, false, now);
        (n, Reaction::Window(w))
    } else {
        let t = target_of(s, r, rules);
        if same_display(s, t) {
            (s, Reaction::Window(no_requests()))
        } else {
            let n = OverlayView { last_activity_ms: later(s.last_activity_ms, now), ..t };
            (n, Reaction::Window(requests_between(s, n)))
        }
    }
}

/// The idle monitor hides the window now: shown, quiet, empty, not pinned,
/// and no change for `threshold` milliseconds.
pub open spec fn idle_due(s: OverlayView, now: u64, threshold: u64) -> bool {
    s.visible && !s.flags.any() && s.text.len() == 0 && !s.pinned && now >= s.last_activity_ms
        + threshold
}

/// The state and requests after an idle check at time `now`.
pub open spec fn idled(s: OverlayView, now: u64, threshold: u64) -> (OverlayView, WindowRequests) {
    if idle_due(s, now, threshold) {
        (
            OverlayView { visible: false, interactive: false, ..s },
            WindowRequests {
                visibility: Some(false),
                interactive: if s.interactive {
                    Some(false)
                } else {
                    None
                },
                emit: false,
            },
        )
    } else {
        (s, no_requests())
    }
}

/// The state after a status update pushed by the presentation layer.
pub open spec fn status_updated(
    s: OverlayView,
    status: Seq<char>,
    text: Seq<char>,
    flags: ActivityFlags,
) -> OverlayView {
    OverlayView { status, text, flags, interactive: flags.listening && s.visible, ..s }
}

/// The state after the overlay display is switched.
pub open spec fn toggled(s: OverlayView) -> OverlayView {
    OverlayView { overlay_enabled: !s.overlay_enabled, ..s }
}

/// A hidden window is never interactive.
pub open spec fn window_ok(s: OverlayView) -> bool {
    s.interactive ==> s.visible
}

fn no_requests_exec() -> (r: WindowRequests)
    ensures
        r == no_requests(),
{
    WindowRequests { visibility: None, interactive: None, emit: false }
}

fn change_of(old_v: bool, new_v: bool) -> (r: Option<bool>)
    ensures
        r == (if new_v != old_v {
            Some(new_v)
        } else {
            None
        }),
{
    if new_v != old_v {
        Some(new_v)
    } else {
        None
    }
}

impl OverlayState {
    #[verifier::type_invariant]
    closed spec fn inv(self) -> bool {
        self.interactive ==> self.visible
    }

    /// The state at start: hidden, click-through, offline, nothing shown.
    pub fn new(now_ms: u64) -> (r: OverlayState)
        ensures
            !r@.visible,
            !r@.interactive,
            r@.status == "Offline"@,
            r@.text.len() == 0,
            !r@.flags.any(),
            !r@.pinned,
            r@.overlay_enabled,
            r@.last_activity_ms == now_ms,
            window_ok(r@),
    {
        OverlayState {
            visible: false,
            interactive: false,
            status: String::from_str("Offline"),
            text: String::new(),
            is_listening: false,
            is_speaking: false,
            wake_word_detected: false,
            pinned: false,
            overlay_enabled: true,
            last_activity_ms: now_ms,
        }
    }

    pub fn visible(&self) -> (r: bool)
        ensures
            r == self@.visible,
    {
        self.visible
    }

    pub fn interactive(&self) -> (r: bool)
        ensures
            r == self@.interactive,
    {
        self.interactive
    }

    pub fn status(&self) -> (r: &str)
        ensures
            r@ == self@.status,
    {
        self.status.as_str()
    }

    pub fn text(&self) -> (r: &str)
        ensures
            r@ == self@.text,
    {
        self.text.as_str()
    }

    pub fn flags(&self) -> (r: ActivityFlags)
        ensures
            r == self@.flags,
    {
        ActivityFlags {
            listening: self.is_listening,
            speaking: self.is_speaking,
            wake_word: self.wake_word_detected,
        }
    }

    pub fn overlay_enabled(&self) -> (r: bool)
        ensures
            r == self@.overlay_enabled,
    {
        self.overlay_enabled
    }

    pub fn last_activity_ms(&self) -> (r: u64)
        ensures
            r == self@.last_activity_ms,
    {
        self.last_activity_ms
    }

    /// A copy of the state, for readers outside the critical section.
    pub fn snapshot(&self) -> (r: OverlayState)
        ensures
            r@ == self@,
    {
        proof {
            use_type_invariant(&*self);
        }
        OverlayState {
            visible: self.visible,
            interactive: self.interactive,
            status: self.status.clone(),
            text: self.text.clone(),
            is_listening: self.is_listening,
            is_speaking: self.is_speaking,
            wake_word_detected: self.wake_word_detected,
            pinned: self.pinned,
            overlay_enabled: self.overlay_enabled,
            last_activity_ms: self.last_activity_ms,
        }
    }

    /// The canonical state as emitted to the presentation layer.
    pub fn status_update(&self) -> (r: StatusUpdate)
        ensures
            r.status@ == self@.status,
            r.text@ == self@.text,
            r.is_listening == self@.flags.listening,
            r.is_speaking == self@.flags.speaking,
            r.wake_word_detected == self@.flags.wake_word,
    {
        StatusUpdate {
            status: self.status.clone(),
            text: self.text.clone(),
            is_listening: self.is_listening,
            is_speaking: self.is_speaking,
            wake_word_detected: self.wake_word_detected,
        }
    }

    /// An explicit show (`show`) or hide of the window from the presentation
    /// layer; a shown window keeps its interactivity.
    pub fn apply_override(&mut self, show: bool, now_ms: u64) -> (r: WindowRequests)
        ensures
            (final(self)@, r) == overridden(old(self)@, show, now_ms),
            window_ok(final(self)@),
    {
        let keep = self.interactive;
        self.set_visibility(show, keep, now_ms)
    }

    fn set_visibility(&mut self, show: bool, interactive_if_shown: bool, now_ms: u64) -> (r:
        WindowRequests)
        ensures
            (final(self)@, r) == visibility_set(old(self)@, show, interactive_if_shown, now_ms),
            window_ok(final(self)@),
    {
        proof {
            use_type_invariant(&*self);
        }
        let interactive = show && interactive_if_shown;
        if self.visible == show && self.interactive == interactive {
            return no_requests_exec();
        }
        let r = WindowRequests {
            visibility: change_of(self.visible, show),
            interactive: change_of(self.interactive, interactive),
            emit: true,
        };
        let last = if now_ms > self.last_activity_ms {
            now_ms
        } else {
            self.last_activity_ms
        };
        let status = self.status.clone();
        let text = self.text.clone();
        *self = OverlayState {
            visible: show,
            interactive,
            status,
            text,
            is_listening: self.is_listening,
            is_speaking: self.is_speaking,
            wake_word_detected: self.wake_word_detected,
            pinned: show,
            overlay_enabled: self.overlay_enabled,
            last_activity_ms: last,
        };
        r
    }

    /// Reconciles one status record: an action is handed back untouched, an
    /// override is applied, and otherwise the record's target state replaces
    /// the current one when it differs from it.
    pub fn reconcile(&mut self, rec: &StatusRecord, rules: &DisplayRules, now_ms: u64) -> (r:
        Reaction)
        ensures
            (final(self)@, r) == reconciled(old(self)@, rec@, rules@, now_ms),
            window_ok(final(self)@),
    {
        proof {
            use_type_invariant(&*self);
        }
        if let Some(a) = &rec.action {
            if same_text(a.as_str(), "open_settings") {
                return Reaction::OpenSettings;
            } else if same_text(a.as_str(), "quit") {
                return Reaction::Quit;
            } else {
                return Reaction::Window(no_requests_exec());
            }
        }
        if unwrap_flag(rec.show_overlay) {
            let listening = self.is_listening;
            return Reaction::Window(self.set_visibility(true, listening, now_ms));
        }
        if unwrap_flag(rec.hide_overlay) {
            let listening = self.is_listening;
            return Reaction::Window(self.set_visibility(false, listening, now_ms));
        }
        let flags = rules.flags_of(rec);
        let text = text_of(rec);
        let status = status_of(rec);
        let pinned = unwrap_flag(rec.overlay_visible);
        let visible = rules.visibility(flags, text.as_str(), status.as_str(), pinned);
        let interactive = flags.listening && visible;
        if self.visible == visible && self.interactive == interactive && self.text == text
            && self.is_listening == flags.listening && self.is_speaking == flags.speaking
            && self.wake_word_detected == flags.wake_word {
            return Reaction::Window(no_requests_exec());
        }
        let r = WindowRequests {
            visibility: change_of(self.visible, visible),
            interactive: change_of(self.interactive, interactive),
            emit: true,
        };
        let last = if now_ms > self.last_activity_ms {
            now_ms
        } else {
            self.last_activity_ms
        };
        *self = OverlayState {
            visible,
            interactive,
            status,
            text,
            is_listening: flags.listening,
            is_speaking: flags.speaking,
            wake_word_detected: flags.wake_word,
            pinned,
            overlay_enabled: self.overlay_enabled,
            last_activity_ms: last,
        };
        Reaction::Window(r)
    }

    /// The idle monitor: hides a quiet, empty, unpinned window once no change
    /// was accepted for `threshold_ms` milliseconds.
    pub fn idle_check(&mut self, now_ms: u64, threshold_ms: u64) -> (r: WindowRequests)
        ensures
            (final(self)@, r) == idled(old(self)@, now_ms, threshold_ms),
            window_ok(final(self)@),
    {
        proof {
            use_type_invariant(&*self);
        }
        let quiet = !self.is_listening && !self.is_speaking && !self.wake_word_detected;
        let due = self.visible && quiet && self.text.unicode_len() == 0 && !self.pinned
            && now_ms >= self.last_activity_ms && now_ms - self.last_activity_ms >= threshold_ms;
        if !due {
            return no_requests_exec();
        }
        let r = WindowRequests {
            visibility: Some(false),
            interactive: change_of(self.interactive, false),
            emit: false,
        };
        let status = self.status.clone();
        let text = self.text.clone();
        *self = OverlayState {
            visible: false,
            interactive: false,
            status,
            text,
            is_listening: self.is_listening,
            is_speaking: self.is_speaking,
            wake_word_detected: self.wake_word_detected,
            pinned: self.pinned,
            overlay_enabled: self.overlay_enabled,
            last_activity_ms: self.last_activity_ms,
        };
        r
    }

    /// A status update pushed by the presentation layer: the label, text and
    /// flags are replaced and interactivity follows listening while shown.
    pub fn update_status(&mut self, status: String, text: String, flags: ActivityFlags) -> (r:
        WindowRequests)
        ensures
            final(self)@ == status_updated(old(self)@, status@, text@, flags),
            r == (WindowRequests {
                visibility: None,
                interactive: if final(self)@.interactive != old(self)@.interactive {
                    Some(final(self)@.interactive)
                } else {
                    None
                },
                emit: true,
            }),
            window_ok(final(self)@),
    {
        let interactive = flags.listening && self.visible;
        let r = WindowRequests {
            visibility: None,
            interactive: change_of(self.interactive, interactive),
            emit: true,
        };
        *self = OverlayState {
            visible: self.visible,
            interactive,
            status,
            text,
            is_listening: flags.listening,
            is_speaking: flags.speaking,
            wake_word_detected: flags.wake_word,
            pinned: self.pinned,
            overlay_enabled: self.overlay_enabled,
            last_activity_ms: self.last_activity_ms,
        };
        r
    }

    /// Turns the overlay display on or off and returns the new setting.
    pub fn toggle_overlay_display(&mut self) -> (r: bool)
        ensures
            r == !old(self)@.overlay_enabled,
            window_ok(final(self)@),
            final(self)@ == toggled(old(self)@),
    {
        proof {
            use_type_invariant(&*self);
        }
        let enabled = !self.overlay_enabled;
        let status = self.status.clone();
        let text = self.text.clone();
        *self = OverlayState {
            visible: self.visible,
            interactive: self.interactive,
            status,
            text,
            is_listening: self.is_listening,
            is_speaking: self.is_speaking,
            wake_word_detected: self.wake_word_detected,
            pinned: self.pinned,
            overlay_enabled: enabled,
            last_activity_ms: self.last_activity_ms,
        };
        enabled
    }
}

} // verus!
