use vstd::prelude::*;

use crate::swal_dismiss_reason::SwalDismissReason;
use crate::swal_focus::ControlInfo;
use crate::swal_focus::focusable_indices;
use crate::swal_focus::spec_focusable_indices;
use crate::swal_focus::spec_tab_target;
use crate::swal_icon::SwalIconLike;
use crate::swal_options::SwalOptions;
use crate::swal_result::SwalResult;
use crate::swal_transition::parse_css_seconds;
use crate::swal_transition::spec_parse_css_seconds;

verus! {

/// The fixed delay, in milliseconds, between mounting the popup and
/// marking it visible, and the margin added on top of the closing
/// transition when a reopen is scheduled. It guards against the race
/// where a timer fires before the layout has settled.
pub const FIXED_OPEN_DELAY_MS: u64 = 10;

/// Where the single popup stands in its life.
#[derive(Debug, PartialEq, Eq, Structural, Clone, Copy)]
pub enum SwalPhase {
    /// No popup is attached to the display tree.
    Closed,
    /// The popup is mounted but not yet marked visible; the visibility
    /// tick is outstanding.
    Opening,
    /// The popup is mounted and visible.
    Open,
    /// The popup plays its closing transition; the detach tick is
    /// outstanding.
    Closing,
}

/// A reopen request noted while a previous popup is still on screen.
#[derive(Debug, PartialEq, Eq, Clone, Copy)]
pub struct PendingOpen {
    /// The instance number assigned to the queued alert.
    pub instance: u64,
    /// The queued alert's auto-close flag.
    pub auto_close: bool,
}

/// An order to the host: run the result callback of the given alert
/// instance with the given result, exactly once.
#[derive(Debug, PartialEq, Eq, Clone, Copy)]
pub struct ThenCall {
    /// The instance whose stored callback is to run.
    pub instance: u64,
    /// The result to hand to it.
    pub result: SwalResult,
}

/// An order to the host: play the closing transition and take the popup
/// off the display tree when it is over.
#[derive(Debug, PartialEq, Eq, Clone, Copy)]
pub struct Teardown {
    /// How long to wait, in milliseconds, before reporting the detach
    /// tick: the popup's closing transition duration.
    pub detach_delay_ms: u64,
    /// The element to refocus right away, if one had the focus when the
    /// popup opened.
    pub restore_focus: Option<u64>,
}

/// What the host must perform after a close, in order: first the callback
/// invocation, if any, and afterwards the teardown, if any.
#[derive(Debug, PartialEq, Eq, Clone, Copy)]
pub struct CloseEffects {
    /// The callback invocation owed, if any.
    pub invoke_then: Option<ThenCall>,
    /// The teardown owed, if the popup was on screen.
    pub teardown: Option<Teardown>,
}

/// What the host must perform after a button press, in order: first the
/// callback invocation, if any, and afterwards the teardown, if any.
#[derive(Debug, PartialEq, Eq, Clone, Copy)]
pub struct ButtonEffects {
    /// The callback invocation owed, if any.
    pub invoke_then: Option<ThenCall>,
    /// The teardown owed, if the popup closes itself.
    pub teardown: Option<Teardown>,
}

/// The controller's answer to a fire request.
#[derive(Debug, PartialEq, Eq, Clone, Copy)]
pub enum FireOutcome {
    /// Mount the new popup now; the visibility tick is due after the
    /// fixed delay.
    OpenedNow {
        /// The instance number assigned to the alert.
        instance: u64,
    },
    /// A popup is still on screen: report a reopen tick after the given
    /// delay.
    Deferred {
        /// The instance number assigned to the queued alert.
        instance: u64,
        /// How long to wait, in milliseconds, before the reopen tick.
        delay_ms: u64,
    },
}

/// The controller's answer to a reopen tick.
#[derive(Debug, PartialEq, Eq, Clone, Copy)]
pub enum ReopenOutcome {
    /// Mount the queued popup now; the visibility tick is due after the
    /// fixed delay.
    Opened {
        /// The instance number of the queued alert.
        instance: u64,
    },
    /// The previous popup is still on screen: report another reopen tick
    /// after the given delay.
    Rearmed {
        /// How long to wait, in milliseconds, before the next reopen
        /// tick.
        delay_ms: u64,
    },
    /// No reopen is queued any more; nothing to do.
    Idle,
}

/// What the host must perform at the visibility tick.
#[derive(Debug, PartialEq, Eq, Clone, Copy)]
pub struct VisibleEffects {
    /// Flip the popup's accessibility-hidden attribute to false, starting
    /// the opening transition.
    pub mark_visible: bool,
    /// Focus the control at this position among the focusable ones.
    pub focus_first: Option<usize>,
}

/// The lifecycle controller of the single shared popup.
///
/// It owns every piece of the singleton state: the phase of the popup's
/// life, the registered result callback and auto-close flag of the live
/// alert, the capture of the previously focused element, the memoized
/// closing-transition duration, and the queued reopen request. The host
/// reports events — fire requests, clicks, key presses and timer ticks —
/// and performs the effects each method returns, in the order given.
///
/// All state is plain data: a fresh controller per process start, or per
/// test, carries no hidden globals.
pub struct Swal {
    /// Where the popup stands in its life.
    pub phase: SwalPhase,
    /// The instance number of the alert the mounted popup belongs to.
    /// Meaningful only while the phase is not `Closed`.
    pub live_instance: u64,
    /// The instance whose result callback is registered, if any. At most
    /// one callback is live at a time; it is cleared when the alert's
    /// result is finalized.
    pub then_slot: Option<u64>,
    /// The live alert's auto-close flag; reset to its default, true, when
    /// the alert's result is finalized.
    pub auto_close: bool,
    /// The element that had the focus before the popup opened, if any.
    pub previously_focused: Option<u64>,
    /// The memoized closing-transition duration in milliseconds; nothing
    /// until first resolved from a computed style.
    pub transition_cache: Option<u64>,
    /// The queued reopen request, if any; a later fire overwrites an
    /// earlier queued one.
    pub pending: Option<PendingOpen>,
    /// The instance number the next fire will assign.
    pub next_instance: u64,
}

impl Swal {
    /// The state of a fresh controller: nothing mounted, no callback
    /// registered, auto-close at its default, nothing captured, nothing
    /// memoized, nothing queued.
    pub open spec fn spec_init() -> Swal {
        Swal {
            phase: SwalPhase::Closed,
            live_instance: 0,
            then_slot: None,
            auto_close: true,
            previously_focused: None,
            transition_cache: None,
            pending: None,
            next_instance: 1,
        }
    }

    /// Whether a popup is attached to the display tree, closing ones
    /// included.
    pub open spec fn spec_mounted(self) -> bool {
        self.phase != SwalPhase::Closed
    }

    /// Whether the popup is open: mounted and not already playing its
    /// closing transition.
    pub open spec fn spec_is_open(self) -> bool {
        self.phase == SwalPhase::Opening || self.phase == SwalPhase::Open
    }

    /// The instance counter after one assignment; it wraps around rather
    /// than running out.
    pub open spec fn spec_bump(n: u64) -> u64 {
        if n == u64::MAX {
            0
        } else {
            (n + 1) as u64
        }
    }

    /// The view of an optional style string handed in by the host.
    pub open spec fn spec_css_text(css: Option<String>) -> Option<Seq<char>> {
        match css {
            Some(s) => Some(s@),
            None => None,
        }
    }

    /// How the transition-duration memo answers one lookup: a memoized
    /// value is returned as is; otherwise a well-formed style value is
    /// parsed and memoized; and with no readable value the duration falls
    /// back to zero, without poisoning the memo.
    pub open spec fn spec_resolve_duration(cache: Option<u64>, css: Option<Seq<char>>) -> (
        Option<u64>,
        u64,
    ) {
        match cache {
            Some(d) => (cache, d),
            None => match css {
                Some(cs) => match spec_parse_css_seconds(cs) {
                    Some(ms) => (Some(ms), ms),
                    None => (None, 0),
                },
                None => (None, 0),
            },
        }
    }

    /// The wait before a queued alert may mount: the closing transition
    /// of the popup on screen plus the fixed margin.
    pub open spec fn spec_reopen_delay(d: u64) -> u64 {
        if d > u64::MAX - FIXED_OPEN_DELAY_MS {
            u64::MAX
        } else {
            (d + FIXED_OPEN_DELAY_MS) as u64
        }
    }

    /// Mounting an alert: the popup enters its pre-visible phase, the
    /// alert's callback registration and auto-close flag take the single
    /// slots, overwriting whatever was there.
    pub open spec fn spec_open_now(s: Swal, instance: u64, auto_close: bool) -> Swal {
        Swal {
            phase: SwalPhase::Opening,
            live_instance: instance,
            then_slot: Some(instance),
            auto_close,
            ..s
        }
    }

    /// A fire request: with nothing on screen the alert mounts at once;
    /// with a popup still mounted — closing ones included — the request
    /// is queued instead, overwriting any earlier queued one, and the
    /// host is told to come back after the closing transition plus the
    /// fixed margin. Either way the alert is assigned a fresh instance
    /// number.
    pub open spec fn spec_fire(s: Swal, auto_close: bool, css: Option<Seq<char>>) -> (
        Swal,
        FireOutcome,
    ) {
        let id = s.next_instance;
        if s.spec_mounted() {
            let (cache, d) = Self::spec_resolve_duration(s.transition_cache, css);
            (
                Swal {
                    pending: Some(PendingOpen { instance: id, auto_close }),
                    transition_cache: cache,
                    next_instance: Self::spec_bump(id),
                    ..s
                },
                FireOutcome::Deferred { instance: id, delay_ms: Self::spec_reopen_delay(d) },
            )
        } else {
            (
                Self::spec_open_now(Swal { next_instance: Self::spec_bump(id), ..s }, id, auto_close),
                FireOutcome::OpenedNow { instance: id },
            )
        }
    }

    /// A close: the single place where results are finalized. If a
    /// callback is registered, it is ordered to run exactly when a result
    /// is given, and the registration and the auto-close flag are reset
    /// either way. If the popup is open, it starts its closing
    /// transition, the captured focus is ordered restored at once, and
    /// the call reports success; otherwise it reports failure and leaves
    /// the popup state alone.
    pub open spec fn spec_close(s: Swal, result: Option<SwalResult>, css: Option<Seq<char>>) -> (
        Swal,
        bool,
        CloseEffects,
    ) {
        let invoke = match (s.then_slot, result) {
            (Some(id), Some(r)) => Some(ThenCall { instance: id, result: r }),
            _ => None,
        };
        let s1 = if s.then_slot is Some {
            Swal { then_slot: None, auto_close: true, ..s }
        } else {
            s
        };
        if s1.spec_is_open() {
            let (cache, d) = Self::spec_resolve_duration(s1.transition_cache, css);
            (
                Swal {
                    phase: SwalPhase::Closing,
                    previously_focused: None,
                    transition_cache: cache,
                    ..s1
                },
                true,
                CloseEffects {
                    invoke_then: invoke,
                    teardown: Some(
                        Teardown { detach_delay_ms: d, restore_focus: s.previously_focused },
                    ),
                },
            )
        } else {
            (s1, false, CloseEffects { invoke_then: invoke, teardown: None })
        }
    }

    /// A dismissal key or backdrop click: only an open popup whose alert
    /// allows automatic closing is closed, with the given dismiss reason
    /// as the result.
    pub open spec fn spec_dismiss(s: Swal, reason: SwalDismissReason, css: Option<Seq<char>>) -> (
        Swal,
        Option<CloseEffects>,
    ) {
        if s.spec_is_open() && s.auto_close {
            let (s2, closed, eff) = Self::spec_close(
                s,
                Some(SwalResult::spec_canceled(reason)),
                css,
            );
            (s2, Some(eff))
        } else {
            (s, None)
        }
    }

    /// A confirm or deny button press, reported after the corresponding
    /// pre-hook ran: with automatic closing on, the live alert's callback
    /// is ordered to run with the given result and the popup closes
    /// without finalizing a second result; with automatic closing off
    /// nothing happens, so a pre-hook may close the popup itself or keep
    /// it on screen.
    pub open spec fn spec_button_result(s: Swal, result: SwalResult, css: Option<Seq<char>>) -> (
        Swal,
        ButtonEffects,
    ) {
        if s.spec_is_open() && s.auto_close {
            let (s2, closed, eff) = Self::spec_close(s, None, css);
            (
                s2,
                ButtonEffects {
                    invoke_then: Some(ThenCall { instance: s.live_instance, result }),
                    teardown: eff.teardown,
                },
            )
        } else {
            (s, ButtonEffects { invoke_then: None, teardown: None })
        }
    }

    /// A cancel button press: the live alert's callback is ordered to run
    /// with a cancel dismissal whether or not the popup closes itself;
    /// the popup closes only with automatic closing on.
    pub open spec fn spec_cancel(s: Swal, css: Option<Seq<char>>) -> (Swal, ButtonEffects) {
        if s.spec_is_open() {
            let invoke = Some(
                ThenCall {
                    instance: s.live_instance,
                    result: SwalResult::spec_canceled(SwalDismissReason::Cancel),
                },
            );
            if s.auto_close {
                let (s2, closed, eff) = Self::spec_close(s, None, css);
                (s2, ButtonEffects { invoke_then: invoke, teardown: eff.teardown })
            } else {
                (s, ButtonEffects { invoke_then: invoke, teardown: None })
            }
        } else {
            (s, ButtonEffects { invoke_then: None, teardown: None })
        }
    }

    /// A reopen tick: the queued alert mounts only once the previous
    /// popup has left the display tree; while one is still there the host
    /// is told to come back again, so that never more than one popup
    /// exists at a time.
    pub open spec fn spec_reopen(s: Swal, css: Option<Seq<char>>) -> (Swal, ReopenOutcome) {
        match s.pending {
            None => (s, ReopenOutcome::Idle),
            Some(p) => if s.phase == SwalPhase::Closed {
                (
                    Self::spec_open_now(Swal { pending: None, ..s }, p.instance, p.auto_close),
                    ReopenOutcome::Opened { instance: p.instance },
                )
            } else {
                let (cache, d) = Self::spec_resolve_duration(s.transition_cache, css);
                (
                    Swal { transition_cache: cache, ..s },
                    ReopenOutcome::Rearmed { delay_ms: Self::spec_reopen_delay(d) },
                )
            },
        }
    }

    /// A detach tick: a popup that is still playing its closing
    /// transition leaves the display tree; a tick that outlived its popup
    /// — because a newer alert has taken the screen — does nothing.
    pub open spec fn spec_detach(s: Swal) -> (Swal, bool) {
        if s.phase == SwalPhase::Closing {
            (Swal { phase: SwalPhase::Closed, ..s }, true)
        } else {
            (s, false)
        }
    }

    /// A visibility tick: a popup still in its pre-visible phase is
    /// marked visible and the first focusable control receives the focus;
    /// a tick that outlived its popup does nothing.
    pub open spec fn spec_visible(s: Swal, controls: Seq<ControlInfo>) -> (Swal, VisibleEffects) {
        if s.phase == SwalPhase::Opening {
            let f = spec_focusable_indices(controls);
            (
                Swal { phase: SwalPhase::Open, ..s },
                VisibleEffects {
                    mark_visible: true,
                    focus_first: if f.len() > 0 {
                        Some(f[0])
                    } else {
                        None
                    },
                },
            )
        } else {
            (s, VisibleEffects { mark_visible: false, focus_first: None })
        }
    }

    /// The focusable controls of the popup: the focus-trap filter over
    /// what the host reports, or nothing when no popup is on the display
    /// tree.
    pub open spec fn spec_focusables(s: Swal, controls: Seq<ControlInfo>) -> Seq<usize> {
        if s.spec_mounted() {
            spec_focusable_indices(controls)
        } else {
            Seq::empty()
        }
    }

    /// A Tab or Shift+Tab press: only while the popup is open, the focus
    /// moves cyclically through the focusable controls.
    pub open spec fn spec_tab(
        s: Swal,
        controls: Seq<ControlInfo>,
        shift: bool,
        active: Option<usize>,
    ) -> Option<usize> {
        if s.spec_is_open() {
            spec_tab_target(spec_focusable_indices(controls).len() as int, shift, active)
        } else {
            None
        }
    }

    /// Creates a fresh controller with nothing on screen.
    pub fn new() -> (s: Swal)
        ensures
            s == Swal::spec_init(),
    {
        Swal {
            phase: SwalPhase::Closed,
            live_instance: 0,
            then_slot: None,
            auto_close: true,
            previously_focused: None,
            transition_cache: None,
            pending: None,
            next_instance: 1,
        }
    }

    /// Checks if the popup is currently open.
    pub fn is_open(&self) -> (r: bool)
        ensures
            r == self.spec_is_open(),
    {
        self.phase == SwalPhase::Opening || self.phase == SwalPhase::Open
    }

    /// Records the element that should receive the focus back when the
    /// popup closes.
    pub fn set_previously_focused_element(&mut self, element: u64)
        ensures
            *final(self) == (Swal { previously_focused: Some(element), ..*old(self) }),
    {
        self.previously_focused = Some(element);
    }

    /// Forgets the element that should receive the focus back when the
    /// popup closes.
    pub fn forget_previously_focused_element(&mut self)
        ensures
            *final(self) == (Swal { previously_focused: None, ..*old(self) }),
    {
        self.previously_focused = None;
    }

    /// Resolves the closing-transition duration in milliseconds,
    /// memoizing it: the host hands in the popup's computed style value
    /// when one is readable, and the answer is the memoized duration, the
    /// freshly parsed one, or the zero fallback.
    pub fn get_transition_duration(&mut self, css_value: Option<String>) -> (r: u64)
        ensures
            ({
                let (cache, d) = Swal::spec_resolve_duration(
                    old(self).transition_cache,
                    Swal::spec_css_text(css_value),
                );
                *final(self) == (Swal { transition_cache: cache, ..*old(self) }) && r == d
            }),
    {
        match self.transition_cache {
            Some(d) => d,
            None => match css_value {
                Some(s) => match parse_css_seconds(s.as_str()) {
                    Some(ms) => {
                        self.transition_cache = Some(ms);
                        ms
                    },
                    None => 0,
                },
                None => 0,
            },
        }
    }

    /// Mounts an alert right away.
    fn open_now(&mut self, instance: u64, auto_close: bool)
        ensures
            *final(self) == Swal::spec_open_now(*old(self), instance, auto_close),
    {
        self.phase = SwalPhase::Opening;
        self.live_instance = instance;
        self.then_slot = Some(instance);
        self.auto_close = auto_close;
    }

    /// Creates an alert with the given options. With nothing on screen
    /// the popup mounts at once and the host must mount the alert's view
    /// and report the visibility tick after the fixed delay; with a popup
    /// still mounted the request is queued and the host must report a
    /// reopen tick after the returned delay, sized from the computed
    /// transition style the host hands in. The outcome names the
    /// instance number assigned to the alert, under which the host keeps
    /// the alert's callbacks and view.
    pub fn fire<I: SwalIconLike>(
        &mut self,
        opts: &SwalOptions<I>,
        css_value: Option<String>,
    ) -> (r: FireOutcome)
        ensures
            ({
                let (s2, o) = Swal::spec_fire(
                    *old(self),
                    opts.auto_close,
                    Swal::spec_css_text(css_value),
                );
                *final(self) == s2 && r == o
            }),
    {
        let id = self.next_instance;
        self.next_instance = if id == u64::MAX {
            0
        } else {
            id + 1
        };
        if self.phase != SwalPhase::Closed {
            let d = self.get_transition_duration(css_value);
            let delay = if d > u64::MAX - FIXED_OPEN_DELAY_MS {
                u64::MAX
            } else {
                d + FIXED_OPEN_DELAY_MS
            };
            self.pending = Some(PendingOpen { instance: id, auto_close: opts.auto_close });
            FireOutcome::Deferred { instance: id, delay_ms: delay }
        } else {
            self.open_now(id, opts.auto_close);
            FireOutcome::OpenedNow { instance: id }
        }
    }

    /// The reopen tick of a queued alert: mounts it if the previous popup
    /// has left the display tree, or asks the host to come back after one
    /// more closing-transition wait.
    pub fn reopen_tick(&mut self, css_value: Option<String>) -> (r: ReopenOutcome)
        ensures
            ({
                let (s2, o) = Swal::spec_reopen(*old(self), Swal::spec_css_text(css_value));
                *final(self) == s2 && r == o
            }),
    {
        match self.pending {
            None => ReopenOutcome::Idle,
            Some(p) => {
                if self.phase == SwalPhase::Closed {
                    self.pending = None;
                    self.open_now(p.instance, p.auto_close);
                    ReopenOutcome::Opened { instance: p.instance }
                } else {
                    let d = self.get_transition_duration(css_value);
                    let delay = if d > u64::MAX - FIXED_OPEN_DELAY_MS {
                        u64::MAX
                    } else {
                        d + FIXED_OPEN_DELAY_MS
                    };
                    ReopenOutcome::Rearmed { delay_ms: delay }
                }
            },
        }
    }

    /// The visibility tick after a mount: marks the popup visible so the
    /// opening transition animates, and names the control to focus.
    pub fn visible_tick(&mut self, controls: &Vec<ControlInfo>) -> (r: VisibleEffects)
        ensures
            ({
                let (s2, eff) = Swal::spec_visible(*old(self), controls@);
                *final(self) == s2 && r == eff
            }),
    {
        if self.phase == SwalPhase::Opening {
            self.phase = SwalPhase::Open;
            let f = focusable_indices(controls);
            let focus_first = if f.len() > 0 {
                Some(f[0])
            } else {
                None
            };
            VisibleEffects { mark_visible: true, focus_first }
        } else {
            VisibleEffects { mark_visible: false, focus_first: None }
        }
    }

    /// Closes the alert and reports whether anything was closed: false
    /// exactly when no popup was open. A registered result callback is
    /// ordered to run — exactly once — when a result is given; closing
    /// without a result finalizes the alert silently. The detach wait in
    /// the returned teardown is sized from the computed transition style
    /// the host hands in, through the memo.
    pub fn close(&mut self, result: Option<SwalResult>, css_value: Option<String>) -> (r: (
        bool,
        CloseEffects,
    ))
        ensures
            ({
                let (s2, closed, eff) = Swal::spec_close(
                    *old(self),
                    result,
                    Swal::spec_css_text(css_value),
                );
                *final(self) == s2 && r.0 == closed && r.1 == eff
            }),
    {
        let mut invoke: Option<ThenCall> = None;
        if let Some(id) = self.then_slot {
            if let Some(res) = result {
                invoke = Some(ThenCall { instance: id, result: res });
            }
            self.then_slot = None;
            self.auto_close = true;
        }
        if self.phase == SwalPhase::Opening || self.phase == SwalPhase::Open {
            let d = self.get_transition_duration(css_value);
            let teardown = Teardown { detach_delay_ms: d, restore_focus: self.previously_focused };
            self.previously_focused = None;
            self.phase = SwalPhase::Closing;
            (true, CloseEffects { invoke_then: invoke, teardown: Some(teardown) })
        } else {
            (false, CloseEffects { invoke_then: invoke, teardown: None })
        }
    }

    /// The detach tick after a close: reports whether the host must take
    /// the popup off the display tree now. Safe to receive at any time; a
    /// tick that outlived its popup does nothing.
    pub fn detach_tick(&mut self) -> (r: bool)
        ensures
            ({
                let (s2, remove) = Swal::spec_detach(*old(self));
                *final(self) == s2 && r == remove
            }),
    {
        if self.phase == SwalPhase::Closing {
            self.phase = SwalPhase::Closed;
            true
        } else {
            false
        }
    }

    /// The Escape key: closes an open popup with an Escape dismissal,
    /// unless the live alert has automatic closing off.
    pub fn handle_escape_key(&mut self, css_value: Option<String>) -> (r: Option<CloseEffects>)
        ensures
            ({
                let (s2, eff) = Swal::spec_dismiss(
                    *old(self),
                    SwalDismissReason::Esc,
                    Swal::spec_css_text(css_value),
                );
                *final(self) == s2 && r == eff
            }),
    {
        if self.is_open() && self.auto_close {
            let (_closed, eff) = self.close(
                Some(SwalResult::canceled(SwalDismissReason::Esc)),
                css_value,
            );
            Some(eff)
        } else {
            None
        }
    }

    /// A click that landed outside the popup's container: closes an open
    /// popup with a backdrop dismissal, unless the live alert has
    /// automatic closing off.
    pub fn handle_backdrop_click(&mut self, css_value: Option<String>) -> (r: Option<CloseEffects>)
        ensures
            ({
                let (s2, eff) = Swal::spec_dismiss(
                    *old(self),
                    SwalDismissReason::Backdrop,
                    Swal::spec_css_text(css_value),
                );
                *final(self) == s2 && r == eff
            }),
    {
        if self.is_open() && self.auto_close {
            let (_closed, eff) = self.close(
                Some(SwalResult::canceled(SwalDismissReason::Backdrop)),
                css_value,
            );
            Some(eff)
        } else {
            None
        }
    }

    /// The confirmation button, reported after the alert's pre-confirm
    /// hook ran: with automatic closing on, orders the live alert's
    /// callback run with a confirmed result and closes the popup.
    pub fn handle_confirm_click(&mut self, css_value: Option<String>) -> (r: ButtonEffects)
        ensures
            ({
                let (s2, eff) = Swal::spec_button_result(
                    *old(self),
                    SwalResult::spec_confirmed(),
                    Swal::spec_css_text(css_value),
                );
                *final(self) == s2 && r == eff
            }),
    {
        if self.is_open() && self.auto_close {
            let invoke = Some(
                ThenCall { instance: self.live_instance, result: SwalResult::confirmed() },
            );
            let (_closed, eff) = self.close(None, css_value);
            ButtonEffects { invoke_then: invoke, teardown: eff.teardown }
        } else {
            ButtonEffects { invoke_then: None, teardown: None }
        }
    }

    /// The deny button, reported after the alert's pre-deny hook ran:
    /// with automatic closing on, orders the live alert's callback run
    /// with a denied result and closes the popup.
    pub fn handle_deny_click(&mut self, css_value: Option<String>) -> (r: ButtonEffects)
        ensures
            ({
                let (s2, eff) = Swal::spec_button_result(
                    *old(self),
                    SwalResult::spec_denied(),
                    Swal::spec_css_text(css_value),
                );
                *final(self) == s2 && r == eff
            }),
    {
        if self.is_open() && self.auto_close {
            let invoke = Some(ThenCall { instance: self.live_instance, result: SwalResult::denied() });
            let (_closed, eff) = self.close(None, css_value);
            ButtonEffects { invoke_then: invoke, teardown: eff.teardown }
        } else {
            ButtonEffects { invoke_then: None, teardown: None }
        }
    }

    /// The cancel button: orders the live alert's callback run with a
    /// cancel dismissal, and closes the popup when the live alert has
    /// automatic closing on.
    pub fn handle_cancel_click(&mut self, css_value: Option<String>) -> (r: ButtonEffects)
        ensures
            ({
                let (s2, eff) = Swal::spec_cancel(*old(self), Swal::spec_css_text(css_value));
                *final(self) == s2 && r == eff
            }),
    {
        if self.is_open() {
            let invoke = Some(
                ThenCall {
                    instance: self.live_instance,
                    result: SwalResult::canceled(SwalDismissReason::Cancel),
                },
            );
            if self.auto_close {
                let (_closed, eff) = self.close(None, css_value);
                ButtonEffects { invoke_then: invoke, teardown: eff.teardown }
            } else {
                ButtonEffects { invoke_then: invoke, teardown: None }
            }
        } else {
            ButtonEffects { invoke_then: None, teardown: None }
        }
    }

    /// The positions, in document order, of the focusable controls among
    /// the ones the host reports from the popup subtree; empty when no
    /// popup is on the display tree.
    pub fn get_focusables(&self, controls: &Vec<ControlInfo>) -> (r: Vec<usize>)
        ensures
            r@ == Swal::spec_focusables(*self, controls@),
    {
        if self.phase != SwalPhase::Closed {
            focusable_indices(controls)
        } else {
            Vec::new()
        }
    }

    /// The Tab key inside the focus trap: names the position, among the
    /// focusable controls, of the control to focus next — cyclically
    /// forward, or backward with Shift held. Nothing moves when the popup
    /// is not open or no control is focusable; `active` is the position
    /// of the control that currently has the focus, when one of them
    /// does.
    pub fn handle_tab_key(
        &self,
        controls: &Vec<ControlInfo>,
        shift: bool,
        active: Option<usize>,
    ) -> (r: Option<usize>)
        ensures
            r == Swal::spec_tab(*self, controls@, shift, active),
    {
        if !(self.phase == SwalPhase::Opening || self.phase == SwalPhase::Open) {
            return None;
        }
        let f = focusable_indices(controls);
        let n = f.len();
        if n == 0 {
            return None;
        }
        let idx = match active {
            Some(p) => if p < n {
                p
            } else {
                0
            },
            None => 0,
        };
        if shift {
            if idx == 0 {
                Some(n - 1)
            } else {
                Some(idx - 1)
            }
        } else {
            Some((idx + 1) % n)
        }
    }
}

/// A fresh controller reports the popup closed, and a fire with nothing
/// on screen mounts at once, after which the popup reports open: for all
/// options values, `is_open` is false before any fire and true as soon as
/// a fire resolves its mount step.
pub proof fn lemma_fresh_closed_and_fire_opens(s: Swal, auto_close: bool, css: Option<Seq<char>>)
    ensures
        !Swal::spec_init().spec_is_open(),
        !s.spec_mounted() ==> Swal::spec_fire(s, auto_close, css).0.spec_is_open(),
        !s.spec_mounted() ==> Swal::spec_fire(s, auto_close, css).1 is OpenedNow,
{
}

/// Closing without a result never orders the stored callback run.
pub proof fn lemma_close_without_result_is_silent(s: Swal, css: Option<Seq<char>>)
    ensures
        Swal::spec_close(s, None, css).2.invoke_then is None,
{
}

/// Closing with a result orders exactly the stored callback run, with
/// exactly that result — and only once: whatever close comes after it,
/// no further run is ordered until a new alert registers a callback.
pub proof fn lemma_close_dispatches_exactly_once(
    s: Swal,
    res: SwalResult,
    css1: Option<Seq<char>>,
    r2: Option<SwalResult>,
    css2: Option<Seq<char>>,
)
    ensures
        (match s.then_slot {
            Some(id) => Swal::spec_close(s, Some(res), css1).2.invoke_then == Some(
                ThenCall { instance: id, result: res },
            ),
            None => Swal::spec_close(s, Some(res), css1).2.invoke_then is None,
        }),
        Swal::spec_close(Swal::spec_close(s, Some(res), css1).0, r2, css2).2.invoke_then is None,
{
}

/// After a close, a second close reports failure — the popup is already
/// on its way out — until another alert mounts.
pub proof fn lemma_second_close_fails(
    s: Swal,
    r1: Option<SwalResult>,
    css1: Option<Seq<char>>,
    r2: Option<SwalResult>,
    css2: Option<Seq<char>>,
)
    ensures
        !Swal::spec_close(Swal::spec_close(s, r1, css1).0, r2, css2).1,
{
}

/// The Escape key leaves the popup alone when the live alert has
/// automatic closing off; with it on, an open popup closes with an
/// Escape dismissal as the result.
pub proof fn lemma_escape_respects_auto_close(s: Swal, css: Option<Seq<char>>)
    ensures
        !s.auto_close ==> Swal::spec_dismiss(s, SwalDismissReason::Esc, css) == (
            s,
            None::<CloseEffects>,
        ),
        s.auto_close && s.spec_is_open() ==> ({
            let (s2, eff) = Swal::spec_dismiss(s, SwalDismissReason::Esc, css);
            &&& !s2.spec_is_open()
            &&& eff matches Some(e) && e.teardown is Some && (s.then_slot matches Some(id)
                ==> e.invoke_then == Some(
                ThenCall {
                    instance: id,
                    result: SwalResult::spec_canceled(SwalDismissReason::Esc),
                },
            ))
        }),
{
}

/// Never more than one popup node: a fire while any popup is still on
/// the display tree — a closing one included — only queues the alert,
/// telling the host to wait for the closing transition plus the fixed
/// margin, and a queued alert mounts only once the previous popup has
/// detached.
pub proof fn lemma_single_popup(s: Swal, auto_close: bool, css: Option<Seq<char>>)
    ensures
        s.spec_mounted() ==> ({
            let (s2, o) = Swal::spec_fire(s, auto_close, css);
            &&& s2.phase == s.phase
            &&& o matches FireOutcome::Deferred { instance: _, delay_ms } && delay_ms
                == Swal::spec_reopen_delay(Swal::spec_resolve_duration(s.transition_cache, css).1)
        }),
        Swal::spec_reopen(s, css).1 is Opened ==> s.phase == SwalPhase::Closed,
{
}

} // verus!
