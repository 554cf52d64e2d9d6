//! A modal "alert / confirm" popup widget, centered on the lifecycle state
//! machine that governs a single shared popup instance: opening, transition
//! aware closing, re-entrant reopening, focus trapping and exactly-once
//! dispatch of result callbacks.
//!
//! Rendering the popup's markup is out of scope: the controller hands the
//! host a plain view descriptor and a list of effects to perform, and the
//! host reports events (clicks, key presses, timer ticks) back to it.

mod swal;
mod swal_dismiss_reason;
mod swal_focus;
mod swal_icon;
mod swal_options;
mod swal_result;
mod swal_transition;
mod swal_view;

pub use swal::ButtonEffects;
pub use swal::lemma_close_dispatches_exactly_once;
pub use swal::lemma_close_without_result_is_silent;
pub use swal::lemma_escape_respects_auto_close;
pub use swal::lemma_fresh_closed_and_fire_opens;
pub use swal::lemma_second_close_fails;
pub use swal::lemma_single_popup;
pub use swal::CloseEffects;
pub use swal::FIXED_OPEN_DELAY_MS;
pub use swal::FireOutcome;
pub use swal::PendingOpen;
pub use swal::ReopenOutcome;
pub use swal::Swal;
pub use swal::SwalPhase;
pub use swal::Teardown;
pub use swal::ThenCall;
pub use swal::VisibleEffects;
pub use swal_dismiss_reason::SwalDismissReason;
pub use swal_focus::ControlInfo;
pub use swal_focus::focusable_indices;
pub use swal_focus::lemma_tab_cycling;
pub use swal_focus::spec_focusable;
pub use swal_focus::spec_focusable_indices;
pub use swal_focus::spec_tab_target;
pub use swal_icon::IconFragment;
pub use swal_icon::SwalIcon;
pub use swal_icon::SwalIconLike;
pub use swal_options::SwalOptions;
pub use swal_options::spec_rest_is_default;
pub use swal_result::SwalResult;
pub use swal_transition::parse_css_seconds;
pub use swal_transition::spec_css_millis;
pub use swal_transition::spec_css_seconds_wf;
pub use swal_transition::spec_parse_css_seconds;
pub use swal_view::SwalViewDescriptor;
pub use swal_view::spec_label_or;
