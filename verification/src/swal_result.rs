use vstd::prelude::*;

use crate::swal_dismiss_reason::SwalDismissReason;

verus! {

/// The data that is handed to the `then` callback when an alert is closed
/// with an outcome.
///
/// Exactly one of `is_confirmed`, `is_denied` and `is_dismissed` is true in
/// every value built by the three constructors; `dismiss` is present if and
/// only if the alert was dismissed.
#[derive(Debug, PartialEq, Eq, Clone, Copy)]
pub struct SwalResult {
    /// The "Confirm" button was clicked; `value` will be true.
    pub is_confirmed: bool,
    /// The "Deny" button was clicked; `value` will be false.
    pub is_denied: bool,
    /// The alert was dismissed; `dismiss` holds the reason.
    pub is_dismissed: bool,
    /// The value from the popup: `true` for confirmed dialogs, `false`
    /// otherwise.
    pub value: bool,
    /// The dismissal reason; present exactly when the popup was dismissed.
    pub dismiss: Option<SwalDismissReason>,
}

impl SwalResult {
    /// The result of a confirmed popup, as a spec-level value.
    pub open spec fn spec_confirmed() -> SwalResult {
        SwalResult {
            is_confirmed: true,
            is_denied: false,
            is_dismissed: false,
            value: true,
            dismiss: None,
        }
    }

    /// The result of a denied popup, as a spec-level value.
    pub open spec fn spec_denied() -> SwalResult {
        SwalResult {
            is_confirmed: false,
            is_denied: true,
            is_dismissed: false,
            value: false,
            dismiss: None,
        }
    }

    /// The result of a dismissed popup, as a spec-level value.
    pub open spec fn spec_canceled(reason: SwalDismissReason) -> SwalResult {
        SwalResult {
            is_confirmed: false,
            is_denied: false,
            is_dismissed: true,
            value: false,
            dismiss: Some(reason),
        }
    }

    /// Creates the result of a confirmed popup.
    pub fn confirmed() -> (r: Self)
        ensures
            r == Self::spec_confirmed(),
    {
        Self {
            is_confirmed: true,
            is_denied: false,
            is_dismissed: false,
            value: true,
            dismiss: None,
        }
    }

    /// Creates the result of a denied popup.
    pub fn denied() -> (r: Self)
        ensures
            r == Self::spec_denied(),
    {
        Self {
            is_confirmed: false,
            is_denied: true,
            is_dismissed: false,
            value: false,
            dismiss: None,
        }
    }

    /// Creates the result of a popup dismissed for the given reason.
    pub fn canceled(reason: SwalDismissReason) -> (r: Self)
        ensures
            r == Self::spec_canceled(reason),
    {
        Self {
            is_confirmed: false,
            is_denied: false,
            is_dismissed: true,
            value: false,
            dismiss: Some(reason),
        }
    }
}

} // verus!
