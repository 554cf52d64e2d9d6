use vstd::prelude::*;

use crate::swal_icon::IconFragment;
use crate::swal_icon::SwalIconLike;
use crate::swal_options::SwalOptions;

verus! {

/// Everything the host's view renderer needs to mount one popup.
///
/// The renderer wraps this in its fixed skeleton: a backdrop with the
/// popup's well-known element identity, the dialog role, `aria-modal`
/// set, the title labelling the dialog, and `aria-hidden` initially true
/// (the controller asks for it to be flipped one tick after mounting, so
/// that the opening transition animates).
#[derive(Debug, PartialEq, Eq, Clone)]
pub struct SwalViewDescriptor {
    /// Whether opening and closing transitions are animated.
    pub animation: bool,
    /// The icon block to display above the title, if any.
    pub icon: Option<IconFragment>,
    /// The title of the popup; rendered even when empty.
    pub title: String,
    /// The description below the title; omitted when the configured text
    /// is empty.
    pub text: Option<String>,
    /// The label of the confirmation button, present exactly when that
    /// button is shown. An empty configured label falls back to "Ok".
    pub confirm_label: Option<String>,
    /// The label of the deny button, present exactly when that button is
    /// shown. An empty configured label falls back to "Deny".
    pub deny_label: Option<String>,
    /// The label of the cancel button, present exactly when that button is
    /// shown. An empty configured label falls back to "Cancel".
    pub cancel_label: Option<String>,
}

/// The label to render: the configured one, or the built-in fallback when
/// the configured one is empty.
pub open spec fn spec_label_or(text: Seq<char>, fallback: Seq<char>) -> Seq<char> {
    if text.len() != 0 {
        text
    } else {
        fallback
    }
}

fn label_or(text: &String, fallback: &str) -> (r: String)
    ensures
        r@ == spec_label_or(text@, fallback@),
{
    if text.as_str().is_empty() {
        fallback.to_owned()
    } else {
        text.clone()
    }
}

impl SwalViewDescriptor {
    /// Builds the view of one popup from its options: which blocks are
    /// present, and the label of each button, with the built-in defaults
    /// filled in for empty ones.
    pub fn from_options<I: SwalIconLike>(opts: &SwalOptions<I>) -> (d: Self)
        ensures
            d.animation == opts.animation,
            d.icon == (if opts.icon.spec_is_defined() {
                Some(opts.icon.spec_fragment())
            } else {
                None::<IconFragment>
            }),
            d.title@ == opts.title@,
            (match d.text {
                Some(t) => opts.text@.len() != 0 && t@ == opts.text@,
                None => opts.text@.len() == 0,
            }),
            (match d.confirm_label {
                Some(l) => opts.show_confirm_button && l@ == spec_label_or(
                    opts.confirm_button_text@,
                    "Ok"@,
                ),
                None => !opts.show_confirm_button,
            }),
            (match d.deny_label {
                Some(l) => opts.show_deny_button && l@ == spec_label_or(
                    opts.deny_button_text@,
                    "Deny"@,
                ),
                None => !opts.show_deny_button,
            }),
            (match d.cancel_label {
                Some(l) => opts.show_cancel_button && l@ == spec_label_or(
                    opts.cancel_button_text@,
                    "Cancel"@,
                ),
                None => !opts.show_cancel_button,
            }),
    {
        let icon = if opts.icon.is_defined() {
            Some(opts.icon.get_icon_element())
        } else {
            None
        };
        let text = if opts.has_text() {
            Some(opts.text.clone())
        } else {
            None
        };
        let confirm_label = if opts.show_confirm_button {
            Some(label_or(&opts.confirm_button_text, "Ok"))
        } else {
            None
        };
        let deny_label = if opts.show_deny_button {
            Some(label_or(&opts.deny_button_text, "Deny"))
        } else {
            None
        };
        let cancel_label = if opts.show_cancel_button {
            Some(label_or(&opts.cancel_button_text, "Cancel"))
        } else {
            None
        };
        SwalViewDescriptor {
            animation: opts.animation,
            icon,
            title: opts.title.clone(),
            text,
            confirm_label,
            deny_label,
            cancel_label,
        }
    }
}

} // verus!
