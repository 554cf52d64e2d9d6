use vstd::prelude::*;

use crate::swal_icon::SwalIcon;
use crate::swal_icon::SwalIconLike;

verus! {

/// The parameters of one alert.
///
/// Text fields are plain strings; an empty string means "use the built-in
/// default label" for button labels and "omit the element" for the title
/// and the text. The generic parameter picks the icon type; by default it
/// is the built-in [`SwalIcon`].
///
/// The host-side concerns of an alert — the `pre_confirm`, `pre_deny` and
/// `then` callbacks and any extra view content — are carried by the host
/// next to these options, keyed by the instance number that the controller
/// assigns when the alert is fired. The controller tells the host in its
/// returned effects when to run which callback.
#[derive(Debug, Clone)]
pub struct SwalOptions<I = SwalIcon> where I: SwalIconLike {
    /// The title of the alert. If its value is an empty string, no title
    /// will be displayed.
    pub title: String,
    /// A text or description to display below the title. If its value is
    /// an empty string, no description will be displayed.
    pub text: String,
    /// An icon to display above the title. By default, there is no icon.
    pub icon: I,
    /// Should the default confirmation button be displayed? It defaults to
    /// `true`.
    pub show_confirm_button: bool,
    /// Should the deny button be displayed? It defaults to `false`.
    pub show_deny_button: bool,
    /// Should the cancel button be displayed? It defaults to `false`.
    pub show_cancel_button: bool,
    /// The label of the confirmation button. Defaults to "Ok".
    pub confirm_button_text: String,
    /// The label of the cancel button. Defaults to "Cancel".
    pub cancel_button_text: String,
    /// The label of the deny button. Defaults to "Deny".
    pub deny_button_text: String,
    /// Should the alert close itself when a button is pressed and when it
    /// is dismissed? Defaults to `true`.
    ///
    /// Use this carefully, as preventing someone from dismissing a popup
    /// is considered bad practice, especially for accessibility concerns.
    pub auto_close: bool,
    /// Should the popup be animated? A value of `false` stops all
    /// animations, including the opening and closing transitions. Defaults
    /// to `true`.
    pub animation: bool,
}

/// Whether an options value carries the default of every field except the
/// ones a constructor sets.
pub open spec fn spec_rest_is_default<I: SwalIconLike>(opts: SwalOptions<I>) -> bool {
    &&& opts.show_confirm_button == true
    &&& opts.show_deny_button == false
    &&& opts.show_cancel_button == false
    &&& opts.confirm_button_text@.len() == 0
    &&& opts.cancel_button_text@.len() == 0
    &&& opts.deny_button_text@.len() == 0
    &&& opts.auto_close == true
    &&& opts.animation == true
}

impl<I: SwalIconLike> Default for SwalOptions<I> {
    /// The default options: everything empty, only the confirmation button
    /// shown, no icon, automatic closing and animations on.
    fn default() -> (r: Self)
        ensures
            r.title@.len() == 0,
            r.text@.len() == 0,
            r.icon == I::spec_default_icon(),
            spec_rest_is_default(r),
    {
        Self {
            title: String::new(),
            text: String::new(),
            icon: I::default_icon(),
            show_confirm_button: true,
            show_deny_button: false,
            show_cancel_button: false,
            confirm_button_text: String::new(),
            cancel_button_text: String::new(),
            deny_button_text: String::new(),
            auto_close: true,
            animation: true,
        }
    }
}

impl<I: SwalIconLike> SwalOptions<I> {
    /// Creates options for a simple alert with just a title. All other
    /// parameters are set to their default values.
    pub fn basic(title: String) -> (r: Self)
        ensures
            r.title == title,
            r.text@.len() == 0,
            r.icon == I::spec_default_icon(),
            spec_rest_is_default(r),
    {
        Self { title, ..Self::default() }
    }

    /// Creates options for a simple alert with a title and an icon. All
    /// other parameters are set to their default values.
    pub fn basic_icon(title: String, icon: I) -> (r: Self)
        ensures
            r.title == title,
            r.text@.len() == 0,
            r.icon == icon,
            spec_rest_is_default(r),
    {
        Self { title, icon, ..Self::default() }
    }

    /// Creates options for a simple alert with a title, a text and an
    /// icon. All other parameters are set to their default values.
    pub fn common(title: String, text: String, icon: I) -> (r: Self)
        ensures
            r.title == title,
            r.text == text,
            r.icon == icon,
            spec_rest_is_default(r),
    {
        Self { title, text, icon, ..Self::default() }
    }

    /// Whether or not the current options have a title.
    pub fn has_title(&self) -> (r: bool)
        ensures
            r == (self.title@.len() != 0),
    {
        !self.title.as_str().is_empty()
    }

    /// Whether or not the current options have a text.
    pub fn has_text(&self) -> (r: bool)
        ensures
            r == (self.text@.len() != 0),
    {
        !self.text.as_str().is_empty()
    }

    /// Checks if a text was given for the confirmation button. If there is
    /// none, the default label, "Ok", is rendered instead.
    pub fn has_confirm_button_text(&self) -> (r: bool)
        ensures
            r == (self.confirm_button_text@.len() != 0),
    {
        !self.confirm_button_text.as_str().is_empty()
    }

    /// Checks if a text was given for the deny button. If there is none,
    /// the default label, "Deny", is rendered instead.
    pub fn has_deny_button_text(&self) -> (r: bool)
        ensures
            r == (self.deny_button_text@.len() != 0),
    {
        !self.deny_button_text.as_str().is_empty()
    }

    /// Checks if a text was given for the cancel button. If there is none,
    /// the default label, "Cancel", is rendered instead.
    pub fn has_cancel_button_text(&self) -> (r: bool)
        ensures
            r == (self.cancel_button_text@.len() != 0),
    {
        !self.cancel_button_text.as_str().is_empty()
    }
}

} // verus!
