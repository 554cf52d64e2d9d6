use vstd::prelude::*;

verus! {

/// A renderable description of an icon, handed to the host's view renderer.
///
/// The five built-in variants stand for the fixed vector fragments that the
/// renderer ships; `Empty` renders nothing at all; `Custom` carries a key
/// that a host-defined renderer resolves to its own fragment.
#[derive(Debug, PartialEq, Eq, Clone)]
pub enum IconFragment {
    /// A check mark in a circle.
    Success,
    /// An exclamation mark.
    Warning,
    /// A cross.
    Error,
    /// The letter "i" in a circle.
    Info,
    /// A question mark.
    Question,
    /// An empty fragment: no icon is displayed.
    Empty,
    /// A host-defined fragment, identified by a key of the host's choosing.
    Custom(String),
}

/// The capability that a type must offer to be used as the icon of an
/// alert.
///
/// Use it to create your own icons: describe the fragment to render in
/// `get_icon_element`, and report through `is_defined` whether an icon
/// should be displayed at all. An icon type must also name a default value,
/// used when the caller does not pick an icon; a default that reports
/// `is_defined() == false` means "display no icon unless one is chosen".
pub trait SwalIconLike: Sized {
    /// The fragment this icon renders as.
    spec fn spec_fragment(&self) -> IconFragment;

    /// Whether an icon should be displayed for this value.
    spec fn spec_is_defined(&self) -> bool;

    /// The default value of the icon type.
    spec fn spec_default_icon() -> Self;

    /// The renderable fragment of the icon, to be inserted into the view
    /// when building the popup.
    fn get_icon_element(&self) -> (r: IconFragment)
        ensures
            r == self.spec_fragment(),
    ;

    /// Whether an icon should be displayed. If `self` is a value that
    /// stands for "no icon", this returns false and no icon block is put
    /// into the view.
    fn is_defined(&self) -> (r: bool)
        ensures
            r == self.spec_is_defined(),
    ;

    /// The icon value used when none is chosen explicitly.
    fn default_icon() -> (r: Self)
        ensures
            r == Self::spec_default_icon(),
    ;
}

/// The built-in icons of the popup.
///
/// `NONE` is the default and displays no icon; every other value renders a
/// fixed vector fragment.
#[allow(non_camel_case_types)]
#[derive(Debug, PartialEq, Eq, Structural, Clone, Copy)]
pub enum SwalIcon {
    /// Shows an information icon (the letter "i" in a circle).
    INFO,
    /// Shows an error icon (a cross).
    ERROR,
    /// Shows a check mark (for a successful operation).
    SUCCESS,
    /// Shows a warning (an exclamation mark).
    WARNING,
    /// Shows a question mark.
    QUESTION,
    /// Shows no icon. It is the default icon of an alert.
    NONE,
}

impl SwalIcon {
    /// The fragment displayed when no icon is wanted.
    pub fn none_icon() -> (r: IconFragment)
        ensures
            r == IconFragment::Empty,
    {
        IconFragment::Empty
    }
}

impl SwalIconLike for SwalIcon {
    open spec fn spec_fragment(&self) -> IconFragment {
        match self {
            SwalIcon::SUCCESS => IconFragment::Success,
            SwalIcon::WARNING => IconFragment::Warning,
            SwalIcon::ERROR => IconFragment::Error,
            SwalIcon::INFO => IconFragment::Info,
            SwalIcon::QUESTION => IconFragment::Question,
            SwalIcon::NONE => IconFragment::Empty,
        }
    }

    open spec fn spec_is_defined(&self) -> bool {
        !(*self == SwalIcon::NONE)
    }

    open spec fn spec_default_icon() -> Self {
        SwalIcon::NONE
    }

    fn get_icon_element(&self) -> (r: IconFragment) {
        match self {
            SwalIcon::SUCCESS => IconFragment::Success,
            SwalIcon::WARNING => IconFragment::Warning,
            SwalIcon::ERROR => IconFragment::Error,
            SwalIcon::INFO => IconFragment::Info,
            SwalIcon::QUESTION => IconFragment::Question,
            SwalIcon::NONE => IconFragment::Empty,
        }
    }

    fn is_defined(&self) -> (r: bool) {
        *self != SwalIcon::NONE
    }

    fn default_icon() -> (r: Self) {
        SwalIcon::NONE
    }
}

} // verus!
