use vstd::prelude::*;

verus! {

/// The reasons why an alert has been closed without being confirmed
/// or denied.
#[derive(Debug, PartialEq, Eq, Structural, Clone, Copy)]
pub enum SwalDismissReason {
    /// The user clicked the backdrop.
    Backdrop,
    /// The user clicked the cancel button.
    Cancel,
    /// The alert was closed programmatically by the host.
    ///
    /// This member is never produced by the controller itself; it is
    /// provided for hosts that close the alert manually and need a way
    /// to recognize such a close in the result.
    Close,
    /// The user pressed the Escape key.
    Esc,
}

} // verus!
