use vstd::prelude::*;

verus! {

/// What the host reports about one element inside the popup subtree, in
/// document order. The controller decides from these flags which elements
/// take part in the focus trap.
#[derive(Debug, PartialEq, Eq, Structural, Clone, Copy)]
pub struct ControlInfo {
    /// The element is of a natively interactive kind: a link with a
    /// target, a button, an input, a text area, a select or a details
    /// element.
    pub interactive: bool,
    /// The element is disabled.
    pub disabled: bool,
    /// The element is hidden from assistive technology.
    pub aria_hidden: bool,
    /// The element is inert.
    pub inert: bool,
    /// The element carries an explicit tab index.
    pub has_tab_index: bool,
    /// The explicit tab index is negative.
    pub negative_tab_index: bool,
    /// The element's computed display is "none".
    pub display_none: bool,
}

/// Whether an element takes part in the focus trap: an interactive element
/// that is neither disabled nor hidden from assistive technology nor
/// inert, or any element with a non-negative explicit tab index — in both
/// cases only if it is actually displayed.
pub open spec fn spec_focusable(c: ControlInfo) -> bool {
    &&& ((c.interactive && !c.disabled && !c.aria_hidden && !c.inert) || (c.has_tab_index
        && !c.negative_tab_index))
    &&& !c.display_none
}

impl ControlInfo {
    /// Whether this element takes part in the focus trap.
    pub fn is_focusable(&self) -> (r: bool)
        ensures
            r == spec_focusable(*self),
    {
        ((self.interactive && !self.disabled && !self.aria_hidden && !self.inert) || (
        self.has_tab_index && !self.negative_tab_index)) && !self.display_none
    }
}

/// The positions, in document order, of the focusable elements among the
/// reported ones.
pub open spec fn spec_focusable_indices(cs: Seq<ControlInfo>) -> Seq<usize>
    decreases cs.len(),
{
    if cs.len() == 0 {
        Seq::empty()
    } else {
        spec_focusable_indices(cs.drop_last()) + (if spec_focusable(cs.last()) {
            seq![(cs.len() - 1) as usize]
        } else {
            Seq::empty()
        })
    }
}

/// Filters the reported elements down to the positions of the focusable
/// ones, keeping document order.
pub fn focusable_indices(controls: &Vec<ControlInfo>) -> (r: Vec<usize>)
    ensures
        r@ == spec_focusable_indices(controls@),
{
    let mut r: Vec<usize> = Vec::new();
    let mut i: usize = 0;
    while i < controls.len()
        invariant
            i <= controls@.len(),
            r@ == spec_focusable_indices(controls@.take(i as int)),
        decreases controls@.len() - i,
    {
        let prefix = Ghost(controls@.take(i + 1 as int));
        proof {
            assert(prefix@.drop_last() =~= controls@.take(i as int));
            assert(prefix@.last() == controls@[i as int]);
        }
        if controls[i].is_focusable() {
            r.push(i);
            proof {
                assert(r@ =~= spec_focusable_indices(prefix@));
            }
        } else {
            proof {
                assert(r@ =~= spec_focusable_indices(prefix@));
            }
        }
        i = i + 1;
    }
    proof {
        assert(controls@.take(controls@.len() as int) =~= controls@);
    }
    r
}

/// Where the focus moves when Tab or Shift+Tab is pressed: `n` is the
/// number of focusable elements, `active` the position of the currently
/// focused element among them (a missing or out-of-range position counts
/// as the first). With no focusable element at all the key is left alone;
/// otherwise Tab advances cyclically and Shift+Tab goes back cyclically.
pub open spec fn spec_tab_target(n: int, shift: bool, active: Option<usize>) -> Option<usize> {
    if n <= 0 {
        None
    } else {
        let idx: int = match active {
            Some(p) => if (p as int) < n {
                p as int
            } else {
                0
            },
            None => 0,
        };
        if shift {
            if idx == 0 {
                Some((n - 1) as usize)
            } else {
                Some((idx - 1) as usize)
            }
        } else {
            Some(((idx + 1) % n) as usize)
        }
    }
}

/// Tab cycling wraps around: from the last focusable element, Tab moves
/// to the first; from the first, Shift+Tab moves to the last; and with
/// zero focusable elements the key does nothing.
pub proof fn lemma_tab_cycling(n: int, shift: bool, active: Option<usize>)
    requires
        0 <= n <= usize::MAX,
    ensures
        n == 0 ==> spec_tab_target(n, shift, active) is None,
        n > 0 ==> spec_tab_target(n, false, Some((n - 1) as usize)) == Some(0usize),
        n > 0 ==> spec_tab_target(n, true, Some(0usize)) == Some((n - 1) as usize),
{
    if n > 0 {
        assert(n % n == 0) by (nonlinear_arith)
            requires
                n > 0,
        ;
    }
}

} // verus!
