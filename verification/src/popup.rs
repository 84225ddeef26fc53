//! Items of a pop-up (context) menu.
//!
//! A pop-up menu opens on a secondary click. Items are named by their index
//! in the application's order, separators included; a separator cannot be
//! chosen, so its index is never notified.
use vstd::prelude::*;

verus! {

/// One item of a pop-up menu.
#[derive(Debug, Clone, PartialEq, Eq)]
pub struct PopupItem {
    /// The text shown (unused by separators).
    pub label: String,
    /// Whether the item can be chosen.
    pub enabled: bool,
    /// Whether the item is a separator.
    pub separator: bool,
}

impl PopupItem {
    /// An item that can be chosen.
    pub fn new(label: &str) -> (r: Self)
        ensures
            r.label@ == label@,
            r.enabled,
            !r.separator,
    {
        PopupItem { label: String::from_str(label), enabled: true, separator: false }
    }

    /// A separator; it cannot be chosen.
    pub fn separator() -> (r: Self)
        ensures
            r.label@ == Seq::<char>::empty(),
            !r.enabled,
            r.separator,
    {
        PopupItem { label: String::new(), enabled: false, separator: true }
    }

    /// Sets whether the item can be chosen (it can by default).
    pub fn enabled(self, enabled: bool) -> (r: Self)
        ensures
            r.label == self.label,
            r.enabled == enabled,
            r.separator == self.separator,
    {
        PopupItem { enabled, ..self }
    }

    /// Whether the item is a separator.
    pub fn is_separator(&self) -> (r: bool)
        ensures
            r == self.separator,
    {
        self.separator
    }

    /// Items made from labels, in order.
    pub fn list(labels: &[&str]) -> (r: Vec<PopupItem>)
        ensures
            r@.len() == labels@.len(),
            forall|i: int|
                0 <= i < r@.len() ==> (#[trigger] r@[i]).label@ == labels@[i]@ && r@[i].enabled
                    && !r@[i].separator,
    {
        let mut out: Vec<PopupItem> = Vec::new();
        let mut i: usize = 0;
        while i < labels.len()
            invariant
                i <= labels@.len(),
                out@.len() == i,
                forall|j: int|
                    0 <= j < i ==> (#[trigger] out@[j]).label@ == labels@[j]@ && out@[j].enabled
                        && !out@[j].separator,
            decreases labels@.len() - i,
        {
            out.push(PopupItem::new(labels[i]));
            i += 1;
        }
        out
    }
}

impl From<String> for PopupItem {
    /// An item showing `label`.
    fn from(label: String) -> (r: Self) {
        PopupItem { label, enabled: true, separator: false }
    }
}

impl vstd::std_specs::convert::FromSpecImpl<String> for PopupItem {
    open spec fn obeys_from_spec() -> bool {
        true
    }

    open spec fn from_spec(label: String) -> Self {
        PopupItem { label, enabled: true, separator: false }
    }
}

impl From<&str> for PopupItem {
    /// An item showing `label`, the same as [`PopupItem::new`].
    fn from(label: &str) -> (r: Self)
        ensures
            r.label@ == label@,
            r.enabled,
            !r.separator,
    {
        PopupItem::new(label)
    }
}

impl vstd::std_specs::convert::FromSpecImpl<&str> for PopupItem {
    /// The text of a `&str` cannot be written as a `String` value in a
    /// specification; what `from` returns is stated on the impl above.
    open spec fn obeys_from_spec() -> bool {
        false
    }

    open spec fn from_spec(label: &str) -> Self {
        arbitrary()
    }
}

impl Default for PopupItem {
    /// An enabled item with an empty label.
    fn default() -> (r: Self)
        ensures
            r.label@ == Seq::<char>::empty(),
            r.enabled,
            !r.separator,
    {
        proof {
            reveal_strlit("");
        }
        PopupItem::new("")
    }
}

} // verus!
