//! The buttons of a modal dialog and why it closed.
//!
//! A dialog is a heading, a text, an optional widget and up to three buttons,
//! each with a role. Placement and the default button differ between
//! environments, so each backend places the buttons from their roles.
use vstd::prelude::*;

use crate::lexical::same_text;

verus! {

/// Why a dialog closed. Escape, or a click outside the dialog, closes it with
/// [`DialogResponse::Cancel`], whether or not a cancel button was placed.
#[derive(Debug, Clone, Copy, PartialEq, Eq, Structural)]
pub enum DialogResponse {
    /// The main action ("Save", "OK").
    Primary,
    /// The secondary action ("Don't save").
    Secondary,
    /// Cancelling; also what Escape gives.
    Cancel,
}

/// The buttons of a dialog: zero or one per role.
///
/// With none given, only an "OK" button that closes the dialog is shown
/// ([`DialogButtons::resolved`]).
#[derive(Debug, Clone, PartialEq, Eq, Default)]
pub struct DialogButtons {
    primary: Option<String>,
    secondary: Option<String>,
    cancel: Option<String>,
}

/// The view of an optional text.
pub open spec fn text_view(o: Option<String>) -> Option<Seq<char>> {
    match o {
        Some(s) => Some(s@),
        None => None,
    }
}

/// No button for an empty label.
pub open spec fn non_empty_label(label: Seq<char>) -> Option<Seq<char>> {
    if label.len() == 0 {
        None
    } else {
        Some(label)
    }
}

/// The buttons listed in the order of `order`, roles without a button left
/// out.
pub open spec fn ordered_buttons(b: DialogButtons, order: Seq<DialogResponse>) -> Seq<(DialogResponse, Seq<char>)>
    decreases order.len(),
{
    if order.len() == 0 {
        Seq::empty()
    } else {
        let rest = ordered_buttons(b, order.drop_last());
        match b.slot(order.last()) {
            Some(l) => rest.push((order.last(), l)),
            None => rest,
        }
    }
}

impl DialogButtons {
    /// The label of the button with role `r`, if there is one.
    pub closed spec fn slot(self, r: DialogResponse) -> Option<Seq<char>> {
        match r {
            DialogResponse::Primary => text_view(self.primary),
            DialogResponse::Secondary => text_view(self.secondary),
            DialogResponse::Cancel => text_view(self.cancel),
        }
    }

    pub open spec fn has_none(self) -> bool {
        &&& self.slot(DialogResponse::Primary) is None
        &&& self.slot(DialogResponse::Secondary) is None
        &&& self.slot(DialogResponse::Cancel) is None
    }

    /// No button at all.
    pub fn new() -> (r: Self)
        ensures
            r.has_none(),
    {
        DialogButtons { primary: None, secondary: None, cancel: None }
    }

    /// Only an "OK" cancel button.
    pub fn ok() -> (r: Self)
        ensures
            r.slot(DialogResponse::Primary) is None,
            r.slot(DialogResponse::Secondary) is None,
            r.slot(DialogResponse::Cancel) == Some("OK"@),
    {
        proof {
            reveal_strlit("OK");
        }
        Self::new().cancel("OK")
    }

    /// The main action's button; an empty label removes it.
    pub fn primary(self, label: &str) -> (r: Self)
        ensures
            r.slot(DialogResponse::Primary) == non_empty_label(label@),
            r.slot(DialogResponse::Secondary) == self.slot(DialogResponse::Secondary),
            r.slot(DialogResponse::Cancel) == self.slot(DialogResponse::Cancel),
    {
        DialogButtons { primary: non_empty(label), ..self }
    }

    /// The secondary action's button; an empty label removes it.
    pub fn secondary(self, label: &str) -> (r: Self)
        ensures
            r.slot(DialogResponse::Primary) == self.slot(DialogResponse::Primary),
            r.slot(DialogResponse::Secondary) == non_empty_label(label@),
            r.slot(DialogResponse::Cancel) == self.slot(DialogResponse::Cancel),
    {
        DialogButtons { secondary: non_empty(label), ..self }
    }

    /// The cancel button; an empty label removes it.
    pub fn cancel(self, label: &str) -> (r: Self)
        ensures
            r.slot(DialogResponse::Primary) == self.slot(DialogResponse::Primary),
            r.slot(DialogResponse::Secondary) == self.slot(DialogResponse::Secondary),
            r.slot(DialogResponse::Cancel) == non_empty_label(label@),
    {
        DialogButtons { cancel: non_empty(label), ..self }
    }

    /// The label of the button with this role, if placed.
    pub fn label(&self, response: DialogResponse) -> (r: Option<&str>)
        ensures
            match r {
                Some(s) => self.slot(response) == Some(s@),
                None => self.slot(response) is None,
            },
    {
        let slot = match response {
            DialogResponse::Primary => &self.primary,
            DialogResponse::Secondary => &self.secondary,
            DialogResponse::Cancel => &self.cancel,
        };
        match slot {
            Some(s) => Some(s.as_str()),
            None => None,
        }
    }

    /// Whether no button is placed.
    pub fn is_empty(&self) -> (r: bool)
        ensures
            r == self.has_none(),
    {
        self.primary.is_none() && self.secondary.is_none() && self.cancel.is_none()
    }

    /// The buttons actually shown: a single "OK" cancel button when none is
    /// placed (a dialog without buttons could only be closed with Escape),
    /// otherwise the buttons as they are.
    pub fn resolved(&self) -> (r: DialogButtons)
        ensures
            self.has_none() ==> r.slot(DialogResponse::Primary) is None && r.slot(
                DialogResponse::Secondary,
            ) is None && r.slot(DialogResponse::Cancel) == Some("OK"@),
            !self.has_none() ==> forall|x: DialogResponse| #[trigger] r.slot(x) == self.slot(x),
    {
        if self.is_empty() {
            DialogButtons::ok()
        } else {
            let r = DialogButtons {
                primary: clone_text(&self.primary),
                secondary: clone_text(&self.secondary),
                cancel: clone_text(&self.cancel),
            };
            assert forall|x: DialogResponse| #[trigger] r.slot(x) == self.slot(x) by {
                match x {
                    DialogResponse::Primary => {},
                    DialogResponse::Secondary => {},
                    DialogResponse::Cancel => {},
                }
            }
            r
        }
    }

    /// The roles and labels in the order given by `order` (each backend
    /// passes its own order), roles without a button left out.
    pub fn in_order(&self, order: &[DialogResponse]) -> (r: Vec<(DialogResponse, String)>)
        ensures
            r@.map_values(|p: (DialogResponse, String)| (p.0, p.1@)) == ordered_buttons(
                *self,
                order@,
            ),
    {
        let mut out: Vec<(DialogResponse, String)> = Vec::new();
        let mut i: usize = 0;
        while i < order.len()
            invariant
                i <= order@.len(),
                out@.map_values(|p: (DialogResponse, String)| (p.0, p.1@)) == ordered_buttons(
                    *self,
                    order@.take(i as int),
                ),
            decreases order@.len() - i,
        {
            let role = order[i];
            let ghost before = out@;
            assert(order@.take(i + 1).drop_last() =~= order@.take(i as int));
            assert(order@.take(i + 1).last() == role);
            match self.label(role) {
                Some(label) => {
                    out.push((role, String::from_str(label)));
                    assert(out@.map_values(|p: (DialogResponse, String)| (p.0, p.1@)) =~= before.map_values(
                        |p: (DialogResponse, String)| (p.0, p.1@),
                    ).push((role, label@)));
                },
                None => {},
            }
            i += 1;
        }
        assert(order@.take(order@.len() as int) =~= order@);
        out
    }
}

fn clone_text(o: &Option<String>) -> (r: Option<String>)
    ensures
        text_view(r) == text_view(*o),
{
    match o {
        Some(s) => Some(s.clone()),
        None => None,
    }
}

/// `None` for an empty label, the label otherwise.
fn non_empty(label: &str) -> (r: Option<String>)
    ensures
        text_view(r) == non_empty_label(label@),
{
    if label.is_empty() {
        None
    } else {
        Some(String::from_str(label))
    }
}

/// The response identifier that the GTK backend gives each role.
pub open spec fn response_id_of(response: DialogResponse) -> Seq<char> {
    match response {
        DialogResponse::Primary => "primary"@,
        DialogResponse::Secondary => "secondary"@,
        DialogResponse::Cancel => "cancel"@,
    }
}

/// The response identifier of a role, as the GTK backend names it.
pub fn response_id(response: DialogResponse) -> (r: &'static str)
    ensures
        r@ == response_id_of(response),
{
    match response {
        DialogResponse::Primary => "primary",
        DialogResponse::Secondary => "secondary",
        DialogResponse::Cancel => "cancel",
    }
}

/// The role of a response identifier. Every identifier other than those of
/// the primary and secondary buttons (Escape, a click outside) is a cancel.
pub fn from_response_id(id: &str) -> (r: DialogResponse)
    ensures
        r == (if id@ == "primary"@ {
            DialogResponse::Primary
        } else if id@ == "secondary"@ {
            DialogResponse::Secondary
        } else {
            DialogResponse::Cancel
        }),
{
    if same_text(id, "primary") {
        DialogResponse::Primary
    } else if same_text(id, "secondary") {
        DialogResponse::Secondary
    } else {
        DialogResponse::Cancel
    }
}

/// The role read back from a role's identifier is that role.
pub proof fn lemma_response_id_round_trip(response: DialogResponse)
    ensures
        (if response_id_of(response) == "primary"@ {
            DialogResponse::Primary
        } else if response_id_of(response) == "secondary"@ {
            DialogResponse::Secondary
        } else {
            DialogResponse::Cancel
        }) == response,
{
    reveal_strlit("primary");
    reveal_strlit("secondary");
    reveal_strlit("cancel");
    assert("cancel"@.len() != "primary"@.len());
    assert("cancel"@.len() != "secondary"@.len());
    assert("primary"@.len() != "secondary"@.len());
}

} // verus!
