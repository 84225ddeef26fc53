//! The error type, themes, stacking directions, alignment, navigation items
//! and start-up settings.
use vstd::prelude::*;

use crate::ascii::{ascii_is_alnum, is_alnum};
use crate::lexical::{chars_of, push_char, push_str};

verus! {

/// The result of a naui operation.
pub type Result<T> = core::result::Result<T, Error>;

/// A failure reported by the native side.
#[derive(Debug, Clone)]
pub struct Error {
    context: &'static str,
    detail: String,
}

impl Error {
    /// The name of the operation that failed.
    pub closed spec fn context_text(self) -> Seq<char> {
        self.context@
    }

    /// The detail given by the backend.
    pub closed spec fn detail_text(self) -> Seq<char> {
        self.detail@
    }

    /// The message: `{context} に失敗しました: {detail}`.
    pub open spec fn message(self) -> Seq<char> {
        self.context_text() + " に失敗しました: "@ + self.detail_text()
    }

    pub fn new(context: &'static str, detail: &str) -> (r: Self)
        ensures
            r.context_text() == context@,
            r.detail_text() == detail@,
    {
        Error { context, detail: String::from_str(detail) }
    }

    /// The name of the operation that failed.
    pub fn context(&self) -> (r: &'static str)
        ensures
            r@ == self.context_text(),
    {
        self.context
    }

    /// The detail given by the backend.
    pub fn detail(&self) -> (r: &str)
        ensures
            r@ == self.detail_text(),
    {
        self.detail.as_str()
    }

    /// The `Display` text: `{context} に失敗しました: {detail}`.
    pub fn to_string(&self) -> (r: String)
        ensures
            r@ == self.message(),
    {
        let mut out = String::from_str(self.context);
        push_str(&mut out, " に失敗しました: ");
        push_str(&mut out, self.detail.as_str());
        out
    }
}

/// The colour theme of the application. `System` follows the OS or browser;
/// `Light` and `Dark` fix it.
#[derive(Debug, Clone, Copy, PartialEq, Eq, Structural)]
pub enum Theme {
    /// Follow the OS or browser (the default).
    System,
    /// Always light.
    Light,
    /// Always dark.
    Dark,
}

impl Default for Theme {
    fn default() -> (r: Self)
        ensures
            r == Theme::System,
    {
        Theme::System
    }
}

/// The direction of a stack.
#[derive(Debug, Clone, Copy, PartialEq, Eq, Structural)]
pub enum Orientation {
    /// Top to bottom (the default).
    Vertical,
    /// Left to right.
    Horizontal,
}

impl Default for Orientation {
    fn default() -> (r: Self)
        ensures
            r == Orientation::Vertical,
    {
        Orientation::Vertical
    }
}

impl Orientation {
    pub fn is_vertical(self) -> (r: bool)
        ensures
            r == (self == Orientation::Vertical),
    {
        match self {
            Orientation::Vertical => true,
            Orientation::Horizontal => false,
        }
    }
}

/// Alignment on the cross axis: the common part of the native containers.
#[derive(Debug, Clone, Copy, PartialEq, Eq, Structural)]
pub enum Align {
    Start,
    /// The default.
    Center,
    End,
    /// Stretch over the whole cross axis.
    Fill,
}

impl Default for Align {
    fn default() -> (r: Self)
        ensures
            r == Align::Center,
    {
        Align::Center
    }
}

/// One navigation item (a tab, a navigation bar entry, a breadcrumb...).
/// Items are named by their index in the application's order.
#[derive(Debug, Clone, PartialEq, Eq, Default)]
pub struct NavItem {
    /// The text shown.
    pub label: String,
    /// Whether the item can be chosen.
    pub enabled: bool,
}

impl NavItem {
    pub fn new(label: &str) -> (r: Self)
        ensures
            r.label@ == label@,
            r.enabled,
    {
        NavItem { label: String::from_str(label), enabled: true }
    }

    /// Sets whether the item can be chosen (it can by default).
    pub fn enabled(self, enabled: bool) -> (r: Self)
        ensures
            r.label == self.label,
            r.enabled == enabled,
    {
        NavItem { enabled, ..self }
    }

    /// Items made from labels, in order.
    pub fn list(labels: &[&str]) -> (r: Vec<NavItem>)
        ensures
            r@.len() == labels@.len(),
            forall|i: int|
                0 <= i < r@.len() ==> (#[trigger] r@[i]).label@ == labels@[i]@ && r@[i].enabled,
    {
        let mut out: Vec<NavItem> = Vec::new();
        let mut i: usize = 0;
        while i < labels.len()
            invariant
                i <= labels@.len(),
                out@.len() == i,
                forall|j: int|
                    0 <= j < i ==> (#[trigger] out@[j]).label@ == labels@[j]@ && out@[j].enabled,
            decreases labels@.len() - i,
        {
            out.push(NavItem::new(labels[i]));
            i += 1;
        }
        out
    }
}

impl From<String> for NavItem {
    /// An item showing `label`.
    fn from(label: String) -> (r: Self) {
        NavItem { label, enabled: true }
    }
}

impl vstd::std_specs::convert::FromSpecImpl<String> for NavItem {
    open spec fn obeys_from_spec() -> bool {
        true
    }

    open spec fn from_spec(label: String) -> Self {
        NavItem { label, enabled: true }
    }
}

impl From<&str> for NavItem {
    /// An item showing `label`, the same as [`NavItem::new`].
    fn from(label: &str) -> (r: Self)
        ensures
            r.label@ == label@,
            r.enabled,
    {
        NavItem::new(label)
    }
}

impl vstd::std_specs::convert::FromSpecImpl<&str> for NavItem {
    /// The text of a `&str` cannot be written as a `String` value in a
    /// specification; what `from` returns is stated on the impl above.
    open spec fn obeys_from_spec() -> bool {
        false
    }

    open spec fn from_spec(label: &str) -> Self {
        arbitrary()
    }
}

/// Start-up settings of the application.
#[derive(Debug, Clone)]
pub struct Settings {
    /// The application name (the default window title).
    pub name: String,
    /// The reverse-domain identifier (GTK requires one).
    pub app_id: String,
    /// The theme applied at start-up (by default [`Theme::System`]).
    pub theme: Theme,
}

/// The name with every character other than an ASCII letter or digit
/// replaced by `_`.
pub open spec fn id_safe(name: Seq<char>) -> Seq<char> {
    name.map_values(|c: char| if is_alnum(c) { c } else { '_' })
}

impl Settings {
    /// Settings for `name`; the identifier is `org.naui.` followed by the
    /// name with every character other than an ASCII letter or digit
    /// replaced by `_`.
    pub fn new(name: &str) -> (r: Self)
        ensures
            r.name@ == name@,
            r.app_id@ == "org.naui."@ + id_safe(name@),
            r.theme == Theme::System,
    {
        let cs = chars_of(name);
        let mut app_id = String::from_str("org.naui.");
        let mut i: usize = 0;
        while i < cs.len()
            invariant
                cs@ == name@,
                i <= cs@.len(),
                app_id@ == "org.naui."@ + id_safe(name@.take(i as int)),
            decreases cs@.len() - i,
        {
            let c = cs[i];
            let d = if ascii_is_alnum(c) {
                c
            } else {
                '_'
            };
            push_char(&mut app_id, d);
            i += 1;
            assert(id_safe(name@.take(i as int)) =~= id_safe(name@.take(i - 1)).push(d));
        }
        assert(name@.take(cs@.len() as int) =~= name@);
        Settings { name: String::from_str(name), app_id, theme: Theme::System }
    }

    /// Replaces the identifier.
    pub fn app_id(self, id: &str) -> (r: Self)
        ensures
            r.name == self.name,
            r.app_id@ == id@,
            r.theme == self.theme,
    {
        Settings { app_id: String::from_str(id), ..self }
    }

    /// Sets the theme applied at start-up.
    pub fn theme(self, theme: Theme) -> (r: Self)
        ensures
            r.name == self.name,
            r.app_id == self.app_id,
            r.theme == theme,
    {
        Settings { theme, ..self }
    }
}

} // verus!
