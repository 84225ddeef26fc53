//! Toolbar items and their icons.
//!
//! Each environment names its icons differently (SF Symbols on macOS, icon
//! theme names on Linux, Segoe Fluent Icons code points on Windows, and SVG
//! shapes on the web). A [`ToolbarIcon`] names the action; the tables below
//! map it to each environment's standard icon.
use vstd::prelude::*;

verus! {

/// The kind of action a toolbar button performs.
#[derive(Debug, Clone, Copy, PartialEq, Eq, Structural, Hash)]
pub enum ToolbarIcon {
    /// New document.
    New,
    /// Open.
    Open,
    /// Save.
    Save,
    /// Add.
    Add,
    /// Remove.
    Remove,
    /// Delete (trash).
    Delete,
    /// Edit.
    Edit,
    /// Copy.
    Copy,
    /// Cut.
    Cut,
    /// Paste.
    Paste,
    /// Undo.
    Undo,
    /// Redo.
    Redo,
    /// Search.
    Search,
    /// Reload.
    Refresh,
    /// Share.
    Share,
    /// Settings.
    Settings,
    /// Back.
    Back,
    /// Forward.
    Forward,
    /// Print.
    Print,
    /// Information.
    Info,
}

/// The SF Symbols name used on macOS.
pub open spec fn sf_symbol_of(icon: ToolbarIcon) -> Seq<char> {
    match icon {
        ToolbarIcon::New => "doc.badge.plus"@,
        ToolbarIcon::Open => "folder"@,
        ToolbarIcon::Save => "square.and.arrow.down"@,
        ToolbarIcon::Add => "plus"@,
        ToolbarIcon::Remove => "minus"@,
        ToolbarIcon::Delete => "trash"@,
        ToolbarIcon::Edit => "pencil"@,
        ToolbarIcon::Copy => "doc.on.doc"@,
        ToolbarIcon::Cut => "scissors"@,
        ToolbarIcon::Paste => "doc.on.clipboard"@,
        ToolbarIcon::Undo => "arrow.uturn.backward"@,
        ToolbarIcon::Redo => "arrow.uturn.forward"@,
        ToolbarIcon::Search => "magnifyingglass"@,
        ToolbarIcon::Refresh => "arrow.clockwise"@,
        ToolbarIcon::Share => "square.and.arrow.up"@,
        ToolbarIcon::Settings => "gearshape"@,
        ToolbarIcon::Back => "chevron.backward"@,
        ToolbarIcon::Forward => "chevron.forward"@,
        ToolbarIcon::Print => "printer"@,
        ToolbarIcon::Info => "info.circle"@,
    }
}

/// The freedesktop icon name used on Linux (GTK).
pub open spec fn icon_name_of(icon: ToolbarIcon) -> Seq<char> {
    match icon {
        ToolbarIcon::New => "document-new-symbolic"@,
        ToolbarIcon::Open => "document-open-symbolic"@,
        ToolbarIcon::Save => "document-save-symbolic"@,
        ToolbarIcon::Add => "list-add-symbolic"@,
        ToolbarIcon::Remove => "list-remove-symbolic"@,
        ToolbarIcon::Delete => "user-trash-symbolic"@,
        ToolbarIcon::Edit => "document-edit-symbolic"@,
        ToolbarIcon::Copy => "edit-copy-symbolic"@,
        ToolbarIcon::Cut => "edit-cut-symbolic"@,
        ToolbarIcon::Paste => "edit-paste-symbolic"@,
        ToolbarIcon::Undo => "edit-undo-symbolic"@,
        ToolbarIcon::Redo => "edit-redo-symbolic"@,
        ToolbarIcon::Search => "system-search-symbolic"@,
        ToolbarIcon::Refresh => "view-refresh-symbolic"@,
        ToolbarIcon::Share => "emblem-shared-symbolic"@,
        ToolbarIcon::Settings => "preferences-system-symbolic"@,
        ToolbarIcon::Back => "go-previous-symbolic"@,
        ToolbarIcon::Forward => "go-next-symbolic"@,
        ToolbarIcon::Print => "document-print-symbolic"@,
        ToolbarIcon::Info => "dialog-information-symbolic"@,
    }
}

/// The SVG path drawn on the web (24x24, stroked with `currentColor`).
pub open spec fn svg_path_of(icon: ToolbarIcon) -> Seq<char> {
    match icon {
        ToolbarIcon::New => "M14 3H7a2 2 0 0 0-2 2v14a2 2 0 0 0 2 2h6M14 3l5 5M14 3v5h5M18 14v6M15 17h6"@,
        ToolbarIcon::Open => "M3 7a2 2 0 0 1 2-2h4l2 2h8a2 2 0 0 1 2 2v9a2 2 0 0 1-2 2H5a2 2 0 0 1-2-2z"@,
        ToolbarIcon::Save => "M12 3v11M8 10l4 4 4-4M4 17v2a2 2 0 0 0 2 2h12a2 2 0 0 0 2-2v-2"@,
        ToolbarIcon::Add => "M12 5v14M5 12h14"@,
        ToolbarIcon::Remove => "M5 12h14"@,
        ToolbarIcon::Delete => "M4 7h16M10 7V5h4v2M6 7l1 13h10l1-13M10 11v6M14 11v6"@,
        ToolbarIcon::Edit => "M4 20h4L20 8l-4-4L4 16zM14 6l4 4"@,
        ToolbarIcon::Copy => "M9 9h10v12H9zM5 15V3h10v2"@,
        ToolbarIcon::Cut => "M6 4l12 14M18 4L6 18M7 21a2.5 2.5 0 1 0 0-5 2.5 2.5 0 0 0 0 5M17 21a2.5 2.5 0 1 0 0-5 2.5 2.5 0 0 0 0 5"@,
        ToolbarIcon::Paste => "M8 5H6a2 2 0 0 0-2 2v12a2 2 0 0 0 2 2h12a2 2 0 0 0 2-2V7a2 2 0 0 0-2-2h-2M9 5V3h6v2z"@,
        ToolbarIcon::Undo => "M9 8H5V4M5 8a8 8 0 1 1-1.6 6"@,
        ToolbarIcon::Redo => "M15 8h4V4M19 8a8 8 0 1 0 1.6 6"@,
        ToolbarIcon::Search => "M11 18a7 7 0 1 0 0-14 7 7 0 0 0 0 14M20 20l-4-4"@,
        ToolbarIcon::Refresh => "M20 12a8 8 0 1 1-2.3-5.7M20 4v5h-5"@,
        ToolbarIcon::Share => "M12 16V4M8 8l4-4 4 4M4 15v4a2 2 0 0 0 2 2h12a2 2 0 0 0 2-2v-4"@,
        ToolbarIcon::Settings => "M12 15.5a3.5 3.5 0 1 0 0-7 3.5 3.5 0 0 0 0 7M12 2v3M12 19v3M2 12h3M19 12h3M4.9 4.9l2.2 2.2M16.9 16.9l2.2 2.2M19.1 4.9l-2.2 2.2M7.1 16.9l-2.2 2.2"@,
        ToolbarIcon::Back => "M15 5l-7 7 7 7"@,
        ToolbarIcon::Forward => "M9 5l7 7-7 7"@,
        ToolbarIcon::Print => "M7 9V3h10v6M7 19H5a2 2 0 0 1-2-2v-5a2 2 0 0 1 2-2h14a2 2 0 0 1 2 2v5a2 2 0 0 1-2 2h-2M7 15h10v6H7z"@,
        ToolbarIcon::Info => "M12 21a9 9 0 1 0 0-18 9 9 0 0 0 0 18M12 11v6M12 7.5v.5"@,
    }
}

/// The Segoe Fluent Icons character used on Windows.
pub open spec fn fluent_glyph_of(icon: ToolbarIcon) -> char {
    match icon {
        ToolbarIcon::New => '\u{E7C3}',
        ToolbarIcon::Open => '\u{E8E5}',
        ToolbarIcon::Save => '\u{E74E}',
        ToolbarIcon::Add => '\u{E710}',
        ToolbarIcon::Remove => '\u{E738}',
        ToolbarIcon::Delete => '\u{E74D}',
        ToolbarIcon::Edit => '\u{E70F}',
        ToolbarIcon::Copy => '\u{E8C8}',
        ToolbarIcon::Cut => '\u{E8C6}',
        ToolbarIcon::Paste => '\u{E77F}',
        ToolbarIcon::Undo => '\u{E7A7}',
        ToolbarIcon::Redo => '\u{E7A6}',
        ToolbarIcon::Search => '\u{E721}',
        ToolbarIcon::Refresh => '\u{E72C}',
        ToolbarIcon::Share => '\u{E72D}',
        ToolbarIcon::Settings => '\u{E713}',
        ToolbarIcon::Back => '\u{E72B}',
        ToolbarIcon::Forward => '\u{E72A}',
        ToolbarIcon::Print => '\u{E749}',
        ToolbarIcon::Info => '\u{E946}',
    }
}

impl ToolbarIcon {
    /// Every kind, in declaration order.
    pub const ALL: [ToolbarIcon; 20] = [
        ToolbarIcon::New,
        ToolbarIcon::Open,
        ToolbarIcon::Save,
        ToolbarIcon::Add,
        ToolbarIcon::Remove,
        ToolbarIcon::Delete,
        ToolbarIcon::Edit,
        ToolbarIcon::Copy,
        ToolbarIcon::Cut,
        ToolbarIcon::Paste,
        ToolbarIcon::Undo,
        ToolbarIcon::Redo,
        ToolbarIcon::Search,
        ToolbarIcon::Refresh,
        ToolbarIcon::Share,
        ToolbarIcon::Settings,
        ToolbarIcon::Back,
        ToolbarIcon::Forward,
        ToolbarIcon::Print,
        ToolbarIcon::Info,
    ];

    /// The SF Symbols name used on macOS.
    pub fn sf_symbol(self) -> (r: &'static str)
        ensures
            r@ == sf_symbol_of(self),
    {
        match self {
            ToolbarIcon::New => "doc.badge.plus",
            ToolbarIcon::Open => "folder",
            ToolbarIcon::Save => "square.and.arrow.down",
            ToolbarIcon::Add => "plus",
            ToolbarIcon::Remove => "minus",
            ToolbarIcon::Delete => "trash",
            ToolbarIcon::Edit => "pencil",
            ToolbarIcon::Copy => "doc.on.doc",
            ToolbarIcon::Cut => "scissors",
            ToolbarIcon::Paste => "doc.on.clipboard",
            ToolbarIcon::Undo => "arrow.uturn.backward",
            ToolbarIcon::Redo => "arrow.uturn.forward",
            ToolbarIcon::Search => "magnifyingglass",
            ToolbarIcon::Refresh => "arrow.clockwise",
            ToolbarIcon::Share => "square.and.arrow.up",
            ToolbarIcon::Settings => "gearshape",
            ToolbarIcon::Back => "chevron.backward",
            ToolbarIcon::Forward => "chevron.forward",
            ToolbarIcon::Print => "printer",
            ToolbarIcon::Info => "info.circle",
        }
    }

    /// The freedesktop icon name used on Linux (GTK).
    pub fn icon_name(self) -> (r: &'static str)
        ensures
            r@ == icon_name_of(self),
    {
        match self {
            ToolbarIcon::New => "document-new-symbolic",
            ToolbarIcon::Open => "document-open-symbolic",
            ToolbarIcon::Save => "document-save-symbolic",
            ToolbarIcon::Add => "list-add-symbolic",
            ToolbarIcon::Remove => "list-remove-symbolic",
            ToolbarIcon::Delete => "user-trash-symbolic",
            ToolbarIcon::Edit => "document-edit-symbolic",
            ToolbarIcon::Copy => "edit-copy-symbolic",
            ToolbarIcon::Cut => "edit-cut-symbolic",
            ToolbarIcon::Paste => "edit-paste-symbolic",
            ToolbarIcon::Undo => "edit-undo-symbolic",
            ToolbarIcon::Redo => "edit-redo-symbolic",
            ToolbarIcon::Search => "system-search-symbolic",
            ToolbarIcon::Refresh => "view-refresh-symbolic",
            ToolbarIcon::Share => "emblem-shared-symbolic",
            ToolbarIcon::Settings => "preferences-system-symbolic",
            ToolbarIcon::Back => "go-previous-symbolic",
            ToolbarIcon::Forward => "go-next-symbolic",
            ToolbarIcon::Print => "document-print-symbolic",
            ToolbarIcon::Info => "dialog-information-symbolic",
        }
    }

    /// The Segoe Fluent Icons character used on Windows.
    pub fn fluent_glyph(self) -> (r: char)
        ensures
            r == fluent_glyph_of(self),
    {
        match self {
            ToolbarIcon::New => '\u{E7C3}',
            ToolbarIcon::Open => '\u{E8E5}',
            ToolbarIcon::Save => '\u{E74E}',
            ToolbarIcon::Add => '\u{E710}',
            ToolbarIcon::Remove => '\u{E738}',
            ToolbarIcon::Delete => '\u{E74D}',
            ToolbarIcon::Edit => '\u{E70F}',
            ToolbarIcon::Copy => '\u{E8C8}',
            ToolbarIcon::Cut => '\u{E8C6}',
            ToolbarIcon::Paste => '\u{E77F}',
            ToolbarIcon::Undo => '\u{E7A7}',
            ToolbarIcon::Redo => '\u{E7A6}',
            ToolbarIcon::Search => '\u{E721}',
            ToolbarIcon::Refresh => '\u{E72C}',
            ToolbarIcon::Share => '\u{E72D}',
            ToolbarIcon::Settings => '\u{E713}',
            ToolbarIcon::Back => '\u{E72B}',
            ToolbarIcon::Forward => '\u{E72A}',
            ToolbarIcon::Print => '\u{E749}',
            ToolbarIcon::Info => '\u{E946}',
        }
    }

    /// The SVG path drawn on the web (24x24, stroked with `currentColor`).
    pub fn svg_path(self) -> (r: &'static str)
        ensures
            r@ == svg_path_of(self),
    {
        match self {
            ToolbarIcon::New => "M14 3H7a2 2 0 0 0-2 2v14a2 2 0 0 0 2 2h6M14 3l5 5M14 3v5h5M18 14v6M15 17h6",
            ToolbarIcon::Open => "M3 7a2 2 0 0 1 2-2h4l2 2h8a2 2 0 0 1 2 2v9a2 2 0 0 1-2 2H5a2 2 0 0 1-2-2z",
            ToolbarIcon::Save => "M12 3v11M8 10l4 4 4-4M4 17v2a2 2 0 0 0 2 2h12a2 2 0 0 0 2-2v-2",
            ToolbarIcon::Add => "M12 5v14M5 12h14",
            ToolbarIcon::Remove => "M5 12h14",
            ToolbarIcon::Delete => "M4 7h16M10 7V5h4v2M6 7l1 13h10l1-13M10 11v6M14 11v6",
            ToolbarIcon::Edit => "M4 20h4L20 8l-4-4L4 16zM14 6l4 4",
            ToolbarIcon::Copy => "M9 9h10v12H9zM5 15V3h10v2",
            ToolbarIcon::Cut => "M6 4l12 14M18 4L6 18M7 21a2.5 2.5 0 1 0 0-5 2.5 2.5 0 0 0 0 5M17 21a2.5 2.5 0 1 0 0-5 2.5 2.5 0 0 0 0 5",
            ToolbarIcon::Paste => "M8 5H6a2 2 0 0 0-2 2v12a2 2 0 0 0 2 2h12a2 2 0 0 0 2-2V7a2 2 0 0 0-2-2h-2M9 5V3h6v2z",
            ToolbarIcon::Undo => "M9 8H5V4M5 8a8 8 0 1 1-1.6 6",
            ToolbarIcon::Redo => "M15 8h4V4M19 8a8 8 0 1 0 1.6 6",
            ToolbarIcon::Search => "M11 18a7 7 0 1 0 0-14 7 7 0 0 0 0 14M20 20l-4-4",
            ToolbarIcon::Refresh => "M20 12a8 8 0 1 1-2.3-5.7M20 4v5h-5",
            ToolbarIcon::Share => "M12 16V4M8 8l4-4 4 4M4 15v4a2 2 0 0 0 2 2h12a2 2 0 0 0 2-2v-4",
            ToolbarIcon::Settings => "M12 15.5a3.5 3.5 0 1 0 0-7 3.5 3.5 0 0 0 0 7M12 2v3M12 19v3M2 12h3M19 12h3M4.9 4.9l2.2 2.2M16.9 16.9l2.2 2.2M19.1 4.9l-2.2 2.2M7.1 16.9l-2.2 2.2",
            ToolbarIcon::Back => "M15 5l-7 7 7 7",
            ToolbarIcon::Forward => "M9 5l7 7-7 7",
            ToolbarIcon::Print => "M7 9V3h10v6M7 19H5a2 2 0 0 1-2-2v-5a2 2 0 0 1 2-2h14a2 2 0 0 1 2 2v5a2 2 0 0 1-2 2h-2M7 15h10v6H7z",
            ToolbarIcon::Info => "M12 21a9 9 0 1 0 0-18 9 9 0 0 0 0 18M12 11v6M12 7.5v.5",
        }
    }

}

/// One toolbar item. A toolbar has no selected item: pressing an item runs its
/// command at once. The label is used for accessibility, tooltips and the
/// overflow menu. Notifications name an item by its index, separators
/// included; a separator cannot be pressed.
#[derive(Debug, Clone, PartialEq, Eq)]
pub struct ToolbarItem {
    /// The icon shown (unused by separators).
    pub icon: ToolbarIcon,
    /// The name of the action.
    pub label: String,
    /// Whether the item can be pressed.
    pub enabled: bool,
    /// Whether the item is a separator.
    pub separator: bool,
}

impl ToolbarItem {
    /// An item that can be pressed.
    pub fn new(icon: ToolbarIcon, label: &str) -> (r: Self)
        ensures
            r.icon == icon,
            r.label@ == label@,
            r.enabled,
            !r.separator,
    {
        ToolbarItem { icon, label: String::from_str(label), enabled: true, separator: false }
    }

    /// A separator between groups of items; it cannot be pressed.
    pub fn separator() -> (r: Self)
        ensures
            r.icon == ToolbarIcon::Add,
            r.label@ == Seq::<char>::empty(),
            !r.enabled,
            r.separator,
    {
        ToolbarItem { icon: ToolbarIcon::Add, label: String::new(), enabled: false, separator: true }
    }

    /// Sets whether the item can be pressed (it can by default).
    pub fn enabled(self, enabled: bool) -> (r: Self)
        ensures
            r.icon == self.icon,
            r.label == self.label,
            r.enabled == enabled,
            r.separator == self.separator,
    {
        ToolbarItem { enabled, ..self }
    }

    /// Whether the item is a separator.
    pub fn is_separator(&self) -> (r: bool)
        ensures
            r == self.separator,
    {
        self.separator
    }
}

/// Every Windows glyph lies in the Private Use Area where Segoe Fluent Icons
/// keeps its icons, and no two actions share a glyph.
pub proof fn lemma_fluent_glyphs(a: ToolbarIcon, b: ToolbarIcon)
    ensures
        0xE000 <= fluent_glyph_of(a) as u32 <= 0xF8FF,
        a != b ==> fluent_glyph_of(a) != fluent_glyph_of(b),
{
}

/// Every Linux icon is a symbolic icon (its name ends with `-symbolic`), and
/// every web icon is a path starting with a move (`M`).
pub proof fn lemma_icon_forms(icon: ToolbarIcon)
    ensures
        icon_name_of(icon).len() > 9,
        icon_name_of(icon).subrange(icon_name_of(icon).len() - 9, icon_name_of(icon).len() as int)
            == "-symbolic"@,
        svg_path_of(icon).len() > 0,
        svg_path_of(icon)[0] == 'M',
{
    reveal_strlit("-symbolic");
    match icon {
        ToolbarIcon::New => {
            reveal_strlit("document-new-symbolic");
            reveal_strlit("M14 3H7a2 2 0 0 0-2 2v14a2 2 0 0 0 2 2h6M14 3l5 5M14 3v5h5M18 14v6M15 17h6");
            assert(icon_name_of(icon).subrange(icon_name_of(icon).len() - 9, icon_name_of(icon).len() as int) =~= "-symbolic"@);
        },
        ToolbarIcon::Open => {
            reveal_strlit("document-open-symbolic");
            reveal_strlit("M3 7a2 2 0 0 1 2-2h4l2 2h8a2 2 0 0 1 2 2v9a2 2 0 0 1-2 2H5a2 2 0 0 1-2-2z");
            assert(icon_name_of(icon).subrange(icon_name_of(icon).len() - 9, icon_name_of(icon).len() as int) =~= "-symbolic"@);
        },
        ToolbarIcon::Save => {
            reveal_strlit("document-save-symbolic");
            reveal_strlit("M12 3v11M8 10l4 4 4-4M4 17v2a2 2 0 0 0 2 2h12a2 2 0 0 0 2-2v-2");
            assert(icon_name_of(icon).subrange(icon_name_of(icon).len() - 9, icon_name_of(icon).len() as int) =~= "-symbolic"@);
        },
        ToolbarIcon::Add => {
            reveal_strlit("list-add-symbolic");
            reveal_strlit("M12 5v14M5 12h14");
            assert(icon_name_of(icon).subrange(icon_name_of(icon).len() - 9, icon_name_of(icon).len() as int) =~= "-symbolic"@);
        },
        ToolbarIcon::Remove => {
            reveal_strlit("list-remove-symbolic");
            reveal_strlit("M5 12h14");
            assert(icon_name_of(icon).subrange(icon_name_of(icon).len() - 9, icon_name_of(icon).len() as int) =~= "-symbolic"@);
        },
        ToolbarIcon::Delete => {
            reveal_strlit("user-trash-symbolic");
            reveal_strlit("M4 7h16M10 7V5h4v2M6 7l1 13h10l1-13M10 11v6M14 11v6");
            assert(icon_name_of(icon).subrange(icon_name_of(icon).len() - 9, icon_name_of(icon).len() as int) =~= "-symbolic"@);
        },
        ToolbarIcon::Edit => {
            reveal_strlit("document-edit-symbolic");
            reveal_strlit("M4 20h4L20 8l-4-4L4 16zM14 6l4 4");
            assert(icon_name_of(icon).subrange(icon_name_of(icon).len() - 9, icon_name_of(icon).len() as int) =~= "-symbolic"@);
        },
        ToolbarIcon::Copy => {
            reveal_strlit("edit-copy-symbolic");
            reveal_strlit("M9 9h10v12H9zM5 15V3h10v2");
            assert(icon_name_of(icon).subrange(icon_name_of(icon).len() - 9, icon_name_of(icon).len() as int) =~= "-symbolic"@);
        },
        ToolbarIcon::Cut => {
            reveal_strlit("edit-cut-symbolic");
            reveal_strlit("M6 4l12 14M18 4L6 18M7 21a2.5 2.5 0 1 0 0-5 2.5 2.5 0 0 0 0 5M17 21a2.5 2.5 0 1 0 0-5 2.5 2.5 0 0 0 0 5");
            assert(icon_name_of(icon).subrange(icon_name_of(icon).len() - 9, icon_name_of(icon).len() as int) =~= "-symbolic"@);
        },
        ToolbarIcon::Paste => {
            reveal_strlit("edit-paste-symbolic");
            reveal_strlit("M8 5H6a2 2 0 0 0-2 2v12a2 2 0 0 0 2 2h12a2 2 0 0 0 2-2V7a2 2 0 0 0-2-2h-2M9 5V3h6v2z");
            assert(icon_name_of(icon).subrange(icon_name_of(icon).len() - 9, icon_name_of(icon).len() as int) =~= "-symbolic"@);
        },
        ToolbarIcon::Undo => {
            reveal_strlit("edit-undo-symbolic");
            reveal_strlit("M9 8H5V4M5 8a8 8 0 1 1-1.6 6");
            assert(icon_name_of(icon).subrange(icon_name_of(icon).len() - 9, icon_name_of(icon).len() as int) =~= "-symbolic"@);
        },
        ToolbarIcon::Redo => {
            reveal_strlit("edit-redo-symbolic");
            reveal_strlit("M15 8h4V4M19 8a8 8 0 1 0 1.6 6");
            assert(icon_name_of(icon).subrange(icon_name_of(icon).len() - 9, icon_name_of(icon).len() as int) =~= "-symbolic"@);
        },
        ToolbarIcon::Search => {
            reveal_strlit("system-search-symbolic");
            reveal_strlit("M11 18a7 7 0 1 0 0-14 7 7 0 0 0 0 14M20 20l-4-4");
            assert(icon_name_of(icon).subrange(icon_name_of(icon).len() - 9, icon_name_of(icon).len() as int) =~= "-symbolic"@);
        },
        ToolbarIcon::Refresh => {
            reveal_strlit("view-refresh-symbolic");
            reveal_strlit("M20 12a8 8 0 1 1-2.3-5.7M20 4v5h-5");
            assert(icon_name_of(icon).subrange(icon_name_of(icon).len() - 9, icon_name_of(icon).len() as int) =~= "-symbolic"@);
        },
        ToolbarIcon::Share => {
            reveal_strlit("emblem-shared-symbolic");
            reveal_strlit("M12 16V4M8 8l4-4 4 4M4 15v4a2 2 0 0 0 2 2h12a2 2 0 0 0 2-2v-4");
            assert(icon_name_of(icon).subrange(icon_name_of(icon).len() - 9, icon_name_of(icon).len() as int) =~= "-symbolic"@);
        },
        ToolbarIcon::Settings => {
            reveal_strlit("preferences-system-symbolic");
            reveal_strlit("M12 15.5a3.5 3.5 0 1 0 0-7 3.5 3.5 0 0 0 0 7M12 2v3M12 19v3M2 12h3M19 12h3M4.9 4.9l2.2 2.2M16.9 16.9l2.2 2.2M19.1 4.9l-2.2 2.2M7.1 16.9l-2.2 2.2");
            assert(icon_name_of(icon).subrange(icon_name_of(icon).len() - 9, icon_name_of(icon).len() as int) =~= "-symbolic"@);
        },
        ToolbarIcon::Back => {
            reveal_strlit("go-previous-symbolic");
            reveal_strlit("M15 5l-7 7 7 7");
            assert(icon_name_of(icon).subrange(icon_name_of(icon).len() - 9, icon_name_of(icon).len() as int) =~= "-symbolic"@);
        },
        ToolbarIcon::Forward => {
            reveal_strlit("go-next-symbolic");
            reveal_strlit("M9 5l7 7-7 7");
            assert(icon_name_of(icon).subrange(icon_name_of(icon).len() - 9, icon_name_of(icon).len() as int) =~= "-symbolic"@);
        },
        ToolbarIcon::Print => {
            reveal_strlit("document-print-symbolic");
            reveal_strlit("M7 9V3h10v6M7 19H5a2 2 0 0 1-2-2v-5a2 2 0 0 1 2-2h14a2 2 0 0 1 2 2v5a2 2 0 0 1-2 2h-2M7 15h10v6H7z");
            assert(icon_name_of(icon).subrange(icon_name_of(icon).len() - 9, icon_name_of(icon).len() as int) =~= "-symbolic"@);
        },
        ToolbarIcon::Info => {
            reveal_strlit("dialog-information-symbolic");
            reveal_strlit("M12 21a9 9 0 1 0 0-18 9 9 0 0 0 0 18M12 11v6M12 7.5v.5");
            assert(icon_name_of(icon).subrange(icon_name_of(icon).len() - 9, icon_name_of(icon).len() as int) =~= "-symbolic"@);
        },
    }
}

/// No two actions share a macOS symbol.
pub proof fn lemma_sf_symbol_distinct(a: ToolbarIcon, b: ToolbarIcon)
    ensures
        a != b ==> sf_symbol_of(a) != sf_symbol_of(b),
{
    reveal_strlit("doc.badge.plus");
    reveal_strlit("folder");
    reveal_strlit("square.and.arrow.down");
    reveal_strlit("plus");
    reveal_strlit("minus");
    reveal_strlit("trash");
    reveal_strlit("pencil");
    reveal_strlit("doc.on.doc");
    reveal_strlit("scissors");
    reveal_strlit("doc.on.clipboard");
    reveal_strlit("arrow.uturn.backward");
    reveal_strlit("arrow.uturn.forward");
    reveal_strlit("magnifyingglass");
    reveal_strlit("arrow.clockwise");
    reveal_strlit("square.and.arrow.up");
    reveal_strlit("gearshape");
    reveal_strlit("chevron.backward");
    reveal_strlit("chevron.forward");
    reveal_strlit("printer");
    reveal_strlit("info.circle");
    assert(sf_symbol_of(ToolbarIcon::New).len() != sf_symbol_of(ToolbarIcon::Open).len());
    assert(sf_symbol_of(ToolbarIcon::New).len() != sf_symbol_of(ToolbarIcon::Save).len());
    assert(sf_symbol_of(ToolbarIcon::New).len() != sf_symbol_of(ToolbarIcon::Add).len());
    assert(sf_symbol_of(ToolbarIcon::New).len() != sf_symbol_of(ToolbarIcon::Remove).len());
    assert(sf_symbol_of(ToolbarIcon::New).len() != sf_symbol_of(ToolbarIcon::Delete).len());
    assert(sf_symbol_of(ToolbarIcon::New).len() != sf_symbol_of(ToolbarIcon::Edit).len());
    assert(sf_symbol_of(ToolbarIcon::New).len() != sf_symbol_of(ToolbarIcon::Copy).len());
    assert(sf_symbol_of(ToolbarIcon::New).len() != sf_symbol_of(ToolbarIcon::Cut).len());
    assert(sf_symbol_of(ToolbarIcon::New).len() != sf_symbol_of(ToolbarIcon::Paste).len());
    assert(sf_symbol_of(ToolbarIcon::New).len() != sf_symbol_of(ToolbarIcon::Undo).len());
    assert(sf_symbol_of(ToolbarIcon::New).len() != sf_symbol_of(ToolbarIcon::Redo).len());
    assert(sf_symbol_of(ToolbarIcon::New).len() != sf_symbol_of(ToolbarIcon::Search).len());
    assert(sf_symbol_of(ToolbarIcon::New).len() != sf_symbol_of(ToolbarIcon::Refresh).len());
    assert(sf_symbol_of(ToolbarIcon::New).len() != sf_symbol_of(ToolbarIcon::Share).len());
    assert(sf_symbol_of(ToolbarIcon::New).len() != sf_symbol_of(ToolbarIcon::Settings).len());
    assert(sf_symbol_of(ToolbarIcon::New).len() != sf_symbol_of(ToolbarIcon::Back).len());
    assert(sf_symbol_of(ToolbarIcon::New).len() != sf_symbol_of(ToolbarIcon::Forward).len());
    assert(sf_symbol_of(ToolbarIcon::New).len() != sf_symbol_of(ToolbarIcon::Print).len());
    assert(sf_symbol_of(ToolbarIcon::New).len() != sf_symbol_of(ToolbarIcon::Info).len());
    assert(sf_symbol_of(ToolbarIcon::Open).len() != sf_symbol_of(ToolbarIcon::Save).len());
    assert(sf_symbol_of(ToolbarIcon::Open).len() != sf_symbol_of(ToolbarIcon::Add).len());
    assert(sf_symbol_of(ToolbarIcon::Open).len() != sf_symbol_of(ToolbarIcon::Remove).len());
    assert(sf_symbol_of(ToolbarIcon::Open).len() != sf_symbol_of(ToolbarIcon::Delete).len());
    assert(sf_symbol_of(ToolbarIcon::Open)[0] != sf_symbol_of(ToolbarIcon::Edit)[0]);
    assert(sf_symbol_of(ToolbarIcon::Open).len() != sf_symbol_of(ToolbarIcon::Copy).len());
    assert(sf_symbol_of(ToolbarIcon::Open).len() != sf_symbol_of(ToolbarIcon::Cut).len());
    assert(sf_symbol_of(ToolbarIcon::Open).len() != sf_symbol_of(ToolbarIcon::Paste).len());
    assert(sf_symbol_of(ToolbarIcon::Open).len() != sf_symbol_of(ToolbarIcon::Undo).len());
    assert(sf_symbol_of(ToolbarIcon::Open).len() != sf_symbol_of(ToolbarIcon::Redo).len());
    assert(sf_symbol_of(ToolbarIcon::Open).len() != sf_symbol_of(ToolbarIcon::Search).len());
    assert(sf_symbol_of(ToolbarIcon::Open).len() != sf_symbol_of(ToolbarIcon::Refresh).len());
    assert(sf_symbol_of(ToolbarIcon::Open).len() != sf_symbol_of(ToolbarIcon::Share).len());
    assert(sf_symbol_of(ToolbarIcon::Open).len() != sf_symbol_of(ToolbarIcon::Settings).len());
    assert(sf_symbol_of(ToolbarIcon::Open).len() != sf_symbol_of(ToolbarIcon::Back).len());
    assert(sf_symbol_of(ToolbarIcon::Open).len() != sf_symbol_of(ToolbarIcon::Forward).len());
    assert(sf_symbol_of(ToolbarIcon::Open).len() != sf_symbol_of(ToolbarIcon::Print).len());
    assert(sf_symbol_of(ToolbarIcon::Open).len() != sf_symbol_of(ToolbarIcon::Info).len());
    assert(sf_symbol_of(ToolbarIcon::Save).len() != sf_symbol_of(ToolbarIcon::Add).len());
    assert(sf_symbol_of(ToolbarIcon::Save).len() != sf_symbol_of(ToolbarIcon::Remove).len());
    assert(sf_symbol_of(ToolbarIcon::Save).len() != sf_symbol_of(ToolbarIcon::Delete).len());
    assert(sf_symbol_of(ToolbarIcon::Save).len() != sf_symbol_of(ToolbarIcon::Edit).len());
    assert(sf_symbol_of(ToolbarIcon::Save).len() != sf_symbol_of(ToolbarIcon::Copy).len());
    assert(sf_symbol_of(ToolbarIcon::Save).len() != sf_symbol_of(ToolbarIcon::Cut).len());
    assert(sf_symbol_of(ToolbarIcon::Save).len() != sf_symbol_of(ToolbarIcon::Paste).len());
    assert(sf_symbol_of(ToolbarIcon::Save).len() != sf_symbol_of(ToolbarIcon::Undo).len());
    assert(sf_symbol_of(ToolbarIcon::Save).len() != sf_symbol_of(ToolbarIcon::Redo).len());
    assert(sf_symbol_of(ToolbarIcon::Save).len() != sf_symbol_of(ToolbarIcon::Search).len());
    assert(sf_symbol_of(ToolbarIcon::Save).len() != sf_symbol_of(ToolbarIcon::Refresh).len());
    assert(sf_symbol_of(ToolbarIcon::Save).len() != sf_symbol_of(ToolbarIcon::Share).len());
    assert(sf_symbol_of(ToolbarIcon::Save).len() != sf_symbol_of(ToolbarIcon::Settings).len());
    assert(sf_symbol_of(ToolbarIcon::Save).len() != sf_symbol_of(ToolbarIcon::Back).len());
    assert(sf_symbol_of(ToolbarIcon::Save).len() != sf_symbol_of(ToolbarIcon::Forward).len());
    assert(sf_symbol_of(ToolbarIcon::Save).len() != sf_symbol_of(ToolbarIcon::Print).len());
    assert(sf_symbol_of(ToolbarIcon::Save).len() != sf_symbol_of(ToolbarIcon::Info).len());
    assert(sf_symbol_of(ToolbarIcon::Add).len() != sf_symbol_of(ToolbarIcon::Remove).len());
    assert(sf_symbol_of(ToolbarIcon::Add).len() != sf_symbol_of(ToolbarIcon::Delete).len());
    assert(sf_symbol_of(ToolbarIcon::Add).len() != sf_symbol_of(ToolbarIcon::Edit).len());
    assert(sf_symbol_of(ToolbarIcon::Add).len() != sf_symbol_of(ToolbarIcon::Copy).len());
    assert(sf_symbol_of(ToolbarIcon::Add).len() != sf_symbol_of(ToolbarIcon::Cut).len());
    assert(sf_symbol_of(ToolbarIcon::Add).len() != sf_symbol_of(ToolbarIcon::Paste).len());
    assert(sf_symbol_of(ToolbarIcon::Add).len() != sf_symbol_of(ToolbarIcon::Undo).len());
    assert(sf_symbol_of(ToolbarIcon::Add).len() != sf_symbol_of(ToolbarIcon::Redo).len());
    assert(sf_symbol_of(ToolbarIcon::Add).len() != sf_symbol_of(ToolbarIcon::Search).len());
    assert(sf_symbol_of(ToolbarIcon::Add).len() != sf_symbol_of(ToolbarIcon::Refresh).len());
    assert(sf_symbol_of(ToolbarIcon::Add).len() != sf_symbol_of(ToolbarIcon::Share).len());
    assert(sf_symbol_of(ToolbarIcon::Add).len() != sf_symbol_of(ToolbarIcon::Settings).len());
    assert(sf_symbol_of(ToolbarIcon::Add).len() != sf_symbol_of(ToolbarIcon::Back).len());
    assert(sf_symbol_of(ToolbarIcon::Add).len() != sf_symbol_of(ToolbarIcon::Forward).len());
    assert(sf_symbol_of(ToolbarIcon::Add).len() != sf_symbol_of(ToolbarIcon::Print).len());
    assert(sf_symbol_of(ToolbarIcon::Add).len() != sf_symbol_of(ToolbarIcon::Info).len());
    assert(sf_symbol_of(ToolbarIcon::Remove)[0] != sf_symbol_of(ToolbarIcon::Delete)[0]);
    assert(sf_symbol_of(ToolbarIcon::Remove).len() != sf_symbol_of(ToolbarIcon::Edit).len());
    assert(sf_symbol_of(ToolbarIcon::Remove).len() != sf_symbol_of(ToolbarIcon::Copy).len());
    assert(sf_symbol_of(ToolbarIcon::Remove).len() != sf_symbol_of(ToolbarIcon::Cut).len());
    assert(sf_symbol_of(ToolbarIcon::Remove).len() != sf_symbol_of(ToolbarIcon::Paste).len());
    assert(sf_symbol_of(ToolbarIcon::Remove).len() != sf_symbol_of(ToolbarIcon::Undo).len());
    assert(sf_symbol_of(ToolbarIcon::Remove).len() != sf_symbol_of(ToolbarIcon::Redo).len());
    assert(sf_symbol_of(ToolbarIcon::Remove).len() != sf_symbol_of(ToolbarIcon::Search).len());
    assert(sf_symbol_of(ToolbarIcon::Remove).len() != sf_symbol_of(ToolbarIcon::Refresh).len());
    assert(sf_symbol_of(ToolbarIcon::Remove).len() != sf_symbol_of(ToolbarIcon::Share).len());
    assert(sf_symbol_of(ToolbarIcon::Remove).len() != sf_symbol_of(ToolbarIcon::Settings).len());
    assert(sf_symbol_of(ToolbarIcon::Remove).len() != sf_symbol_of(ToolbarIcon::Back).len());
    assert(sf_symbol_of(ToolbarIcon::Remove).len() != sf_symbol_of(ToolbarIcon::Forward).len());
    assert(sf_symbol_of(ToolbarIcon::Remove).len() != sf_symbol_of(ToolbarIcon::Print).len());
    assert(sf_symbol_of(ToolbarIcon::Remove).len() != sf_symbol_of(ToolbarIcon::Info).len());
    assert(sf_symbol_of(ToolbarIcon::Delete).len() != sf_symbol_of(ToolbarIcon::Edit).len());
    assert(sf_symbol_of(ToolbarIcon::Delete).len() != sf_symbol_of(ToolbarIcon::Copy).len());
    assert(sf_symbol_of(ToolbarIcon::Delete).len() != sf_symbol_of(ToolbarIcon::Cut).len());
    assert(sf_symbol_of(ToolbarIcon::Delete).len() != sf_symbol_of(ToolbarIcon::Paste).len());
    assert(sf_symbol_of(ToolbarIcon::Delete).len() != sf_symbol_of(ToolbarIcon::Undo).len());
    assert(sf_symbol_of(ToolbarIcon::Delete).len() != sf_symbol_of(ToolbarIcon::Redo).len());
    assert(sf_symbol_of(ToolbarIcon::Delete).len() != sf_symbol_of(ToolbarIcon::Search).len());
    assert(sf_symbol_of(ToolbarIcon::Delete).len() != sf_symbol_of(ToolbarIcon::Refresh).len());
    assert(sf_symbol_of(ToolbarIcon::Delete).len() != sf_symbol_of(ToolbarIcon::Share).len());
    assert(sf_symbol_of(ToolbarIcon::Delete).len() != sf_symbol_of(ToolbarIcon::Settings).len());
    assert(sf_symbol_of(ToolbarIcon::Delete).len() != sf_symbol_of(ToolbarIcon::Back).len());
    assert(sf_symbol_of(ToolbarIcon::Delete).len() != sf_symbol_of(ToolbarIcon::Forward).len());
    assert(sf_symbol_of(ToolbarIcon::Delete).len() != sf_symbol_of(ToolbarIcon::Print).len());
    assert(sf_symbol_of(ToolbarIcon::Delete).len() != sf_symbol_of(ToolbarIcon::Info).len());
    assert(sf_symbol_of(ToolbarIcon::Edit).len() != sf_symbol_of(ToolbarIcon::Copy).len());
    assert(sf_symbol_of(ToolbarIcon::Edit).len() != sf_symbol_of(ToolbarIcon::Cut).len());
    assert(sf_symbol_of(ToolbarIcon::Edit).len() != sf_symbol_of(ToolbarIcon::Paste).len());
    assert(sf_symbol_of(ToolbarIcon::Edit).len() != sf_symbol_of(ToolbarIcon::Undo).len());
    assert(sf_symbol_of(ToolbarIcon::Edit).len() != sf_symbol_of(ToolbarIcon::Redo).len());
    assert(sf_symbol_of(ToolbarIcon::Edit).len() != sf_symbol_of(ToolbarIcon::Search).len());
    assert(sf_symbol_of(ToolbarIcon::Edit).len() != sf_symbol_of(ToolbarIcon::Refresh).len());
    assert(sf_symbol_of(ToolbarIcon::Edit).len() != sf_symbol_of(ToolbarIcon::Share).len());
    assert(sf_symbol_of(ToolbarIcon::Edit).len() != sf_symbol_of(ToolbarIcon::Settings).len());
    assert(sf_symbol_of(ToolbarIcon::Edit).len() != sf_symbol_of(ToolbarIcon::Back).len());
    assert(sf_symbol_of(ToolbarIcon::Edit).len() != sf_symbol_of(ToolbarIcon::Forward).len());
    assert(sf_symbol_of(ToolbarIcon::Edit).len() != sf_symbol_of(ToolbarIcon::Print).len());
    assert(sf_symbol_of(ToolbarIcon::Edit).len() != sf_symbol_of(ToolbarIcon::Info).len());
    assert(sf_symbol_of(ToolbarIcon::Copy).len() != sf_symbol_of(ToolbarIcon::Cut).len());
    assert(sf_symbol_of(ToolbarIcon::Copy).len() != sf_symbol_of(ToolbarIcon::Paste).len());
    assert(sf_symbol_of(ToolbarIcon::Copy).len() != sf_symbol_of(ToolbarIcon::Undo).len());
    assert(sf_symbol_of(ToolbarIcon::Copy).len() != sf_symbol_of(ToolbarIcon::Redo).len());
    assert(sf_symbol_of(ToolbarIcon::Copy).len() != sf_symbol_of(ToolbarIcon::Search).len());
    assert(sf_symbol_of(ToolbarIcon::Copy).len() != sf_symbol_of(ToolbarIcon::Refresh).len());
    assert(sf_symbol_of(ToolbarIcon::Copy).len() != sf_symbol_of(ToolbarIcon::Share).len());
    assert(sf_symbol_of(ToolbarIcon::Copy).len() != sf_symbol_of(ToolbarIcon::Settings).len());
    assert(sf_symbol_of(ToolbarIcon::Copy).len() != sf_symbol_of(ToolbarIcon::Back).len());
    assert(sf_symbol_of(ToolbarIcon::Copy).len() != sf_symbol_of(ToolbarIcon::Forward).len());
    assert(sf_symbol_of(ToolbarIcon::Copy).len() != sf_symbol_of(ToolbarIcon::Print).len());
    assert(sf_symbol_of(ToolbarIcon::Copy).len() != sf_symbol_of(ToolbarIcon::Info).len());
    assert(sf_symbol_of(ToolbarIcon::Cut).len() != sf_symbol_of(ToolbarIcon::Paste).len());
    assert(sf_symbol_of(ToolbarIcon::Cut).len() != sf_symbol_of(ToolbarIcon::Undo).len());
    assert(sf_symbol_of(ToolbarIcon::Cut).len() != sf_symbol_of(ToolbarIcon::Redo).len());
    assert(sf_symbol_of(ToolbarIcon::Cut).len() != sf_symbol_of(ToolbarIcon::Search).len());
    assert(sf_symbol_of(ToolbarIcon::Cut).len() != sf_symbol_of(ToolbarIcon::Refresh).len());
    assert(sf_symbol_of(ToolbarIcon::Cut).len() != sf_symbol_of(ToolbarIcon::Share).len());
    assert(sf_symbol_of(ToolbarIcon::Cut).len() != sf_symbol_of(ToolbarIcon::Settings).len());
    assert(sf_symbol_of(ToolbarIcon::Cut).len() != sf_symbol_of(ToolbarIcon::Back).len());
    assert(sf_symbol_of(ToolbarIcon::Cut).len() != sf_symbol_of(ToolbarIcon::Forward).len());
    assert(sf_symbol_of(ToolbarIcon::Cut).len() != sf_symbol_of(ToolbarIcon::Print).len());
    assert(sf_symbol_of(ToolbarIcon::Cut).len() != sf_symbol_of(ToolbarIcon::Info).len());
    assert(sf_symbol_of(ToolbarIcon::Paste).len() != sf_symbol_of(ToolbarIcon::Undo).len());
    assert(sf_symbol_of(ToolbarIcon::Paste).len() != sf_symbol_of(ToolbarIcon::Redo).len());
    assert(sf_symbol_of(ToolbarIcon::Paste).len() != sf_symbol_of(ToolbarIcon::Search).len());
    assert(sf_symbol_of(ToolbarIcon::Paste).len() != sf_symbol_of(ToolbarIcon::Refresh).len());
    assert(sf_symbol_of(ToolbarIcon::Paste).len() != sf_symbol_of(ToolbarIcon::Share).len());
    assert(sf_symbol_of(ToolbarIcon::Paste).len() != sf_symbol_of(ToolbarIcon::Settings).len());
    assert(sf_symbol_of(ToolbarIcon::Paste)[0] != sf_symbol_of(ToolbarIcon::Back)[0]);
    assert(sf_symbol_of(ToolbarIcon::Paste).len() != sf_symbol_of(ToolbarIcon::Forward).len());
    assert(sf_symbol_of(ToolbarIcon::Paste).len() != sf_symbol_of(ToolbarIcon::Print).len());
    assert(sf_symbol_of(ToolbarIcon::Paste).len() != sf_symbol_of(ToolbarIcon::Info).len());
    assert(sf_symbol_of(ToolbarIcon::Undo).len() != sf_symbol_of(ToolbarIcon::Redo).len());
    assert(sf_symbol_of(ToolbarIcon::Undo).len() != sf_symbol_of(ToolbarIcon::Search).len());
    assert(sf_symbol_of(ToolbarIcon::Undo).len() != sf_symbol_of(ToolbarIcon::Refresh).len());
    assert(sf_symbol_of(ToolbarIcon::Undo).len() != sf_symbol_of(ToolbarIcon::Share).len());
    assert(sf_symbol_of(ToolbarIcon::Undo).len() != sf_symbol_of(ToolbarIcon::Settings).len());
    assert(sf_symbol_of(ToolbarIcon::Undo).len() != sf_symbol_of(ToolbarIcon::Back).len());
    assert(sf_symbol_of(ToolbarIcon::Undo).len() != sf_symbol_of(ToolbarIcon::Forward).len());
    assert(sf_symbol_of(ToolbarIcon::Undo).len() != sf_symbol_of(ToolbarIcon::Print).len());
    assert(sf_symbol_of(ToolbarIcon::Undo).len() != sf_symbol_of(ToolbarIcon::Info).len());
    assert(sf_symbol_of(ToolbarIcon::Redo).len() != sf_symbol_of(ToolbarIcon::Search).len());
    assert(sf_symbol_of(ToolbarIcon::Redo).len() != sf_symbol_of(ToolbarIcon::Refresh).len());
    assert(sf_symbol_of(ToolbarIcon::Redo)[0] != sf_symbol_of(ToolbarIcon::Share)[0]);
    assert(sf_symbol_of(ToolbarIcon::Redo).len() != sf_symbol_of(ToolbarIcon::Settings).len());
    assert(sf_symbol_of(ToolbarIcon::Redo).len() != sf_symbol_of(ToolbarIcon::Back).len());
    assert(sf_symbol_of(ToolbarIcon::Redo).len() != sf_symbol_of(ToolbarIcon::Forward).len());
    assert(sf_symbol_of(ToolbarIcon::Redo).len() != sf_symbol_of(ToolbarIcon::Print).len());
    assert(sf_symbol_of(ToolbarIcon::Redo).len() != sf_symbol_of(ToolbarIcon::Info).len());
    assert(sf_symbol_of(ToolbarIcon::Search)[0] != sf_symbol_of(ToolbarIcon::Refresh)[0]);
    assert(sf_symbol_of(ToolbarIcon::Search).len() != sf_symbol_of(ToolbarIcon::Share).len());
    assert(sf_symbol_of(ToolbarIcon::Search).len() != sf_symbol_of(ToolbarIcon::Settings).len());
    assert(sf_symbol_of(ToolbarIcon::Search).len() != sf_symbol_of(ToolbarIcon::Back).len());
    assert(sf_symbol_of(ToolbarIcon::Search)[0] != sf_symbol_of(ToolbarIcon::Forward)[0]);
    assert(sf_symbol_of(ToolbarIcon::Search).len() != sf_symbol_of(ToolbarIcon::Print).len());
    assert(sf_symbol_of(ToolbarIcon::Search).len() != sf_symbol_of(ToolbarIcon::Info).len());
    assert(sf_symbol_of(ToolbarIcon::Refresh).len() != sf_symbol_of(ToolbarIcon::Share).len());
    assert(sf_symbol_of(ToolbarIcon::Refresh).len() != sf_symbol_of(ToolbarIcon::Settings).len());
    assert(sf_symbol_of(ToolbarIcon::Refresh).len() != sf_symbol_of(ToolbarIcon::Back).len());
    assert(sf_symbol_of(ToolbarIcon::Refresh)[0] != sf_symbol_of(ToolbarIcon::Forward)[0]);
    assert(sf_symbol_of(ToolbarIcon::Refresh).len() != sf_symbol_of(ToolbarIcon::Print).len());
    assert(sf_symbol_of(ToolbarIcon::Refresh).len() != sf_symbol_of(ToolbarIcon::Info).len());
    assert(sf_symbol_of(ToolbarIcon::Share).len() != sf_symbol_of(ToolbarIcon::Settings).len());
    assert(sf_symbol_of(ToolbarIcon::Share).len() != sf_symbol_of(ToolbarIcon::Back).len());
    assert(sf_symbol_of(ToolbarIcon::Share).len() != sf_symbol_of(ToolbarIcon::Forward).len());
    assert(sf_symbol_of(ToolbarIcon::Share).len() != sf_symbol_of(ToolbarIcon::Print).len());
    assert(sf_symbol_of(ToolbarIcon::Share).len() != sf_symbol_of(ToolbarIcon::Info).len());
    assert(sf_symbol_of(ToolbarIcon::Settings).len() != sf_symbol_of(ToolbarIcon::Back).len());
    assert(sf_symbol_of(ToolbarIcon::Settings).len() != sf_symbol_of(ToolbarIcon::Forward).len());
    assert(sf_symbol_of(ToolbarIcon::Settings).len() != sf_symbol_of(ToolbarIcon::Print).len());
    assert(sf_symbol_of(ToolbarIcon::Settings).len() != sf_symbol_of(ToolbarIcon::Info).len());
    assert(sf_symbol_of(ToolbarIcon::Back).len() != sf_symbol_of(ToolbarIcon::Forward).len());
    assert(sf_symbol_of(ToolbarIcon::Back).len() != sf_symbol_of(ToolbarIcon::Print).len());
    assert(sf_symbol_of(ToolbarIcon::Back).len() != sf_symbol_of(ToolbarIcon::Info).len());
    assert(sf_symbol_of(ToolbarIcon::Forward).len() != sf_symbol_of(ToolbarIcon::Print).len());
    assert(sf_symbol_of(ToolbarIcon::Forward).len() != sf_symbol_of(ToolbarIcon::Info).len());
    assert(sf_symbol_of(ToolbarIcon::Print).len() != sf_symbol_of(ToolbarIcon::Info).len());
}

/// No two actions share a Linux icon name.
pub proof fn lemma_icon_name_distinct(a: ToolbarIcon, b: ToolbarIcon)
    ensures
        a != b ==> icon_name_of(a) != icon_name_of(b),
{
    reveal_strlit("document-new-symbolic");
    reveal_strlit("document-open-symbolic");
    reveal_strlit("document-save-symbolic");
    reveal_strlit("list-add-symbolic");
    reveal_strlit("list-remove-symbolic");
    reveal_strlit("user-trash-symbolic");
    reveal_strlit("document-edit-symbolic");
    reveal_strlit("edit-copy-symbolic");
    reveal_strlit("edit-cut-symbolic");
    reveal_strlit("edit-paste-symbolic");
    reveal_strlit("edit-undo-symbolic");
    reveal_strlit("edit-redo-symbolic");
    reveal_strlit("system-search-symbolic");
    reveal_strlit("view-refresh-symbolic");
    reveal_strlit("emblem-shared-symbolic");
    reveal_strlit("preferences-system-symbolic");
    reveal_strlit("go-previous-symbolic");
    reveal_strlit("go-next-symbolic");
    reveal_strlit("document-print-symbolic");
    reveal_strlit("dialog-information-symbolic");
    assert(icon_name_of(ToolbarIcon::New).len() != icon_name_of(ToolbarIcon::Open).len());
    assert(icon_name_of(ToolbarIcon::New).len() != icon_name_of(ToolbarIcon::Save).len());
    assert(icon_name_of(ToolbarIcon::New).len() != icon_name_of(ToolbarIcon::Add).len());
    assert(icon_name_of(ToolbarIcon::New).len() != icon_name_of(ToolbarIcon::Remove).len());
    assert(icon_name_of(ToolbarIcon::New).len() != icon_name_of(ToolbarIcon::Delete).len());
    assert(icon_name_of(ToolbarIcon::New).len() != icon_name_of(ToolbarIcon::Edit).len());
    assert(icon_name_of(ToolbarIcon::New).len() != icon_name_of(ToolbarIcon::Copy).len());
    assert(icon_name_of(ToolbarIcon::New).len() != icon_name_of(ToolbarIcon::Cut).len());
    assert(icon_name_of(ToolbarIcon::New).len() != icon_name_of(ToolbarIcon::Paste).len());
    assert(icon_name_of(ToolbarIcon::New).len() != icon_name_of(ToolbarIcon::Undo).len());
    assert(icon_name_of(ToolbarIcon::New).len() != icon_name_of(ToolbarIcon::Redo).len());
    assert(icon_name_of(ToolbarIcon::New).len() != icon_name_of(ToolbarIcon::Search).len());
    assert(icon_name_of(ToolbarIcon::New)[0] != icon_name_of(ToolbarIcon::Refresh)[0]);
    assert(icon_name_of(ToolbarIcon::New).len() != icon_name_of(ToolbarIcon::Share).len());
    assert(icon_name_of(ToolbarIcon::New).len() != icon_name_of(ToolbarIcon::Settings).len());
    assert(icon_name_of(ToolbarIcon::New).len() != icon_name_of(ToolbarIcon::Back).len());
    assert(icon_name_of(ToolbarIcon::New).len() != icon_name_of(ToolbarIcon::Forward).len());
    assert(icon_name_of(ToolbarIcon::New).len() != icon_name_of(ToolbarIcon::Print).len());
    assert(icon_name_of(ToolbarIcon::New).len() != icon_name_of(ToolbarIcon::Info).len());
    assert(icon_name_of(ToolbarIcon::Open)[9] != icon_name_of(ToolbarIcon::Save)[9]);
    assert(icon_name_of(ToolbarIcon::Open).len() != icon_name_of(ToolbarIcon::Add).len());
    assert(icon_name_of(ToolbarIcon::Open).len() != icon_name_of(ToolbarIcon::Remove).len());
    assert(icon_name_of(ToolbarIcon::Open).len() != icon_name_of(ToolbarIcon::Delete).len());
    assert(icon_name_of(ToolbarIcon::Open)[9] != icon_name_of(ToolbarIcon::Edit)[9]);
    assert(icon_name_of(ToolbarIcon::Open).len() != icon_name_of(ToolbarIcon::Copy).len());
    assert(icon_name_of(ToolbarIcon::Open).len() != icon_name_of(ToolbarIcon::Cut).len());
    assert(icon_name_of(ToolbarIcon::Open).len() != icon_name_of(ToolbarIcon::Paste).len());
    assert(icon_name_of(ToolbarIcon::Open).len() != icon_name_of(ToolbarIcon::Undo).len());
    assert(icon_name_of(ToolbarIcon::Open).len() != icon_name_of(ToolbarIcon::Redo).len());
    assert(icon_name_of(ToolbarIcon::Open)[0] != icon_name_of(ToolbarIcon::Search)[0]);
    assert(icon_name_of(ToolbarIcon::Open).len() != icon_name_of(ToolbarIcon::Refresh).len());
    assert(icon_name_of(ToolbarIcon::Open)[0] != icon_name_of(ToolbarIcon::Share)[0]);
    assert(icon_name_of(ToolbarIcon::Open).len() != icon_name_of(ToolbarIcon::Settings).len());
    assert(icon_name_of(ToolbarIcon::Open).len() != icon_name_of(ToolbarIcon::Back).len());
    assert(icon_name_of(ToolbarIcon::Open).len() != icon_name_of(ToolbarIcon::Forward).len());
    assert(icon_name_of(ToolbarIcon::Open).len() != icon_name_of(ToolbarIcon::Print).len());
    assert(icon_name_of(ToolbarIcon::Open).len() != icon_name_of(ToolbarIcon::Info).len());
    assert(icon_name_of(ToolbarIcon::Save).len() != icon_name_of(ToolbarIcon::Add).len());
    assert(icon_name_of(ToolbarIcon::Save).len() != icon_name_of(ToolbarIcon::Remove).len());
    assert(icon_name_of(ToolbarIcon::Save).len() != icon_name_of(ToolbarIcon::Delete).len());
    assert(icon_name_of(ToolbarIcon::Save)[9] != icon_name_of(ToolbarIcon::Edit)[9]);
    assert(icon_name_of(ToolbarIcon::Save).len() != icon_name_of(ToolbarIcon::Copy).len());
    assert(icon_name_of(ToolbarIcon::Save).len() != icon_name_of(ToolbarIcon::Cut).len());
    assert(icon_name_of(ToolbarIcon::Save).len() != icon_name_of(ToolbarIcon::Paste).len());
    assert(icon_name_of(ToolbarIcon::Save).len() != icon_name_of(ToolbarIcon::Undo).len());
    assert(icon_name_of(ToolbarIcon::Save).len() != icon_name_of(ToolbarIcon::Redo).len());
    assert(icon_name_of(ToolbarIcon::Save)[0] != icon_name_of(ToolbarIcon::Search)[0]);
    assert(icon_name_of(ToolbarIcon::Save).len() != icon_name_of(ToolbarIcon::Refresh).len());
    assert(icon_name_of(ToolbarIcon::Save)[0] != icon_name_of(ToolbarIcon::Share)[0]);
    assert(icon_name_of(ToolbarIcon::Save).len() != icon_name_of(ToolbarIcon::Settings).len());
    assert(icon_name_of(ToolbarIcon::Save).len() != icon_name_of(ToolbarIcon::Back).len());
    assert(icon_name_of(ToolbarIcon::Save).len() != icon_name_of(ToolbarIcon::Forward).len());
    assert(icon_name_of(ToolbarIcon::Save).len() != icon_name_of(ToolbarIcon::Print).len());
    assert(icon_name_of(ToolbarIcon::Save).len() != icon_name_of(ToolbarIcon::Info).len());
    assert(icon_name_of(ToolbarIcon::Add).len() != icon_name_of(ToolbarIcon::Remove).len());
    assert(icon_name_of(ToolbarIcon::Add).len() != icon_name_of(ToolbarIcon::Delete).len());
    assert(icon_name_of(ToolbarIcon::Add).len() != icon_name_of(ToolbarIcon::Edit).len());
    assert(icon_name_of(ToolbarIcon::Add).len() != icon_name_of(ToolbarIcon::Copy).len());
    assert(icon_name_of(ToolbarIcon::Add)[0] != icon_name_of(ToolbarIcon::Cut)[0]);
    assert(icon_name_of(ToolbarIcon::Add).len() != icon_name_of(ToolbarIcon::Paste).len());
    assert(icon_name_of(ToolbarIcon::Add).len() != icon_name_of(ToolbarIcon::Undo).len());
    assert(icon_name_of(ToolbarIcon::Add).len() != icon_name_of(ToolbarIcon::Redo).len());
    assert(icon_name_of(ToolbarIcon::Add).len() != icon_name_of(ToolbarIcon::Search).len());
    assert(icon_name_of(ToolbarIcon::Add).len() != icon_name_of(ToolbarIcon::Refresh).len());
    assert(icon_name_of(ToolbarIcon::Add).len() != icon_name_of(ToolbarIcon::Share).len());
    assert(icon_name_of(ToolbarIcon::Add).len() != icon_name_of(ToolbarIcon::Settings).len());
    assert(icon_name_of(ToolbarIcon::Add).len() != icon_name_of(ToolbarIcon::Back).len());
    assert(icon_name_of(ToolbarIcon::Add).len() != icon_name_of(ToolbarIcon::Forward).len());
    assert(icon_name_of(ToolbarIcon::Add).len() != icon_name_of(ToolbarIcon::Print).len());
    assert(icon_name_of(ToolbarIcon::Add).len() != icon_name_of(ToolbarIcon::Info).len());
    assert(icon_name_of(ToolbarIcon::Remove).len() != icon_name_of(ToolbarIcon::Delete).len());
    assert(icon_name_of(ToolbarIcon::Remove).len() != icon_name_of(ToolbarIcon::Edit).len());
    assert(icon_name_of(ToolbarIcon::Remove).len() != icon_name_of(ToolbarIcon::Copy).len());
    assert(icon_name_of(ToolbarIcon::Remove).len() != icon_name_of(ToolbarIcon::Cut).len());
    assert(icon_name_of(ToolbarIcon::Remove).len() != icon_name_of(ToolbarIcon::Paste).len());
    assert(icon_name_of(ToolbarIcon::Remove).len() != icon_name_of(ToolbarIcon::Undo).len());
    assert(icon_name_of(ToolbarIcon::Remove).len() != icon_name_of(ToolbarIcon::Redo).len());
    assert(icon_name_of(ToolbarIcon::Remove).len() != icon_name_of(ToolbarIcon::Search).len());
    assert(icon_name_of(ToolbarIcon::Remove).len() != icon_name_of(ToolbarIcon::Refresh).len());
    assert(icon_name_of(ToolbarIcon::Remove).len() != icon_name_of(ToolbarIcon::Share).len());
    assert(icon_name_of(ToolbarIcon::Remove).len() != icon_name_of(ToolbarIcon::Settings).len());
    assert(icon_name_of(ToolbarIcon::Remove)[0] != icon_name_of(ToolbarIcon::Back)[0]);
    assert(icon_name_of(ToolbarIcon::Remove).len() != icon_name_of(ToolbarIcon::Forward).len());
    assert(icon_name_of(ToolbarIcon::Remove).len() != icon_name_of(ToolbarIcon::Print).len());
    assert(icon_name_of(ToolbarIcon::Remove).len() != icon_name_of(ToolbarIcon::Info).len());
    assert(icon_name_of(ToolbarIcon::Delete).len() != icon_name_of(ToolbarIcon::Edit).len());
    assert(icon_name_of(ToolbarIcon::Delete).len() != icon_name_of(ToolbarIcon::Copy).len());
    assert(icon_name_of(ToolbarIcon::Delete).len() != icon_name_of(ToolbarIcon::Cut).len());
    assert(icon_name_of(ToolbarIcon::Delete)[0] != icon_name_of(ToolbarIcon::Paste)[0]);
    assert(icon_name_of(ToolbarIcon::Delete).len() != icon_name_of(ToolbarIcon::Undo).len());
    assert(icon_name_of(ToolbarIcon::Delete).len() != icon_name_of(ToolbarIcon::Redo).len());
    assert(icon_name_of(ToolbarIcon::Delete).len() != icon_name_of(ToolbarIcon::Search).len());
    assert(icon_name_of(ToolbarIcon::Delete).len() != icon_name_of(ToolbarIcon::Refresh).len());
    assert(icon_name_of(ToolbarIcon::Delete).len() != icon_name_of(ToolbarIcon::Share).len());
    assert(icon_name_of(ToolbarIcon::Delete).len() != icon_name_of(ToolbarIcon::Settings).len());
    assert(icon_name_of(ToolbarIcon::Delete).len() != icon_name_of(ToolbarIcon::Back).len());
    assert(icon_name_of(ToolbarIcon::Delete).len() != icon_name_of(ToolbarIcon::Forward).len());
    assert(icon_name_of(ToolbarIcon::Delete).len() != icon_name_of(ToolbarIcon::Print).len());
    assert(icon_name_of(ToolbarIcon::Delete).len() != icon_name_of(ToolbarIcon::Info).len());
    assert(icon_name_of(ToolbarIcon::Edit).len() != icon_name_of(ToolbarIcon::Copy).len());
    assert(icon_name_of(ToolbarIcon::Edit).len() != icon_name_of(ToolbarIcon::Cut).len());
    assert(icon_name_of(ToolbarIcon::Edit).len() != icon_name_of(ToolbarIcon::Paste).len());
    assert(icon_name_of(ToolbarIcon::Edit).len() != icon_name_of(ToolbarIcon::Undo).len());
    assert(icon_name_of(ToolbarIcon::Edit).len() != icon_name_of(ToolbarIcon::Redo).len());
    assert(icon_name_of(ToolbarIcon::Edit)[0] != icon_name_of(ToolbarIcon::Search)[0]);
    assert(icon_name_of(ToolbarIcon::Edit).len() != icon_name_of(ToolbarIcon::Refresh).len());
    assert(icon_name_of(ToolbarIcon::Edit)[0] != icon_name_of(ToolbarIcon::Share)[0]);
    assert(icon_name_of(ToolbarIcon::Edit).len() != icon_name_of(ToolbarIcon::Settings).len());
    assert(icon_name_of(ToolbarIcon::Edit).len() != icon_name_of(ToolbarIcon::Back).len());
    assert(icon_name_of(ToolbarIcon::Edit).len() != icon_name_of(ToolbarIcon::Forward).len());
    assert(icon_name_of(ToolbarIcon::Edit).len() != icon_name_of(ToolbarIcon::Print).len());
    assert(icon_name_of(ToolbarIcon::Edit).len() != icon_name_of(ToolbarIcon::Info).len());
    assert(icon_name_of(ToolbarIcon::Copy).len() != icon_name_of(ToolbarIcon::Cut).len());
    assert(icon_name_of(ToolbarIcon::Copy).len() != icon_name_of(ToolbarIcon::Paste).len());
    assert(icon_name_of(ToolbarIcon::Copy)[5] != icon_name_of(ToolbarIcon::Undo)[5]);
    assert(icon_name_of(ToolbarIcon::Copy)[5] != icon_name_of(ToolbarIcon::Redo)[5]);
    assert(icon_name_of(ToolbarIcon::Copy).len() != icon_name_of(ToolbarIcon::Search).len());
    assert(icon_name_of(ToolbarIcon::Copy).len() != icon_name_of(ToolbarIcon::Refresh).len());
    assert(icon_name_of(ToolbarIcon::Copy).len() != icon_name_of(ToolbarIcon::Share).len());
    assert(icon_name_of(ToolbarIcon::Copy).len() != icon_name_of(ToolbarIcon::Settings).len());
    assert(icon_name_of(ToolbarIcon::Copy).len() != icon_name_of(ToolbarIcon::Back).len());
    assert(icon_name_of(ToolbarIcon::Copy).len() != icon_name_of(ToolbarIcon::Forward).len());
    assert(icon_name_of(ToolbarIcon::Copy).len() != icon_name_of(ToolbarIcon::Print).len());
    assert(icon_name_of(ToolbarIcon::Copy).len() != icon_name_of(ToolbarIcon::Info).len());
    assert(icon_name_of(ToolbarIcon::Cut).len() != icon_name_of(ToolbarIcon::Paste).len());
    assert(icon_name_of(ToolbarIcon::Cut).len() != icon_name_of(ToolbarIcon::Undo).len());
    assert(icon_name_of(ToolbarIcon::Cut).len() != icon_name_of(ToolbarIcon::Redo).len());
    assert(icon_name_of(ToolbarIcon::Cut).len() != icon_name_of(ToolbarIcon::Search).len());
    assert(icon_name_of(ToolbarIcon::Cut).len() != icon_name_of(ToolbarIcon::Refresh).len());
    assert(icon_name_of(ToolbarIcon::Cut).len() != icon_name_of(ToolbarIcon::Share).len());
    assert(icon_name_of(ToolbarIcon::Cut).len() != icon_name_of(ToolbarIcon::Settings).len());
    assert(icon_name_of(ToolbarIcon::Cut).len() != icon_name_of(ToolbarIcon::Back).len());
    assert(icon_name_of(ToolbarIcon::Cut).len() != icon_name_of(ToolbarIcon::Forward).len());
    assert(icon_name_of(ToolbarIcon::Cut).len() != icon_name_of(ToolbarIcon::Print).len());
    assert(icon_name_of(ToolbarIcon::Cut).len() != icon_name_of(ToolbarIcon::Info).len());
    assert(icon_name_of(ToolbarIcon::Paste).len() != icon_name_of(ToolbarIcon::Undo).len());
    assert(icon_name_of(ToolbarIcon::Paste).len() != icon_name_of(ToolbarIcon::Redo).len());
    assert(icon_name_of(ToolbarIcon::Paste).len() != icon_name_of(ToolbarIcon::Search).len());
    assert(icon_name_of(ToolbarIcon::Paste).len() != icon_name_of(ToolbarIcon::Refresh).len());
    assert(icon_name_of(ToolbarIcon::Paste).len() != icon_name_of(ToolbarIcon::Share).len());
    assert(icon_name_of(ToolbarIcon::Paste).len() != icon_name_of(ToolbarIcon::Settings).len());
    assert(icon_name_of(ToolbarIcon::Paste).len() != icon_name_of(ToolbarIcon::Back).len());
    assert(icon_name_of(ToolbarIcon::Paste).len() != icon_name_of(ToolbarIcon::Forward).len());
    assert(icon_name_of(ToolbarIcon::Paste).len() != icon_name_of(ToolbarIcon::Print).len());
    assert(icon_name_of(ToolbarIcon::Paste).len() != icon_name_of(ToolbarIcon::Info).len());
    assert(icon_name_of(ToolbarIcon::Undo)[5] != icon_name_of(ToolbarIcon::Redo)[5]);
    assert(icon_name_of(ToolbarIcon::Undo).len() != icon_name_of(ToolbarIcon::Search).len());
    assert(icon_name_of(ToolbarIcon::Undo).len() != icon_name_of(ToolbarIcon::Refresh).len());
    assert(icon_name_of(ToolbarIcon::Undo).len() != icon_name_of(ToolbarIcon::Share).len());
    assert(icon_name_of(ToolbarIcon::Undo).len() != icon_name_of(ToolbarIcon::Settings).len());
    assert(icon_name_of(ToolbarIcon::Undo).len() != icon_name_of(ToolbarIcon::Back).len());
    assert(icon_name_of(ToolbarIcon::Undo).len() != icon_name_of(ToolbarIcon::Forward).len());
    assert(icon_name_of(ToolbarIcon::Undo).len() != icon_name_of(ToolbarIcon::Print).len());
    assert(icon_name_of(ToolbarIcon::Undo).len() != icon_name_of(ToolbarIcon::Info).len());
    assert(icon_name_of(ToolbarIcon::Redo).len() != icon_name_of(ToolbarIcon::Search).len());
    assert(icon_name_of(ToolbarIcon::Redo).len() != icon_name_of(ToolbarIcon::Refresh).len());
    assert(icon_name_of(ToolbarIcon::Redo).len() != icon_name_of(ToolbarIcon::Share).len());
    assert(icon_name_of(ToolbarIcon::Redo).len() != icon_name_of(ToolbarIcon::Settings).len());
    assert(icon_name_of(ToolbarIcon::Redo).len() != icon_name_of(ToolbarIcon::Back).len());
    assert(icon_name_of(ToolbarIcon::Redo).len() != icon_name_of(ToolbarIcon::Forward).len());
    assert(icon_name_of(ToolbarIcon::Redo).len() != icon_name_of(ToolbarIcon::Print).len());
    assert(icon_name_of(ToolbarIcon::Redo).len() != icon_name_of(ToolbarIcon::Info).len());
    assert(icon_name_of(ToolbarIcon::Search).len() != icon_name_of(ToolbarIcon::Refresh).len());
    assert(icon_name_of(ToolbarIcon::Search)[0] != icon_name_of(ToolbarIcon::Share)[0]);
    assert(icon_name_of(ToolbarIcon::Search).len() != icon_name_of(ToolbarIcon::Settings).len());
    assert(icon_name_of(ToolbarIcon::Search).len() != icon_name_of(ToolbarIcon::Back).len());
    assert(icon_name_of(ToolbarIcon::Search).len() != icon_name_of(ToolbarIcon::Forward).len());
    assert(icon_name_of(ToolbarIcon::Search).len() != icon_name_of(ToolbarIcon::Print).len());
    assert(icon_name_of(ToolbarIcon::Search).len() != icon_name_of(ToolbarIcon::Info).len());
    assert(icon_name_of(ToolbarIcon::Refresh).len() != icon_name_of(ToolbarIcon::Share).len());
    assert(icon_name_of(ToolbarIcon::Refresh).len() != icon_name_of(ToolbarIcon::Settings).len());
    assert(icon_name_of(ToolbarIcon::Refresh).len() != icon_name_of(ToolbarIcon::Back).len());
    assert(icon_name_of(ToolbarIcon::Refresh).len() != icon_name_of(ToolbarIcon::Forward).len());
    assert(icon_name_of(ToolbarIcon::Refresh).len() != icon_name_of(ToolbarIcon::Print).len());
    assert(icon_name_of(ToolbarIcon::Refresh).len() != icon_name_of(ToolbarIcon::Info).len());
    assert(icon_name_of(ToolbarIcon::Share).len() != icon_name_of(ToolbarIcon::Settings).len());
    assert(icon_name_of(ToolbarIcon::Share).len() != icon_name_of(ToolbarIcon::Back).len());
    assert(icon_name_of(ToolbarIcon::Share).len() != icon_name_of(ToolbarIcon::Forward).len());
    assert(icon_name_of(ToolbarIcon::Share).len() != icon_name_of(ToolbarIcon::Print).len());
    assert(icon_name_of(ToolbarIcon::Share).len() != icon_name_of(ToolbarIcon::Info).len());
    assert(icon_name_of(ToolbarIcon::Settings).len() != icon_name_of(ToolbarIcon::Back).len());
    assert(icon_name_of(ToolbarIcon::Settings).len() != icon_name_of(ToolbarIcon::Forward).len());
    assert(icon_name_of(ToolbarIcon::Settings).len() != icon_name_of(ToolbarIcon::Print).len());
    assert(icon_name_of(ToolbarIcon::Settings)[0] != icon_name_of(ToolbarIcon::Info)[0]);
    assert(icon_name_of(ToolbarIcon::Back).len() != icon_name_of(ToolbarIcon::Forward).len());
    assert(icon_name_of(ToolbarIcon::Back).len() != icon_name_of(ToolbarIcon::Print).len());
    assert(icon_name_of(ToolbarIcon::Back).len() != icon_name_of(ToolbarIcon::Info).len());
    assert(icon_name_of(ToolbarIcon::Forward).len() != icon_name_of(ToolbarIcon::Print).len());
    assert(icon_name_of(ToolbarIcon::Forward).len() != icon_name_of(ToolbarIcon::Info).len());
    assert(icon_name_of(ToolbarIcon::Print).len() != icon_name_of(ToolbarIcon::Info).len());
}

/// No two actions share a web path.
pub proof fn lemma_svg_path_distinct(a: ToolbarIcon, b: ToolbarIcon)
    ensures
        a != b ==> svg_path_of(a) != svg_path_of(b),
{
    reveal_strlit("M14 3H7a2 2 0 0 0-2 2v14a2 2 0 0 0 2 2h6M14 3l5 5M14 3v5h5M18 14v6M15 17h6");
    reveal_strlit("M3 7a2 2 0 0 1 2-2h4l2 2h8a2 2 0 0 1 2 2v9a2 2 0 0 1-2 2H5a2 2 0 0 1-2-2z");
    reveal_strlit("M12 3v11M8 10l4 4 4-4M4 17v2a2 2 0 0 0 2 2h12a2 2 0 0 0 2-2v-2");
    reveal_strlit("M12 5v14M5 12h14");
    reveal_strlit("M5 12h14");
    reveal_strlit("M4 7h16M10 7V5h4v2M6 7l1 13h10l1-13M10 11v6M14 11v6");
    reveal_strlit("M4 20h4L20 8l-4-4L4 16zM14 6l4 4");
    reveal_strlit("M9 9h10v12H9zM5 15V3h10v2");
    reveal_strlit("M6 4l12 14M18 4L6 18M7 21a2.5 2.5 0 1 0 0-5 2.5 2.5 0 0 0 0 5M17 21a2.5 2.5 0 1 0 0-5 2.5 2.5 0 0 0 0 5");
    reveal_strlit("M8 5H6a2 2 0 0 0-2 2v12a2 2 0 0 0 2 2h12a2 2 0 0 0 2-2V7a2 2 0 0 0-2-2h-2M9 5V3h6v2z");
    reveal_strlit("M9 8H5V4M5 8a8 8 0 1 1-1.6 6");
    reveal_strlit("M15 8h4V4M19 8a8 8 0 1 0 1.6 6");
    reveal_strlit("M11 18a7 7 0 1 0 0-14 7 7 0 0 0 0 14M20 20l-4-4");
    reveal_strlit("M20 12a8 8 0 1 1-2.3-5.7M20 4v5h-5");
    reveal_strlit("M12 16V4M8 8l4-4 4 4M4 15v4a2 2 0 0 0 2 2h12a2 2 0 0 0 2-2v-4");
    reveal_strlit("M12 15.5a3.5 3.5 0 1 0 0-7 3.5 3.5 0 0 0 0 7M12 2v3M12 19v3M2 12h3M19 12h3M4.9 4.9l2.2 2.2M16.9 16.9l2.2 2.2M19.1 4.9l-2.2 2.2M7.1 16.9l-2.2 2.2");
    reveal_strlit("M15 5l-7 7 7 7");
    reveal_strlit("M9 5l7 7-7 7");
    reveal_strlit("M7 9V3h10v6M7 19H5a2 2 0 0 1-2-2v-5a2 2 0 0 1 2-2h14a2 2 0 0 1 2 2v5a2 2 0 0 1-2 2h-2M7 15h10v6H7z");
    reveal_strlit("M12 21a9 9 0 1 0 0-18 9 9 0 0 0 0 18M12 11v6M12 7.5v.5");
    assert(svg_path_of(ToolbarIcon::New).len() != svg_path_of(ToolbarIcon::Open).len());
    assert(svg_path_of(ToolbarIcon::New).len() != svg_path_of(ToolbarIcon::Save).len());
    assert(svg_path_of(ToolbarIcon::New).len() != svg_path_of(ToolbarIcon::Add).len());
    assert(svg_path_of(ToolbarIcon::New).len() != svg_path_of(ToolbarIcon::Remove).len());
    assert(svg_path_of(ToolbarIcon::New).len() != svg_path_of(ToolbarIcon::Delete).len());
    assert(svg_path_of(ToolbarIcon::New).len() != svg_path_of(ToolbarIcon::Edit).len());
    assert(svg_path_of(ToolbarIcon::New).len() != svg_path_of(ToolbarIcon::Copy).len());
    assert(svg_path_of(ToolbarIcon::New).len() != svg_path_of(ToolbarIcon::Cut).len());
    assert(svg_path_of(ToolbarIcon::New).len() != svg_path_of(ToolbarIcon::Paste).len());
    assert(svg_path_of(ToolbarIcon::New).len() != svg_path_of(ToolbarIcon::Undo).len());
    assert(svg_path_of(ToolbarIcon::New).len() != svg_path_of(ToolbarIcon::Redo).len());
    assert(svg_path_of(ToolbarIcon::New).len() != svg_path_of(ToolbarIcon::Search).len());
    assert(svg_path_of(ToolbarIcon::New).len() != svg_path_of(ToolbarIcon::Refresh).len());
    assert(svg_path_of(ToolbarIcon::New).len() != svg_path_of(ToolbarIcon::Share).len());
    assert(svg_path_of(ToolbarIcon::New).len() != svg_path_of(ToolbarIcon::Settings).len());
    assert(svg_path_of(ToolbarIcon::New).len() != svg_path_of(ToolbarIcon::Back).len());
    assert(svg_path_of(ToolbarIcon::New).len() != svg_path_of(ToolbarIcon::Forward).len());
    assert(svg_path_of(ToolbarIcon::New).len() != svg_path_of(ToolbarIcon::Print).len());
    assert(svg_path_of(ToolbarIcon::New).len() != svg_path_of(ToolbarIcon::Info).len());
    assert(svg_path_of(ToolbarIcon::Open).len() != svg_path_of(ToolbarIcon::Save).len());
    assert(svg_path_of(ToolbarIcon::Open).len() != svg_path_of(ToolbarIcon::Add).len());
    assert(svg_path_of(ToolbarIcon::Open).len() != svg_path_of(ToolbarIcon::Remove).len());
    assert(svg_path_of(ToolbarIcon::Open).len() != svg_path_of(ToolbarIcon::Delete).len());
    assert(svg_path_of(ToolbarIcon::Open).len() != svg_path_of(ToolbarIcon::Edit).len());
    assert(svg_path_of(ToolbarIcon::Open).len() != svg_path_of(ToolbarIcon::Copy).len());
    assert(svg_path_of(ToolbarIcon::Open).len() != svg_path_of(ToolbarIcon::Cut).len());
    assert(svg_path_of(ToolbarIcon::Open).len() != svg_path_of(ToolbarIcon::Paste).len());
    assert(svg_path_of(ToolbarIcon::Open).len() != svg_path_of(ToolbarIcon::Undo).len());
    assert(svg_path_of(ToolbarIcon::Open).len() != svg_path_of(ToolbarIcon::Redo).len());
    assert(svg_path_of(ToolbarIcon::Open).len() != svg_path_of(ToolbarIcon::Search).len());
    assert(svg_path_of(ToolbarIcon::Open).len() != svg_path_of(ToolbarIcon::Refresh).len());
    assert(svg_path_of(ToolbarIcon::Open).len() != svg_path_of(ToolbarIcon::Share).len());
    assert(svg_path_of(ToolbarIcon::Open).len() != svg_path_of(ToolbarIcon::Settings).len());
    assert(svg_path_of(ToolbarIcon::Open).len() != svg_path_of(ToolbarIcon::Back).len());
    assert(svg_path_of(ToolbarIcon::Open).len() != svg_path_of(ToolbarIcon::Forward).len());
    assert(svg_path_of(ToolbarIcon::Open).len() != svg_path_of(ToolbarIcon::Print).len());
    assert(svg_path_of(ToolbarIcon::Open).len() != svg_path_of(ToolbarIcon::Info).len());
    assert(svg_path_of(ToolbarIcon::Save).len() != svg_path_of(ToolbarIcon::Add).len());
    assert(svg_path_of(ToolbarIcon::Save).len() != svg_path_of(ToolbarIcon::Remove).len());
    assert(svg_path_of(ToolbarIcon::Save).len() != svg_path_of(ToolbarIcon::Delete).len());
    assert(svg_path_of(ToolbarIcon::Save).len() != svg_path_of(ToolbarIcon::Edit).len());
    assert(svg_path_of(ToolbarIcon::Save).len() != svg_path_of(ToolbarIcon::Copy).len());
    assert(svg_path_of(ToolbarIcon::Save).len() != svg_path_of(ToolbarIcon::Cut).len());
    assert(svg_path_of(ToolbarIcon::Save).len() != svg_path_of(ToolbarIcon::Paste).len());
    assert(svg_path_of(ToolbarIcon::Save).len() != svg_path_of(ToolbarIcon::Undo).len());
    assert(svg_path_of(ToolbarIcon::Save).len() != svg_path_of(ToolbarIcon::Redo).len());
    assert(svg_path_of(ToolbarIcon::Save).len() != svg_path_of(ToolbarIcon::Search).len());
    assert(svg_path_of(ToolbarIcon::Save).len() != svg_path_of(ToolbarIcon::Refresh).len());
    assert(svg_path_of(ToolbarIcon::Save).len() != svg_path_of(ToolbarIcon::Share).len());
    assert(svg_path_of(ToolbarIcon::Save).len() != svg_path_of(ToolbarIcon::Settings).len());
    assert(svg_path_of(ToolbarIcon::Save).len() != svg_path_of(ToolbarIcon::Back).len());
    assert(svg_path_of(ToolbarIcon::Save).len() != svg_path_of(ToolbarIcon::Forward).len());
    assert(svg_path_of(ToolbarIcon::Save).len() != svg_path_of(ToolbarIcon::Print).len());
    assert(svg_path_of(ToolbarIcon::Save).len() != svg_path_of(ToolbarIcon::Info).len());
    assert(svg_path_of(ToolbarIcon::Add).len() != svg_path_of(ToolbarIcon::Remove).len());
    assert(svg_path_of(ToolbarIcon::Add).len() != svg_path_of(ToolbarIcon::Delete).len());
    assert(svg_path_of(ToolbarIcon::Add).len() != svg_path_of(ToolbarIcon::Edit).len());
    assert(svg_path_of(ToolbarIcon::Add).len() != svg_path_of(ToolbarIcon::Copy).len());
    assert(svg_path_of(ToolbarIcon::Add).len() != svg_path_of(ToolbarIcon::Cut).len());
    assert(svg_path_of(ToolbarIcon::Add).len() != svg_path_of(ToolbarIcon::Paste).len());
    assert(svg_path_of(ToolbarIcon::Add).len() != svg_path_of(ToolbarIcon::Undo).len());
    assert(svg_path_of(ToolbarIcon::Add).len() != svg_path_of(ToolbarIcon::Redo).len());
    assert(svg_path_of(ToolbarIcon::Add).len() != svg_path_of(ToolbarIcon::Search).len());
    assert(svg_path_of(ToolbarIcon::Add).len() != svg_path_of(ToolbarIcon::Refresh).len());
    assert(svg_path_of(ToolbarIcon::Add).len() != svg_path_of(ToolbarIcon::Share).len());
    assert(svg_path_of(ToolbarIcon::Add).len() != svg_path_of(ToolbarIcon::Settings).len());
    assert(svg_path_of(ToolbarIcon::Add).len() != svg_path_of(ToolbarIcon::Back).len());
    assert(svg_path_of(ToolbarIcon::Add).len() != svg_path_of(ToolbarIcon::Forward).len());
    assert(svg_path_of(ToolbarIcon::Add).len() != svg_path_of(ToolbarIcon::Print).len());
    assert(svg_path_of(ToolbarIcon::Add).len() != svg_path_of(ToolbarIcon::Info).len());
    assert(svg_path_of(ToolbarIcon::Remove).len() != svg_path_of(ToolbarIcon::Delete).len());
    assert(svg_path_of(ToolbarIcon::Remove).len() != svg_path_of(ToolbarIcon::Edit).len());
    assert(svg_path_of(ToolbarIcon::Remove).len() != svg_path_of(ToolbarIcon::Copy).len());
    assert(svg_path_of(ToolbarIcon::Remove).len() != svg_path_of(ToolbarIcon::Cut).len());
    assert(svg_path_of(ToolbarIcon::Remove).len() != svg_path_of(ToolbarIcon::Paste).len());
    assert(svg_path_of(ToolbarIcon::Remove).len() != svg_path_of(ToolbarIcon::Undo).len());
    assert(svg_path_of(ToolbarIcon::Remove).len() != svg_path_of(ToolbarIcon::Redo).len());
    assert(svg_path_of(ToolbarIcon::Remove).len() != svg_path_of(ToolbarIcon::Search).len());
    assert(svg_path_of(ToolbarIcon::Remove).len() != svg_path_of(ToolbarIcon::Refresh).len());
    assert(svg_path_of(ToolbarIcon::Remove).len() != svg_path_of(ToolbarIcon::Share).len());
    assert(svg_path_of(ToolbarIcon::Remove).len() != svg_path_of(ToolbarIcon::Settings).len());
    assert(svg_path_of(ToolbarIcon::Remove).len() != svg_path_of(ToolbarIcon::Back).len());
    assert(svg_path_of(ToolbarIcon::Remove).len() != svg_path_of(ToolbarIcon::Forward).len());
    assert(svg_path_of(ToolbarIcon::Remove).len() != svg_path_of(ToolbarIcon::Print).len());
    assert(svg_path_of(ToolbarIcon::Remove).len() != svg_path_of(ToolbarIcon::Info).len());
    assert(svg_path_of(ToolbarIcon::Delete).len() != svg_path_of(ToolbarIcon::Edit).len());
    assert(svg_path_of(ToolbarIcon::Delete).len() != svg_path_of(ToolbarIcon::Copy).len());
    assert(svg_path_of(ToolbarIcon::Delete).len() != svg_path_of(ToolbarIcon::Cut).len());
    assert(svg_path_of(ToolbarIcon::Delete).len() != svg_path_of(ToolbarIcon::Paste).len());
    assert(svg_path_of(ToolbarIcon::Delete).len() != svg_path_of(ToolbarIcon::Undo).len());
    assert(svg_path_of(ToolbarIcon::Delete).len() != svg_path_of(ToolbarIcon::Redo).len());
    assert(svg_path_of(ToolbarIcon::Delete).len() != svg_path_of(ToolbarIcon::Search).len());
    assert(svg_path_of(ToolbarIcon::Delete).len() != svg_path_of(ToolbarIcon::Refresh).len());
    assert(svg_path_of(ToolbarIcon::Delete).len() != svg_path_of(ToolbarIcon::Share).len());
    assert(svg_path_of(ToolbarIcon::Delete).len() != svg_path_of(ToolbarIcon::Settings).len());
    assert(svg_path_of(ToolbarIcon::Delete).len() != svg_path_of(ToolbarIcon::Back).len());
    assert(svg_path_of(ToolbarIcon::Delete).len() != svg_path_of(ToolbarIcon::Forward).len());
    assert(svg_path_of(ToolbarIcon::Delete).len() != svg_path_of(ToolbarIcon::Print).len());
    assert(svg_path_of(ToolbarIcon::Delete).len() != svg_path_of(ToolbarIcon::Info).len());
    assert(svg_path_of(ToolbarIcon::Edit).len() != svg_path_of(ToolbarIcon::Copy).len());
    assert(svg_path_of(ToolbarIcon::Edit).len() != svg_path_of(ToolbarIcon::Cut).len());
    assert(svg_path_of(ToolbarIcon::Edit).len() != svg_path_of(ToolbarIcon::Paste).len());
    assert(svg_path_of(ToolbarIcon::Edit).len() != svg_path_of(ToolbarIcon::Undo).len());
    assert(svg_path_of(ToolbarIcon::Edit).len() != svg_path_of(ToolbarIcon::Redo).len());
    assert(svg_path_of(ToolbarIcon::Edit).len() != svg_path_of(ToolbarIcon::Search).len());
    assert(svg_path_of(ToolbarIcon::Edit).len() != svg_path_of(ToolbarIcon::Refresh).len());
    assert(svg_path_of(ToolbarIcon::Edit).len() != svg_path_of(ToolbarIcon::Share).len());
    assert(svg_path_of(ToolbarIcon::Edit).len() != svg_path_of(ToolbarIcon::Settings).len());
    assert(svg_path_of(ToolbarIcon::Edit).len() != svg_path_of(ToolbarIcon::Back).len());
    assert(svg_path_of(ToolbarIcon::Edit).len() != svg_path_of(ToolbarIcon::Forward).len());
    assert(svg_path_of(ToolbarIcon::Edit).len() != svg_path_of(ToolbarIcon::Print).len());
    assert(svg_path_of(ToolbarIcon::Edit).len() != svg_path_of(ToolbarIcon::Info).len());
    assert(svg_path_of(ToolbarIcon::Copy).len() != svg_path_of(ToolbarIcon::Cut).len());
    assert(svg_path_of(ToolbarIcon::Copy).len() != svg_path_of(ToolbarIcon::Paste).len());
    assert(svg_path_of(ToolbarIcon::Copy).len() != svg_path_of(ToolbarIcon::Undo).len());
    assert(svg_path_of(ToolbarIcon::Copy).len() != svg_path_of(ToolbarIcon::Redo).len());
    assert(svg_path_of(ToolbarIcon::Copy).len() != svg_path_of(ToolbarIcon::Search).len());
    assert(svg_path_of(ToolbarIcon::Copy).len() != svg_path_of(ToolbarIcon::Refresh).len());
    assert(svg_path_of(ToolbarIcon::Copy).len() != svg_path_of(ToolbarIcon::Share).len());
    assert(svg_path_of(ToolbarIcon::Copy).len() != svg_path_of(ToolbarIcon::Settings).len());
    assert(svg_path_of(ToolbarIcon::Copy).len() != svg_path_of(ToolbarIcon::Back).len());
    assert(svg_path_of(ToolbarIcon::Copy).len() != svg_path_of(ToolbarIcon::Forward).len());
    assert(svg_path_of(ToolbarIcon::Copy).len() != svg_path_of(ToolbarIcon::Print).len());
    assert(svg_path_of(ToolbarIcon::Copy).len() != svg_path_of(ToolbarIcon::Info).len());
    assert(svg_path_of(ToolbarIcon::Cut).len() != svg_path_of(ToolbarIcon::Paste).len());
    assert(svg_path_of(ToolbarIcon::Cut).len() != svg_path_of(ToolbarIcon::Undo).len());
    assert(svg_path_of(ToolbarIcon::Cut).len() != svg_path_of(ToolbarIcon::Redo).len());
    assert(svg_path_of(ToolbarIcon::Cut).len() != svg_path_of(ToolbarIcon::Search).len());
    assert(svg_path_of(ToolbarIcon::Cut).len() != svg_path_of(ToolbarIcon::Refresh).len());
    assert(svg_path_of(ToolbarIcon::Cut).len() != svg_path_of(ToolbarIcon::Share).len());
    assert(svg_path_of(ToolbarIcon::Cut).len() != svg_path_of(ToolbarIcon::Settings).len());
    assert(svg_path_of(ToolbarIcon::Cut).len() != svg_path_of(ToolbarIcon::Back).len());
    assert(svg_path_of(ToolbarIcon::Cut).len() != svg_path_of(ToolbarIcon::Forward).len());
    assert(svg_path_of(ToolbarIcon::Cut).len() != svg_path_of(ToolbarIcon::Print).len());
    assert(svg_path_of(ToolbarIcon::Cut).len() != svg_path_of(ToolbarIcon::Info).len());
    assert(svg_path_of(ToolbarIcon::Paste).len() != svg_path_of(ToolbarIcon::Undo).len());
    assert(svg_path_of(ToolbarIcon::Paste).len() != svg_path_of(ToolbarIcon::Redo).len());
    assert(svg_path_of(ToolbarIcon::Paste).len() != svg_path_of(ToolbarIcon::Search).len());
    assert(svg_path_of(ToolbarIcon::Paste).len() != svg_path_of(ToolbarIcon::Refresh).len());
    assert(svg_path_of(ToolbarIcon::Paste).len() != svg_path_of(ToolbarIcon::Share).len());
    assert(svg_path_of(ToolbarIcon::Paste).len() != svg_path_of(ToolbarIcon::Settings).len());
    assert(svg_path_of(ToolbarIcon::Paste).len() != svg_path_of(ToolbarIcon::Back).len());
    assert(svg_path_of(ToolbarIcon::Paste).len() != svg_path_of(ToolbarIcon::Forward).len());
    assert(svg_path_of(ToolbarIcon::Paste).len() != svg_path_of(ToolbarIcon::Print).len());
    assert(svg_path_of(ToolbarIcon::Paste).len() != svg_path_of(ToolbarIcon::Info).len());
    assert(svg_path_of(ToolbarIcon::Undo).len() != svg_path_of(ToolbarIcon::Redo).len());
    assert(svg_path_of(ToolbarIcon::Undo).len() != svg_path_of(ToolbarIcon::Search).len());
    assert(svg_path_of(ToolbarIcon::Undo).len() != svg_path_of(ToolbarIcon::Refresh).len());
    assert(svg_path_of(ToolbarIcon::Undo).len() != svg_path_of(ToolbarIcon::Share).len());
    assert(svg_path_of(ToolbarIcon::Undo).len() != svg_path_of(ToolbarIcon::Settings).len());
    assert(svg_path_of(ToolbarIcon::Undo).len() != svg_path_of(ToolbarIcon::Back).len());
    assert(svg_path_of(ToolbarIcon::Undo).len() != svg_path_of(ToolbarIcon::Forward).len());
    assert(svg_path_of(ToolbarIcon::Undo).len() != svg_path_of(ToolbarIcon::Print).len());
    assert(svg_path_of(ToolbarIcon::Undo).len() != svg_path_of(ToolbarIcon::Info).len());
    assert(svg_path_of(ToolbarIcon::Redo).len() != svg_path_of(ToolbarIcon::Search).len());
    assert(svg_path_of(ToolbarIcon::Redo).len() != svg_path_of(ToolbarIcon::Refresh).len());
    assert(svg_path_of(ToolbarIcon::Redo).len() != svg_path_of(ToolbarIcon::Share).len());
    assert(svg_path_of(ToolbarIcon::Redo).len() != svg_path_of(ToolbarIcon::Settings).len());
    assert(svg_path_of(ToolbarIcon::Redo).len() != svg_path_of(ToolbarIcon::Back).len());
    assert(svg_path_of(ToolbarIcon::Redo).len() != svg_path_of(ToolbarIcon::Forward).len());
    assert(svg_path_of(ToolbarIcon::Redo).len() != svg_path_of(ToolbarIcon::Print).len());
    assert(svg_path_of(ToolbarIcon::Redo).len() != svg_path_of(ToolbarIcon::Info).len());
    assert(svg_path_of(ToolbarIcon::Search).len() != svg_path_of(ToolbarIcon::Refresh).len());
    assert(svg_path_of(ToolbarIcon::Search).len() != svg_path_of(ToolbarIcon::Share).len());
    assert(svg_path_of(ToolbarIcon::Search).len() != svg_path_of(ToolbarIcon::Settings).len());
    assert(svg_path_of(ToolbarIcon::Search).len() != svg_path_of(ToolbarIcon::Back).len());
    assert(svg_path_of(ToolbarIcon::Search).len() != svg_path_of(ToolbarIcon::Forward).len());
    assert(svg_path_of(ToolbarIcon::Search).len() != svg_path_of(ToolbarIcon::Print).len());
    assert(svg_path_of(ToolbarIcon::Search).len() != svg_path_of(ToolbarIcon::Info).len());
    assert(svg_path_of(ToolbarIcon::Refresh).len() != svg_path_of(ToolbarIcon::Share).len());
    assert(svg_path_of(ToolbarIcon::Refresh).len() != svg_path_of(ToolbarIcon::Settings).len());
    assert(svg_path_of(ToolbarIcon::Refresh).len() != svg_path_of(ToolbarIcon::Back).len());
    assert(svg_path_of(ToolbarIcon::Refresh).len() != svg_path_of(ToolbarIcon::Forward).len());
    assert(svg_path_of(ToolbarIcon::Refresh).len() != svg_path_of(ToolbarIcon::Print).len());
    assert(svg_path_of(ToolbarIcon::Refresh).len() != svg_path_of(ToolbarIcon::Info).len());
    assert(svg_path_of(ToolbarIcon::Share).len() != svg_path_of(ToolbarIcon::Settings).len());
    assert(svg_path_of(ToolbarIcon::Share).len() != svg_path_of(ToolbarIcon::Back).len());
    assert(svg_path_of(ToolbarIcon::Share).len() != svg_path_of(ToolbarIcon::Forward).len());
    assert(svg_path_of(ToolbarIcon::Share).len() != svg_path_of(ToolbarIcon::Print).len());
    assert(svg_path_of(ToolbarIcon::Share).len() != svg_path_of(ToolbarIcon::Info).len());
    assert(svg_path_of(ToolbarIcon::Settings).len() != svg_path_of(ToolbarIcon::Back).len());
    assert(svg_path_of(ToolbarIcon::Settings).len() != svg_path_of(ToolbarIcon::Forward).len());
    assert(svg_path_of(ToolbarIcon::Settings).len() != svg_path_of(ToolbarIcon::Print).len());
    assert(svg_path_of(ToolbarIcon::Settings).len() != svg_path_of(ToolbarIcon::Info).len());
    assert(svg_path_of(ToolbarIcon::Back).len() != svg_path_of(ToolbarIcon::Forward).len());
    assert(svg_path_of(ToolbarIcon::Back).len() != svg_path_of(ToolbarIcon::Print).len());
    assert(svg_path_of(ToolbarIcon::Back).len() != svg_path_of(ToolbarIcon::Info).len());
    assert(svg_path_of(ToolbarIcon::Forward).len() != svg_path_of(ToolbarIcon::Print).len());
    assert(svg_path_of(ToolbarIcon::Forward).len() != svg_path_of(ToolbarIcon::Info).len());
    assert(svg_path_of(ToolbarIcon::Print).len() != svg_path_of(ToolbarIcon::Info).len());
}

// Each entry, one by one.

/// The Segoe Fluent Icons code point of each action (Undo is U+E7A7, the arrow turning back; Redo is U+E7A6, the arrow turning forward).
pub proof fn lemma_fluent_glyph_table()
    ensures
        fluent_glyph_of(ToolbarIcon::New) == '\u{E7C3}',
        fluent_glyph_of(ToolbarIcon::Open) == '\u{E8E5}',
        fluent_glyph_of(ToolbarIcon::Save) == '\u{E74E}',
        fluent_glyph_of(ToolbarIcon::Add) == '\u{E710}',
        fluent_glyph_of(ToolbarIcon::Remove) == '\u{E738}',
        fluent_glyph_of(ToolbarIcon::Delete) == '\u{E74D}',
        fluent_glyph_of(ToolbarIcon::Edit) == '\u{E70F}',
        fluent_glyph_of(ToolbarIcon::Copy) == '\u{E8C8}',
        fluent_glyph_of(ToolbarIcon::Cut) == '\u{E8C6}',
        fluent_glyph_of(ToolbarIcon::Paste) == '\u{E77F}',
        fluent_glyph_of(ToolbarIcon::Undo) == '\u{E7A7}',
        fluent_glyph_of(ToolbarIcon::Redo) == '\u{E7A6}',
        fluent_glyph_of(ToolbarIcon::Search) == '\u{E721}',
        fluent_glyph_of(ToolbarIcon::Refresh) == '\u{E72C}',
        fluent_glyph_of(ToolbarIcon::Share) == '\u{E72D}',
        fluent_glyph_of(ToolbarIcon::Settings) == '\u{E713}',
        fluent_glyph_of(ToolbarIcon::Back) == '\u{E72B}',
        fluent_glyph_of(ToolbarIcon::Forward) == '\u{E72A}',
        fluent_glyph_of(ToolbarIcon::Print) == '\u{E749}',
        fluent_glyph_of(ToolbarIcon::Info) == '\u{E946}',
{
}

/// The SF Symbols name of each action.
pub proof fn lemma_sf_symbol_table()
    ensures
        sf_symbol_of(ToolbarIcon::New) == "doc.badge.plus"@,
        sf_symbol_of(ToolbarIcon::Open) == "folder"@,
        sf_symbol_of(ToolbarIcon::Save) == "square.and.arrow.down"@,
        sf_symbol_of(ToolbarIcon::Add) == "plus"@,
        sf_symbol_of(ToolbarIcon::Remove) == "minus"@,
        sf_symbol_of(ToolbarIcon::Delete) == "trash"@,
        sf_symbol_of(ToolbarIcon::Edit) == "pencil"@,
        sf_symbol_of(ToolbarIcon::Copy) == "doc.on.doc"@,
        sf_symbol_of(ToolbarIcon::Cut) == "scissors"@,
        sf_symbol_of(ToolbarIcon::Paste) == "doc.on.clipboard"@,
        sf_symbol_of(ToolbarIcon::Undo) == "arrow.uturn.backward"@,
        sf_symbol_of(ToolbarIcon::Redo) == "arrow.uturn.forward"@,
        sf_symbol_of(ToolbarIcon::Search) == "magnifyingglass"@,
        sf_symbol_of(ToolbarIcon::Refresh) == "arrow.clockwise"@,
        sf_symbol_of(ToolbarIcon::Share) == "square.and.arrow.up"@,
        sf_symbol_of(ToolbarIcon::Settings) == "gearshape"@,
        sf_symbol_of(ToolbarIcon::Back) == "chevron.backward"@,
        sf_symbol_of(ToolbarIcon::Forward) == "chevron.forward"@,
        sf_symbol_of(ToolbarIcon::Print) == "printer"@,
        sf_symbol_of(ToolbarIcon::Info) == "info.circle"@,
{
}

/// The freedesktop icon name of each action.
pub proof fn lemma_icon_name_table()
    ensures
        icon_name_of(ToolbarIcon::New) == "document-new-symbolic"@,
        icon_name_of(ToolbarIcon::Open) == "document-open-symbolic"@,
        icon_name_of(ToolbarIcon::Save) == "document-save-symbolic"@,
        icon_name_of(ToolbarIcon::Add) == "list-add-symbolic"@,
        icon_name_of(ToolbarIcon::Remove) == "list-remove-symbolic"@,
        icon_name_of(ToolbarIcon::Delete) == "user-trash-symbolic"@,
        icon_name_of(ToolbarIcon::Edit) == "document-edit-symbolic"@,
        icon_name_of(ToolbarIcon::Copy) == "edit-copy-symbolic"@,
        icon_name_of(ToolbarIcon::Cut) == "edit-cut-symbolic"@,
        icon_name_of(ToolbarIcon::Paste) == "edit-paste-symbolic"@,
        icon_name_of(ToolbarIcon::Undo) == "edit-undo-symbolic"@,
        icon_name_of(ToolbarIcon::Redo) == "edit-redo-symbolic"@,
        icon_name_of(ToolbarIcon::Search) == "system-search-symbolic"@,
        icon_name_of(ToolbarIcon::Refresh) == "view-refresh-symbolic"@,
        icon_name_of(ToolbarIcon::Share) == "emblem-shared-symbolic"@,
        icon_name_of(ToolbarIcon::Settings) == "preferences-system-symbolic"@,
        icon_name_of(ToolbarIcon::Back) == "go-previous-symbolic"@,
        icon_name_of(ToolbarIcon::Forward) == "go-next-symbolic"@,
        icon_name_of(ToolbarIcon::Print) == "document-print-symbolic"@,
        icon_name_of(ToolbarIcon::Info) == "dialog-information-symbolic"@,
{
}

/// The web path of each action.
pub proof fn lemma_svg_path_table()
    ensures
        svg_path_of(ToolbarIcon::New) == "M14 3H7a2 2 0 0 0-2 2v14a2 2 0 0 0 2 2h6M14 3l5 5M14 3v5h5M18 14v6M15 17h6"@,
        svg_path_of(ToolbarIcon::Open) == "M3 7a2 2 0 0 1 2-2h4l2 2h8a2 2 0 0 1 2 2v9a2 2 0 0 1-2 2H5a2 2 0 0 1-2-2z"@,
        svg_path_of(ToolbarIcon::Save) == "M12 3v11M8 10l4 4 4-4M4 17v2a2 2 0 0 0 2 2h12a2 2 0 0 0 2-2v-2"@,
        svg_path_of(ToolbarIcon::Add) == "M12 5v14M5 12h14"@,
        svg_path_of(ToolbarIcon::Remove) == "M5 12h14"@,
        svg_path_of(ToolbarIcon::Delete) == "M4 7h16M10 7V5h4v2M6 7l1 13h10l1-13M10 11v6M14 11v6"@,
        svg_path_of(ToolbarIcon::Edit) == "M4 20h4L20 8l-4-4L4 16zM14 6l4 4"@,
        svg_path_of(ToolbarIcon::Copy) == "M9 9h10v12H9zM5 15V3h10v2"@,
        svg_path_of(ToolbarIcon::Cut) == "M6 4l12 14M18 4L6 18M7 21a2.5 2.5 0 1 0 0-5 2.5 2.5 0 0 0 0 5M17 21a2.5 2.5 0 1 0 0-5 2.5 2.5 0 0 0 0 5"@,
        svg_path_of(ToolbarIcon::Paste) == "M8 5H6a2 2 0 0 0-2 2v12a2 2 0 0 0 2 2h12a2 2 0 0 0 2-2V7a2 2 0 0 0-2-2h-2M9 5V3h6v2z"@,
        svg_path_of(ToolbarIcon::Undo) == "M9 8H5V4M5 8a8 8 0 1 1-1.6 6"@,
        svg_path_of(ToolbarIcon::Redo) == "M15 8h4V4M19 8a8 8 0 1 0 1.6 6"@,
        svg_path_of(ToolbarIcon::Search) == "M11 18a7 7 0 1 0 0-14 7 7 0 0 0 0 14M20 20l-4-4"@,
        svg_path_of(ToolbarIcon::Refresh) == "M20 12a8 8 0 1 1-2.3-5.7M20 4v5h-5"@,
        svg_path_of(ToolbarIcon::Share) == "M12 16V4M8 8l4-4 4 4M4 15v4a2 2 0 0 0 2 2h12a2 2 0 0 0 2-2v-4"@,
        svg_path_of(ToolbarIcon::Settings) == "M12 15.5a3.5 3.5 0 1 0 0-7 3.5 3.5 0 0 0 0 7M12 2v3M12 19v3M2 12h3M19 12h3M4.9 4.9l2.2 2.2M16.9 16.9l2.2 2.2M19.1 4.9l-2.2 2.2M7.1 16.9l-2.2 2.2"@,
        svg_path_of(ToolbarIcon::Back) == "M15 5l-7 7 7 7"@,
        svg_path_of(ToolbarIcon::Forward) == "M9 5l7 7-7 7"@,
        svg_path_of(ToolbarIcon::Print) == "M7 9V3h10v6M7 19H5a2 2 0 0 1-2-2v-5a2 2 0 0 1 2-2h14a2 2 0 0 1 2 2v5a2 2 0 0 1-2 2h-2M7 15h10v6H7z"@,
        svg_path_of(ToolbarIcon::Info) == "M12 21a9 9 0 1 0 0-18 9 9 0 0 0 0 18M12 11v6M12 7.5v.5"@,
{
}

} // verus!
