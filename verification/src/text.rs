//! Text styles (size steps) and text colour roles.
//!
//! Every environment has a standard ladder of heading sizes and a set of
//! meaningful text colours. The library takes only the step and the role and
//! maps them to the environment's standard, so the system's font scaling,
//! accent colour and light / dark switch keep applying.
use vstd::prelude::*;

verus! {

/// The size and weight step of a text. The default is [`TextStyle::Body`].
#[derive(Debug, Clone, Copy, PartialEq, Eq, Structural, Hash)]
pub enum TextStyle {
    /// The largest title, the face of a screen.
    LargeTitle,
    /// A chapter title.
    Title,
    /// A section title.
    Subtitle,
    /// A bold heading of body size.
    Heading,
    /// Body text (the default).
    Body,
    /// Small text for notes and captions.
    Caption,
}

impl Default for TextStyle {
    fn default() -> (r: Self)
        ensures
            r == TextStyle::Body,
    {
        TextStyle::Body
    }
}

/// The GTK / libadwaita style class; body text has none.
pub open spec fn style_class_of(style: TextStyle) -> Option<Seq<char>> {
    match style {
        TextStyle::LargeTitle => Some("title-1"@),
        TextStyle::Title => Some("title-2"@),
        TextStyle::Subtitle => Some("title-3"@),
        TextStyle::Heading => Some("heading"@),
        TextStyle::Body => None,
        TextStyle::Caption => Some("caption"@),
    }
}

/// The `x:Key` of the WinUI 3 type-ramp style.
pub open spec fn xaml_style_key_of(style: TextStyle) -> Seq<char> {
    match style {
        TextStyle::LargeTitle => "TitleLargeTextBlockStyle"@,
        TextStyle::Title => "TitleTextBlockStyle"@,
        TextStyle::Subtitle => "SubtitleTextBlockStyle"@,
        TextStyle::Heading => "BodyStrongTextBlockStyle"@,
        TextStyle::Body => "BodyTextBlockStyle"@,
        TextStyle::Caption => "CaptionTextBlockStyle"@,
    }
}

/// The web `font-size`, relative to the base size; body text and headings
/// keep the base size.
pub open spec fn css_font_size_of(style: TextStyle) -> Option<Seq<char>> {
    match style {
        TextStyle::LargeTitle => Some("2em"@),
        TextStyle::Title => Some("1.5em"@),
        TextStyle::Subtitle => Some("1.25em"@),
        TextStyle::Heading => None,
        TextStyle::Body => None,
        TextStyle::Caption => Some("0.85em"@),
    }
}

/// The web `font-weight`; `None` keeps the weight.
pub open spec fn css_font_weight_of(style: TextStyle) -> Option<Seq<char>> {
    match style {
        TextStyle::LargeTitle => Some("700"@),
        TextStyle::Title => Some("700"@),
        TextStyle::Subtitle => Some("600"@),
        TextStyle::Heading => Some("700"@),
        TextStyle::Body => None,
        TextStyle::Caption => None,
    }
}

/// The view of an optional static text.
pub open spec fn opt_view(o: Option<&'static str>) -> Option<Seq<char>> {
    match o {
        Some(s) => Some(s@),
        None => None,
    }
}

impl TextStyle {
    /// Every step, in declaration order.
    pub const ALL: [TextStyle; 6] = [
        TextStyle::LargeTitle,
        TextStyle::Title,
        TextStyle::Subtitle,
        TextStyle::Heading,
        TextStyle::Body,
        TextStyle::Caption,
    ];

    /// The GTK / libadwaita style class; [`TextStyle::Body`] has none.
    pub fn style_class(self) -> (r: Option<&'static str>)
        ensures
            opt_view(r) == style_class_of(self),
    {
        match self {
            TextStyle::LargeTitle => Some("title-1"),
            TextStyle::Title => Some("title-2"),
            TextStyle::Subtitle => Some("title-3"),
            TextStyle::Heading => Some("heading"),
            TextStyle::Body => None,
            TextStyle::Caption => Some("caption"),
        }
    }

    /// The `x:Key` of the WinUI 3 type-ramp `Style`.
    pub fn xaml_style_key(self) -> (r: &'static str)
        ensures
            r@ == xaml_style_key_of(self),
    {
        match self {
            TextStyle::LargeTitle => "TitleLargeTextBlockStyle",
            TextStyle::Title => "TitleTextBlockStyle",
            TextStyle::Subtitle => "SubtitleTextBlockStyle",
            TextStyle::Heading => "BodyStrongTextBlockStyle",
            TextStyle::Body => "BodyTextBlockStyle",
            TextStyle::Caption => "CaptionTextBlockStyle",
        }
    }

    /// The web `font-size` (relative); body text sets none.
    pub fn css_font_size(self) -> (r: Option<&'static str>)
        ensures
            opt_view(r) == css_font_size_of(self),
    {
        match self {
            TextStyle::LargeTitle => Some("2em"),
            TextStyle::Title => Some("1.5em"),
            TextStyle::Subtitle => Some("1.25em"),
            TextStyle::Heading => None,
            TextStyle::Body => None,
            TextStyle::Caption => Some("0.85em"),
        }
    }

    /// The web `font-weight`; `None` keeps the weight.
    pub fn css_font_weight(self) -> (r: Option<&'static str>)
        ensures
            opt_view(r) == css_font_weight_of(self),
    {
        match self {
            TextStyle::LargeTitle => Some("700"),
            TextStyle::Title => Some("700"),
            TextStyle::Subtitle => Some("600"),
            TextStyle::Heading => Some("700"),
            TextStyle::Body => None,
            TextStyle::Caption => None,
        }
    }
}

/// The role of a text colour. The default is [`TextColor::Default`].
#[derive(Debug, Clone, Copy, PartialEq, Eq, Structural, Hash)]
pub enum TextColor {
    /// The body text colour (the default).
    Default,
    /// A dimmer colour for notes.
    Secondary,
    /// The system accent colour.
    Accent,
    /// Success or completion.
    Success,
    /// A warning.
    Warning,
    /// Failure or danger.
    Danger,
}

impl Default for TextColor {
    fn default() -> (r: Self)
        ensures
            r == TextColor::Default,
    {
        TextColor::Default
    }
}

/// The GTK / libadwaita style class; the default colour has none.
pub open spec fn color_class_of(color: TextColor) -> Option<Seq<char>> {
    match color {
        TextColor::Default => None,
        TextColor::Secondary => Some("dim-label"@),
        TextColor::Accent => Some("accent"@),
        TextColor::Success => Some("success"@),
        TextColor::Warning => Some("warning"@),
        TextColor::Danger => Some("error"@),
    }
}

/// The `x:Key` of the WinUI 3 theme brush; the default colour has none.
pub open spec fn xaml_brush_key_of(color: TextColor) -> Option<Seq<char>> {
    match color {
        TextColor::Default => None,
        TextColor::Secondary => Some("TextFillColorSecondaryBrush"@),
        TextColor::Accent => Some("AccentTextFillColorPrimaryBrush"@),
        TextColor::Success => Some("SystemFillColorSuccessBrush"@),
        TextColor::Warning => Some("SystemFillColorCautionBrush"@),
        TextColor::Danger => Some("SystemFillColorCriticalBrush"@),
    }
}

/// The web `color`; the default colour sets none.
pub open spec fn css_color_of(color: TextColor) -> Option<Seq<char>> {
    match color {
        TextColor::Default => None,
        TextColor::Secondary => Some("GrayText"@),
        TextColor::Accent => Some("AccentColor"@),
        TextColor::Success => Some("light-dark(#1a7f37, #3fb950)"@),
        TextColor::Warning => Some("light-dark(#9a6700, #d29922)"@),
        TextColor::Danger => Some("light-dark(#cf222e, #f85149)"@),
    }
}

impl TextColor {
    /// Every role, in declaration order.
    pub const ALL: [TextColor; 6] = [
        TextColor::Default,
        TextColor::Secondary,
        TextColor::Accent,
        TextColor::Success,
        TextColor::Warning,
        TextColor::Danger,
    ];

    /// The GTK / libadwaita style class; [`TextColor::Default`] has none.
    pub fn style_class(self) -> (r: Option<&'static str>)
        ensures
            opt_view(r) == color_class_of(self),
    {
        match self {
            TextColor::Default => None,
            TextColor::Secondary => Some("dim-label"),
            TextColor::Accent => Some("accent"),
            TextColor::Success => Some("success"),
            TextColor::Warning => Some("warning"),
            TextColor::Danger => Some("error"),
        }
    }

    /// The `x:Key` of the WinUI 3 theme `Brush`; [`TextColor::Default`] has
    /// none (the type-ramp style decides).
    pub fn xaml_brush_key(self) -> (r: Option<&'static str>)
        ensures
            opt_view(r) == xaml_brush_key_of(self),
    {
        match self {
            TextColor::Default => None,
            TextColor::Secondary => Some("TextFillColorSecondaryBrush"),
            TextColor::Accent => Some("AccentTextFillColorPrimaryBrush"),
            TextColor::Success => Some("SystemFillColorSuccessBrush"),
            TextColor::Warning => Some("SystemFillColorCautionBrush"),
            TextColor::Danger => Some("SystemFillColorCriticalBrush"),
        }
    }

    /// The web `color`: CSS system colours where the browser has them,
    /// `light-dark()` pairs for the other three; none for the default.
    pub fn css_color(self) -> (r: Option<&'static str>)
        ensures
            opt_view(r) == css_color_of(self),
    {
        match self {
            TextColor::Default => None,
            TextColor::Secondary => Some("GrayText"),
            TextColor::Accent => Some("AccentColor"),
            TextColor::Success => Some("light-dark(#1a7f37, #3fb950)"),
            TextColor::Warning => Some("light-dark(#9a6700, #d29922)"),
            TextColor::Danger => Some("light-dark(#cf222e, #f85149)"),
        }
    }
}

/// Only the default step and the default role leave the native default in
/// place: every other one sets a class, a brush and a colour.
pub proof fn lemma_only_defaults_unset(style: TextStyle, color: TextColor)
    ensures
        (style_class_of(style) is None) == (style == TextStyle::Body),
        (color_class_of(color) is None) == (color == TextColor::Default),
        (xaml_brush_key_of(color) is None) == (color == TextColor::Default),
        (css_color_of(color) is None) == (color == TextColor::Default),
{
}

/// Web font sizes are relative: each ends with `em`.
pub proof fn lemma_css_sizes_relative(style: TextStyle)
    ensures
        css_font_size_of(style) matches Some(size) ==> size.len() >= 2 && size.subrange(
            size.len() - 2,
            size.len() as int,
        ) == "em"@,
{
    reveal_strlit("em");
    reveal_strlit("2em");
    reveal_strlit("1.5em");
    reveal_strlit("1.25em");
    reveal_strlit("0.85em");
    match style {
        TextStyle::LargeTitle => {
            assert("2em"@.subrange(1, 3) =~= "em"@);
        },
        TextStyle::Title => {
            assert("1.5em"@.subrange(3, 5) =~= "em"@);
        },
        TextStyle::Subtitle => {
            assert("1.25em"@.subrange(4, 6) =~= "em"@);
        },
        TextStyle::Caption => {
            assert("0.85em"@.subrange(4, 6) =~= "em"@);
        },
        _ => {},
    }
}

/// No two steps share a GTK class or a WinUI style, and no two roles share a
/// GTK class, a WinUI brush or a web colour: each environment keeps the
/// whole ladder and every role apart.
pub proof fn lemma_targets_distinct(a: TextStyle, b: TextStyle, c: TextColor, d: TextColor)
    ensures
        a != b ==> style_class_of(a) != style_class_of(b) && xaml_style_key_of(a)
            != xaml_style_key_of(b),
        c != d ==> color_class_of(c) != color_class_of(d) && xaml_brush_key_of(c)
            != xaml_brush_key_of(d) && css_color_of(c) != css_color_of(d),
{
    reveal_strlit("AccentColor");
    reveal_strlit("AccentTextFillColorPrimaryBrush");
    reveal_strlit("BodyStrongTextBlockStyle");
    reveal_strlit("BodyTextBlockStyle");
    reveal_strlit("CaptionTextBlockStyle");
    reveal_strlit("GrayText");
    reveal_strlit("SubtitleTextBlockStyle");
    reveal_strlit("SystemFillColorCautionBrush");
    reveal_strlit("SystemFillColorCriticalBrush");
    reveal_strlit("SystemFillColorSuccessBrush");
    reveal_strlit("TextFillColorSecondaryBrush");
    reveal_strlit("TitleLargeTextBlockStyle");
    reveal_strlit("TitleTextBlockStyle");
    reveal_strlit("accent");
    reveal_strlit("caption");
    reveal_strlit("dim-label");
    reveal_strlit("error");
    reveal_strlit("heading");
    reveal_strlit("light-dark(#1a7f37, #3fb950)");
    reveal_strlit("light-dark(#9a6700, #d29922)");
    reveal_strlit("light-dark(#cf222e, #f85149)");
    reveal_strlit("success");
    reveal_strlit("title-1");
    reveal_strlit("title-2");
    reveal_strlit("title-3");
    reveal_strlit("warning");
    assert(style_class_of(TextStyle::LargeTitle) != style_class_of(TextStyle::Title)) by {
        assert(style_class_of(TextStyle::LargeTitle)->0[6] != style_class_of(TextStyle::Title)->0[6]);
    }
    assert(style_class_of(TextStyle::LargeTitle) != style_class_of(TextStyle::Subtitle)) by {
        assert(style_class_of(TextStyle::LargeTitle)->0[6] != style_class_of(TextStyle::Subtitle)->0[6]);
    }
    assert(style_class_of(TextStyle::LargeTitle) != style_class_of(TextStyle::Heading)) by {
        assert(style_class_of(TextStyle::LargeTitle)->0[0] != style_class_of(TextStyle::Heading)->0[0]);
    }
    assert(style_class_of(TextStyle::LargeTitle) != style_class_of(TextStyle::Caption)) by {
        assert(style_class_of(TextStyle::LargeTitle)->0[0] != style_class_of(TextStyle::Caption)->0[0]);
    }
    assert(style_class_of(TextStyle::Title) != style_class_of(TextStyle::Subtitle)) by {
        assert(style_class_of(TextStyle::Title)->0[6] != style_class_of(TextStyle::Subtitle)->0[6]);
    }
    assert(style_class_of(TextStyle::Title) != style_class_of(TextStyle::Heading)) by {
        assert(style_class_of(TextStyle::Title)->0[0] != style_class_of(TextStyle::Heading)->0[0]);
    }
    assert(style_class_of(TextStyle::Title) != style_class_of(TextStyle::Caption)) by {
        assert(style_class_of(TextStyle::Title)->0[0] != style_class_of(TextStyle::Caption)->0[0]);
    }
    assert(style_class_of(TextStyle::Subtitle) != style_class_of(TextStyle::Heading)) by {
        assert(style_class_of(TextStyle::Subtitle)->0[0] != style_class_of(TextStyle::Heading)->0[0]);
    }
    assert(style_class_of(TextStyle::Subtitle) != style_class_of(TextStyle::Caption)) by {
        assert(style_class_of(TextStyle::Subtitle)->0[0] != style_class_of(TextStyle::Caption)->0[0]);
    }
    assert(style_class_of(TextStyle::Heading) != style_class_of(TextStyle::Caption)) by {
        assert(style_class_of(TextStyle::Heading)->0[0] != style_class_of(TextStyle::Caption)->0[0]);
    }
    assert(xaml_style_key_of(TextStyle::LargeTitle) != xaml_style_key_of(TextStyle::Title)) by {
        assert(xaml_style_key_of(TextStyle::LargeTitle).len() != xaml_style_key_of(TextStyle::Title).len());
    }
    assert(xaml_style_key_of(TextStyle::LargeTitle) != xaml_style_key_of(TextStyle::Subtitle)) by {
        assert(xaml_style_key_of(TextStyle::LargeTitle).len() != xaml_style_key_of(TextStyle::Subtitle).len());
    }
    assert(xaml_style_key_of(TextStyle::LargeTitle) != xaml_style_key_of(TextStyle::Heading)) by {
        assert(xaml_style_key_of(TextStyle::LargeTitle)[0] != xaml_style_key_of(TextStyle::Heading)[0]);
    }
    assert(xaml_style_key_of(TextStyle::LargeTitle) != xaml_style_key_of(TextStyle::Body)) by {
        assert(xaml_style_key_of(TextStyle::LargeTitle).len() != xaml_style_key_of(TextStyle::Body).len());
    }
    assert(xaml_style_key_of(TextStyle::LargeTitle) != xaml_style_key_of(TextStyle::Caption)) by {
        assert(xaml_style_key_of(TextStyle::LargeTitle).len() != xaml_style_key_of(TextStyle::Caption).len());
    }
    assert(xaml_style_key_of(TextStyle::Title) != xaml_style_key_of(TextStyle::Subtitle)) by {
        assert(xaml_style_key_of(TextStyle::Title).len() != xaml_style_key_of(TextStyle::Subtitle).len());
    }
    assert(xaml_style_key_of(TextStyle::Title) != xaml_style_key_of(TextStyle::Heading)) by {
        assert(xaml_style_key_of(TextStyle::Title).len() != xaml_style_key_of(TextStyle::Heading).len());
    }
    assert(xaml_style_key_of(TextStyle::Title) != xaml_style_key_of(TextStyle::Body)) by {
        assert(xaml_style_key_of(TextStyle::Title).len() != xaml_style_key_of(TextStyle::Body).len());
    }
    assert(xaml_style_key_of(TextStyle::Title) != xaml_style_key_of(TextStyle::Caption)) by {
        assert(xaml_style_key_of(TextStyle::Title).len() != xaml_style_key_of(TextStyle::Caption).len());
    }
    assert(xaml_style_key_of(TextStyle::Subtitle) != xaml_style_key_of(TextStyle::Heading)) by {
        assert(xaml_style_key_of(TextStyle::Subtitle).len() != xaml_style_key_of(TextStyle::Heading).len());
    }
    assert(xaml_style_key_of(TextStyle::Subtitle) != xaml_style_key_of(TextStyle::Body)) by {
        assert(xaml_style_key_of(TextStyle::Subtitle).len() != xaml_style_key_of(TextStyle::Body).len());
    }
    assert(xaml_style_key_of(TextStyle::Subtitle) != xaml_style_key_of(TextStyle::Caption)) by {
        assert(xaml_style_key_of(TextStyle::Subtitle).len() != xaml_style_key_of(TextStyle::Caption).len());
    }
    assert(xaml_style_key_of(TextStyle::Heading) != xaml_style_key_of(TextStyle::Body)) by {
        assert(xaml_style_key_of(TextStyle::Heading).len() != xaml_style_key_of(TextStyle::Body).len());
    }
    assert(xaml_style_key_of(TextStyle::Heading) != xaml_style_key_of(TextStyle::Caption)) by {
        assert(xaml_style_key_of(TextStyle::Heading).len() != xaml_style_key_of(TextStyle::Caption).len());
    }
    assert(xaml_style_key_of(TextStyle::Body) != xaml_style_key_of(TextStyle::Caption)) by {
        assert(xaml_style_key_of(TextStyle::Body).len() != xaml_style_key_of(TextStyle::Caption).len());
    }
    assert(color_class_of(TextColor::Secondary) != color_class_of(TextColor::Accent)) by {
        assert(color_class_of(TextColor::Secondary)->0.len() != color_class_of(TextColor::Accent)->0.len());
    }
    assert(color_class_of(TextColor::Secondary) != color_class_of(TextColor::Success)) by {
        assert(color_class_of(TextColor::Secondary)->0.len() != color_class_of(TextColor::Success)->0.len());
    }
    assert(color_class_of(TextColor::Secondary) != color_class_of(TextColor::Warning)) by {
        assert(color_class_of(TextColor::Secondary)->0.len() != color_class_of(TextColor::Warning)->0.len());
    }
    assert(color_class_of(TextColor::Secondary) != color_class_of(TextColor::Danger)) by {
        assert(color_class_of(TextColor::Secondary)->0.len() != color_class_of(TextColor::Danger)->0.len());
    }
    assert(color_class_of(TextColor::Accent) != color_class_of(TextColor::Success)) by {
        assert(color_class_of(TextColor::Accent)->0.len() != color_class_of(TextColor::Success)->0.len());
    }
    assert(color_class_of(TextColor::Accent) != color_class_of(TextColor::Warning)) by {
        assert(color_class_of(TextColor::Accent)->0.len() != color_class_of(TextColor::Warning)->0.len());
    }
    assert(color_class_of(TextColor::Accent) != color_class_of(TextColor::Danger)) by {
        assert(color_class_of(TextColor::Accent)->0.len() != color_class_of(TextColor::Danger)->0.len());
    }
    assert(color_class_of(TextColor::Success) != color_class_of(TextColor::Warning)) by {
        assert(color_class_of(TextColor::Success)->0[0] != color_class_of(TextColor::Warning)->0[0]);
    }
    assert(color_class_of(TextColor::Success) != color_class_of(TextColor::Danger)) by {
        assert(color_class_of(TextColor::Success)->0.len() != color_class_of(TextColor::Danger)->0.len());
    }
    assert(color_class_of(TextColor::Warning) != color_class_of(TextColor::Danger)) by {
        assert(color_class_of(TextColor::Warning)->0.len() != color_class_of(TextColor::Danger)->0.len());
    }
    assert(xaml_brush_key_of(TextColor::Secondary) != xaml_brush_key_of(TextColor::Accent)) by {
        assert(xaml_brush_key_of(TextColor::Secondary)->0.len() != xaml_brush_key_of(TextColor::Accent)->0.len());
    }
    assert(xaml_brush_key_of(TextColor::Secondary) != xaml_brush_key_of(TextColor::Success)) by {
        assert(xaml_brush_key_of(TextColor::Secondary)->0[0] != xaml_brush_key_of(TextColor::Success)->0[0]);
    }
    assert(xaml_brush_key_of(TextColor::Secondary) != xaml_brush_key_of(TextColor::Warning)) by {
        assert(xaml_brush_key_of(TextColor::Secondary)->0[0] != xaml_brush_key_of(TextColor::Warning)->0[0]);
    }
    assert(xaml_brush_key_of(TextColor::Secondary) != xaml_brush_key_of(TextColor::Danger)) by {
        assert(xaml_brush_key_of(TextColor::Secondary)->0.len() != xaml_brush_key_of(TextColor::Danger)->0.len());
    }
    assert(xaml_brush_key_of(TextColor::Accent) != xaml_brush_key_of(TextColor::Success)) by {
        assert(xaml_brush_key_of(TextColor::Accent)->0.len() != xaml_brush_key_of(TextColor::Success)->0.len());
    }
    assert(xaml_brush_key_of(TextColor::Accent) != xaml_brush_key_of(TextColor::Warning)) by {
        assert(xaml_brush_key_of(TextColor::Accent)->0.len() != xaml_brush_key_of(TextColor::Warning)->0.len());
    }
    assert(xaml_brush_key_of(TextColor::Accent) != xaml_brush_key_of(TextColor::Danger)) by {
        assert(xaml_brush_key_of(TextColor::Accent)->0.len() != xaml_brush_key_of(TextColor::Danger)->0.len());
    }
    assert(xaml_brush_key_of(TextColor::Success) != xaml_brush_key_of(TextColor::Warning)) by {
        assert(xaml_brush_key_of(TextColor::Success)->0[15] != xaml_brush_key_of(TextColor::Warning)->0[15]);
    }
    assert(xaml_brush_key_of(TextColor::Success) != xaml_brush_key_of(TextColor::Danger)) by {
        assert(xaml_brush_key_of(TextColor::Success)->0.len() != xaml_brush_key_of(TextColor::Danger)->0.len());
    }
    assert(xaml_brush_key_of(TextColor::Warning) != xaml_brush_key_of(TextColor::Danger)) by {
        assert(xaml_brush_key_of(TextColor::Warning)->0.len() != xaml_brush_key_of(TextColor::Danger)->0.len());
    }
    assert(css_color_of(TextColor::Secondary) != css_color_of(TextColor::Accent)) by {
        assert(css_color_of(TextColor::Secondary)->0.len() != css_color_of(TextColor::Accent)->0.len());
    }
    assert(css_color_of(TextColor::Secondary) != css_color_of(TextColor::Success)) by {
        assert(css_color_of(TextColor::Secondary)->0.len() != css_color_of(TextColor::Success)->0.len());
    }
    assert(css_color_of(TextColor::Secondary) != css_color_of(TextColor::Warning)) by {
        assert(css_color_of(TextColor::Secondary)->0.len() != css_color_of(TextColor::Warning)->0.len());
    }
    assert(css_color_of(TextColor::Secondary) != css_color_of(TextColor::Danger)) by {
        assert(css_color_of(TextColor::Secondary)->0.len() != css_color_of(TextColor::Danger)->0.len());
    }
    assert(css_color_of(TextColor::Accent) != css_color_of(TextColor::Success)) by {
        assert(css_color_of(TextColor::Accent)->0.len() != css_color_of(TextColor::Success)->0.len());
    }
    assert(css_color_of(TextColor::Accent) != css_color_of(TextColor::Warning)) by {
        assert(css_color_of(TextColor::Accent)->0.len() != css_color_of(TextColor::Warning)->0.len());
    }
    assert(css_color_of(TextColor::Accent) != css_color_of(TextColor::Danger)) by {
        assert(css_color_of(TextColor::Accent)->0.len() != css_color_of(TextColor::Danger)->0.len());
    }
    assert(css_color_of(TextColor::Success) != css_color_of(TextColor::Warning)) by {
        assert(css_color_of(TextColor::Success)->0[12] != css_color_of(TextColor::Warning)->0[12]);
    }
    assert(css_color_of(TextColor::Success) != css_color_of(TextColor::Danger)) by {
        assert(css_color_of(TextColor::Success)->0[12] != css_color_of(TextColor::Danger)->0[12]);
    }
    assert(css_color_of(TextColor::Warning) != css_color_of(TextColor::Danger)) by {
        assert(css_color_of(TextColor::Warning)->0[12] != css_color_of(TextColor::Danger)->0[12]);
    }
}

// Each entry, one by one.

/// The web colour of each role: Danger is red (`#cf222e` light, `#f85149` dark), Success green, Warning amber; Secondary and Accent use the system colours.
pub proof fn lemma_css_color_table()
    ensures
        css_color_of(TextColor::Default) is None,
        css_color_of(TextColor::Secondary) == Some("GrayText"@),
        css_color_of(TextColor::Accent) == Some("AccentColor"@),
        css_color_of(TextColor::Success) == Some("light-dark(#1a7f37, #3fb950)"@),
        css_color_of(TextColor::Warning) == Some("light-dark(#9a6700, #d29922)"@),
        css_color_of(TextColor::Danger) == Some("light-dark(#cf222e, #f85149)"@),
{
}

/// The GTK class of each colour role (Danger is `error`).
pub proof fn lemma_color_class_table()
    ensures
        color_class_of(TextColor::Default) is None,
        color_class_of(TextColor::Secondary) == Some("dim-label"@),
        color_class_of(TextColor::Accent) == Some("accent"@),
        color_class_of(TextColor::Success) == Some("success"@),
        color_class_of(TextColor::Warning) == Some("warning"@),
        color_class_of(TextColor::Danger) == Some("error"@),
{
}

/// The WinUI brush of each colour role (Danger is the critical fill).
pub proof fn lemma_xaml_brush_key_table()
    ensures
        xaml_brush_key_of(TextColor::Default) is None,
        xaml_brush_key_of(TextColor::Secondary) == Some("TextFillColorSecondaryBrush"@),
        xaml_brush_key_of(TextColor::Accent) == Some("AccentTextFillColorPrimaryBrush"@),
        xaml_brush_key_of(TextColor::Success) == Some("SystemFillColorSuccessBrush"@),
        xaml_brush_key_of(TextColor::Warning) == Some("SystemFillColorCautionBrush"@),
        xaml_brush_key_of(TextColor::Danger) == Some("SystemFillColorCriticalBrush"@),
{
}

/// The GTK class of each text step.
pub proof fn lemma_style_class_table()
    ensures
        style_class_of(TextStyle::LargeTitle) == Some("title-1"@),
        style_class_of(TextStyle::Title) == Some("title-2"@),
        style_class_of(TextStyle::Subtitle) == Some("title-3"@),
        style_class_of(TextStyle::Heading) == Some("heading"@),
        style_class_of(TextStyle::Body) is None,
        style_class_of(TextStyle::Caption) == Some("caption"@),
{
}

/// The WinUI style of each text step.
pub proof fn lemma_xaml_style_key_table()
    ensures
        xaml_style_key_of(TextStyle::LargeTitle) == "TitleLargeTextBlockStyle"@,
        xaml_style_key_of(TextStyle::Title) == "TitleTextBlockStyle"@,
        xaml_style_key_of(TextStyle::Subtitle) == "SubtitleTextBlockStyle"@,
        xaml_style_key_of(TextStyle::Heading) == "BodyStrongTextBlockStyle"@,
        xaml_style_key_of(TextStyle::Body) == "BodyTextBlockStyle"@,
        xaml_style_key_of(TextStyle::Caption) == "CaptionTextBlockStyle"@,
{
}

/// The web font size of each text step.
pub proof fn lemma_css_font_size_table()
    ensures
        css_font_size_of(TextStyle::LargeTitle) == Some("2em"@),
        css_font_size_of(TextStyle::Title) == Some("1.5em"@),
        css_font_size_of(TextStyle::Subtitle) == Some("1.25em"@),
        css_font_size_of(TextStyle::Heading) is None,
        css_font_size_of(TextStyle::Body) is None,
        css_font_size_of(TextStyle::Caption) == Some("0.85em"@),
{
}

/// The web font weight of each text step.
pub proof fn lemma_css_font_weight_table()
    ensures
        css_font_weight_of(TextStyle::LargeTitle) == Some("700"@),
        css_font_weight_of(TextStyle::Title) == Some("700"@),
        css_font_weight_of(TextStyle::Subtitle) == Some("600"@),
        css_font_weight_of(TextStyle::Heading) == Some("700"@),
        css_font_weight_of(TextStyle::Body) is None,
        css_font_weight_of(TextStyle::Caption) is None,
{
}

} // verus!
