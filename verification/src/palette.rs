use vstd::prelude::*;

use crate::text::{push_repeated, repeat_char};

verus! {

/// A terminal colour: one of the named colours, a 24-bit colour, or an entry
/// of the terminal's 256-colour palette.
#[derive(Clone, Copy, Debug, PartialEq, Eq, Structural)]
pub enum Color {
    Reset,
    Black,
    Red,
    Green,
    Yellow,
    Blue,
    Magenta,
    Cyan,
    Gray,
    DarkGray,
    LightRed,
    LightGreen,
    LightYellow,
    LightBlue,
    LightMagenta,
    LightCyan,
    White,
    Rgb(u8, u8, u8),
    Indexed(u8),
}

/// A wallust theme: its sixteen palette colours, its background and its
/// foreground.
#[derive(Clone, Copy, Debug)]
pub struct Theme {
    pub colors: [Color; 16],
    pub background: Color,
    pub foreground: Color,
}

/// The colours the interface draws with, taken from a wallust theme.
#[derive(Clone, Copy, Debug, PartialEq, Eq, Structural)]
pub struct WallustColors {
    pub primary: Color,
    pub accent: Color,
    pub error: Color,
    pub background: Color,
    pub border: Color,
    pub border_focus: Color,
    pub text_primary: Color,
    pub text_secondary: Color,
    pub text_muted: Color,
    pub success: Color,
}

/// The interface palette: colours from the theme, and fixed fallbacks.
pub struct ModernColors;

impl ModernColors {
    /// The interface colours of `theme`: palette entries 4 (primary), 2
    /// (accent), 1 (error), 8 (border), 12 (focused border), 7 and 15
    /// (secondary and muted text) and 10 (success), with the theme's
    /// background and foreground.
    pub fn get_colors(theme: &Theme) -> (r: WallustColors)
        ensures
            r.primary == theme.colors@[4],
            r.accent == theme.colors@[2],
            r.error == theme.colors@[1],
            r.background == theme.background,
            r.border == theme.colors@[8],
            r.border_focus == theme.colors@[12],
            r.text_primary == theme.foreground,
            r.text_secondary == theme.colors@[7],
            r.text_muted == theme.colors@[15],
            r.success == theme.colors@[10],
    {
        WallustColors {
            primary: theme.colors[4],
            accent: theme.colors[2],
            error: theme.colors[1],
            background: theme.background,
            border: theme.colors[8],
            border_focus: theme.colors[12],
            text_primary: theme.foreground,
            text_secondary: theme.colors[7],
            text_muted: theme.colors[15],
            success: theme.colors[10],
        }
    }

    /// Fallback primary colour.
    pub fn primary() -> (c: Color)
        ensures
            c == Color::Rgb(129, 140, 248),
    {
        Color::Rgb(129, 140, 248)
    }

    /// Fallback secondary colour.
    pub fn secondary() -> (c: Color)
        ensures
            c == Color::Rgb(139, 92, 246),
    {
        Color::Rgb(139, 92, 246)
    }

    /// Fallback accent colour.
    pub fn accent() -> (c: Color)
        ensures
            c == Color::Rgb(34, 197, 94),
    {
        Color::Rgb(34, 197, 94)
    }

    /// Fallback warning colour.
    pub fn warning() -> (c: Color)
        ensures
            c == Color::Rgb(251, 191, 36),
    {
        Color::Rgb(251, 191, 36)
    }

    /// Fallback error colour.
    pub fn error() -> (c: Color)
        ensures
            c == Color::Rgb(239, 68, 68),
    {
        Color::Rgb(239, 68, 68)
    }

    /// Fallback background colour.
    pub fn background() -> (c: Color)
        ensures
            c == Color::Rgb(15, 23, 42),
    {
        Color::Rgb(15, 23, 42)
    }

    /// Fallback surface colour.
    pub fn surface() -> (c: Color)
        ensures
            c == Color::Rgb(30, 41, 59),
    {
        Color::Rgb(30, 41, 59)
    }

    /// Fallback border colour.
    pub fn border() -> (c: Color)
        ensures
            c == Color::Rgb(71, 85, 105),
    {
        Color::Rgb(71, 85, 105)
    }

    /// Fallback colour of a focused border.
    pub fn border_focus() -> (c: Color)
        ensures
            c == Color::Rgb(129, 140, 248),
    {
        Color::Rgb(129, 140, 248)
    }

    /// Fallback colour of main text.
    pub fn text_primary() -> (c: Color)
        ensures
            c == Color::Rgb(248, 250, 252),
    {
        Color::Rgb(248, 250, 252)
    }

    /// Fallback colour of secondary text.
    pub fn text_secondary() -> (c: Color)
        ensures
            c == Color::Rgb(148, 163, 184),
    {
        Color::Rgb(148, 163, 184)
    }

    /// Fallback colour of muted text.
    pub fn text_muted() -> (c: Color)
        ensures
            c == Color::Rgb(100, 116, 139),
    {
        Color::Rgb(100, 116, 139)
    }

    /// Fallback success colour.
    pub fn success() -> (c: Color)
        ensures
            c == Color::Rgb(34, 197, 94),
    {
        Color::Rgb(34, 197, 94)
    }
}

/// The look of a progress bar.
#[derive(Clone, Copy, Debug, PartialEq, Eq, Structural)]
pub enum ProgressStyle {
    /// Dots, `●` and `○`.
    Dots,
    /// Blocks, `█` and `░`.
    Blocks,
    /// Minimal marks, `▰` and `▱`.
    Minimal,
}

/// Where a progress stands: not started (nothing done, or no meaningful
/// ratio), under way, or complete (the whole, or more).
#[derive(Clone, Copy, Debug, PartialEq, Eq, Structural)]
pub enum ProgressPhase {
    NotStarted,
    InProgress,
    Complete,
}

/// How much of a bar a progress fills: the filled width rounded down and
/// rounded up, and the phase of the progress.
#[derive(Clone, Copy, Debug, PartialEq, Eq, Structural)]
pub struct BarFill {
    pub floor: usize,
    pub ceil: usize,
    pub phase: ProgressPhase,
}

/// A fill that a progress can give for a bar of `width` cells: the
/// rounded-up count is the rounded-down one or one more; a progress not
/// started covers nothing; one under way covers at least part of a cell of
/// a bar that has any; a complete one covers the whole width.
pub open spec fn fill_fits(fill: BarFill, width: nat) -> bool {
    &&& fill.floor <= fill.ceil
    &&& fill.ceil <= fill.floor + 1
    &&& fill.phase == ProgressPhase::NotStarted ==> fill.floor == 0 && fill.ceil == 0
    &&& fill.phase == ProgressPhase::InProgress ==> (width > 0 ==> fill.ceil >= 1)
    &&& fill.phase == ProgressPhase::Complete ==> fill.floor >= width
}

/// The character of a filled cell in `style`.
pub open spec fn full_glyph(style: ProgressStyle) -> char {
    match style {
        ProgressStyle::Dots => '●',
        ProgressStyle::Blocks => '█',
        ProgressStyle::Minimal => '▰',
    }
}

/// The character of an empty cell in `style`.
pub open spec fn empty_glyph(style: ProgressStyle) -> char {
    match style {
        ProgressStyle::Dots => '○',
        ProgressStyle::Blocks => '░',
        ProgressStyle::Minimal => '▱',
    }
}

pub open spec fn min_nat(a: nat, b: nat) -> nat {
    if a <= b {
        a
    } else {
        b
    }
}

/// Number of filled cells of a bar of `width` cells. Dots and blocks fill the
/// width rounded down; the minimal style fills all of it once complete,
/// nothing before the start, and the width rounded up in between.
pub open spec fn filled_cells(style: ProgressStyle, fill: BarFill, width: nat) -> nat {
    match style {
        ProgressStyle::Minimal => match fill.phase {
            ProgressPhase::Complete => width,
            ProgressPhase::InProgress => min_nat(fill.ceil as nat, width),
            ProgressPhase::NotStarted => 0,
        },
        _ => min_nat(fill.floor as nat, width),
    }
}

/// The bar of `width` cells: filled cells, then empty ones.
pub open spec fn progress_bar_spec(style: ProgressStyle, fill: BarFill, width: nat) -> Seq<char> {
    let full = filled_cells(style, fill, width);
    repeat_char(full_glyph(style), full) + repeat_char(empty_glyph(style), (width - full) as nat)
}

fn glyphs(style: ProgressStyle) -> (r: (char, char))
    ensures
        r.0 == full_glyph(style),
        r.1 == empty_glyph(style),
{
    match style {
        ProgressStyle::Dots => ('●', '○'),
        ProgressStyle::Blocks => ('█', '░'),
        ProgressStyle::Minimal => ('▰', '▱'),
    }
}

/// A discreet progress bar of `width` cells: as many filled cells as the
/// progress covers, then empty cells. It is always exactly `width` cells long.
pub fn subtle_progress_bar(style: ProgressStyle, fill: BarFill, width: usize) -> (r: String)
    ensures
        r@ == progress_bar_spec(style, fill, width as nat),
        r@.len() == width,
{
    let (full_char, empty_char) = glyphs(style);
    let full: usize = match style {
        ProgressStyle::Minimal => match fill.phase {
            ProgressPhase::Complete => width,
            ProgressPhase::InProgress => if fill.ceil <= width {
                fill.ceil
            } else {
                width
            },
            ProgressPhase::NotStarted => 0,
        },
        _ => if fill.floor <= width {
            fill.floor
        } else {
            width
        },
    };
    let mut out = String::new();
    push_repeated(&mut out, full_char, full);
    push_repeated(&mut out, empty_char, width - full);
    assert(out@ =~= progress_bar_spec(style, fill, width as nat));
    out
}

impl WallustColors {
    /// The colour of a progress: success once complete, primary while under
    /// way, muted before it starts.
    pub fn progress_color(&self, phase: ProgressPhase) -> (c: Color)
        ensures
            c == match phase {
                ProgressPhase::Complete => self.success,
                ProgressPhase::InProgress => self.primary,
                ProgressPhase::NotStarted => self.text_muted,
            },
    {
        match phase {
            ProgressPhase::Complete => self.success,
            ProgressPhase::InProgress => self.primary,
            ProgressPhase::NotStarted => self.text_muted,
        }
    }
}

/// A bar is always exactly as wide as asked, and fills no more cells than it has.
pub proof fn law_bar_has_requested_width(style: ProgressStyle, fill: BarFill, width: nat)
    ensures
        progress_bar_spec(style, fill, width).len() == width,
        filled_cells(style, fill, width) <= width,
{
}

/// A complete minimal bar is entirely filled, one not started is entirely
/// empty; dots and blocks that cover the width are entirely filled.
pub proof fn law_bar_extremes(fill: BarFill, width: nat)
    ensures
        fill.phase == ProgressPhase::Complete ==> progress_bar_spec(
            ProgressStyle::Minimal,
            fill,
            width,
        ) == repeat_char('▰', width),
        fill.phase == ProgressPhase::NotStarted ==> progress_bar_spec(
            ProgressStyle::Minimal,
            fill,
            width,
        ) == repeat_char('▱', width),
        fill.floor >= width ==> progress_bar_spec(ProgressStyle::Dots, fill, width) == repeat_char(
            '●',
            width,
        ),
        fill.floor >= width ==> progress_bar_spec(ProgressStyle::Blocks, fill, width)
            == repeat_char('█', width),
{
    assert(repeat_char('▰', width) + repeat_char('▱', 0) =~= repeat_char('▰', width));
    assert(repeat_char('▰', 0) + repeat_char('▱', width) =~= repeat_char('▱', width));
    assert(repeat_char('●', width) + repeat_char('○', 0) =~= repeat_char('●', width));
    assert(repeat_char('█', width) + repeat_char('░', 0) =~= repeat_char('█', width));
}

/// More progress never empties a cell: a bar filled at least as far as
/// another has at least as many filled cells.
pub proof fn law_bar_is_monotonic(style: ProgressStyle, a: BarFill, b: BarFill, width: nat)
    requires
        a.floor <= b.floor,
        a.ceil <= b.ceil,
        a.phase == b.phase || a.phase == ProgressPhase::NotStarted || b.phase
            == ProgressPhase::Complete,
    ensures
        filled_cells(style, a, width) <= filled_cells(style, b, width),
{
}

/// For one progress, dots and blocks fill as many cells, and the minimal
/// style, which rounds up, at most one more; all three are empty before the
/// start and full once complete.
pub proof fn law_styles_agree(fill: BarFill, width: nat)
    requires
        fill_fits(fill, width),
    ensures
        filled_cells(ProgressStyle::Dots, fill, width) == filled_cells(
            ProgressStyle::Blocks,
            fill,
            width,
        ),
        filled_cells(ProgressStyle::Dots, fill, width) <= filled_cells(
            ProgressStyle::Minimal,
            fill,
            width,
        ),
        filled_cells(ProgressStyle::Minimal, fill, width) <= filled_cells(
            ProgressStyle::Dots,
            fill,
            width,
        ) + 1,
        fill.phase == ProgressPhase::NotStarted ==> filled_cells(ProgressStyle::Dots, fill, width)
            == 0 && filled_cells(ProgressStyle::Minimal, fill, width) == 0,
        fill.phase == ProgressPhase::Complete ==> filled_cells(ProgressStyle::Dots, fill, width)
            == width && filled_cells(ProgressStyle::Minimal, fill, width) == width,
{
}

/// The colour of a progress agrees with its minimal bar: the phase that
/// takes the muted colour (not started) is the one whose bar has no filled
/// cell, and the phase that takes the success colour (complete) fills the
/// bar entirely.
pub proof fn law_color_matches_bar(fill: BarFill, width: nat)
    requires
        fill_fits(fill, width),
        width > 0,
    ensures
        (fill.phase == ProgressPhase::NotStarted) <==> filled_cells(
            ProgressStyle::Minimal,
            fill,
            width,
        ) == 0,
        fill.phase == ProgressPhase::Complete ==> progress_bar_spec(
            ProgressStyle::Minimal,
            fill,
            width,
        ) == repeat_char('▰', width),
{
    assert(repeat_char('▰', width) + repeat_char('▱', 0) =~= repeat_char('▰', width));
}

} // verus!
