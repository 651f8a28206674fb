//! Caption glyphs: a codepoint is looked up in the preferred icon fonts, and
//! its outline is written out as SVG path data.
//!
//! Talking to the platform font services happens outside this module; the
//! decisions in between (which font to try next, when to give up, how the
//! path data is spelled) are made here, one step at a time.

use vstd::prelude::*;
use vstd::string::*;

use crate::digits::{append_hex4, hex_upper_padded};
use crate::error::{error_message, Error};

verus! {

/// Number of icon font families that are searched.
pub const FAMILY_COUNT: usize = 2;

/// The icon font families in the order they are searched: the preferred icon
/// font first, then the legacy fallback.
pub open spec fn family_name(index: int) -> Seq<char> {
    if index == 0 {
        "Segoe Fluent Icons"@
    } else {
        "Segoe MDL2 Assets"@
    }
}

/// Name of the icon font family searched at position `index`.
pub fn font_family(index: usize) -> (name: &'static str)
    requires
        index < FAMILY_COUNT,
    ensures
        name@ == family_name(index as int),
{
    if index == 0 {
        "Segoe Fluent Icons"
    } else {
        "Segoe MDL2 Assets"
    }
}

/// Where the resolution of a glyph stands.
#[derive(Debug, Clone, PartialEq, Eq)]
pub enum GlyphStep {
    /// Look the codepoint up in the font family at index `family`.
    Lookup { codepoint: u32, family: usize },
    /// The family at index `family` has the glyph `glyph_index` for the
    /// codepoint: its outline is what is wanted.
    Found { codepoint: u32, family: usize, glyph_index: u16 },
    /// The glyph cannot be resolved.
    Failed(Error),
}

/// What looking a codepoint up in one font family gave.
#[derive(Debug, Clone, Copy, PartialEq, Eq, Structural)]
pub enum FaceLookup {
    /// The family is not installed.
    NoFace,
    /// The glyph index the family maps the codepoint to; zero means the
    /// family has no glyph for it.
    GlyphIndex(u16),
}

/// The message of the error for a codepoint that no family has a glyph for.
pub open spec fn not_found_message(codepoint: u32) -> Seq<char> {
    "no glyph found for U+"@ + hex_upper_padded(codepoint as nat, 4)
}

/// The message of the error for an empty glyph text.
pub open spec fn empty_text_message() -> Seq<char> {
    "empty glyph text"@
}

/// The error for a codepoint that no family has a glyph for.
pub fn glyph_not_found(codepoint: u32) -> (e: Error)
    ensures
        e is Glyph,
        error_message(e) == not_found_message(codepoint),
{
    proof {
        reveal_strlit("no glyph found for U+");
    }
    let mut message = String::from_str("no glyph found for U+");
    append_hex4(&mut message, codepoint);
    Error::Glyph(message)
}

/// The step that follows looking `codepoint` up in family `family`.
pub open spec fn next_step_spec(codepoint: u32, family: usize, lookup: FaceLookup) -> GlyphStepView {
    match lookup {
        FaceLookup::GlyphIndex(g) if g != 0 => GlyphStepView::Found { codepoint, family, glyph_index: g },
        _ => if family + 1 < FAMILY_COUNT {
            GlyphStepView::Lookup { codepoint, family: (family + 1) as usize }
        } else {
            GlyphStepView::Failed(not_found_message(codepoint))
        },
    }
}

/// A step of the resolution, with the error taken by its message.
pub enum GlyphStepView {
    Lookup { codepoint: u32, family: usize },
    Found { codepoint: u32, family: usize, glyph_index: u16 },
    Failed(Seq<char>),
}

impl GlyphStep {
    /// This step with the error taken by its message.
    pub open spec fn view(self) -> GlyphStepView {
        match self {
            GlyphStep::Lookup { codepoint, family } => GlyphStepView::Lookup { codepoint, family },
            GlyphStep::Found { codepoint, family, glyph_index } => GlyphStepView::Found {
                codepoint,
                family,
                glyph_index,
            },
            GlyphStep::Failed(e) => GlyphStepView::Failed(error_message(e)),
        }
    }
}

/// Starts resolving the first character of `text` into glyph path data: the
/// first step looks its codepoint up in the preferred icon font. Empty text
/// fails at once.
pub fn glyph_path(text: &str) -> (step: GlyphStep)
    ensures
        text@.len() == 0 ==> step@ == GlyphStepView::Failed(empty_text_message()),
        text@.len() > 0 ==> step@ == (GlyphStepView::Lookup {
            codepoint: text@[0] as u32,
            family: 0,
        }),
{
    if text.is_empty() {
        proof {
            reveal_strlit("empty glyph text");
        }
        GlyphStep::Failed(Error::Glyph(String::from_str("empty glyph text")))
    } else {
        let c = text.get_char(0);
        GlyphStep::Lookup { codepoint: c as u32, family: 0 }
    }
}

/// Decides what follows once `codepoint` has been looked up in family
/// `family`: a non-zero glyph index is the answer; otherwise the next family
/// is tried, and after the last one the resolution fails.
pub fn next_step(codepoint: u32, family: usize, lookup: FaceLookup) -> (step: GlyphStep)
    requires
        family < FAMILY_COUNT,
    ensures
        step@ == next_step_spec(codepoint, family, lookup),
{
    match lookup {
        FaceLookup::GlyphIndex(g) if g != 0 => GlyphStep::Found { codepoint, family, glyph_index: g },
        _ => if family + 1 < FAMILY_COUNT {
            GlyphStep::Lookup { codepoint, family: family + 1 }
        } else {
            GlyphStep::Failed(glyph_not_found(codepoint))
        },
    }
}

/// A point of a glyph outline, each coordinate already written out as text.
#[derive(Debug, Clone, PartialEq, Eq)]
pub struct Point {
    pub x: String,
    pub y: String,
}

/// One SVG path command over written-out coordinates.
#[derive(Debug, Clone, PartialEq, Eq)]
pub enum PathCommand {
    /// Start a new figure at the point.
    Move(Point),
    /// A straight line to the point.
    Line(Point),
    /// A cubic Bezier curve through two control points to the last point.
    Cubic(Point, Point, Point),
    /// Close the current figure.
    Close,
}

/// A point as SVG path data: the two coordinates separated by a space.
pub open spec fn point_text(p: Point) -> Seq<char> {
    p.x@ + " "@ + p.y@
}

/// One command as SVG path data.
pub open spec fn command_text(c: PathCommand) -> Seq<char> {
    match c {
        PathCommand::Move(p) => "M"@ + point_text(p),
        PathCommand::Line(p) => "L"@ + point_text(p),
        PathCommand::Cubic(a, b, e) => "C"@ + point_text(a) + " "@ + point_text(b) + " "@
            + point_text(e),
        PathCommand::Close => "Z"@,
    }
}

/// A command sequence as SVG path data: the commands written one after the
/// other, with nothing between them.
pub open spec fn path_text(commands: Seq<PathCommand>) -> Seq<char>
    decreases commands.len(),
{
    if commands.len() == 0 {
        Seq::empty()
    } else {
        path_text(commands.drop_last()) + command_text(commands.last())
    }
}

fn append_point(out: &mut String, p: &Point)
    ensures
        final(out)@ == old(out)@ + point_text(*p),
{
    out.append(p.x.as_str());
    out.append(" ");
    out.append(p.y.as_str());
    assert(out@ =~= old(out)@ + point_text(*p));
}

fn append_command(out: &mut String, c: &PathCommand)
    ensures
        final(out)@ == old(out)@ + command_text(*c),
{
    let ghost start = out@;
    match c {
        PathCommand::Move(p) => {
            out.append("M");
            append_point(out, p);
        },
        PathCommand::Line(p) => {
            out.append("L");
            append_point(out, p);
        },
        PathCommand::Cubic(a, b, e) => {
            out.append("C");
            append_point(out, a);
            out.append(" ");
            append_point(out, b);
            out.append(" ");
            append_point(out, e);
        },
        PathCommand::Close => {
            out.append("Z");
        },
    }
    assert(out@ =~= start + command_text(*c));
}

/// Writes a glyph outline as SVG path data (the `d` attribute).
pub fn path_data(commands: &Vec<PathCommand>) -> (d: String)
    ensures
        d@ == path_text(commands@),
{
    let mut d = String::new();
    let n = commands.len();
    for i in 0..n
        invariant
            n == commands@.len(),
            d@ == path_text(commands@.take(i as int)),
    {
        append_command(&mut d, &commands[i]);
        assert(commands@.take(i + 1).drop_last() =~= commands@.take(i as int));
    }
    assert(commands@.take(n as int) =~= commands@);
    d
}

/// The search prefers the first family: a glyph found there is taken without
/// looking further, a miss there (no face, or glyph index zero) moves on to
/// the fallback family, and a miss in the fallback ends the search with the
/// not-found error. A glyph is only ever found with a non-zero index.
pub proof fn lemma_search_order(codepoint: u32, lookup: FaceLookup)
    ensures
        glyph_index_of(lookup) != 0 ==> next_step_spec(codepoint, 0, lookup) == (GlyphStepView::Found {
            codepoint,
            family: 0,
            glyph_index: glyph_index_of(lookup),
        }),
        glyph_index_of(lookup) == 0 ==> next_step_spec(codepoint, 0, lookup) == (GlyphStepView::Lookup {
            codepoint,
            family: 1,
        }),
        glyph_index_of(lookup) == 0 ==> next_step_spec(codepoint, 1, lookup) == GlyphStepView::Failed(
            not_found_message(codepoint),
        ),
        forall|family: usize, g: u16|
            next_step_spec(codepoint, family, lookup) == (GlyphStepView::Found {
                codepoint,
                family,
                glyph_index: g,
            }) ==> g != 0,
{
}

/// The glyph index a lookup gave; zero where the family is not installed.
pub open spec fn glyph_index_of(lookup: FaceLookup) -> u16 {
    match lookup {
        FaceLookup::NoFace => 0,
        FaceLookup::GlyphIndex(g) => g,
    }
}

/// Path data begins with the first command, and an outline without commands
/// is blank.
pub proof fn lemma_path_starts_with_first_command(commands: Seq<PathCommand>)
    ensures
        commands.len() == 0 ==> path_text(commands) == Seq::<char>::empty(),
        commands.len() > 0 ==> path_text(commands).len() >= command_text(commands[0]).len()
            && path_text(commands).take(command_text(commands[0]).len() as int) == command_text(commands[0]),
    decreases commands.len(),
{
    if commands.len() > 1 {
        let init = commands.drop_last();
        lemma_path_starts_with_first_command(init);
        assert(init[0] == commands[0]);
        let first = command_text(commands[0]);
        assert(path_text(commands).take(first.len() as int) =~= path_text(init).take(first.len() as int));
    } else if commands.len() == 1 {
        assert(commands.drop_last() =~= Seq::<PathCommand>::empty());
        assert(path_text(commands.drop_last()) == Seq::<char>::empty());
        assert(commands.last() == commands[0]);
        assert(path_text(commands) =~= command_text(commands[0]));
    }
}

/// Path data writes every command, in order: the data of two command
/// sequences one after the other is the data of each, one after the other.
pub proof fn lemma_path_text_concat(a: Seq<PathCommand>, b: Seq<PathCommand>)
    ensures
        path_text(a + b) == path_text(a) + path_text(b),
    decreases b.len(),
{
    if b.len() == 0 {
        assert(a + b =~= a);
        assert(path_text(a) + path_text(b) =~= path_text(a));
    } else {
        let c = b.last();
        let b0 = b.drop_last();
        lemma_path_text_concat(a, b0);
        assert((a + b).drop_last() =~= a + b0);
        assert((a + b).last() == c);
        assert(path_text(a + b) == path_text(a + b0) + command_text(c));
        assert(path_text(b) == path_text(b0) + command_text(c));
        assert(path_text(a) + path_text(b0) + command_text(c) =~= path_text(a) + (path_text(b0)
            + command_text(c)));
    }
}

/// Appending a command appends its text, whatever came before.
pub proof fn lemma_path_text_push(s: Seq<PathCommand>, c: PathCommand)
    ensures
        path_text(s.push(c)) == path_text(s) + command_text(c),
        path_text(s.push(c)).len() == path_text(s).len() + command_text(c).len(),
{
    assert(s.push(c).drop_last() =~= s);
}

/// The length of path data is the sum of the lengths of the commands' texts,
/// each of which is at least one character: no command is dropped.
pub open spec fn total_text_len(commands: Seq<PathCommand>) -> nat
    decreases commands.len(),
{
    if commands.len() == 0 {
        0
    } else {
        total_text_len(commands.drop_last()) + command_text(commands.last()).len()
    }
}

/// Path data is exactly as long as its commands' texts together, and holds at
/// least one character per command.
pub proof fn lemma_path_text_len(commands: Seq<PathCommand>)
    ensures
        path_text(commands).len() == total_text_len(commands),
        path_text(commands).len() >= commands.len(),
    decreases commands.len(),
{
    if commands.len() > 0 {
        lemma_path_text_len(commands.drop_last());
        lemma_command_text_nonempty(commands.last());
    }
}

/// Every command writes at least its letter.
pub proof fn lemma_command_text_nonempty(c: PathCommand)
    ensures
        command_text(c).len() >= 1,
{
    reveal_strlit("M");
    reveal_strlit("L");
    reveal_strlit("C");
    reveal_strlit("Z");
}

} // verus!
