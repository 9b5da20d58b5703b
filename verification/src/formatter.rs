//! Rendering of a finding as text, with the place in the source it is pinned to.

use vstd::prelude::*;
use vstd::string::*;
use crate::error::{Error, ErrorView};
use crate::sources::{column_of, line_of, Source, SourceSpan, Sources};
use crate::span::Span;
use vstd::utf8::*;
use crate::text::{
    decimal_string, decimal_text, lines_spec, pad_left, pad_left_spec, split_lines, texts,
};

verus! {

/// The escape sequence that sets the foreground colour to red.
pub open spec fn red_code() -> Seq<char> {
    "\x1B[38;5;1m"@
}

/// The escape sequence that sets the foreground colour to blue.
pub open spec fn blue_code() -> Seq<char> {
    "\x1B[38;5;4m"@
}

/// The escape sequence that sets the foreground colour back to the default.
pub open spec fn color_reset_code() -> Seq<char> {
    "\x1B[39m"@
}

/// The escape sequence that turns bold text on.
pub open spec fn bold_code() -> Seq<char> {
    "\x1B[1m"@
}

/// The escape sequence that turns every style off.
pub open spec fn style_reset_code() -> Seq<char> {
    "\x1B[m"@
}

/// What `termion::color::Fg(termion::color::Red)` displays as: the escape
/// sequence for a red foreground, or nothing where the variable
/// `NO_COLOR` is set.
#[verifier::external_body]
fn fg_red() -> (code: String)
    ensures
        code@ == red_code() || code@ == Seq::<char>::empty(),
{
    format!("{}", termion::color::Fg(termion::color::Red))
}

/// What `termion::color::Fg(termion::color::Blue)` displays as: the escape
/// sequence for a blue foreground, or nothing where the variable
/// `NO_COLOR` is set.
#[verifier::external_body]
fn fg_blue() -> (code: String)
    ensures
        code@ == blue_code() || code@ == Seq::<char>::empty(),
{
    format!("{}", termion::color::Fg(termion::color::Blue))
}

/// What `termion::color::Fg(termion::color::Reset)` displays as: always
/// the escape sequence for the default foreground.
#[verifier::external_body]
fn fg_reset() -> (code: String)
    ensures
        code@ == color_reset_code(),
{
    format!("{}", termion::color::Fg(termion::color::Reset))
}

/// What `termion::style::Bold` displays as: the escape sequence for bold text.
#[verifier::external_body]
fn style_bold() -> (code: String)
    ensures
        code@ == bold_code(),
{
    format!("{}", termion::style::Bold)
}

/// What `termion::style::Reset` displays as: the escape sequence that
/// turns every style off.
#[verifier::external_body]
fn style_reset() -> (code: String)
    ensures
        code@ == style_reset_code(),
{
    format!("{}", termion::style::Reset)
}

/// The escape sequences that a rendering uses.
pub ghost struct PaletteView {
    pub red: Seq<char>,
    pub blue: Seq<char>,
    pub color_reset: Seq<char>,
    pub bold: Seq<char>,
    pub style_reset: Seq<char>,
}

#[derive(Clone, Debug)]
pub struct Palette {
    pub red: String,
    pub blue: String,
    pub color_reset: String,
    pub bold: String,
    pub style_reset: String,
}

impl View for Palette {
    type V = PaletteView;

    open spec fn view(&self) -> PaletteView {
        PaletteView {
            red: self.red@,
            blue: self.blue@,
            color_reset: self.color_reset@,
            bold: self.bold@,
            style_reset: self.style_reset@,
        }
    }
}

impl PaletteView {
    /// A palette of the terminal: red is its escape sequence or empty, and
    /// so is blue, each by itself; the rest are their escape sequences.
    pub open spec fn of_terminal(self) -> bool {
        &&& self.red == red_code() || self.red == Seq::<char>::empty()
        &&& self.blue == blue_code() || self.blue == Seq::<char>::empty()
        &&& self.color_reset == color_reset_code()
        &&& self.bold == bold_code()
        &&& self.style_reset == style_reset_code()
    }
}

impl Palette {
    /// The palette without any escape sequence, for plain text.
    pub fn plain() -> (palette: Palette)
        ensures
            palette@ == (PaletteView {
                red: Seq::empty(),
                blue: Seq::empty(),
                color_reset: Seq::empty(),
                bold: Seq::empty(),
                style_reset: Seq::empty(),
            }),
    {
        Palette {
            red: String::new(),
            blue: String::new(),
            color_reset: String::new(),
            bold: String::new(),
            style_reset: String::new(),
        }
    }

    /// The palette of the terminal: with colours, unless the variable
    /// `NO_COLOR` is set.
    pub fn terminal() -> (palette: Palette)
        ensures
            palette@.of_terminal(),
    {
        Palette {
            red: fg_red(),
            blue: fg_blue(),
            color_reset: fg_reset(),
            bold: style_bold(),
            style_reset: style_reset(),
        }
    }
}

/// Where a finding is pinned: the path of the source, the line and the
/// column of the first byte, and the text that is covered.
pub ghost struct Place {
    pub path: Seq<char>,
    pub line: nat,
    pub column: nat,
    pub excerpt: Seq<char>,
}

/// The first line of a rendering: the word `error` in bold red, and the title.
pub open spec fn header(title: Seq<char>, palette: PaletteView) -> Seq<char> {
    palette.bold + palette.red + "error"@ + palette.color_reset + ": "@ + title
        + palette.style_reset + "\n"@
}

/// The line that names the place: path, line and column, separated by colons.
pub open spec fn location(place: Place, palette: PaletteView) -> Seq<char> {
    palette.blue + "    --> "@ + palette.color_reset + place.path + ":"@ + decimal_text(place.line)
        + ":"@ + decimal_text(place.column) + "\n"@
}

/// The empty row between the location and the listing.
pub open spec fn gutter(palette: PaletteView) -> Seq<char> {
    palette.blue + "     |"@ + palette.color_reset + "\n"@
}

/// One row of the listing: the line number, right-aligned in four
/// columns, a bar, and the line.
pub open spec fn row(number: nat, line: Seq<char>, palette: PaletteView) -> Seq<char> {
    palette.blue + pad_left_spec(decimal_text(number), 4) + " |"@ + palette.color_reset + " "@
        + line + "\n"@
}

/// The first `count` rows of the listing of `lines`, numbered from `first`.
pub open spec fn listing(
    lines: Seq<Seq<char>>,
    first: nat,
    count: nat,
    palette: PaletteView,
) -> Seq<char>
    decreases count,
{
    if count == 0 {
        Seq::empty()
    } else {
        listing(lines, first, (count - 1) as nat, palette) + row(
            first + (count - 1) as nat,
            lines[count - 1],
            palette,
        )
    }
}

/// The rendering of a finding: the header and, where the finding has a
/// place, the location, the gutter and the listing of the covered lines.
pub open spec fn rendering(title: Seq<char>, place: Option<Place>, palette: PaletteView) -> Seq<
    char,
> {
    match place {
        None => header(title, palette),
        Some(place) => header(title, palette) + location(place, palette) + gutter(palette)
            + listing(
            lines_spec(place.excerpt),
            place.line,
            lines_spec(place.excerpt).len(),
            palette,
        ),
    }
}

/// The place that a located span describes.
pub open spec fn place_of(located: &SourceSpan) -> Place {
    Place {
        path: located.path_spec(),
        line: located.line_spec() as nat,
        column: located.column_spec() as nat,
        excerpt: located.excerpt(),
    }
}

/// The place of `span` in `source`.
pub open spec fn located_place(source: &Source, span: Span) -> Place {
    Place {
        path: source.path_spec(),
        line: line_of(source.bytes(), span.index as int) as nat,
        column: column_of(source.bytes(), span.index as int) as nat,
        excerpt: decode_utf8(
            source.bytes().subrange(span.index as int, span.index + span.length),
        ),
    }
}

/// A located span that describes `span` in `source` gives the place of
/// `span` in `source`.
pub proof fn lemma_located_place(located: &SourceSpan, source: &Source, span: Span)
    requires
        located.describes(source, span),
    ensures
        place_of(located) == located_place(source, span),
{
    encode_utf8_decode_utf8(located.excerpt());
}

/// The place of a located span, where there is one.
pub open spec fn place_where(located: Option<&SourceSpan>) -> Option<Place> {
    match located {
        Some(located) => Some(place_of(located)),
        None => None,
    }
}

/// Renders a finding with the given palette. `located` is the place of the
/// finding in its source, where it has one.
pub fn render(error: &Error, located: Option<&SourceSpan>, palette: &Palette) -> (text: String)
    ensures
        text@ == rendering(error@.title, place_where(located), palette@),
{
    let mut text = String::new();
    text.append(palette.bold.as_str());
    text.append(palette.red.as_str());
    text.append("error");
    text.append(palette.color_reset.as_str());
    text.append(": ");
    text.append(error.title());
    text.append(palette.style_reset.as_str());
    text.append("\n");
    proof {
        assert(text@ =~= header(error@.title, palette@));
    }
    match located {
        None => text,
        Some(located) => {
            let ghost head = text@;
            text.append(palette.blue.as_str());
            text.append("    --> ");
            text.append(palette.color_reset.as_str());
            text.append(located.path());
            text.append(":");
            let line = decimal_string(located.line() as u128);
            text.append(line.as_str());
            text.append(":");
            let column = decimal_string(located.column() as u128);
            text.append(column.as_str());
            text.append("\n");
            proof {
                assert(text@ =~= head + location(place_of(located), palette@));
            }
            let ghost head = text@;
            text.append(palette.blue.as_str());
            text.append("     |");
            text.append(palette.color_reset.as_str());
            text.append("\n");
            proof {
                assert(text@ =~= head + gutter(palette@));
            }
            let ghost head = text@;
            let lines = split_lines(located.source());
            let mut i: usize = 0;
            proof {
                assert(head + Seq::<char>::empty() =~= head);
            }
            while i < lines.len()
                invariant
                    i <= lines.len(),
                    texts(lines@) == lines_spec(located.excerpt()),
                    text@ == head + listing(
                        texts(lines@),
                        located.line_spec() as nat,
                        i as nat,
                        palette@,
                    ),
                decreases lines.len() - i,
            {
                let ghost so_far = text@;
                let number = decimal_string(located.line() as u128 + i as u128);
                let padded = pad_left(number.as_str(), 4);
                text.append(palette.blue.as_str());
                text.append(padded.as_str());
                text.append(" |");
                text.append(palette.color_reset.as_str());
                text.append(" ");
                text.append(lines[i].as_str());
                text.append("\n");
                proof {
                    let rows = listing(
                        texts(lines@),
                        located.line_spec() as nat,
                        i as nat,
                        palette@,
                    );
                    let next = row(
                        located.line_spec() as nat + i as nat,
                        texts(lines@)[i as int],
                        palette@,
                    );
                    assert(text@ =~= so_far + next);
                    assert(head + (rows + next) =~= (head + rows) + next);
                }
                i += 1;
            }
            text
        },
    }
}

/// Renders findings with the places that a set of sources gives them.
pub struct ErrorFormatter<'a> {
    sources: &'a Sources,
}

impl<'a> ErrorFormatter<'a> {
    /// The sources that places are looked up in.
    pub closed spec fn sources(&self) -> &Sources {
        self.sources
    }

    pub fn new(sources: &'a Sources) -> (formatter: ErrorFormatter<'a>)
        ensures
            formatter.sources() == sources,
    {
        ErrorFormatter { sources }
    }

    /// The place of `error` in the sources, where its span names a loaded
    /// source and fits it.
    pub open spec fn place(&self, error: ErrorView) -> Option<Place> {
        let map = self.sources().map();
        if map.contains_key(error.span.source.uuid) && map[error.span.source.uuid].covers_spec(
            error.span,
        ) {
            Some(located_place(&map[error.span.source.uuid], error.span))
        } else {
            None
        }
    }

    /// Renders `error` for the terminal. The colours are those of the
    /// terminal, or none where the variable `NO_COLOR` is set.
    pub fn format_error(&self, error: &Error) -> (text: String)
        ensures
            exists|palette: PaletteView|
                palette.of_terminal() && text@ == #[trigger] rendering(
                    error@.title,
                    self.place(error@),
                    palette,
                ),
    {
        let palette = Palette::terminal();
        self.format_with(error, &palette)
    }

    /// Renders `error` with the given palette.
    pub fn format_with(&self, error: &Error, palette: &Palette) -> (text: String)
        ensures
            text@ == rendering(error@.title, self.place(error@), palette@),
    {
        let located = self.sources.get_span(error.span());
        match &located {
            Some(located) => {
                proof {
                    lemma_located_place(
                        located,
                        &self.sources().map()[error@.span.source.uuid],
                        error@.span,
                    );
                }
                render(error, Some(located), palette)
            },
            None => render(error, None, palette),
        }
    }
}

} // verus!
