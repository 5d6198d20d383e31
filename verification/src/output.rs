//! What an operation has to say: pieces of text, each for one of the two
//! output streams and with a tint, and how a piece is shown on a terminal.

use vstd::prelude::*;
use colored::Colorize;

verus! {

/// Where a piece of text goes.
#[derive(Clone, Copy, Debug, PartialEq, Eq, Structural)]
pub enum Stream {
    /// Standard output.
    Stdout,
    /// Standard error.
    Stderr,
}

/// A colour for text.
#[derive(Clone, Copy, Debug, PartialEq, Eq, Structural)]
pub enum Hue {
    Red,
    Green,
    Yellow,
    Cyan,
}

/// How a piece of text is set off from the text around it.
#[derive(Clone, Copy, Debug, PartialEq, Eq, Structural)]
pub enum Tint {
    /// As it is.
    Plain,
    /// In bold.
    Bold,
    /// In a colour.
    Colored(Hue),
}

/// Text for the user. A line break is part of the text that it ends.
#[derive(Debug, PartialEq, Eq)]
pub struct Piece {
    pub stream: Stream,
    pub tint: Tint,
    pub text: String,
}

/// A `Piece` with its text as a character sequence.
pub struct PieceView {
    pub stream: Stream,
    pub tint: Tint,
    pub text: Seq<char>,
}

impl View for Piece {
    type V = PieceView;

    open spec fn view(&self) -> PieceView {
        PieceView { stream: self.stream, tint: self.tint, text: self.text@ }
    }
}

/// The views of the pieces in `v`.
pub open spec fn pieces(v: Seq<Piece>) -> Seq<PieceView> {
    Seq::new(v.len(), |i: int| v[i]@)
}

/// A piece for standard output.
pub open spec fn on_stdout(tint: Tint, text: Seq<char>) -> PieceView {
    PieceView { stream: Stream::Stdout, tint, text }
}

/// A piece for standard error.
pub open spec fn on_stderr(tint: Tint, text: Seq<char>) -> PieceView {
    PieceView { stream: Stream::Stderr, tint, text }
}

/// The text that the pieces for `stream` make, one after the other.
pub open spec fn text_on(stream: Stream, say: Seq<PieceView>) -> Seq<char>
    decreases say.len(),
{
    if say.len() == 0 {
        Seq::empty()
    } else if say.last().stream == stream {
        text_on(stream, say.drop_last()) + say.last().text
    } else {
        text_on(stream, say.drop_last())
    }
}

/// The number that selects a colour on a terminal.
pub open spec fn hue_code(hue: Hue) -> Seq<char> {
    match hue {
        Hue::Red => "31"@,
        Hue::Green => "32"@,
        Hue::Yellow => "33"@,
        Hue::Cyan => "36"@,
    }
}

/// `text` between the control sequence that selects `code` and the one
/// that resets the terminal.
pub open spec fn wrapped(code: Seq<char>, text: Seq<char>) -> Seq<char> {
    "\u{1b}["@ + code + "m"@ + text + "\u{1b}[0m"@
}

/// `text` as it is sent to a terminal that shows tints.
pub open spec fn painted(tint: Tint, text: Seq<char>) -> Seq<char> {
    match tint {
        Tint::Plain => text,
        Tint::Bold => wrapped("1"@, text),
        Tint::Colored(hue) => wrapped(hue_code(hue), text),
    }
}

/// Whether `shown` is a way to show a piece: the text as it is, or, for
/// text that holds no escape character, the text painted in its tint.
pub open spec fn shows(piece: PieceView, shown: Seq<char>) -> bool {
    if piece.text.contains('\u{1b}') && piece.tint != Tint::Plain {
        true
    } else {
        shown == piece.text || shown == painted(piece.tint, piece.text)
    }
}

/// `colored::Colorize::bold` on a `&str`, written out with `to_string`.
/// Whether tints are shown depends on the terminal and the environment,
/// so the result is the text as it is or the text in bold. Nothing is said
/// of text that holds an escape character, which the crate rewrites.
#[verifier::external_body]
fn paint_bold(text: &str) -> (r: String)
    ensures
        !text@.contains('\u{1b}') ==> r@ == text@ || r@ == wrapped("1"@, text@),
{
    text.bold().to_string()
}

/// `colored::Colorize::color` on a `&str`, written out with `to_string`.
/// Whether tints are shown depends on the terminal and the environment,
/// so the result is the text as it is or the text in the colour. Nothing
/// is said of text that holds an escape character, which the crate
/// rewrites.
#[verifier::external_body]
fn paint_color(text: &str, hue: Hue) -> (r: String)
    ensures
        !text@.contains('\u{1b}') ==> r@ == text@ || r@ == wrapped(hue_code(hue), text@),
{
    let color = match hue {
        Hue::Red => colored::Color::Red,
        Hue::Green => colored::Color::Green,
        Hue::Yellow => colored::Color::Yellow,
        Hue::Cyan => colored::Color::Cyan,
    };
    text.color(color).to_string()
}

/// The piece as it is written to its stream.
pub fn render(piece: &Piece) -> (r: String)
    ensures
        shows(piece@, r@),
{
    match piece.tint {
        Tint::Plain => piece.text.clone(),
        Tint::Bold => paint_bold(piece.text.as_str()),
        Tint::Colored(hue) => paint_color(piece.text.as_str(), hue),
    }
}

/// The text that the pieces for `stream` make, without tints.
pub fn plain_text(say: &Vec<Piece>, stream: Stream) -> (r: String)
    ensures
        r@ == text_on(stream, pieces(say@)),
{
    let mut r = String::new();
    let mut i: usize = 0;
    while i < say.len()
        invariant
            i <= say.len(),
            r@ == text_on(stream, pieces(say@).take(i as int)),
        decreases say.len() - i,
    {
        assert(pieces(say@).take(i + 1).drop_last() =~= pieces(say@).take(i as int));
        if say[i].stream == stream {
            r.append(say[i].text.as_str());
        }
        i += 1;
    }
    assert(pieces(say@).take(say@.len() as int) =~= pieces(say@));
    r
}

/// Adds a piece for standard output to `say`.
pub fn say_out(say: &mut Vec<Piece>, tint: Tint, text: String)
    ensures
        pieces(final(say)@) == pieces(old(say)@).push(on_stdout(tint, text@)),
{
    say.push(Piece { stream: Stream::Stdout, tint, text });
}

/// Adds a piece for standard error to `say`.
pub fn say_err(say: &mut Vec<Piece>, tint: Tint, text: String)
    ensures
        pieces(final(say)@) == pieces(old(say)@).push(on_stderr(tint, text@)),
{
    say.push(Piece { stream: Stream::Stderr, tint, text });
}

} // verus!
