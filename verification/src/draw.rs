//! What a frame asks the display to do.
//!
//! The library draws nothing itself. Each tick it hands back a [`Frame`]: the
//! drawing commands of that frame, in the order in which they are to be
//! carried out, and whether the player asked to leave.

use vstd::prelude::*;

verus! {

/// The colours that the game draws with.
#[derive(Clone, Copy, Debug, PartialEq, Eq)]
pub enum Color {
    Black,
    Navy,
    Red,
    Yellow,
}

/// One request to the display.
#[derive(Clone, Debug, PartialEq, Eq)]
pub enum DrawCommand {
    /// Clear the screen.
    Clear,
    /// Clear the screen to a background colour.
    ClearTo { background: Color },
    /// Print a line of text centred on row `y`.
    PrintCentered { y: i32, text: String },
    /// Print a line of text that starts at column `x` of row `y`.
    Print { x: i32, y: i32, text: String },
    /// Put one glyph of code page 437 into the cell at column `x`, row `y`.
    Put { x: i32, y: i32, fg: Color, bg: Color, glyph: u16 },
}

/// A drawing command as a mathematical value: its text is a sequence of
/// characters.
pub enum DrawOp {
    Clear,
    ClearTo { background: Color },
    PrintCentered { y: int, text: Seq<char> },
    Print { x: int, y: int, text: Seq<char> },
    Put { x: int, y: int, fg: Color, bg: Color, glyph: int },
}

impl View for DrawCommand {
    type V = DrawOp;

    open spec fn view(&self) -> DrawOp {
        match *self {
            DrawCommand::Clear => DrawOp::Clear,
            DrawCommand::ClearTo { background } => DrawOp::ClearTo { background },
            DrawCommand::PrintCentered { y, text } => DrawOp::PrintCentered {
                y: y as int,
                text: text@,
            },
            DrawCommand::Print { x, y, text } => DrawOp::Print {
                x: x as int,
                y: y as int,
                text: text@,
            },
            DrawCommand::Put { x, y, fg, bg, glyph } => DrawOp::Put {
                x: x as int,
                y: y as int,
                fg,
                bg,
                glyph: glyph as int,
            },
        }
    }
}

/// The views of a sequence of commands, in the same order.
pub open spec fn ops_of(commands: Seq<DrawCommand>) -> Seq<DrawOp> {
    commands.map_values(|c: DrawCommand| c@)
}

/// The views of a sequence with one more command are the views of the
/// sequence with one more view.
pub proof fn lemma_ops_of_push(commands: Seq<DrawCommand>, command: DrawCommand)
    ensures
        ops_of(commands.push(command)) == ops_of(commands).push(command@),
{
    assert(ops_of(commands.push(command)) =~= ops_of(commands).push(command@));
}

/// What one tick hands to the display.
#[derive(Clone, Debug, PartialEq, Eq)]
pub struct Frame {
    /// The drawing commands of this frame, in order.
    pub commands: Vec<DrawCommand>,
    /// Whether the player asked to leave the game.
    pub quit: bool,
}

impl Frame {
    /// The drawing commands of the frame as mathematical values.
    pub open spec fn ops(&self) -> Seq<DrawOp> {
        ops_of(self.commands@)
    }
}

/// The code that `to_cp437` of bracket-lib's terminal gives a character.
pub uninterp spec fn cp437_code(c: char) -> u16;

/// Code of the glyph `@` in code page 437.
pub const GLYPH_AT: u16 = 64;

/// Code of the glyph `|` in code page 437.
pub const GLYPH_BAR: u16 = 124;

/// Calls `to_cp437` of bracket-lib's terminal, which looks a character up in
/// its table of code page 437. Trusted: the result is that function's, and
/// its table holds 64 for `@` and 124 for `|`.
#[verifier::external_body]
pub(crate) fn glyph_of(c: char) -> (glyph: u16)
    ensures
        glyph == cp437_code(c),
        c == '@' ==> glyph == 64,
        c == '|' ==> glyph == 124,
{
    bracket_lib::terminal::to_cp437(c)
}

/// The command that puts one glyph into one cell.
pub(crate) fn cell(x: i32, y: i32, fg: Color, bg: Color, glyph: u16) -> (command: DrawCommand)
    ensures
        command@ == (DrawOp::Put { x: x as int, y: y as int, fg, bg, glyph: glyph as int }),
{
    DrawCommand::Put { x, y, fg, bg, glyph }
}

/// The command that prints `text` centred on row `y`.
pub(crate) fn centered(y: i32, text: String) -> (command: DrawCommand)
    ensures
        command@ == (DrawOp::PrintCentered { y: y as int, text: text@ }),
{
    DrawCommand::PrintCentered { y, text }
}

/// The command that prints `text` from column `x` of row `y`.
pub(crate) fn printed(x: i32, y: i32, text: String) -> (command: DrawCommand)
    ensures
        command@ == (DrawOp::Print { x: x as int, y: y as int, text: text@ }),
{
    DrawCommand::Print { x, y, text }
}

} // verus!
