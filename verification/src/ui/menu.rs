//! The main menu's arithmetic and text: centering a block, the rows of the
//! replay table and how far it scrolls, and the scrollbar.
use vstd::prelude::*;
use crate::game::replay::SavedGame;
use crate::text::{
    chars_of, decimal, decimal_chars, pad_left, pad_right, push_all, push_padded_left, push_padded_right,
    string_of,
};

verus! {

/// A rectangle of terminal cells.
#[derive(Clone, Copy, PartialEq, Eq, Debug, Structural)]
pub struct Area {
    pub x: u16,
    pub y: u16,
    pub width: u16,
    pub height: u16,
}

/// A block of at most the given size, centered in an area (the left and
/// top margins rounded down).
pub fn center_block(area: Area, width: u16, height: u16) -> (r: Area)
    requires
        area.x + area.width <= u16::MAX,
        area.y + area.height <= u16::MAX,
    ensures
        r.width == (if width < area.width { width } else { area.width }),
        r.height == (if height < area.height { height } else { area.height }),
        r.x == area.x + (area.width - r.width) / 2,
        r.y == area.y + (area.height - r.height) / 2,
{
    let w = if width < area.width { width } else { area.width };
    let h = if height < area.height { height } else { area.height };
    let x = area.x + (area.width - w) / 2;
    let y = area.y + (area.height - h) / 2;
    Area { x, y, width: w, height: h }
}

/// The first replay row shown so that the selected one is visible in a
/// list of `visible` rows.
pub fn replay_scroll(selection: usize, visible: usize) -> (s: usize)
    requires
        selection < usize::MAX,
    ensures
        s == (if selection >= visible { selection - visible + 1 } else { 0 }),
{
    if selection >= visible {
        selection - visible + 1
    } else {
        0
    }
}

/// The columns of a replay table row: number, date, result, moves (right
/// aligned) and mode, the whole padded to 70 characters.
pub open spec fn table_row(n: Seq<char>, date: Seq<char>, result: Seq<char>, moves: Seq<char>, mode: Seq<char>) -> Seq<char> {
    pad_right(
        "  "@ + pad_right(n, 4) + "  "@ + pad_right(date, 12) + "  "@ + pad_right(result, 26) + pad_left(moves, 7) + "  "@
            + pad_right(mode, 8),
        70,
    )
}

fn table_row_exec(n: &Vec<char>, date: &Vec<char>, result: &Vec<char>, moves: &Vec<char>, mode: &Vec<char>) -> (s: String)
    ensures
        s@ == table_row(n@, date@, result@, moves@, mode@),
{
    let mut line: Vec<char> = chars_of("  ");
    push_padded_right(&mut line, n, 4);
    push_all(&mut line, &chars_of("  "));
    push_padded_right(&mut line, date, 12);
    push_all(&mut line, &chars_of("  "));
    push_padded_right(&mut line, result, 26);
    push_padded_left(&mut line, moves, 7);
    push_all(&mut line, &chars_of("  "));
    push_padded_right(&mut line, mode, 8);
    let mut out: Vec<char> = Vec::new();
    push_padded_right(&mut out, &line, 70);
    assert(out@ =~= pad_right(line@, 70));
    string_of(&out)
}

/// The header of the replay table.
pub fn replay_header() -> (s: String)
    ensures
        s@ == table_row("#"@, "Date"@, "Result"@, "Moves"@, "Mode"@),
{
    table_row_exec(&chars_of("#"), &chars_of("Date"), &chars_of("Result"), &chars_of("Moves"), &chars_of("Mode"))
}

/// The first ten characters of a date (the day), or all of it if shorter.
pub open spec fn short_date(date: Seq<char>) -> Seq<char> {
    if date.len() >= 10 { date.subrange(0, 10) } else { date }
}

/// The replay table's row for the game at a position of the list: its
/// number from 1, the day it was played, result and detail, the number of
/// moves and the mode.
pub open spec fn replay_row_of(i: nat, game: SavedGame) -> Seq<char> {
    table_row(
        decimal(i + 1),
        short_date(game.date@),
        game.result@ + " ("@ + game.result_detail@ + ")"@,
        decimal(game.move_count as nat),
        game.mode@,
    )
}

/// The text of a replay table row.
pub fn replay_row(i: usize, game: &SavedGame) -> (s: String)
    requires
        i < usize::MAX,
    ensures
        s@ == replay_row_of(i as nat, *game),
{
    let date = chars_of(game.date.as_str());
    let day = if date.len() >= 10 {
        crate::text::prefix_of(&date, 10)
    } else {
        date
    };
    let mut result = chars_of(game.result.as_str());
    push_all(&mut result, &chars_of(" ("));
    push_all(&mut result, &chars_of(game.result_detail.as_str()));
    push_all(&mut result, &chars_of(")"));
    let n = decimal_chars((i + 1) as u128);
    let moves = decimal_chars(game.move_count as u128);
    table_row_exec(&n, &day, &result, &moves, &chars_of(game.mode.as_str()))
}

/// A scrollbar of `width` cells with its thumb at `pos`: lower half blocks
/// before it, a full block at it, low bars after it.
pub open spec fn scrollbar_of(pos: nat, width: nat) -> Seq<char> {
    Seq::new(width, |i: int| if i == pos { '\u{2588}' } else if i < pos { '\u{2584}' } else { '\u{2581}' })
}

/// The scrollbar text with the thumb at a cell.
pub fn scrollbar_cells(pos: usize, width: usize) -> (s: String)
    ensures
        s@ == scrollbar_of(pos as nat, width as nat),
{
    let mut v: Vec<char> = Vec::new();
    let mut i: usize = 0;
    while i < width
        invariant
            i <= width,
            v@ == scrollbar_of(pos as nat, i as nat),
        decreases width - i,
    {
        if i == pos {
            v.push('\u{2588}');
        } else if i < pos {
            v.push('\u{2584}');
        } else {
            v.push('\u{2581}');
        }
        i = i + 1;
        assert(v@ =~= scrollbar_of(pos as nat, i as nat));
    }
    string_of(&v)
}

} // verus!
