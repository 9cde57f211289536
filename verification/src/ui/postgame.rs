//! The words of the post-game banner: who won and how, and the line about
//! the opponent.
use vstd::prelude::*;
use crate::app::{App, GameMode};
use crate::chess::types::Color;
use crate::game::state::{GameResult, GameStatus};
use crate::text::{chars_of, push_all, string_of};

verus! {

/// Whether the player at this terminal is the winner: against the
/// computer, when the computer is not; online, when it is the player's
/// color; in a local game always.
pub open spec fn player_wins(mode: GameMode, winner: Color) -> bool {
    match mode {
        GameMode::VsAi(ai_color) => winner != ai_color,
        GameMode::Online { my_color, .. } => winner == my_color,
        GameMode::Local => true,
    }
}

/// Whether the winner is the player at this terminal.
pub fn is_player_winner(app: &App, winner: Color) -> (b: bool)
    ensures
        b == player_wins(app.game_mode, winner),
{
    match &app.game_mode {
        GameMode::VsAi(ai_color) => winner != *ai_color,
        GameMode::Online { my_color, .. } => winner == *my_color,
        GameMode::Local => true,
    }
}

/// Whether a color is the player's own (every color in a local game).
pub fn is_player_color(app: &App, color: Color) -> (b: bool)
    ensures
        b == player_wins(app.game_mode, color),
{
    match &app.game_mode {
        GameMode::VsAi(ai_color) => color != *ai_color,
        GameMode::Online { my_color, .. } => color == *my_color,
        GameMode::Local => true,
    }
}

/// What `str::to_uppercase` makes of a text.
pub uninterp spec fn uppercase(s: Seq<char>) -> Seq<char>;

/// std's `str::to_uppercase`. Claims only that the result is the
/// uppercase form of the text (by Unicode's mapping, which is not spelled
/// out here).
#[verifier::external_body]
fn uppercase_text(s: &str) -> (r: String)
    ensures
        r@ == uppercase(s@),
{
    s.to_uppercase()
}

/// The name of a color in capitals.
pub open spec fn caps_name(c: Color) -> Seq<char> {
    if c == Color::White { "WHITE"@ } else { "BLACK"@ }
}

/// The king symbol of a color.
pub open spec fn king_icon(c: Color) -> Seq<char> {
    if c == Color::White { "\u{2654}"@ } else { "\u{265a}"@ }
}

/// The headline of the banner and its icon: the winner and how, or the
/// kind of draw; for a game still going, the status line in capitals.
pub open spec fn headline_of(status: GameStatus, status_message: Seq<char>) -> (Seq<char>, Seq<char>) {
    match status {
        GameStatus::Finished(r) => match r {
            GameResult::Checkmate(c) => (caps_name(c) + " WINS BY CHECKMATE"@, king_icon(c)),
            GameResult::Stalemate => ("GAME DRAWN - STALEMATE"@, "="@),
            GameResult::DrawByRepetition => ("GAME DRAWN - REPETITION"@, "="@),
            GameResult::DrawByFiftyMove => ("GAME DRAWN - FIFTY MOVES"@, "="@),
            GameResult::DrawByInsufficientMaterial => ("GAME DRAWN - INSUFFICIENT MATERIAL"@, "="@),
            GameResult::DrawByAgreement => ("GAME DRAWN - AGREEMENT"@, "="@),
            GameResult::Resignation(c) => (
                caps_name(c.spec_opponent()) + " WINS BY RESIGNATION"@,
                king_icon(c.spec_opponent()),
            ),
        },
        GameStatus::InProgress => (uppercase(status_message), "?"@),
    }
}

fn caps_name_exec(c: Color) -> (v: Vec<char>)
    ensures
        v@ == caps_name(c),
{
    match c {
        Color::White => chars_of("WHITE"),
        Color::Black => chars_of("BLACK"),
    }
}

fn king_icon_exec(c: Color) -> (s: &'static str)
    ensures
        s@ == king_icon(c),
{
    match c {
        Color::White => "\u{2654}",
        Color::Black => "\u{265a}",
    }
}

fn win_text(c: Color, how: &str) -> (s: String)
    ensures
        s@ == caps_name(c) + how@,
{
    let mut v = caps_name_exec(c);
    push_all(&mut v, &chars_of(how));
    string_of(&v)
}

/// The banner's headline and icon.
pub fn result_headline(status: GameStatus, status_message: &str) -> (r: (String, &'static str))
    ensures
        r.0@ == headline_of(status, status_message@).0,
        r.1@ == headline_of(status, status_message@).1,
{
    match status {
        GameStatus::Finished(result) => match result {
            GameResult::Checkmate(c) => (win_text(c, " WINS BY CHECKMATE"), king_icon_exec(c)),
            GameResult::Stalemate => (string_of(&chars_of("GAME DRAWN - STALEMATE")), "="),
            GameResult::DrawByRepetition => (string_of(&chars_of("GAME DRAWN - REPETITION")), "="),
            GameResult::DrawByFiftyMove => (string_of(&chars_of("GAME DRAWN - FIFTY MOVES")), "="),
            GameResult::DrawByInsufficientMaterial => (
                string_of(&chars_of("GAME DRAWN - INSUFFICIENT MATERIAL")),
                "=",
            ),
            GameResult::DrawByAgreement => (string_of(&chars_of("GAME DRAWN - AGREEMENT")), "="),
            GameResult::Resignation(c) => {
                let winner = c.opponent();
                (win_text(winner, " WINS BY RESIGNATION"), king_icon_exec(winner))
            },
        },
        GameStatus::InProgress => (uppercase_text(status_message), "?"),
    }
}

/// The banner's line about the opponent.
pub open spec fn opponent_line_of(mode: GameMode, status: GameStatus) -> Seq<char> {
    match mode {
        GameMode::VsAi(_) => match status {
            GameStatus::Finished(GameResult::Checkmate(c)) => if player_wins(mode, c) {
                "You defeated Computer"@
            } else {
                "You lost to Computer"@
            },
            GameStatus::Finished(GameResult::Resignation(c)) => if player_wins(mode, c) {
                "You resigned against Computer"@
            } else {
                "Computer resigned"@
            },
            GameStatus::Finished(_) => "Draw against Computer"@,
            GameStatus::InProgress => Seq::empty(),
        },
        GameMode::Online { opponent_name, .. } => match status {
            GameStatus::Finished(GameResult::Checkmate(c)) => if player_wins(mode, c) {
                "You defeated "@ + opponent_name@
            } else {
                "You lost to "@ + opponent_name@
            },
            GameStatus::Finished(_) => "Draw against "@ + opponent_name@,
            GameStatus::InProgress => Seq::empty(),
        },
        GameMode::Local => "Local game"@,
    }
}

fn with_name(prefix: &str, name: &String) -> (s: String)
    ensures
        s@ == prefix@ + name@,
{
    let mut v = chars_of(prefix);
    push_all(&mut v, &chars_of(name.as_str()));
    string_of(&v)
}

/// The line about the opponent, for the game the application shows.
pub fn opponent_line(app: &App) -> (s: String)
    ensures
        s@ == opponent_line_of(app.game_mode, app.game@.status),
{
    let status = app.game.status();
    match &app.game_mode {
        GameMode::VsAi(_) => match status {
            GameStatus::Finished(GameResult::Checkmate(c)) => if is_player_winner(app, c) {
                string_of(&chars_of("You defeated Computer"))
            } else {
                string_of(&chars_of("You lost to Computer"))
            },
            GameStatus::Finished(GameResult::Resignation(c)) => if is_player_color(app, c) {
                string_of(&chars_of("You resigned against Computer"))
            } else {
                string_of(&chars_of("Computer resigned"))
            },
            GameStatus::Finished(_) => string_of(&chars_of("Draw against Computer")),
            GameStatus::InProgress => String::new(),
        },
        GameMode::Online { opponent_name, .. } => match status {
            GameStatus::Finished(GameResult::Checkmate(c)) => if is_player_winner(app, c) {
                with_name("You defeated ", opponent_name)
            } else {
                with_name("You lost to ", opponent_name)
            },
            GameStatus::Finished(_) => with_name("Draw against ", opponent_name),
            GameStatus::InProgress => String::new(),
        },
        GameMode::Local => string_of(&chars_of("Local game")),
    }
}

} // verus!
