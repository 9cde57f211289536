//! Saved games: what a finished game is saved as.
use vstd::prelude::*;
use crate::app::GameMode;
use crate::chess::types::Color;
use crate::game::notation::{san_of, to_algebraic};
use crate::game::state::{GameResult, GameState, MoveRecord, record_model};
use crate::text::{chars_of, push_all, string_of};

verus! {

/// A finished game as it is saved.
#[derive(Clone, Debug)]
pub struct SavedGame {
    pub id: String,
    pub date: String,
    pub result: String,
    pub result_detail: String,
    pub mode: String,
    /// The moves in SAN.
    pub moves: Vec<String>,
    pub move_count: usize,
}

impl SavedGame {
    /// A copy of the record.
    pub fn duplicate(&self) -> (r: SavedGame)
        ensures
            r.id == self.id,
            r.date == self.date,
            r.result == self.result,
            r.result_detail == self.result_detail,
            r.mode == self.mode,
            r.moves@ == self.moves@,
            r.move_count == self.move_count,
    {
        let mut moves: Vec<String> = Vec::new();
        let mut i: usize = 0;
        while i < self.moves.len()
            invariant
                i <= self.moves@.len(),
                moves@ == self.moves@.take(i as int),
            decreases self.moves.len() - i,
        {
            moves.push(self.moves[i].clone());
            assert(moves@ =~= self.moves@.take(i + 1));
            i = i + 1;
        }
        assert(self.moves@.take(i as int) =~= self.moves@);
        SavedGame {
            id: self.id.clone(),
            date: self.date.clone(),
            result: self.result.clone(),
            result_detail: self.result_detail.clone(),
            mode: self.mode.clone(),
            moves,
            move_count: self.move_count,
        }
    }
}

/// The result and its detail as saved: the winner of a checkmate, the
/// opponent of the side that resigned, or a draw with its reason.
pub open spec fn saved_result_of(r: GameResult) -> (Seq<char>, Seq<char>) {
    match r {
        GameResult::Checkmate(c) => (if c == Color::White { "White wins"@ } else { "Black wins"@ }, "Checkmate"@),
        GameResult::Stalemate => ("Draw"@, "Stalemate"@),
        GameResult::DrawByRepetition => ("Draw"@, "Repetition"@),
        GameResult::DrawByFiftyMove => ("Draw"@, "Fifty-move rule"@),
        GameResult::DrawByInsufficientMaterial => ("Draw"@, "Insufficient material"@),
        GameResult::DrawByAgreement => ("Draw"@, "Agreement"@),
        GameResult::Resignation(c) => (if c == Color::White { "Black wins"@ } else { "White wins"@ }, "Resignation"@),
    }
}

/// The result and its detail as saved.
pub fn saved_result(r: &GameResult) -> (s: (String, String))
    ensures
        (s.0@, s.1@) == saved_result_of(*r),
{
    let (a, b) = match r {
        GameResult::Checkmate(c) => (if *c == Color::White { "White wins" } else { "Black wins" }, "Checkmate"),
        GameResult::Stalemate => ("Draw", "Stalemate"),
        GameResult::DrawByRepetition => ("Draw", "Repetition"),
        GameResult::DrawByFiftyMove => ("Draw", "Fifty-move rule"),
        GameResult::DrawByInsufficientMaterial => ("Draw", "Insufficient material"),
        GameResult::DrawByAgreement => ("Draw", "Agreement"),
        GameResult::Resignation(c) => (if *c == Color::White { "Black wins" } else { "White wins" }, "Resignation"),
    };
    (string_of(&chars_of(a)), string_of(&chars_of(b)))
}

pub open spec fn mode_label_of(m: GameMode) -> Seq<char> {
    match m {
        GameMode::VsAi(_) => "vs AI"@,
        GameMode::Local => "Local"@,
        GameMode::Online { opponent_name, .. } => "Online vs "@ + opponent_name@,
    }
}

/// How the game was played, as saved.
pub fn mode_label(m: &GameMode) -> (s: String)
    ensures
        s@ == mode_label_of(*m),
{
    match m {
        GameMode::VsAi(_) => string_of(&chars_of("vs AI")),
        GameMode::Local => string_of(&chars_of("Local")),
        GameMode::Online { opponent_name, .. } => {
            let mut v = chars_of("Online vs ");
            push_all(&mut v, &chars_of(opponent_name.as_str()));
            string_of(&v)
        },
    }
}

/// The SAN of each move of a history, from the position before it.
pub fn history_san(history: &[MoveRecord]) -> (v: Vec<String>)
    ensures
        v@.len() == history@.len(),
        forall|i: int|
            0 <= i < history@.len() ==> (#[trigger] v@[i])@ == san_of(
                record_model(history@[i]).previous,
                record_model(history@[i]).mv,
            ),
{
    let mut v: Vec<String> = Vec::new();
    let mut i: usize = 0;
    while i < history.len()
        invariant
            i <= history@.len(),
            v@.len() == i,
            forall|k: int|
                0 <= k < i ==> (#[trigger] v@[k])@ == san_of(
                    record_model(history@[k]).previous,
                    record_model(history@[k]).mv,
                ),
        decreases history.len() - i,
    {
        let r = &history[i];
        v.push(to_algebraic(&r.previous_board, &r.mv));
        i = i + 1;
    }
    v
}

/// The record of a finished game, under the given id and date.
pub fn saved_game(game: &GameState, mode: &GameMode, result: &GameResult, id: String, date: String) -> (s: SavedGame)
    ensures
        s.id == id,
        s.date == date,
        (s.result@, s.result_detail@) == saved_result_of(*result),
        s.mode@ == mode_label_of(*mode),
        s.moves@.len() == game@.history.len(),
        s.move_count == s.moves@.len(),
        forall|i: int|
            0 <= i < game@.history.len() ==> (#[trigger] s.moves@[i])@ == san_of(
                game@.history[i].previous,
                game@.history[i].mv,
            ),
{
    let (result_str, result_detail) = saved_result(result);
    let h = game.move_history();
    let moves = history_san(h);
    proof {
        assert forall|i: int| 0 <= i < game@.history.len() implies game@.history[i] == record_model(h@[i]) by {
            assert(h@.map_values(|r: MoveRecord| record_model(r))[i] == record_model(h@[i]));
        }
    }
    let move_count = moves.len();
    SavedGame { id, date, result: result_str, result_detail, mode: mode_label(mode), moves, move_count }
}

} // verus!
