//! A game between two connected players: whose turn it is, the moves in
//! SAN, and how the game ended (by the rules, by resignation or by agreement).
//!
//! The channels to the two players stay with the server, which pairs each
//! room with them; players are known here by their numeric ids.
use vstd::prelude::*;
use crate::chess::types::Color;
use crate::chess::board::BoardModel;
use crate::game::notation::{parse_san, parse_san_of, san_of, to_algebraic};
use crate::game::state::{make_move_of, GameModel, GameResult, GameState, GameStatus};
use crate::text::{chars_of, push_all, string_of};

verus! {

pub struct GameRoom {
    pub id: String,
    pub state: GameState,
    pub white_id: u128,
    pub black_id: u128,
    pub white_name: String,
    pub black_name: String,
    /// The moves played, in SAN.
    pub moves_san: Vec<String>,
    /// How the game ended outside play (resignation, agreed draw): the
    /// result and the detail.
    pub external_result: Option<(String, String)>,
    pub draw_offered_by: Option<Color>,
}

/// The views of an optional pair of strings.
pub open spec fn pair_view(p: Option<(String, String)>) -> Option<(Seq<char>, Seq<char>)> {
    match p {
        Some((a, b)) => Some((a@, b@)),
        None => None,
    }
}

/// The result and the detail of a game result.
pub open spec fn result_texts(r: GameResult) -> (Seq<char>, Seq<char>) {
    match r {
        GameResult::Checkmate(c) => (
            if c == Color::White {
                "White wins"@
            } else {
                "Black wins"@
            },
            "Checkmate"@,
        ),
        GameResult::Stalemate => ("Draw"@, "Stalemate"@),
        GameResult::DrawByRepetition => ("Draw"@, "Threefold repetition"@),
        GameResult::DrawByFiftyMove => ("Draw"@, "Fifty-move rule"@),
        GameResult::DrawByInsufficientMaterial => ("Draw"@, "Insufficient material"@),
        GameResult::DrawByAgreement => ("Draw"@, "By agreement"@),
        GameResult::Resignation(c) => (
            if c == Color::White {
                "Black wins"@
            } else {
                "White wins"@
            },
            "Resignation"@,
        ),
    }
}

/// Whether a result is a draw: every result but a checkmate or a
/// resignation.
pub open spec fn is_drawn(r: GameResult) -> bool {
    !(r is Checkmate) && !(r is Resignation)
}

/// How a winner is announced.
pub open spec fn winner_text(c: Color) -> Seq<char> {
    if c == Color::White {
        "White wins"@
    } else {
        "Black wins"@
    }
}

/// The result a room reports for a game finished by the rules: "Draw" for
/// exactly the drawn results; the winner for a checkmate, the opponent of
/// the resigning side for a resignation, so a checkmate by one side and a
/// resignation by the other read alike.
pub proof fn lemma_reported_result(room: GameRoom, r: GameResult)
    requires
        room.external_result is None,
        room.state@.status == GameStatus::Finished(r),
    ensures
        room_result(room) is Some,
        room_result(room).unwrap().0 == "Draw"@ <==> is_drawn(r),
        r matches GameResult::Checkmate(c) ==> room_result(room).unwrap().0 == winner_text(c),
        r matches GameResult::Resignation(c) ==> room_result(room).unwrap().0 == winner_text(c.spec_opponent()),
        forall|c: Color| result_texts(GameResult::Checkmate(c)).0 == result_texts(GameResult::Resignation(c.spec_opponent())).0,
{
    reveal_strlit("Draw");
    reveal_strlit("White wins");
    reveal_strlit("Black wins");
    assert("Draw"@ != "White wins"@ && "Draw"@ != "Black wins"@) by {
        assert("Draw"@[0] != "White wins"@[0]);
        assert("Draw"@[0] != "Black wins"@[0]);
    }
}

/// The id of the player whose turn it is.
pub open spec fn to_move_id(room: GameRoom) -> u128 {
    if room.state@.board.side == Color::White {
        room.white_id
    } else {
        room.black_id
    }
}

/// Whether the game is over, by the rules or otherwise.
pub open spec fn room_finished(room: GameRoom) -> bool {
    room.external_result is Some || room.state@.status is Finished
}

/// The result strings of a room, if the game is over.
pub open spec fn room_result(room: GameRoom) -> Option<(Seq<char>, Seq<char>)> {
    match room.external_result {
        Some(ext) => pair_view(Some(ext)),
        None => match room.state@.status {
            GameStatus::Finished(r) => Some(result_texts(r)),
            GameStatus::InProgress => None,
        },
    }
}

/// What a move attempt by a player comes to: the refusal's message, or the
/// move's SAN and the game after it.
pub open spec fn try_move_of(room: GameRoom, user_id: u128, san: Seq<char>) -> Result<(Seq<char>, GameModel), Seq<char>> {
    if room_finished(room) {
        Err("Game is already finished"@)
    } else if user_id != to_move_id(room) {
        Err("Not your turn"@)
    } else {
        match parse_san_of(room.state@.board, san) {
            None => Err("Invalid move: "@ + san),
            Some(mv) => match make_move_of(room.state@, mv) {
                Err(e) => Err(e),
                Ok(g) => Ok((san_of(room.state@.board, mv), g)),
            },
        }
    }
}

/// Two rooms alike in everything, the game taken by its view.
pub open spec fn same_room(a: GameRoom, b: GameRoom) -> bool {
    &&& a.id == b.id
    &&& a.state@ == b.state@
    &&& a.white_id == b.white_id
    &&& a.black_id == b.black_id
    &&& a.white_name == b.white_name
    &&& a.black_name == b.black_name
    &&& a.moves_san == b.moves_san
    &&& a.external_result == b.external_result
    &&& a.draw_offered_by == b.draw_offered_by
}

fn text(s: &str) -> (r: String)
    ensures
        r@ == s@,
{
    s.to_owned()
}

impl GameRoom {
    /// A player's move in SAN: refused when the game is over, when it is
    /// not their turn, when the SAN names no legal move, or when the game
    /// refuses it; otherwise it is played, any draw offer lapses, and its
    /// SAN (as written from the position before it) is recorded and returned.
    pub fn try_move(&mut self, user_id: u128, san: &str) -> (r: Result<String, String>)
        ensures
            match try_move_of(*old(self), user_id, san@) {
                Err(e) => r matches Err(m) && m@ == e && same_room(*final(self), *old(self)),
                Ok((s, g)) => r matches Ok(m) && m@ == s && final(self).state@ == g && final(self).draw_offered_by
                    is None && final(self).moves_san@.len() == old(self).moves_san@.len() + 1
                    && final(self).moves_san@.take(old(self).moves_san@.len() as int) == old(self).moves_san@
                    && final(self).moves_san@.last()@ == s && final(self).id == old(self).id && final(self).white_id
                    == old(self).white_id && final(self).black_id == old(self).black_id
                    && final(self).external_result == old(self).external_result,
            },
    {
        if self.is_finished() {
            return Err(text("Game is already finished"));
        }
        let expected = match self.state.side_to_move() {
            Color::White => self.white_id,
            Color::Black => self.black_id,
        };
        if user_id != expected {
            return Err(text("Not your turn"));
        }
        let mv = match parse_san(self.state.board(), san) {
            Some(mv) => mv,
            None => {
                let mut msg = chars_of("Invalid move: ");
                push_all(&mut msg, &chars_of(san));
                return Err(string_of(&msg));
            },
        };
        let canonical = to_algebraic(self.state.board(), &mv);
        match self.state.try_make_move(mv) {
            Err(e) => {
                return Err(e);
            },
            Ok(()) => {},
        }
        self.draw_offered_by = None;
        let ghost before = self.moves_san@;
        self.moves_san.push(canonical.clone());
        assert(self.moves_san@.take(before.len() as int) =~= before);
        Ok(canonical)
    }

    /// Whether the game is over, by the rules or otherwise.
    pub fn is_finished(&self) -> (b: bool)
        ensures
            b == room_finished(*self),
    {
        self.external_result.is_some() || match self.state.status() {
            GameStatus::Finished(_) => true,
            GameStatus::InProgress => false,
        }
    }

    /// The result and the detail, once the game is over.
    pub fn result_strings(&self) -> (r: Option<(String, String)>)
        ensures
            pair_view(r) == room_result(*self),
    {
        match &self.external_result {
            Some((a, b)) => {
                return Some((a.clone(), b.clone()));
            },
            None => {},
        }
        match self.state.status() {
            GameStatus::Finished(result) => {
                let (res, detail) = match result {
                    GameResult::Checkmate(color) => {
                        let winner = match color {
                            Color::White => text("White wins"),
                            Color::Black => text("Black wins"),
                        };
                        (winner, text("Checkmate"))
                    },
                    GameResult::Stalemate => (text("Draw"), text("Stalemate")),
                    GameResult::DrawByRepetition => (text("Draw"), text("Threefold repetition")),
                    GameResult::DrawByFiftyMove => (text("Draw"), text("Fifty-move rule")),
                    GameResult::DrawByInsufficientMaterial => (text("Draw"), text("Insufficient material")),
                    GameResult::DrawByAgreement => (text("Draw"), text("By agreement")),
                    GameResult::Resignation(color) => {
                        let winner = match color {
                            Color::White => text("Black wins"),
                            Color::Black => text("White wins"),
                        };
                        (winner, text("Resignation"))
                    },
                };
                Some((res, detail))
            },
            GameStatus::InProgress => None,
        }
    }

    /// Records a resignation: the other player wins.
    pub fn set_resignation(&mut self, resigning_color: Color)
        ensures
            pair_view(final(self).external_result) == Some(
                (
                    if resigning_color == Color::White {
                        "Black wins"@
                    } else {
                        "White wins"@
                    },
                    "Resignation"@,
                ),
            ),
            final(self).state == old(self).state,
            final(self).moves_san == old(self).moves_san,
            final(self).draw_offered_by == old(self).draw_offered_by,
            final(self).white_id == old(self).white_id,
            final(self).black_id == old(self).black_id,
            final(self).id == old(self).id,
    {
        let winner = match resigning_color {
            Color::White => text("Black wins"),
            Color::Black => text("White wins"),
        };
        self.external_result = Some((winner, text("Resignation")));
    }

    /// Records a draw by agreement.
    pub fn set_draw_by_agreement(&mut self)
        ensures
            pair_view(final(self).external_result) == Some(("Draw"@, "By agreement"@)),
            final(self).state == old(self).state,
            final(self).moves_san == old(self).moves_san,
            final(self).draw_offered_by == old(self).draw_offered_by,
            final(self).white_id == old(self).white_id,
            final(self).black_id == old(self).black_id,
            final(self).id == old(self).id,
    {
        self.external_result = Some((text("Draw"), text("By agreement")));
    }

    /// The color a user plays in this room, if they play in it (White when
    /// a user plays both sides).
    pub fn color_of(&self, user_id: u128) -> (r: Option<Color>)
        ensures
            r == (if user_id == self.white_id {
                Some(Color::White)
            } else if user_id == self.black_id {
                Some(Color::Black)
            } else {
                None
            }),
    {
        if user_id == self.white_id {
            Some(Color::White)
        } else if user_id == self.black_id {
            Some(Color::Black)
        } else {
            None
        }
    }
}

} // verus!
