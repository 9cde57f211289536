//! Screens, menus and modes of the terminal application, and the menu
//! entries' labels.
use vstd::prelude::*;
use std::time::Instant;
use crate::chess::types::{Color, File, Move, Piece, Rank, Square};
use crate::chess::board::{legal_moves_of, Board, BoardModel};
use crate::config::{Config, PieceStyle};
use crate::game::notation::{parse_san, parse_san_of, san_of, to_algebraic};
use crate::game::replay::SavedGame;
use crate::game::state::{make_move_of, GameModel, GameResult, GameState, GameStatus};
use crate::protocol::ClientMessage;
use crate::theme::{theme_of, ColorScheme, Theme};
use crate::text::{chars_of, push_all, string_of};

verus! {

/// How keystrokes in a game are read.
#[derive(Clone, Copy, PartialEq, Eq, Debug, Structural)]
pub enum InputMode {
    /// Typing moves and navigating the board.
    Play,
    /// A ":command" line.
    Command,
}

/// The screen being shown.
#[derive(Clone, Copy, PartialEq, Eq, Debug, Structural)]
pub enum Screen {
    Launch,
    ColorPicker,
    MainMenu,
    InGame,
    PostGame,
    ReplayViewer,
}

/// A tab of the main menu.
#[derive(Clone, Copy, PartialEq, Eq, Debug, Structural)]
pub enum MenuTab {
    Play,
    Replays,
    Multiplayer,
    Settings,
}

impl MenuTab {
    pub open spec fn spec_name(self) -> Seq<char> {
        match self {
            MenuTab::Play => "PLAY"@,
            MenuTab::Replays => "REPLAYS"@,
            MenuTab::Multiplayer => "ONLINE"@,
            MenuTab::Settings => "⚙"@,
        }
    }

    /// The tabs, in display order.
    pub fn all() -> (v: Vec<MenuTab>)
        ensures
            v@ == seq![MenuTab::Play, MenuTab::Replays, MenuTab::Multiplayer, MenuTab::Settings],
    {
        vec![MenuTab::Play, MenuTab::Replays, MenuTab::Multiplayer, MenuTab::Settings]
    }

    /// The label of the tab.
    pub fn name(&self) -> (s: &'static str)
        ensures
            s@ == self.spec_name(),
    {
        match self {
            MenuTab::Play => "PLAY",
            MenuTab::Replays => "REPLAYS",
            MenuTab::Multiplayer => "ONLINE",
            MenuTab::Settings => "⚙",
        }
    }
}

/// A friend as the friends sidebar shows them.
#[derive(Clone, Debug)]
pub struct FriendInfo {
    pub name: String,
    pub elo: i32,
    pub online: bool,
    /// "In Game", "In Menu", "Idle" or "Offline".
    pub activity: String,
}

/// An entry of the Play tab.
#[derive(Clone, Copy, PartialEq, Eq, Debug, Structural)]
pub enum PlayMenuItem {
    VsComputer,
    LocalGame,
    Puzzles,
    AiCoach,
    AnalysisBoard,
    Chess960,
}

impl PlayMenuItem {
    /// The entries, in display order.
    pub fn all() -> (v: Vec<PlayMenuItem>)
        ensures
            v@ == seq![
                PlayMenuItem::VsComputer,
                PlayMenuItem::LocalGame,
                PlayMenuItem::Puzzles,
                PlayMenuItem::AiCoach,
                PlayMenuItem::AnalysisBoard,
                PlayMenuItem::Chess960,
            ],
    {
        vec![
            PlayMenuItem::VsComputer,
            PlayMenuItem::LocalGame,
            PlayMenuItem::Puzzles,
            PlayMenuItem::AiCoach,
            PlayMenuItem::AnalysisBoard,
            PlayMenuItem::Chess960,
        ]
    }

    pub open spec fn spec_is_available(self) -> bool {
        self == PlayMenuItem::VsComputer || self == PlayMenuItem::LocalGame
    }

    /// Only the game against the computer and the local game can be played yet.
    pub fn is_available(&self) -> (b: bool)
        ensures
            b == self.spec_is_available(),
    {
        match self {
            PlayMenuItem::VsComputer | PlayMenuItem::LocalGame => true,
            _ => false,
        }
    }

    pub open spec fn spec_icon(self) -> Seq<char> {
        match self {
            PlayMenuItem::VsComputer => "♚"@,
            PlayMenuItem::LocalGame => "♟"@,
            PlayMenuItem::Puzzles => "✦"@,
            PlayMenuItem::AiCoach => "⚡"@,
            PlayMenuItem::AnalysisBoard => "⊞"@,
            PlayMenuItem::Chess960 => "♔"@,
        }
    }

    pub fn icon(&self) -> (s: &'static str)
        ensures
            s@ == self.spec_icon(),
    {
        match self {
            PlayMenuItem::VsComputer => "♚",
            PlayMenuItem::LocalGame => "♟",
            PlayMenuItem::Puzzles => "✦",
            PlayMenuItem::AiCoach => "⚡",
            PlayMenuItem::AnalysisBoard => "⊞",
            PlayMenuItem::Chess960 => "♔",
        }
    }

    pub open spec fn spec_title(self) -> Seq<char> {
        match self {
            PlayMenuItem::VsComputer => "VS COMPUTER"@,
            PlayMenuItem::LocalGame => "LOCAL GAME"@,
            PlayMenuItem::Puzzles => "PUZZLES"@,
            PlayMenuItem::AiCoach => "AI COACH"@,
            PlayMenuItem::AnalysisBoard => "ANALYSIS BOARD"@,
            PlayMenuItem::Chess960 => "CHESS960"@,
        }
    }

    pub fn title(&self) -> (s: &'static str)
        ensures
            s@ == self.spec_title(),
    {
        match self {
            PlayMenuItem::VsComputer => "VS COMPUTER",
            PlayMenuItem::LocalGame => "LOCAL GAME",
            PlayMenuItem::Puzzles => "PUZZLES",
            PlayMenuItem::AiCoach => "AI COACH",
            PlayMenuItem::AnalysisBoard => "ANALYSIS BOARD",
            PlayMenuItem::Chess960 => "CHESS960",
        }
    }

    pub open spec fn spec_subtitle(self) -> Seq<char> {
        match self {
            PlayMenuItem::VsComputer => "Battle the AI"@,
            PlayMenuItem::LocalGame => "2 players, 1 terminal"@,
            PlayMenuItem::Puzzles => "Sharpen your tactics"@,
            PlayMenuItem::AiCoach => "Learn from your mistakes"@,
            PlayMenuItem::AnalysisBoard => "Explore lines & eval"@,
            PlayMenuItem::Chess960 => "Fischer Random chess"@,
        }
    }

    pub fn subtitle(&self) -> (s: &'static str)
        ensures
            s@ == self.spec_subtitle(),
    {
        match self {
            PlayMenuItem::VsComputer => "Battle the AI",
            PlayMenuItem::LocalGame => "2 players, 1 terminal",
            PlayMenuItem::Puzzles => "Sharpen your tactics",
            PlayMenuItem::AiCoach => "Learn from your mistakes",
            PlayMenuItem::AnalysisBoard => "Explore lines & eval",
            PlayMenuItem::Chess960 => "Fischer Random chess",
        }
    }

    /// "Soon" on the entries that cannot be played yet.
    pub fn tag(&self) -> (t: Option<&'static str>)
        ensures
            t is None <==> self.spec_is_available(),
            t matches Some(s) ==> s@ == "Soon"@,
    {
        if self.is_available() {
            None
        } else {
            Some("Soon")
        }
    }
}

/// Where the player is in signing in and finding an online game.
#[derive(Clone, PartialEq, Eq, Debug)]
pub enum MultiplayerState {
    LoggedOut,
    Connecting,
    EnteringEmail,
    WaitingForOtp,
    EnteringOtp,
    EnteringDisplayName,
    EnteringPassword,
    EnteringLoginPassword,
    LoggedIn { display_name: String, elo: i32 },
    Searching,
    InGame,
}

pub open spec fn is_text_input_state(s: MultiplayerState) -> bool {
    match s {
        MultiplayerState::EnteringEmail | MultiplayerState::EnteringOtp | MultiplayerState::EnteringDisplayName
        | MultiplayerState::EnteringPassword | MultiplayerState::EnteringLoginPassword => true,
        _ => false,
    }
}

/// Whether the online tab is reading typed text in this state.
pub fn multiplayer_is_text_input(state: &MultiplayerState) -> (b: bool)
    ensures
        b == is_text_input_state(*state),
{
    match state {
        MultiplayerState::EnteringEmail | MultiplayerState::EnteringOtp | MultiplayerState::EnteringDisplayName
        | MultiplayerState::EnteringPassword | MultiplayerState::EnteringLoginPassword => true,
        _ => false,
    }
}

/// Who plays the game.
#[derive(Clone, PartialEq, Eq, Debug)]
pub enum GameMode {
    /// Two players at one terminal.
    Local,
    /// Against the computer, which plays the given color.
    VsAi(Color),
    /// Against a player on the server.
    Online { game_id: String, my_color: Color, opponent_name: String },
}

// ── Replays ─────────────────────────────────────────────────────────────

/// A saved game being stepped through: the positions after each of its
/// moves (as far as they could be replayed), and which one is shown.
pub struct ReplayViewerState {
    pub game: SavedGame,
    pub current_move: usize,
    pub board: Board,
    /// The starting position, then the position after each move.
    pub boards: Vec<Board>,
}

/// The positions of a list of SAN moves from the start, stopping at the
/// first move that does not read as a legal move.
pub open spec fn replay_positions(start: BoardModel, sans: Seq<Seq<char>>) -> Seq<BoardModel>
    decreases sans.len(),
{
    if sans.len() == 0 {
        seq![start]
    } else {
        match parse_san_of(start, sans[0]) {
            Some(mv) => match crate::chess::board::play_of(start, mv) {
                Some(next) => seq![start] + replay_positions(next, sans.drop_first()),
                None => seq![start],
            },
            None => seq![start],
        }
    }
}

impl ReplayViewerState {
    pub open spec fn wf(&self) -> bool {
        self.boards@.len() >= 1 && self.current_move < self.boards@.len()
    }

    pub open spec fn positions(&self) -> Seq<BoardModel> {
        self.boards@.map_values(|b: Board| b@)
    }

    /// A viewer on a saved game, at its start.
    pub fn from_saved(game: SavedGame) -> (v: ReplayViewerState)
        ensures
            v.wf(),
            v.current_move == 0,
            v.game == game,
            v.board@ == crate::chess::board::startpos_model(),
            v.positions() == replay_positions(
                crate::chess::board::startpos_model(),
                game.moves@.map_values(|s: String| s@),
            ),
    {
        let ghost sans = game.moves@.map_values(|s: String| s@);
        let mut board = Board::startpos();
        let mut boards: Vec<Board> = Vec::new();
        boards.push(board.duplicate());
        let mut i: usize = 0;
        proof {
            assert(sans.skip(0) =~= sans);
        }
        while i < game.moves.len()
            invariant
                i <= game.moves@.len(),
                sans == game.moves@.map_values(|s: String| s@),
                boards@.len() >= 1,
                boards@.last()@ == board@,
                boards@.map_values(|b: Board| b@).drop_last() + replay_positions(board@, sans.skip(i as int))
                    == replay_positions(crate::chess::board::startpos_model(), sans),
            ensures
                boards@.map_values(|b: Board| b@) == replay_positions(crate::chess::board::startpos_model(), sans),
            decreases game.moves.len() - i,
        {
            let ghost before = boards@.map_values(|b: Board| b@);
            assert(sans.skip(i as int)[0] == game.moves@[i as int]@);
            assert(sans.skip(i as int).drop_first() =~= sans.skip(i + 1));
            proof {
                assert(before =~= before.drop_last().push(board@));
            }
            let mv = match parse_san(&board, game.moves[i].as_str()) {
                Some(mv) => mv,
                None => {
                    break;
                },
            };
            let next = match board.play(mv) {
                Some(n) => n,
                None => {
                    break;
                },
            };
            board = next;
            boards.push(board.duplicate());
            assert(boards@.map_values(|b: Board| b@) =~= before.push(board@));
            assert(boards@.map_values(|b: Board| b@).drop_last() =~= before);
            i = i + 1;
            proof {
                if i == game.moves.len() {
                    let pos = boards@.map_values(|b: Board| b@);
                    assert(pos =~= pos.drop_last().push(board@));
                }
            }
        }
        ReplayViewerState { game, current_move: 0, board: Board::startpos(), boards }
    }

    /// The position shown.
    pub fn current_board(&self) -> (b: &Board)
        requires
            self.wf(),
        ensures
            *b == self.boards@[self.current_move as int],
    {
        &self.boards[self.current_move]
    }

    /// How many moves were replayed.
    pub fn total_moves(&self) -> (n: usize)
        requires
            self.wf(),
        ensures
            n == self.boards@.len() - 1,
    {
        self.boards.len() - 1
    }

    /// One move forward, unless at the end.
    pub fn go_next(&mut self)
        requires
            old(self).wf(),
        ensures
            final(self).wf(),
            final(self).current_move == if old(self).current_move + 1 < old(self).boards@.len() {
                old(self).current_move + 1
            } else {
                old(self).current_move as int
            },
            final(self).boards == old(self).boards,
            final(self).game == old(self).game,
    {
        if self.current_move < self.total_moves() {
            self.current_move = self.current_move + 1;
        }
    }

    /// One move back, unless at the start.
    pub fn go_prev(&mut self)
        requires
            old(self).wf(),
        ensures
            final(self).wf(),
            final(self).current_move == if old(self).current_move > 0 {
                old(self).current_move - 1
            } else {
                0
            },
            final(self).boards == old(self).boards,
            final(self).game == old(self).game,
    {
        if self.current_move > 0 {
            self.current_move = self.current_move - 1;
        }
    }

    /// To the starting position.
    pub fn go_start(&mut self)
        requires
            old(self).wf(),
        ensures
            final(self).wf(),
            final(self).current_move == 0,
            final(self).boards == old(self).boards,
            final(self).game == old(self).game,
    {
        self.current_move = 0;
    }

    /// To the last position.
    pub fn go_end(&mut self)
        requires
            old(self).wf(),
        ensures
            final(self).wf(),
            final(self).current_move == old(self).boards@.len() - 1,
            final(self).boards == old(self).boards,
            final(self).game == old(self).game,
    {
        self.current_move = self.total_moves();
    }
}

// ── The application state ───────────────────────────────────────────────

/// Outside work that a change of the application asks for, done by the
/// program around it.
pub enum Effect {
    /// Open a connection to the server at this address.
    Connect(String),
    /// Close the connection.
    Disconnect,
    /// Send a message to the server, when connected.
    Send(ClientMessage),
    /// Forget the stored session.
    ClearSession,
    /// Save the color scheme's name in the configuration.
    SaveColorScheme(String),
    /// Save the piece style's name in the configuration.
    SavePieceStyle(String),
    /// Load the saved replays (and hand them to `set_replays`).
    LoadReplays,
    /// Delete a saved replay.
    DeleteReplay(String),
    /// Save the finished game with its result.
    SaveGame(GameResult),
    /// Copy text to the clipboard.
    CopyToClipboard(String),
    /// Drop the rendered piece and board images.
    ResetImages,
    /// Keep the login session for the next run.
    SaveSession(crate::network::session::StoredSession),
}

/// The color schemes in the picker's order.
pub open spec fn scheme_list() -> Seq<ColorScheme> {
    seq![
        ColorScheme::Amber,
        ColorScheme::Green,
        ColorScheme::Blue,
        ColorScheme::Magenta,
        ColorScheme::Cyan,
        ColorScheme::Mono,
    ]
}

/// The piece styles in the settings' order.
pub open spec fn style_list() -> Seq<PieceStyle> {
    seq![
        PieceStyle::Generated3D,
        PieceStyle::PixelColor,
        PieceStyle::PixelDuo,
        PieceStyle::PixelMono,
        PieceStyle::Classic,
    ]
}

/// The state of the terminal application, apart from the connection and
/// the rendered images, which the program around it keeps.
pub struct App {
    pub screen: Screen,
    pub mode: InputMode,
    pub should_quit: bool,
    pub theme: Theme,
    pub menu_selection: usize,
    pub game: GameState,
    pub cursor_file: u8,
    pub cursor_rank: u8,
    pub selected_square: Option<Square>,
    pub legal_moves_for_selected: Vec<Move>,
    pub last_move: Option<(Square, Square)>,
    pub board_flipped: bool,
    pub input_buffer: String,
    pub command_buffer: String,
    pub status_message: String,
    pub move_list_scroll: usize,
    pub show_help: bool,
    pub show_move_hints: bool,
    pub pending_promotion: Option<Vec<Move>>,
    pub promotion_choice: usize,
    pub color_scheme_index: usize,
    pub game_mode: GameMode,
    pub active_tab: MenuTab,
    pub play_selection: usize,
    pub replay_list: Vec<SavedGame>,
    pub replay_selection: usize,
    pub replay_viewer: Option<ReplayViewerState>,
    pub multiplayer_state: MultiplayerState,
    pub multiplayer_selection: usize,
    pub login_input: String,
    pub otp_input: String,
    pub display_name_input: String,
    pub server_url: String,
    pub password_input: String,
    pub has_account: bool,
    pub tick: u64,
    pub use_kitty: bool,
    pub board_image_dirty: bool,
    pub kitty_image_hash: u64,
    pub kitty_image_id: u32,
    pub piece_style: PieceStyle,
    pub settings_style_index: usize,
    pub show_debug: bool,
    /// When the computer is to answer.
    pub ai_move_at: Option<Instant>,
    pub ai_difficulty: usize,
    pub friends_list: Vec<FriendInfo>,
    pub help_search: String,
    pub help_scroll: usize,
    pub game_start_time: Option<Instant>,
    /// 0 sign up, 1 log in, 2 guest.
    pub launch_selection: usize,
    /// 0 rematch, 1 review, 2 copy PGN, 3 menu.
    pub postgame_selection: usize,
}

/// The index of the scheme with a name in the picker's order, if any.
pub open spec fn scheme_index_of(name: Seq<char>) -> Option<int> {
    if exists|i: int| 0 <= i < 6 && scheme_list()[i].spec_name() == name {
        Some(choose|i: int| 0 <= i < 6 && scheme_list()[i].spec_name() == name)
    } else {
        None
    }
}

fn empty_string() -> (s: String)
    ensures
        s@ == Seq::<char>::empty(),
{
    String::new()
}

fn text(s: &str) -> (r: String)
    ensures
        r@ == s@,
{
    s.to_owned()
}

fn scheme_at(i: usize) -> (c: ColorScheme)
    requires
        i < 6,
    ensures
        c == scheme_list()[i as int],
{
    let all = ColorScheme::all();
    all[i]
}

fn style_at(i: usize) -> (p: PieceStyle)
    requires
        i < 5,
    ensures
        p == style_list()[i as int],
{
    let all = PieceStyle::all();
    all[i]
}

/// The square shown at a cursor position: the board seen from White, or
/// turned around when flipped.
pub open spec fn cursor_square_of(file: u8, rank: u8, flipped: bool) -> Square {
    if flipped {
        Square { file: File::spec_from_index((7 - file) as u8), rank: Rank::spec_from_index((7 - rank) as u8) }
    } else {
        Square { file: File::spec_from_index(file), rank: Rank::spec_from_index(rank) }
    }
}

/// The status line after a game ends.
pub open spec fn result_message_of(r: GameResult) -> Seq<char> {
    match r {
        GameResult::Checkmate(c) => "Checkmate! "@ + color_name(c) + " wins!"@,
        GameResult::Stalemate => "Draw by stalemate"@,
        GameResult::DrawByRepetition => "Draw by repetition"@,
        GameResult::DrawByFiftyMove => "Draw by fifty-move rule"@,
        GameResult::DrawByInsufficientMaterial => "Draw by insufficient material"@,
        GameResult::DrawByAgreement => "Draw by agreement"@,
        GameResult::Resignation(c) => color_name(c) + " resigned"@,
    }
}

/// The name of a color.
pub open spec fn color_name(c: Color) -> Seq<char> {
    if c == Color::White {
        "White"@
    } else {
        "Black"@
    }
}

fn color_name_exec(c: Color) -> (s: Vec<char>)
    ensures
        s@ == color_name(c),
{
    match c {
        Color::White => chars_of("White"),
        Color::Black => chars_of("Black"),
    }
}

fn result_message(r: &GameResult) -> (s: String)
    ensures
        s@ == result_message_of(*r),
{
    match r {
        GameResult::Checkmate(c) => {
            let mut v = chars_of("Checkmate! ");
            push_all(&mut v, &color_name_exec(*c));
            push_all(&mut v, &chars_of(" wins!"));
            string_of(&v)
        },
        GameResult::Stalemate => text("Draw by stalemate"),
        GameResult::DrawByRepetition => text("Draw by repetition"),
        GameResult::DrawByFiftyMove => text("Draw by fifty-move rule"),
        GameResult::DrawByInsufficientMaterial => text("Draw by insufficient material"),
        GameResult::DrawByAgreement => text("Draw by agreement"),
        GameResult::Resignation(c) => {
            let mut v = color_name_exec(*c);
            push_all(&mut v, &chars_of(" resigned"));
            string_of(&v)
        },
    }
}

/// The moves that go to a square, in their order.
pub open spec fn moves_to(s: Seq<Move>, sq: Square) -> Seq<Move>
    decreases s.len(),
{
    if s.len() == 0 {
        s
    } else if s.last().to == sq {
        moves_to(s.drop_last(), sq).push(s.last())
    } else {
        moves_to(s.drop_last(), sq)
    }
}

fn moves_to_exec(v: &Vec<Move>, sq: Square) -> (r: Vec<Move>)
    ensures
        r@ == moves_to(v@, sq),
{
    let mut out: Vec<Move> = Vec::new();
    let mut i: usize = 0;
    while i < v.len()
        invariant
            i <= v@.len(),
            out@ == moves_to(v@.take(i as int), sq),
        decreases v.len() - i,
    {
        assert(v@.take(i + 1).drop_last() =~= v@.take(i as int));
        if v[i].to == sq {
            out.push(v[i]);
        }
        i = i + 1;
    }
    assert(v@.take(v@.len() as int) =~= v@);
    out
}

/// std's `Duration::from_millis` (nothing is claimed of it).
#[verifier::external_body]
fn duration_millis(ms: u64) -> std::time::Duration {
    std::time::Duration::from_millis(ms)
}

/// std's `Instant::checked_add`: the instant that much later, or `None`
/// when it cannot be represented (nothing more is claimed of it).
#[verifier::external_body]
fn instant_checked_after(t: Instant, d: std::time::Duration) -> Option<Instant> {
    t.checked_add(d)
}

/// The instant the computer's answer is timed by: `ms` milliseconds from
/// now, or now when that instant cannot be represented.
fn instant_in_millis(ms: u64) -> Instant {
    let now = crate::clock::instant_now();
    let later = instant_checked_after(now, duration_millis(ms));
    match later {
        Some(t) => t,
        None => crate::clock::instant_now(),
    }
}

/// std's `Instant::now() >= deadline`: whether the time has come
/// (nothing is claimed of it).
#[verifier::external_body]
fn instant_reached(deadline: &Instant) -> bool {
    Instant::now() >= *deadline
}

/// The game a fresh start leaves: the position, the cursor in the middle,
/// nothing selected or typed.
pub open spec fn fresh_game(a: App) -> bool {
    &&& a.game@.board == crate::chess::board::startpos_model()
    &&& a.game@.history.len() == 0
    &&& a.game@.status == GameStatus::InProgress
    &&& a.screen == Screen::InGame
    &&& a.mode == InputMode::Play
    &&& a.cursor_file == 4
    &&& a.cursor_rank == 4
    &&& a.selected_square is None
    &&& a.legal_moves_for_selected@.len() == 0
    &&& a.last_move is None
    &&& a.input_buffer@.len() == 0
    &&& a.command_buffer@.len() == 0
    &&& a.status_message@.len() == 0
    &&& a.move_list_scroll == 0
    &&& !a.show_help
    &&& a.pending_promotion is None
    &&& a.promotion_choice == 0
    &&& a.board_image_dirty
}

impl App {
    /// The application as the configuration sets it up: the color picker
    /// the first time (no scheme saved), else the launch screen; the saved
    /// scheme and piece style when they name one.
    pub fn new(config: &Config) -> (app: App)
        ensures
            app.screen == (if config.color_scheme is Some { Screen::Launch } else { Screen::ColorPicker }),
            app.color_scheme_index < 6,
            app.theme == theme_of(scheme_list()[app.color_scheme_index as int]),
            config.color_scheme matches Some(n) ==> (scheme_index_of(n@) is Some ==> scheme_list()[app.color_scheme_index as int].spec_name() == n@),
            config.color_scheme matches Some(n) ==> (scheme_index_of(n@) is None ==> app.color_scheme_index == 0),
            config.color_scheme is None ==> app.color_scheme_index == 0,
            app.settings_style_index < 5,
            style_list()[app.settings_style_index as int] == app.piece_style,
            config.piece_style matches Some(n) ==> ((exists|p: PieceStyle| p.spec_name() == n@) ==> app.piece_style.spec_name() == n@),
            config.piece_style matches Some(n) ==> (!(exists|p: PieceStyle| p.spec_name() == n@) ==> app.piece_style == PieceStyle::Generated3D),
            config.piece_style is None ==> app.piece_style == PieceStyle::Generated3D,
            app.server_url == config.server_url,
            app.show_move_hints == config.show_move_hints,
            app.game_mode == GameMode::Local,
            app.multiplayer_state == MultiplayerState::LoggedOut,
            app.ai_difficulty == 5,
            !app.should_quit,
            crate::input::app_ok(app),
    {
        let piece_style = match &config.piece_style {
            Some(name) => match PieceStyle::from_name(name.as_str()) {
                Some(p) => p,
                None => PieceStyle::Generated3D,
            },
            None => PieceStyle::Generated3D,
        };
        let settings_style_index: usize = match piece_style {
            PieceStyle::Generated3D => 0,
            PieceStyle::PixelColor => 1,
            PieceStyle::PixelDuo => 2,
            PieceStyle::PixelMono => 3,
            PieceStyle::Classic => 4,
        };
        let screen = if config.color_scheme.is_some() {
            Screen::Launch
        } else {
            Screen::ColorPicker
        };
        let mut theme = Theme::from_scheme(ColorScheme::Amber);
        let mut color_scheme_index: usize = 0;
        match &config.color_scheme {
            Some(name) => {
                let target = chars_of(name.as_str());
                let mut i: usize = 0;
                while i < 6
                    invariant_except_break
                        color_scheme_index == 0,
                        theme == theme_of(scheme_list()[0]),
                    invariant
                        i <= 6,
                        target@ == name@,
                        forall|k: int| 0 <= k < i ==> (#[trigger] scheme_list()[k]).spec_name() != name@,
                    ensures
                        color_scheme_index < 6,
                        theme == theme_of(scheme_list()[color_scheme_index as int]),
                        (i < 6 && scheme_list()[color_scheme_index as int].spec_name() == name@) || (i == 6
                            && color_scheme_index == 0),
                    decreases 6 - i,
                {
                    let cs = scheme_at(i);
                    if crate::text::same_chars(&chars_of(cs.name()), &target) {
                        color_scheme_index = i;
                        theme = Theme::from_scheme(cs);
                        break;
                    }
                    i = i + 1;
                }
                proof {
                    if i == 6 {
                        assert(!exists|k: int| 0 <= k < 6 && scheme_list()[k].spec_name() == name@);
                    }
                }
            },
            None => {},
        }
        App {
            screen,
            mode: InputMode::Play,
            should_quit: false,
            theme,
            menu_selection: 0,
            game: GameState::new(),
            cursor_file: 4,
            cursor_rank: 4,
            selected_square: None,
            legal_moves_for_selected: Vec::new(),
            last_move: None,
            board_flipped: false,
            input_buffer: empty_string(),
            command_buffer: empty_string(),
            status_message: empty_string(),
            move_list_scroll: 0,
            show_help: false,
            show_move_hints: config.show_move_hints,
            pending_promotion: None,
            promotion_choice: 0,
            color_scheme_index,
            game_mode: GameMode::Local,
            active_tab: MenuTab::Play,
            play_selection: 0,
            replay_list: Vec::new(),
            replay_selection: 0,
            replay_viewer: None,
            multiplayer_state: MultiplayerState::LoggedOut,
            multiplayer_selection: 0,
            login_input: empty_string(),
            otp_input: empty_string(),
            display_name_input: empty_string(),
            server_url: config.server_url.clone(),
            password_input: empty_string(),
            has_account: false,
            tick: 0,
            use_kitty: true,
            board_image_dirty: true,
            kitty_image_hash: 0,
            kitty_image_id: 42,
            piece_style,
            settings_style_index,
            show_debug: false,
            ai_move_at: None,
            ai_difficulty: 5,
            friends_list: Vec::new(),
            help_search: empty_string(),
            help_scroll: 0,
            game_start_time: None,
            launch_selection: 0,
            postgame_selection: 0,
        }
    }
}


/// Appends a character to a string.
pub fn push_char(s: &mut String, c: char)
    ensures
        final(s)@ == old(s)@.push(c),
{
    let mut v = chars_of(s.as_str());
    v.push(c);
    *s = string_of(&v);
}

/// Removes the last character of a string, if any.
pub fn pop_char(s: &mut String)
    ensures
        final(s)@ == if old(s)@.len() > 0 {
            old(s)@.drop_last()
        } else {
            old(s)@
        },
{
    let mut v = chars_of(s.as_str());
    if v.len() > 0 {
        v.pop();
    }
    *s = string_of(&v);
}

/// The signed direction of a difference: -1, 0 or 1.
pub open spec fn sign(x: int) -> int {
    if x > 0 {
        1
    } else if x < 0 {
        -1
    } else {
        0
    }
}

/// Whether a square lies in the asked direction from the cursor: along a
/// file or rank direction alone, or in both when both are asked.
pub open spec fn in_direction(dfile: int, drank: int, df: int, dr: int) -> bool {
    if df != 0 && dr == 0 {
        sign(dfile) == df
    } else if df == 0 && dr != 0 {
        sign(drank) == dr
    } else {
        (df == 0 || sign(dfile) == df) && (dr == 0 || sign(drank) == dr)
    }
}

pub open spec fn abs_int(x: int) -> int {
    if x < 0 {
        -x
    } else {
        x
    }
}

/// The nearest candidate (by file plus rank distance) from the `k`-th on
/// that lies in the direction, the earlier one on ties, given the best so far.
pub open spec fn nearest_from(
    cands: Seq<Square>,
    k: int,
    cf: int,
    cr: int,
    df: int,
    dr: int,
    best: Option<(Square, int)>,
) -> Option<(Square, int)>
    decreases cands.len() - k,
{
    if k < 0 || k >= cands.len() {
        best
    } else {
        let sq = cands[k];
        let dfile = sq.file.spec_index() - cf;
        let drank = sq.rank.spec_index() - cr;
        let dist = abs_int(dfile) + abs_int(drank);
        if (dfile == 0 && drank == 0) || !in_direction(dfile, drank, df, dr) {
            nearest_from(cands, k + 1, cf, cr, df, dr, best)
        } else if best is None || dist < best->Some_0.1 {
            nearest_from(cands, k + 1, cf, cr, df, dr, Some((sq, dist)))
        } else {
            nearest_from(cands, k + 1, cf, cr, df, dr, best)
        }
    }
}

/// The squares in display order: the top rank first, each from the a-file.
pub open spec fn display_square(i: int) -> Square {
    Square { file: File::spec_from_index((i % 8) as u8), rank: Rank::spec_from_index((7 - i / 8) as u8) }
}

/// Whether the side to move has a legal move from the square with a piece
/// of its own there.
pub open spec fn movable(b: BoardModel, sq: Square) -> bool {
    &&& exists|k: int| 0 <= k < legal_moves_of(b).len() && #[trigger] legal_moves_of(b)[k].from == sq
    &&& b.at(sq) matches Some((c, _)) && c == b.side
}

/// The squares of the pieces the side to move can move, from the top rank
/// down and from the a-file across, each once.
pub open spec fn movable_pieces_of(b: BoardModel, n: int) -> Seq<Square>
    decreases n,
{
    if n <= 0 {
        Seq::empty()
    } else if movable(b, display_square(n - 1)) {
        movable_pieces_of(b, n - 1).push(display_square(n - 1))
    } else {
        movable_pieces_of(b, n - 1)
    }
}

fn has_move_from(moves: &Vec<Move>, sq: Square) -> (r: bool)
    ensures
        r == exists|k: int| 0 <= k < moves@.len() && #[trigger] moves@[k].from == sq,
{
    let mut i: usize = 0;
    while i < moves.len()
        invariant
            i <= moves@.len(),
            forall|k: int| 0 <= k < i ==> (#[trigger] moves@[k]).from != sq,
        decreases moves.len() - i,
    {
        if moves[i].from == sq {
            return true;
        }
        i = i + 1;
    }
    false
}

impl App {
    /// Switches to the scheme at `color_scheme_index`.
    pub fn apply_color_scheme(&mut self)
        requires
            old(self).color_scheme_index < 6,
        ensures
            *final(self) == (App { theme: theme_of(scheme_list()[old(self).color_scheme_index as int]), ..*old(self) }),
    {
        let scheme = scheme_at(self.color_scheme_index);
        self.theme = Theme::from_scheme(scheme);
    }

    /// Switches to the piece style at `settings_style_index`, which is then
    /// saved; the rendered images are dropped.
    pub fn apply_piece_style(&mut self) -> (effects: Vec<Effect>)
        requires
            old(self).settings_style_index < 5,
        ensures
            *final(self) == (App {
                piece_style: style_list()[old(self).settings_style_index as int],
                board_image_dirty: true,
                kitty_image_hash: 0,
                ..*old(self)
            }),
            effects@.len() == 2,
            effects@[0] is ResetImages,
            effects@[1] matches Effect::SavePieceStyle(n) && n@ == final(self).piece_style.spec_name(),
    {
        self.piece_style = style_at(self.settings_style_index);
        self.board_image_dirty = true;
        self.kitty_image_hash = 0;
        let mut effects: Vec<Effect> = Vec::new();
        effects.push(Effect::ResetImages);
        effects.push(Effect::SavePieceStyle(text(self.piece_style.name())));
        effects
    }

    /// Starts a game of two players at this terminal.
    pub fn start_new_game(&mut self)
        ensures
            fresh_game(*final(self)),
            final(self).game_mode == GameMode::Local,
            final(self).game_start_time is Some,
            *final(self) == (App {
                game: final(self).game,
                game_mode: final(self).game_mode,
                screen: final(self).screen,
                game_start_time: final(self).game_start_time,
                mode: final(self).mode,
                cursor_file: 4,
                cursor_rank: 4,
                selected_square: None,
                legal_moves_for_selected: final(self).legal_moves_for_selected,
                last_move: None,
                board_flipped: false,
                input_buffer: final(self).input_buffer,
                command_buffer: final(self).command_buffer,
                status_message: final(self).status_message,
                move_list_scroll: 0,
                show_help: false,
                pending_promotion: None,
                promotion_choice: 0,
                board_image_dirty: true,
                ..*old(self)
            }),
    {
        self.start_game_with_mode(GameMode::Local);
    }

    /// Starts a game against the computer, which plays Black.
    pub fn start_ai_game(&mut self)
        ensures
            fresh_game(*final(self)),
            final(self).game_mode == GameMode::VsAi(Color::Black),
            final(self).game_start_time is Some,
            *final(self) == (App {
                game: final(self).game,
                game_mode: final(self).game_mode,
                screen: final(self).screen,
                game_start_time: final(self).game_start_time,
                mode: final(self).mode,
                cursor_file: 4,
                cursor_rank: 4,
                selected_square: None,
                legal_moves_for_selected: final(self).legal_moves_for_selected,
                last_move: None,
                board_flipped: false,
                input_buffer: final(self).input_buffer,
                command_buffer: final(self).command_buffer,
                status_message: final(self).status_message,
                move_list_scroll: 0,
                show_help: false,
                pending_promotion: None,
                promotion_choice: 0,
                board_image_dirty: true,
                ..*old(self)
            }),
    {
        self.start_game_with_mode(GameMode::VsAi(Color::Black));
    }

    fn start_game_with_mode(&mut self, mode: GameMode)
        ensures
            fresh_game(*final(self)),
            final(self).game_mode == mode,
            final(self).game_start_time is Some,
            *final(self) == (App {
                game: final(self).game,
                game_mode: final(self).game_mode,
                screen: final(self).screen,
                game_start_time: final(self).game_start_time,
                mode: final(self).mode,
                cursor_file: 4,
                cursor_rank: 4,
                selected_square: None,
                legal_moves_for_selected: final(self).legal_moves_for_selected,
                last_move: None,
                board_flipped: false,
                input_buffer: final(self).input_buffer,
                command_buffer: final(self).command_buffer,
                status_message: final(self).status_message,
                move_list_scroll: 0,
                show_help: false,
                pending_promotion: None,
                promotion_choice: 0,
                board_image_dirty: true,
                ..*old(self)
            }),
    {
        self.game = GameState::new();
        self.game_mode = mode;
        self.screen = Screen::InGame;
        self.game_start_time = Some(crate::clock::instant_now());
        self.mode = InputMode::Play;
        self.cursor_file = 4;
        self.cursor_rank = 4;
        self.selected_square = None;
        self.legal_moves_for_selected = Vec::new();
        self.last_move = None;
        self.board_flipped = false;
        self.input_buffer = empty_string();
        self.command_buffer = empty_string();
        self.status_message = empty_string();
        self.move_list_scroll = 0;
        self.show_help = false;
        self.pending_promotion = None;
        self.promotion_choice = 0;
        self.board_image_dirty = true;
    }

    /// When it is the computer's turn in a game in progress and no answer
    /// is scheduled, schedules one in 300 ms, so that the player sees
    /// their move land first.
    pub fn try_ai_move(&mut self)
        ensures
            *final(self) == (App { ai_move_at: final(self).ai_move_at, ..*old(self) }),
            (old(self).game_mode matches GameMode::VsAi(c) && old(self).game@.board.side == c
                && old(self).game@.status == GameStatus::InProgress && old(self).ai_move_at is None)
                ==> final(self).ai_move_at is Some,
            !(old(self).game_mode matches GameMode::VsAi(c) && old(self).game@.board.side == c
                && old(self).game@.status == GameStatus::InProgress && old(self).ai_move_at is None)
                ==> final(self).ai_move_at == old(self).ai_move_at,
    {
        match self.game_mode {
            GameMode::VsAi(ai_color) => {
                if self.game.side_to_move() == ai_color {
                    match self.game.status() {
                        GameStatus::InProgress => {
                            if self.ai_move_at.is_none() {
                                self.ai_move_at = Some(instant_in_millis(300));
                            }
                        },
                        _ => {},
                    }
                }
            },
            _ => {},
        }
    }

    /// Plays the computer's move once its time has come; says whether it did.
    /// Whether the time has come is the clock's answer; `ai_step` does the rest.
    pub fn poll_ai_move(&mut self) -> (r: (bool, Vec<Effect>))
        ensures
            old(self).ai_move_at is None ==> !r.0 && r.1@.len() == 0 && *final(self) == *old(self),
            !r.0 ==> r.1@.len() == 0 && (*final(self) == *old(self) || *final(self) == (App { ai_move_at: None, ..*old(self) })),
            r.0 ==> (old(self).game_mode matches GameMode::VsAi(c) && old(self).game@.board.side == c)
                && old(self).game@.status == GameStatus::InProgress
                && crate::ai::choose_move_of(old(self).game@.board) is Some
                && made_move(
                (App { ai_move_at: None, ..*old(self) }),
                *final(self),
                crate::ai::choose_move_of(old(self).game@.board).unwrap(),
                r.1@,
            ),
            crate::input::app_ok(*old(self)) ==> crate::input::app_ok(*final(self)),
    {
        let due = match &self.ai_move_at {
            Some(deadline) => instant_reached(deadline),
            None => false,
        };
        self.ai_step(due)
    }

    /// The computer's turn, given whether its time has come (`due`): when
    /// an answer is scheduled and due, the schedule is cleared and, in a
    /// game in progress against the computer with the computer to move and
    /// a move to play, that move is made. Says whether a move was made.
    pub fn ai_step(&mut self, due: bool) -> (r: (bool, Vec<Effect>))
        ensures
            r.0 <==> (due && old(self).ai_move_at is Some && (old(self).game_mode matches GameMode::VsAi(c)
                && old(self).game@.board.side == c) && old(self).game@.status == GameStatus::InProgress
                && crate::ai::choose_move_of(old(self).game@.board) is Some),
            r.0 ==> made_move(
                (App { ai_move_at: None, ..*old(self) }),
                *final(self),
                crate::ai::choose_move_of(old(self).game@.board).unwrap(),
                r.1@,
            ),
            !r.0 ==> r.1@.len() == 0 && *final(self) == (if due && old(self).ai_move_at is Some {
                App { ai_move_at: None, ..*old(self) }
            } else {
                *old(self)
            }),
            crate::input::app_ok(*old(self)) ==> crate::input::app_ok(*final(self)),
    {
        if !due || self.ai_move_at.is_none() {
            return (false, Vec::new());
        }
        self.ai_move_at = None;
        match self.game_mode {
            GameMode::VsAi(ai_color) => {
                if self.game.side_to_move() == ai_color {
                    match self.game.status() {
                        GameStatus::InProgress => {
                            match crate::ai::choose_move(self.game.board()) {
                                Some(mv) => {
                                    let effects = self.make_move(mv);
                                    return (true, effects);
                                },
                                None => {},
                            }
                        },
                        _ => {},
                    }
                }
            },
            _ => {},
        }
        (false, Vec::new())
    }

    /// The square under the cursor.
    pub fn cursor_square(&self) -> (sq: Square)
        requires
            self.cursor_file < 8,
            self.cursor_rank < 8,
        ensures
            sq == cursor_square_of(self.cursor_file, self.cursor_rank, self.board_flipped),
    {
        let (file, rank) = if self.board_flipped {
            (7 - self.cursor_file, 7 - self.cursor_rank)
        } else {
            (self.cursor_file, self.cursor_rank)
        };
        Square::new(File::from_index(file), Rank::from_index(rank))
    }

    /// Moves the cursor, staying on the board.
    pub fn move_cursor(&mut self, df: i8, dr: i8)
        requires
            old(self).cursor_file < 8,
            old(self).cursor_rank < 8,
        ensures
            *final(self) == (App {
                cursor_file: clamp7(old(self).cursor_file + df) as u8,
                cursor_rank: clamp7(old(self).cursor_rank + dr) as u8,
                ..*old(self)
            }),
    {
        let new_f: i16 = self.cursor_file as i16 + df as i16;
        let new_r: i16 = self.cursor_rank as i16 + dr as i16;
        self.cursor_file = clamp7_exec(new_f);
        self.cursor_rank = clamp7_exec(new_r);
    }

    /// Clears the selection.
    pub fn deselect(&mut self)
        ensures
            final(self).selected_square is None,
            final(self).legal_moves_for_selected@.len() == 0,
            *final(self) == (App {
                selected_square: None,
                legal_moves_for_selected: final(self).legal_moves_for_selected,
                ..*old(self)
            }),
    {
        self.selected_square = None;
        self.legal_moves_for_selected = Vec::new();
    }

    /// Selects a square. With a piece selected and exactly one of its moves
    /// going there, that move is made; with several (promotions), the
    /// choice among them opens. Otherwise a piece of the side to move is
    /// selected, with its legal moves; any other square clears the selection.
    #[verifier::spinoff_prover]
    #[verifier::rlimit(60)]
    pub fn select_square(&mut self, sq: Square) -> (effects: Vec<Effect>)
        ensures
            crate::input::app_ok(*old(self)) ==> crate::input::app_ok(*final(self)),
            select_outcome(*old(self), *final(self), sq, effects@),
    {
        if self.selected_square.is_some() {
            let targets = moves_to_exec(&self.legal_moves_for_selected, sq);
            if targets.len() == 1 {
                return self.make_move(targets[0]);
            } else if targets.len() > 1 {
                self.pending_promotion = Some(targets);
                self.promotion_choice = 0;
                return Vec::new();
            }
        }
        let side = self.game.side_to_move();
        if self.game.board().color_on(sq) == Some(side) {
            self.selected_square = Some(sq);
            self.legal_moves_for_selected = self.game.legal_moves_from(sq);
            self.status_message = empty_string();
        } else {
            self.deselect();
        }
        Vec::new()
    }

    /// Makes a move. In an online game it is sent to the server in SAN
    /// (on the player's turn only) and played when the server confirms it.
    /// Otherwise it is played, the selection and typed input clear, the
    /// move list scrolls to its end, and a finished game is saved and
    /// leads to the post-game screen; a refused move leaves its message.
    pub fn make_move(&mut self, mv: Move) -> (effects: Vec<Effect>)
        ensures
            made_move(*old(self), *final(self), mv, effects@),
            crate::input::app_ok(*old(self)) ==> crate::input::app_ok(*final(self)),
    {
        proof {
            reveal(made_move);
            reveal(made_local_move);
        }
        match &self.game_mode {
            GameMode::Online { game_id, my_color, .. } => {
                if self.game.side_to_move() != *my_color {
                    self.status_message = text("Not your turn");
                    return Vec::new();
                }
                let san = to_algebraic(self.game.board(), &mv);
                let mut effects: Vec<Effect> = Vec::new();
                effects.push(Effect::Send(ClientMessage::MakeMove { game_id: game_id.clone(), mv: san }));
                return effects;
            },
            _ => {},
        }
        self.make_local_move(mv)
    }

    #[verifier::rlimit(30)]
    fn make_local_move(&mut self, mv: Move) -> (effects: Vec<Effect>)
        ensures
            made_local_move(*old(self), *final(self), mv, effects@),
            crate::input::app_ok(*old(self)) ==> crate::input::app_ok(*final(self)),
    {
        proof {
            reveal(made_local_move);
        }
        let mut effects: Vec<Effect> = Vec::new();
        match self.game.try_make_move(mv) {
            Ok(()) => {
                self.last_move = Some((mv.from, mv.to));
                self.deselect();
                self.pending_promotion = None;
                self.status_message = empty_string();
                self.input_buffer = empty_string();
                self.board_image_dirty = true;
                let n = self.game.move_history().len();
                let total_full_moves = n / 2 + n % 2;
                if total_full_moves > 0 {
                    self.move_list_scroll = total_full_moves - 1;
                }
                match self.game.status() {
                    GameStatus::Finished(result) => {
                        effects.push(Effect::SaveGame(result));
                        self.screen = Screen::PostGame;
                        self.postgame_selection = 0;
                        self.status_message = result_message(&result);
                    },
                    GameStatus::InProgress => {},
                }
            },
            Err(e) => {
                self.status_message = e;
            },
        }
        effects
    }
}

/// Clamps a coordinate to the board.
pub open spec fn clamp7(x: int) -> int {
    if x < 0 {
        0
    } else if x > 7 {
        7
    } else {
        x
    }
}

fn clamp7_exec(x: i16) -> (r: u8)
    ensures
        r == clamp7(x as int),
{
    if x < 0 {
        0
    } else if x > 7 {
        7
    } else {
        x as u8
    }
}

/// The move list's scroll position after a move: the last full move.
pub open spec fn scroll_after(old_scroll: usize, history_len: int) -> usize {
    if (history_len + 1) / 2 > 0 {
        ((history_len + 1) / 2 - 1) as usize
    } else {
        old_scroll
    }
}

/// What making a move does to the application, and the outside work it asks for.
#[verifier::opaque]
pub open spec fn made_move(a: App, b: App, mv: Move, effects: Seq<Effect>) -> bool {
    match a.game_mode {
        GameMode::Online { game_id, my_color, .. } => if a.game@.board.side != my_color {
            effects.len() == 0 && b.status_message@ == "Not your turn"@ && b == (App { status_message: b.status_message, ..a })
        } else {
            effects.len() == 1 && (effects[0] matches Effect::Send(ClientMessage::MakeMove { game_id: g, mv: s })
                && g == game_id && s@ == san_of(a.game@.board, mv)) && b == a
        },
        _ => made_local_move(a, b, mv, effects),
    }
}

/// What playing a move on this terminal does to the application.
#[verifier::opaque]
pub open spec fn made_local_move(a: App, b: App, mv: Move, effects: Seq<Effect>) -> bool {
    match make_move_of(a.game@, mv) {
            Err(e) => effects.len() == 0 && b.status_message@ == e && b.game@ == a.game@ && b == (App {
                game: b.game,
                status_message: b.status_message,
                ..a
            }),
            Ok(g) => {
                &&& b.game@ == g
                &&& b.last_move == Some((mv.from, mv.to))
                &&& b.selected_square is None
                &&& b.legal_moves_for_selected@.len() == 0
                &&& b.pending_promotion is None
                &&& b.input_buffer@.len() == 0
                &&& b.board_image_dirty
                &&& b.move_list_scroll == scroll_after(a.move_list_scroll, g.history.len() as int)
                &&& match g.status {
                    GameStatus::Finished(res) => effects.len() == 1 && effects[0] == Effect::SaveGame(res)
                        && b.screen == Screen::PostGame && b.postgame_selection == 0 && b.status_message@
                        == result_message_of(res),
                    GameStatus::InProgress => effects.len() == 0 && b.status_message@.len() == 0 && b.screen
                        == a.screen && b.postgame_selection == a.postgame_selection,
                }
                &&& b == (App {
                    game: b.game,
                    last_move: b.last_move,
                    selected_square: b.selected_square,
                    legal_moves_for_selected: b.legal_moves_for_selected,
                    pending_promotion: b.pending_promotion,
                    status_message: b.status_message,
                    input_buffer: b.input_buffer,
                    board_image_dirty: b.board_image_dirty,
                    move_list_scroll: b.move_list_scroll,
                    screen: b.screen,
                    postgame_selection: b.postgame_selection,
                    ..a
                })
            },
    }
}

/// The cursor position that shows a square.
pub open spec fn cursor_for(sq: Square, flipped: bool) -> (u8, u8) {
    if flipped {
        ((7 - sq.file.spec_index()) as u8, (7 - sq.rank.spec_index()) as u8)
    } else {
        (sq.file.spec_index(), sq.rank.spec_index())
    }
}

/// Putting the cursor on a square shows that square.
pub proof fn lemma_cursor_roundtrip(sq: Square, flipped: bool)
    ensures
        cursor_for(sq, flipped).0 < 8,
        cursor_for(sq, flipped).1 < 8,
        cursor_square_of(cursor_for(sq, flipped).0, cursor_for(sq, flipped).1, flipped) == sq,
{
    crate::chess::types::lemma_file_index_roundtrip(sq.file);
    crate::chess::types::lemma_rank_index_roundtrip(sq.rank);
}

/// The Debug form of a game result.
pub open spec fn result_debug_of(r: GameResult) -> Seq<char> {
    match r {
        GameResult::Checkmate(c) => "Checkmate("@ + color_name(c) + ")"@,
        GameResult::Stalemate => "Stalemate"@,
        GameResult::DrawByRepetition => "DrawByRepetition"@,
        GameResult::DrawByFiftyMove => "DrawByFiftyMove"@,
        GameResult::DrawByInsufficientMaterial => "DrawByInsufficientMaterial"@,
        GameResult::DrawByAgreement => "DrawByAgreement"@,
        GameResult::Resignation(c) => "Resignation("@ + color_name(c) + ")"@,
    }
}

/// The status line after a game the server ended.
pub open spec fn server_result_message_of(r: GameResult) -> Seq<char> {
    match r {
        GameResult::Checkmate(_) => result_message_of(r),
        GameResult::Stalemate => "Draw by stalemate"@,
        _ => result_debug_of(r),
    }
}

fn server_result_message(r: &GameResult) -> (s: String)
    ensures
        s@ == server_result_message_of(*r),
{
    match r {
        GameResult::Checkmate(_) => result_message(r),
        GameResult::Stalemate => text("Draw by stalemate"),
        GameResult::DrawByRepetition => text("DrawByRepetition"),
        GameResult::DrawByFiftyMove => text("DrawByFiftyMove"),
        GameResult::DrawByInsufficientMaterial => text("DrawByInsufficientMaterial"),
        GameResult::DrawByAgreement => text("DrawByAgreement"),
        GameResult::Resignation(c) => {
            let mut v = chars_of("Resignation(");
            push_all(&mut v, &color_name_exec(*c));
            push_all(&mut v, &chars_of(")"));
            string_of(&v)
        },
    }
}

impl App {
    /// The pieces White has taken.
    pub fn captured_by_white(&self) -> (r: &[crate::game::state::CapturedPiece])
        ensures
            r@ == self.game@.captured_by_white,
    {
        self.game.captured_by(Color::White)
    }

    /// The pieces Black has taken.
    pub fn captured_by_black(&self) -> (r: &[crate::game::state::CapturedPiece])
        ensures
            r@ == self.game@.captured_by_black,
    {
        self.game.captured_by(Color::Black)
    }

    /// The symbol of a promotion choice.
    pub fn promotion_piece_symbol(mv: &Move) -> (s: &'static str)
        ensures
            s@ == match mv.promotion {
                Some(Piece::Queen) => "\u{265b}"@,
                Some(Piece::Rook) => "\u{265c}"@,
                Some(Piece::Bishop) => "\u{265d}"@,
                Some(Piece::Knight) => "\u{265e}"@,
                _ => "?"@,
            },
    {
        match mv.promotion {
            Some(Piece::Queen) => "\u{265b}",
            Some(Piece::Rook) => "\u{265c}",
            Some(Piece::Bishop) => "\u{265d}",
            Some(Piece::Knight) => "\u{265e}",
            _ => "?",
        }
    }

    /// Puts the cursor on a square.
    pub fn set_cursor_to_square(&mut self, sq: Square)
        ensures
            *final(self) == (App {
                cursor_file: cursor_for(sq, old(self).board_flipped).0,
                cursor_rank: cursor_for(sq, old(self).board_flipped).1,
                ..*old(self)
            }),
    {
        let file = sq.file.index();
        let rank = sq.rank.index();
        if self.board_flipped {
            self.cursor_file = 7 - file;
            self.cursor_rank = 7 - rank;
        } else {
            self.cursor_file = file;
            self.cursor_rank = rank;
        }
    }

    /// The squares of the pieces the side to move can move, from the top
    /// rank down and from the a-file across.
    pub fn movable_pieces(&self) -> (v: Vec<Square>)
        ensures
            v@ == movable_pieces_of(self.game@.board, 64),
    {
        let side = self.game.side_to_move();
        let legal = self.game.legal_moves();
        let mut out: Vec<Square> = Vec::new();
        let mut i: u8 = 0;
        while i < 64
            invariant
                i <= 64,
                side == self.game@.board.side,
                legal@ == legal_moves_of(self.game@.board),
                out@ == movable_pieces_of(self.game@.board, i as int),
            decreases 64 - i,
        {
            let sq = Square::new(File::from_index(i % 8), Rank::from_index(7 - i / 8));
            assert(sq == display_square(i as int));
            if has_move_from(&legal, sq) && self.game.board().color_on(sq) == Some(side) {
                out.push(sq);
            }
            i = i + 1;
        }
        out
    }

    /// Moves the cursor to the next (or previous) movable piece in display
    /// order, wrapping around; from elsewhere, to the first.
    #[verifier::spinoff_prover]
    #[verifier::rlimit(60)]
    pub fn jump_to_next_piece(&mut self, forward: bool)
        requires
            old(self).cursor_file < 8,
            old(self).cursor_rank < 8,
        ensures
            final(self).cursor_file < 8,
            final(self).cursor_rank < 8,
            *final(self) == (App { cursor_file: final(self).cursor_file, cursor_rank: final(self).cursor_rank, ..*old(self) }),
            ({
                let pieces = movable_pieces_of(old(self).game@.board, 64);
                let cur = cursor_square_of(old(self).cursor_file, old(self).cursor_rank, old(self).board_flipped);
                pieces.len() == 0 ==> final(self).cursor_file == old(self).cursor_file
                    && final(self).cursor_rank == old(self).cursor_rank
            }),
            next_piece_shown(*old(self), *final(self), forward),
    {
        let pieces = self.movable_pieces();
        if pieces.len() == 0 {
            proof {
                assert(next_piece_shown(*self, *self, forward)) by {
                    reveal(next_piece_shown);
                }
            }
            return;
        }
        let cur = self.cursor_square();
        let mut idx: Option<usize> = None;
        let mut k: usize = 0;
        while k < pieces.len()
            invariant_except_break
                idx is None,
            invariant
                k <= pieces@.len(),
                forall|j: int| 0 <= j < k ==> pieces@[j] != cur,
            ensures
                idx matches Some(i) ==> i < pieces@.len() && pieces@[i as int] == cur && forall|j: int| 0 <= j < i ==> pieces@[j] != cur,
                idx is None ==> forall|j: int| 0 <= j < pieces@.len() ==> pieces@[j] != cur,
            decreases pieces.len() - k,
        {
            if pieces[k] == cur {
                idx = Some(k);
                break;
            }
            k = k + 1;
        }
        let n = pieces.len();
        let next = match idx {
            Some(i) => if forward {
                (i + 1) % n
            } else {
                assert((i + n - 1) % (n as int) == if i == 0 {
                    n - 1
                } else {
                    i - 1
                }) by (nonlinear_arith)
                    requires
                        i < n,
                ;
                if i == 0 {
                    n - 1
                } else {
                    i - 1
                }
            },
            None => 0,
        };
        proof {
            lemma_cursor_roundtrip(pieces@[next as int], self.board_flipped);
        }
        let ghost before = *self;
        self.set_cursor_to_square(pieces[next]);
        proof {
            assert(next_piece_shown(before, *self, forward)) by {
                reveal(next_piece_shown);
            }
        }
    }

    /// The nearest square among the candidates that lies in a direction
    /// from a square, by file plus rank distance (the first on ties);
    /// the square itself does not count.
    pub fn find_nearest_in_direction(candidates: &[Square], cf: i8, cr: i8, df: i8, dr: i8) -> (r: Option<Square>)
        requires
            -8 <= cf <= 8,
            -8 <= cr <= 8,
        ensures
            r == (match nearest_from(candidates@, 0, cf as int, cr as int, df as int, dr as int, None) {
                Some((sq, _)) => Some(sq),
                None => None,
            }),
    {
        let mut best: Option<(Square, i8)> = None;
        let mut k: usize = 0;
        let ghost mut gbest: Option<(Square, int)> = None;
        while k < candidates.len()
            invariant
                k <= candidates@.len(),
                -8 <= cf <= 8,
                -8 <= cr <= 8,
                nearest_from(candidates@, 0, cf as int, cr as int, df as int, dr as int, None) == nearest_from(
                    candidates@,
                    k as int,
                    cf as int,
                    cr as int,
                    df as int,
                    dr as int,
                    gbest,
                ),
                match best {
                    Some((s, d)) => gbest == Some((s, d as int)),
                    None => gbest is None,
                },
                gbest matches Some((_, d)) ==> 0 <= d <= 32,
            decreases candidates.len() - k,
        {
            let sq = candidates[k];
            let sf = sq.file.index() as i8;
            let sr = sq.rank.index() as i8;
            let delta_f = sf - cf;
            let delta_r = sr - cr;
            if !(delta_f == 0 && delta_r == 0) {
                let sig_f: i8 = if delta_f > 0 { 1 } else if delta_f < 0 { -1 } else { 0 };
                let sig_r: i8 = if delta_r > 0 { 1 } else if delta_r < 0 { -1 } else { 0 };
                let matches = if df != 0 && dr == 0 {
                    sig_f == df
                } else if df == 0 && dr != 0 {
                    sig_r == dr
                } else {
                    (df == 0 || sig_f == df) && (dr == 0 || sig_r == dr)
                };
                if matches {
                    let af: i8 = if delta_f < 0 { -delta_f } else { delta_f };
                    let ar: i8 = if delta_r < 0 { -delta_r } else { delta_r };
                    let dist = af + ar;
                    let better = match best {
                        None => true,
                        Some((_, d)) => dist < d,
                    };
                    if better {
                        best = Some((sq, dist));
                        proof {
                            gbest = Some((sq, dist as int));
                        }
                    }
                }
            }
            k = k + 1;
        }
        match best {
            Some((sq, _)) => Some(sq),
            None => None,
        }
    }
}


/// Where a Tab leaves the cursor: on the movable piece after (or before)
/// the one it was on, wrapping around, or on the first when it was on none.
#[verifier::opaque]
pub open spec fn next_piece_shown(a: App, b: App, forward: bool) -> bool {
    let pieces = movable_pieces_of(a.game@.board, 64);
    let cur = cursor_square_of(a.cursor_file, a.cursor_rank, a.board_flipped);
    let shown = cursor_square_of(b.cursor_file, b.cursor_rank, b.board_flipped);
    &&& (pieces.len() > 0 && forall|j: int| 0 <= j < pieces.len() ==> pieces[j] != cur) ==> shown == pieces[0]
    &&& forall|i: int|
        0 <= i < pieces.len() && #[trigger] pieces[i] == cur && (forall|j: int| 0 <= j < i ==> pieces[j] != cur)
            ==> shown == pieces[if forward {
            (i + 1) % pieces.len() as int
        } else {
            (i + pieces.len() - 1) % pieces.len() as int
        }]
}

/// The destinations of moves, in their order.
pub open spec fn destinations(s: Seq<Move>) -> Seq<Square> {
    s.map_values(|m: Move| m.to)
}

/// Where a directional jump among candidate squares takes the cursor from
/// the square it shows: the nearest candidate in the direction, if any.
pub open spec fn jump_target(cands: Seq<Square>, cur: Square, df: i8, dr: i8) -> Option<Square> {
    match nearest_from(cands, 0, cur.file.spec_index() as int, cur.rank.spec_index() as int, df as int, dr as int, None) {
        Some((sq, _)) => Some(sq),
        None => None,
    }
}

/// The effect of a directional jump on the cursor.
pub open spec fn jumped(a: App, b: App, target: Option<Square>) -> bool {
    match target {
        Some(sq) => b == (App { cursor_file: cursor_for(sq, a.board_flipped).0, cursor_rank: cursor_for(sq, a.board_flipped).1, ..a }),
        None => b == a,
    }
}

/// What selecting a square does: with a piece selected and exactly one of
/// its moves going there, that move is made; with several (promotions), the
/// choice among them opens; otherwise a piece of the side to move is
/// selected with its legal moves, and any other square clears the selection.
pub open spec fn select_outcome(a: App, b: App, sq: Square, effects: Seq<Effect>) -> bool {
        let targets = moves_to(a.legal_moves_for_selected@, sq);
        if a.selected_square is Some && targets.len() == 1 {
            made_move(a, b, targets[0], effects)
        } else if a.selected_square is Some && targets.len() > 1 {
            effects.len() == 0 && (b.pending_promotion matches Some(p) && p@ == targets) && b == (App {
                pending_promotion: b.pending_promotion,
                promotion_choice: 0,
                ..a
            })
        } else if a.game@.board.at(sq) matches Some((c, _)) && c == a.game@.board.side {
            effects.len() == 0 && b.legal_moves_for_selected@ == legal_moves_of(
                a.game@.board,
            ).filter(|m: Move| m.from == sq) && b.status_message@.len() == 0 && b == (App {
                selected_square: Some(sq),
                legal_moves_for_selected: b.legal_moves_for_selected,
                status_message: b.status_message,
                ..a
            })
        } else {
            effects.len() == 0 && b.legal_moves_for_selected@.len() == 0 && b == (App {
                selected_square: None,
                legal_moves_for_selected: b.legal_moves_for_selected,
                ..a
            })
        }
    }

impl App {
    /// Moves the cursor to the nearest movable piece in a direction.
    pub fn jump_between_pieces(&mut self, df: i8, dr: i8)
        requires
            old(self).cursor_file < 8,
            old(self).cursor_rank < 8,
        ensures
            jumped(
                *old(self),
                *final(self),
                jump_target(
                    movable_pieces_of(old(self).game@.board, 64),
                    cursor_square_of(old(self).cursor_file, old(self).cursor_rank, old(self).board_flipped),
                    df,
                    dr,
                ),
            ),
    {
        let pieces = self.movable_pieces();
        let cur = self.cursor_square();
        let cf = cur.file.index() as i8;
        let cr = cur.rank.index() as i8;
        match App::find_nearest_in_direction(pieces.as_slice(), cf, cr, df, dr) {
            Some(sq) => self.set_cursor_to_square(sq),
            None => {},
        }
    }

    /// Moves the cursor to the nearest destination of the selected piece in a direction.
    pub fn jump_between_destinations(&mut self, df: i8, dr: i8)
        requires
            old(self).cursor_file < 8,
            old(self).cursor_rank < 8,
        ensures
            jumped(
                *old(self),
                *final(self),
                jump_target(
                    destinations(old(self).legal_moves_for_selected@),
                    cursor_square_of(old(self).cursor_file, old(self).cursor_rank, old(self).board_flipped),
                    df,
                    dr,
                ),
            ),
    {
        let mut dests: Vec<Square> = Vec::new();
        let mut i: usize = 0;
        while i < self.legal_moves_for_selected.len()
            invariant
                i <= self.legal_moves_for_selected@.len(),
                dests@ == destinations(self.legal_moves_for_selected@.take(i as int)),
            decreases self.legal_moves_for_selected.len() - i,
        {
            dests.push(self.legal_moves_for_selected[i].to);
            assert(dests@ =~= destinations(self.legal_moves_for_selected@.take(i + 1)));
            i = i + 1;
        }
        assert(self.legal_moves_for_selected@.take(i as int) =~= self.legal_moves_for_selected@);
        let cur = self.cursor_square();
        let cf = cur.file.index() as i8;
        let cr = cur.rank.index() as i8;
        match App::find_nearest_in_direction(dests.as_slice(), cf, cr, df, dr) {
            Some(sq) => self.set_cursor_to_square(sq),
            None => {},
        }
    }

    /// Plays a move the server announced, in SAN: when it reads as a legal
    /// move and the game takes it, as a local move (without saving); a
    /// finished game leads to the post-game screen.
    #[verifier::spinoff_prover]
    #[verifier::rlimit(60)]
    pub fn apply_server_move(&mut self, san: &str)
        ensures
            match parse_san_of(old(self).game@.board, san@) {
                None => *final(self) == *old(self),
                Some(mv) => match make_move_of(old(self).game@, mv) {
                    Err(_) => final(self).game@ == old(self).game@ && *final(self) == (App { game: final(self).game, ..*old(self) }),
                    Ok(g) => {
                        &&& final(self).game@ == g
                        &&& final(self).last_move == Some((mv.from, mv.to))
                        &&& final(self).selected_square is None
                        &&& final(self).pending_promotion is None
                        &&& final(self).input_buffer@.len() == 0
                        &&& final(self).board_image_dirty
                        &&& final(self).move_list_scroll == scroll_after(old(self).move_list_scroll, g.history.len() as int)
                        &&& (g.status matches GameStatus::Finished(res) ==> final(self).screen == Screen::PostGame
                            && final(self).postgame_selection == 0 && final(self).status_message@ == server_result_message_of(res))
                        &&& (g.status is InProgress ==> final(self).screen == old(self).screen
                            && final(self).postgame_selection == old(self).postgame_selection
                            && final(self).status_message == old(self).status_message)
                        &&& *final(self) == (App {
                            game: final(self).game,
                            last_move: final(self).last_move,
                            selected_square: None,
                            legal_moves_for_selected: final(self).legal_moves_for_selected,
                            pending_promotion: None,
                            input_buffer: final(self).input_buffer,
                            board_image_dirty: true,
                            move_list_scroll: final(self).move_list_scroll,
                            screen: final(self).screen,
                            postgame_selection: final(self).postgame_selection,
                            status_message: final(self).status_message,
                            ..*old(self)
                        })
                    },
                },
            },
    {
        let mv = match parse_san(self.game.board(), san) {
            Some(mv) => mv,
            None => {
                return;
            },
        };
        match self.game.try_make_move(mv) {
            Ok(()) => {
                self.last_move = Some((mv.from, mv.to));
                self.deselect();
                self.pending_promotion = None;
                self.input_buffer = empty_string();
                self.board_image_dirty = true;
                let n = self.game.move_history().len();
                let total_full_moves = n / 2 + n % 2;
                if total_full_moves > 0 {
                    self.move_list_scroll = total_full_moves - 1;
                }
                match self.game.status() {
                    GameStatus::Finished(result) => {
                        self.screen = Screen::PostGame;
                        self.postgame_selection = 0;
                        self.status_message = server_result_message(&result);
                    },
                    GameStatus::InProgress => {},
                }
            },
            Err(_) => {},
        }
    }

    /// Takes the color scheme of the preferences the server keeps, when it
    /// names one.
    pub fn apply_server_preferences(&mut self, color_scheme: Option<&str>)
        requires
            old(self).color_scheme_index < 6,
        ensures
            final(self).color_scheme_index < 6,
            color_scheme matches Some(n) ==> (scheme_index_of(n@) is Some ==> scheme_list()[final(self).color_scheme_index as int].spec_name() == n@
                && *final(self) == (App {
                color_scheme_index: final(self).color_scheme_index,
                theme: theme_of(scheme_list()[final(self).color_scheme_index as int]),
                ..*old(self)
            })),
            color_scheme matches Some(n) ==> (scheme_index_of(n@) is None ==> *final(self) == *old(self)),
            color_scheme is None ==> *final(self) == *old(self),
    {
        let name = match color_scheme {
            Some(n) => n,
            None => {
                return;
            },
        };
        let target = chars_of(name);
        let mut i: usize = 0;
        while i < 6
            invariant
                i <= 6,
                target@ == name@,
                color_scheme == Some(name),
                self.color_scheme_index < 6,
                *self == *old(self),
                forall|k: int| 0 <= k < i ==> (#[trigger] scheme_list()[k]).spec_name() != name@,
            decreases 6 - i,
        {
            let cs = scheme_at(i);
            if crate::text::same_chars(&chars_of(cs.name()), &target) {
                self.color_scheme_index = i;
                self.apply_color_scheme();
                return;
            }
            i = i + 1;
        }
        proof {
            assert(!exists|k: int| 0 <= k < 6 && scheme_list()[k].spec_name() == name@);
        }
    }

    /// The name of the color scheme, for the preferences the server keeps.
    pub fn preferred_scheme_name(&self) -> (s: &'static str)
        requires
            self.color_scheme_index < 6,
        ensures
            s@ == scheme_list()[self.color_scheme_index as int].spec_name(),
    {
        scheme_at(self.color_scheme_index).name()
    }

    /// Starts an online game against a player, seen from the player's side.
    pub fn start_online_game(&mut self, game_id: String, my_color: Color, opponent_name: String)
        ensures
            fresh_game(*final(self)),
            final(self).game_start_time is Some,
            *final(self) == (App {
                game: final(self).game,
                game_start_time: final(self).game_start_time,
                board_flipped: my_color == Color::Black,
                game_mode: GameMode::Online { game_id, my_color, opponent_name },
                screen: Screen::InGame,
                mode: InputMode::Play,
                cursor_file: 4,
                cursor_rank: 4,
                selected_square: None,
                legal_moves_for_selected: final(self).legal_moves_for_selected,
                last_move: None,
                input_buffer: final(self).input_buffer,
                command_buffer: final(self).command_buffer,
                status_message: final(self).status_message,
                move_list_scroll: 0,
                show_help: false,
                board_image_dirty: true,
                pending_promotion: None,
                promotion_choice: 0,
                ..*old(self)
            }),
    {
        self.game = GameState::new();
        self.game_start_time = Some(crate::clock::instant_now());
        self.board_flipped = my_color == Color::Black;
        self.game_mode = GameMode::Online { game_id, my_color, opponent_name };
        self.screen = Screen::InGame;
        self.mode = InputMode::Play;
        self.cursor_file = 4;
        self.cursor_rank = 4;
        self.selected_square = None;
        self.legal_moves_for_selected = Vec::new();
        self.last_move = None;
        self.input_buffer = empty_string();
        self.command_buffer = empty_string();
        self.status_message = empty_string();
        self.move_list_scroll = 0;
        self.show_help = false;
        self.board_image_dirty = true;
        self.pending_promotion = None;
        self.promotion_choice = 0;
    }

    /// Takes the list of saved replays, keeping the selection on the list.
    pub fn set_replays(&mut self, replays: Vec<SavedGame>)
        ensures
            *final(self) == (App {
                replay_list: replays,
                replay_selection: if old(self).replay_selection >= replays@.len() {
                    if replays@.len() > 0 { (replays@.len() - 1) as usize } else { 0 }
                } else {
                    old(self).replay_selection
                },
                ..*old(self)
            }),
    {
        let n = replays.len();
        self.replay_list = replays;
        if self.replay_selection >= n {
            self.replay_selection = if n > 0 {
                n - 1
            } else {
                0
            };
        }
    }

    /// Opens a saved replay in the viewer.
    pub fn open_replay(&mut self, index: usize)
        ensures
            index >= old(self).replay_list@.len() ==> *final(self) == *old(self),
            index < old(self).replay_list@.len() ==> {
                &&& final(self).screen == Screen::ReplayViewer
                &&& final(self).replay_viewer matches Some(v) && v.wf() && v.current_move == 0
                    && v.game.moves@ == old(self).replay_list@[index as int].moves@
                &&& *final(self) == (App { screen: Screen::ReplayViewer, replay_viewer: final(self).replay_viewer, ..*old(self) })
            },
    {
        if index < self.replay_list.len() {
            let game = self.replay_list[index].duplicate();
            self.replay_viewer = Some(ReplayViewerState::from_saved(game));
            self.screen = Screen::ReplayViewer;
        }
    }

    /// Deletes the selected replay and reloads the list.
    pub fn delete_selected_replay(&mut self) -> (effects: Vec<Effect>)
        ensures
            *final(self) == *old(self),
            old(self).replay_selection < old(self).replay_list@.len() ==> effects@.len() == 2
                && (effects@[0] matches Effect::DeleteReplay(id) && id@ == old(self).replay_list@[old(self).replay_selection as int].id@)
                && effects@[1] is LoadReplays,
            old(self).replay_selection >= old(self).replay_list@.len() ==> effects@.len() == 0,
    {
        let mut effects: Vec<Effect> = Vec::new();
        if self.replay_selection < self.replay_list.len() {
            let id = self.replay_list[self.replay_selection].id.clone();
            effects.push(Effect::DeleteReplay(id));
            effects.push(Effect::LoadReplays);
        }
        effects
    }
}


} // verus!
