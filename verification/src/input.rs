//! What each key does on each screen. The keys come from the terminal as
//! `KeyPress` values; what a key asks of the outside (connecting, sending,
//! saving) comes back as `Effect`s.
use vstd::prelude::*;
use crate::app::{
    made_move, pop_char, push_char, scheme_list, style_list, App, Effect, GameMode, InputMode, MenuTab,
    MultiplayerState, PlayMenuItem, ReplayViewerState, Screen, cursor_for, select_outcome,
};
use crate::chess::types::{Color, File, Rank, Square};
use crate::game::move_input::{candidates_of, feed_result, InputResult, MoveInputParser};
use crate::game::notation::to_algebraic;
use crate::game::replay::SavedGame;
use crate::protocol::ClientMessage;
use crate::text::{chars_of, push_all, push_decimal, string_of};
use crate::theme::theme_of;

verus! {

/// A key, as far as the application tells keys apart.
#[derive(Clone, Copy, PartialEq, Eq, Debug, Structural)]
pub enum Key {
    Char(char),
    Enter,
    Esc,
    Backspace,
    Tab,
    BackTab,
    Left,
    Right,
    Up,
    Down,
    Home,
    End,
    Other,
}

/// A key pressed, with the modifiers that matter.
#[derive(Clone, Copy, PartialEq, Eq, Debug, Structural)]
pub struct KeyPress {
    pub code: Key,
    pub ctrl: bool,
    pub shift: bool,
}

fn text(s: &str) -> (r: String)
    ensures
        r@ == s@,
{
    s.to_owned()
}

fn empty_string() -> (s: String)
    ensures
        s@ == Seq::<char>::empty(),
{
    String::new()
}

/// Whether a key is a down key (`j` or the arrow).
pub open spec fn is_down(k: Key) -> bool {
    k == Key::Char('j') || k == Key::Down
}

/// Whether a key is an up key (`k` or the arrow).
pub open spec fn is_up(k: Key) -> bool {
    k == Key::Char('k') || k == Key::Up
}

/// Whether a key is a left key (`h` or the arrow).
pub open spec fn is_left(k: Key) -> bool {
    k == Key::Char('h') || k == Key::Left
}

/// Whether a key is a right key (`l` or the arrow).
pub open spec fn is_right(k: Key) -> bool {
    k == Key::Char('l') || k == Key::Right
}

/// The invariants the key handlers keep: the cursor on the board, the
/// menu indices in range, the promotion choice on its list, the replay
/// viewer well formed.
pub open spec fn app_ok(a: App) -> bool {
    &&& a.cursor_file < 8
    &&& a.cursor_rank < 8
    &&& a.color_scheme_index < 6
    &&& a.settings_style_index < 5
    &&& a.play_selection < 6
    &&& a.launch_selection <= 2
    &&& a.postgame_selection < 4
    &&& a.multiplayer_selection <= 1
    &&& a.otp_input@.len() <= 6
    &&& 1 <= a.ai_difficulty <= 10
    &&& (a.pending_promotion matches Some(p) ==> a.promotion_choice < p@.len())
    &&& (a.replay_viewer matches Some(v) ==> v.wf())
    &&& (a.replay_list@.len() > 0 ==> a.replay_selection < a.replay_list@.len())
}

// ── Dispatch ────────────────────────────────────────────────────────────

/// A key press: to the help window when it is open, else to the screen's handler.
#[verifier::spinoff_prover]
#[verifier::rlimit(60)]
pub fn handle_key(app: &mut App, key: KeyPress) -> (effects: Vec<Effect>)
    requires
        app_ok(*old(app)),
    ensures
        app_ok(*final(app)),
        old(app).show_help ==> effects@.len() == 0 && final(app).screen == old(app).screen,
        !old(app).show_help && (old(app).screen == Screen::Launch || old(app).screen == Screen::ReplayViewer)
            ==> effects@.len() == 0,
        !old(app).show_help && old(app).screen == Screen::Launch && key.code == Key::Char('q') ==> *final(app) == (App {
            should_quit: true,
            ..*old(app)
        }),
        !old(app).show_help && old(app).screen == Screen::InGame && key.code == Key::Char('c') && key.ctrl ==> *final(app) == (App { should_quit: true, ..*old(app) }) && effects@.len() == 0,
{
    if app.show_help {
        handle_help_input(app, key);
        return Vec::new();
    }
    match app.screen {
        Screen::Launch => {
            handle_launch(app, key);
            Vec::new()
        },
        Screen::ColorPicker => handle_color_picker(app, key),
        Screen::MainMenu => handle_menu(app, key),
        Screen::InGame => handle_in_game(app, key),
        Screen::PostGame => handle_postgame(app, key),
        Screen::ReplayViewer => {
            handle_replay_viewer(app, key);
            Vec::new()
        },
    }
}

// ── Launch screen ───────────────────────────────────────────────────────

/// The launch screen: choose sign up, log in or guest; `q` quits, `?` help.
#[verifier::spinoff_prover]
#[verifier::rlimit(60)]
pub fn handle_launch(app: &mut App, key: KeyPress)
    requires
        app_ok(*old(app)),
    ensures
        app_ok(*final(app)),
        is_down(key.code) ==> *final(app) == (App {
            launch_selection: if old(app).launch_selection + 1 <= 2 { (old(app).launch_selection + 1) as usize } else { 2 },
            ..*old(app)
        }),
        is_up(key.code) ==> *final(app) == (App {
            launch_selection: if old(app).launch_selection > 0 { (old(app).launch_selection - 1) as usize } else { 0 },
            ..*old(app)
        }),
        key.code == Key::Enter && old(app).launch_selection == 0 ==> *final(app) == (App {
            screen: Screen::MainMenu,
            active_tab: MenuTab::Multiplayer,
            ..*old(app)
        }),
        key.code == Key::Enter && old(app).launch_selection == 1 ==> *final(app) == (App {
            has_account: true,
            screen: Screen::MainMenu,
            active_tab: MenuTab::Multiplayer,
            ..*old(app)
        }),
        key.code == Key::Enter && old(app).launch_selection == 2 ==> *final(app) == (App { screen: Screen::MainMenu, ..*old(app) }),
        key.code == Key::Char('q') ==> *final(app) == (App { should_quit: true, ..*old(app) }),
        key.code == Key::Char('?') ==> *final(app) == (App { show_help: !old(app).show_help, ..*old(app) }),
{
    match key.code {
        Key::Char('j') | Key::Down => {
            app.launch_selection = if app.launch_selection + 1 <= 2 {
                app.launch_selection + 1
            } else {
                2
            };
        },
        Key::Char('k') | Key::Up => {
            if app.launch_selection > 0 {
                app.launch_selection = app.launch_selection - 1;
            }
        },
        Key::Enter => {
            if app.launch_selection == 0 {
                app.screen = Screen::MainMenu;
                app.active_tab = MenuTab::Multiplayer;
            } else if app.launch_selection == 1 {
                app.has_account = true;
                app.screen = Screen::MainMenu;
                app.active_tab = MenuTab::Multiplayer;
            } else if app.launch_selection == 2 {
                app.screen = Screen::MainMenu;
            }
        },
        Key::Char('q') => {
            app.should_quit = true;
        },
        Key::Char('?') => {
            app.show_help = !app.show_help;
        },
        _ => {},
    }
}

// ── Color picker ────────────────────────────────────────────────────────

/// The color picker: `j`/`k` try the next or previous scheme (wrapping),
/// Enter keeps it (saved) and goes on to the menu, `q` quits.
#[verifier::spinoff_prover]
#[verifier::rlimit(60)]
pub fn handle_color_picker(app: &mut App, key: KeyPress) -> (effects: Vec<Effect>)
    requires
        app_ok(*old(app)),
    ensures
        app_ok(*final(app)),
        is_down(key.code) ==> effects@.len() == 0 && *final(app) == (App {
            color_scheme_index: ((old(app).color_scheme_index + 1) % 6) as usize,
            theme: theme_of(scheme_list()[(old(app).color_scheme_index + 1) % 6]),
            ..*old(app)
        }),
        is_up(key.code) ==> effects@.len() == 0 && *final(app) == (App {
            color_scheme_index: ((old(app).color_scheme_index + 5) % 6) as usize,
            theme: theme_of(scheme_list()[(old(app).color_scheme_index + 5) % 6]),
            ..*old(app)
        }),
        key.code == Key::Enter ==> *final(app) == (App {
            theme: theme_of(scheme_list()[old(app).color_scheme_index as int]),
            screen: Screen::MainMenu,
            ..*old(app)
        }) && effects@.len() == 1 && (effects@[0] matches Effect::SaveColorScheme(n) && n@
            == scheme_list()[old(app).color_scheme_index as int].spec_name()),
        key.code == Key::Char('q') ==> effects@.len() == 0 && *final(app) == (App { should_quit: true, ..*old(app) }),
{
    let mut effects: Vec<Effect> = Vec::new();
    match key.code {
        Key::Char('j') | Key::Down => {
            app.color_scheme_index = (app.color_scheme_index + 1) % 6;
            app.apply_color_scheme();
        },
        Key::Char('k') | Key::Up => {
            app.color_scheme_index = (app.color_scheme_index + 5) % 6;
            app.apply_color_scheme();
        },
        Key::Enter => {
            app.apply_color_scheme();
            effects.push(Effect::SaveColorScheme(text(app.preferred_scheme_name())));
            app.screen = Screen::MainMenu;
        },
        Key::Char('q') => {
            app.should_quit = true;
        },
        _ => {},
    }
    effects
}

// ── Main menu ───────────────────────────────────────────────────────────

/// The tab before or after a tab, wrapping around.
pub open spec fn tab_index(t: MenuTab) -> int {
    match t {
        MenuTab::Play => 0,
        MenuTab::Replays => 1,
        MenuTab::Multiplayer => 2,
        MenuTab::Settings => 3,
    }
}

pub open spec fn tab_at(i: int) -> MenuTab {
    if i == 0 {
        MenuTab::Play
    } else if i == 1 {
        MenuTab::Replays
    } else if i == 2 {
        MenuTab::Multiplayer
    } else {
        MenuTab::Settings
    }
}

fn tab_at_exec(i: usize) -> (t: MenuTab)
    requires
        i < 4,
    ensures
        t == tab_at(i as int),
{
    if i == 0 {
        MenuTab::Play
    } else if i == 1 {
        MenuTab::Replays
    } else if i == 2 {
        MenuTab::Multiplayer
    } else {
        MenuTab::Settings
    }
}

fn tab_index_exec(t: MenuTab) -> (i: usize)
    ensures
        i == tab_index(t),
{
    match t {
        MenuTab::Play => 0,
        MenuTab::Replays => 1,
        MenuTab::Multiplayer => 2,
        MenuTab::Settings => 3,
    }
}

/// Whether left and right adjust the computer's level instead of changing
/// tabs: on the Play tab with "VS COMPUTER" selected.
pub open spec fn play_intercepts(a: App) -> bool {
    a.active_tab == MenuTab::Play && a.play_selection == 0
}

/// The main menu: while the online tab reads text, keys go there; else
/// left and right change tabs (wrapping; the replays tab reloads its
/// list), `q` quits, `?` opens help, and other keys go to the tab.
#[verifier::spinoff_prover]
#[verifier::rlimit(60)]
pub fn handle_menu(app: &mut App, key: KeyPress) -> (effects: Vec<Effect>)
    requires
        app_ok(*old(app)),
    ensures
        app_ok(*final(app)),
        !(old(app).active_tab == MenuTab::Multiplayer && crate::app::is_text_input_state(old(app).multiplayer_state))
            && !play_intercepts(*old(app)) && is_left(key.code) ==> final(app).active_tab == tab_at(
            (tab_index(old(app).active_tab) + 3) % 4,
        ) && *final(app) == (App { active_tab: final(app).active_tab, ..*old(app) }) && (final(app).active_tab
            == MenuTab::Replays ==> effects@.len() == 1 && effects@[0] is LoadReplays),
        !(old(app).active_tab == MenuTab::Multiplayer && crate::app::is_text_input_state(old(app).multiplayer_state))
            && !play_intercepts(*old(app)) && is_right(key.code) ==> final(app).active_tab == tab_at(
            (tab_index(old(app).active_tab) + 1) % 4,
        ) && *final(app) == (App { active_tab: final(app).active_tab, ..*old(app) }) && (final(app).active_tab
            == MenuTab::Replays ==> effects@.len() == 1 && effects@[0] is LoadReplays),
        !(old(app).active_tab == MenuTab::Multiplayer && crate::app::is_text_input_state(old(app).multiplayer_state))
            && key.code == Key::Char('q') ==> effects@.len() == 0 && *final(app) == (App { should_quit: true, ..*old(app) }),
{
    if app.active_tab == MenuTab::Multiplayer && crate::app::multiplayer_is_text_input(&app.multiplayer_state) {
        return handle_multiplayer_tab(app, key);
    }
    let intercept = app.active_tab == MenuTab::Play && app.play_selection == 0;
    let mut effects: Vec<Effect> = Vec::new();
    match key.code {
        Key::Left | Key::Char('h') => {
            if !intercept {
                let idx = tab_index_exec(app.active_tab);
                app.active_tab = tab_at_exec((idx + 3) % 4);
                if app.active_tab == MenuTab::Replays {
                    effects.push(Effect::LoadReplays);
                }
                return effects;
            }
        },
        Key::Right | Key::Char('l') => {
            if !intercept {
                let idx = tab_index_exec(app.active_tab);
                app.active_tab = tab_at_exec((idx + 1) % 4);
                if app.active_tab == MenuTab::Replays {
                    effects.push(Effect::LoadReplays);
                }
                return effects;
            }
        },
        Key::Char('q') => {
            app.should_quit = true;
            return effects;
        },
        Key::Char('?') => {
            app.show_help = !app.show_help;
            app.help_search = empty_string();
            app.help_scroll = 0;
            return effects;
        },
        _ => {},
    }
    match app.active_tab {
        MenuTab::Play => handle_play_tab(app, key),
        MenuTab::Replays => handle_replays_tab(app, key),
        MenuTab::Multiplayer => handle_multiplayer_tab(app, key),
        MenuTab::Settings => handle_settings_tab(app, key),
    }
}

/// The Play tab: `j`/`k` move through the entries (wrapping), left and
/// right set the computer's level (1 to 10) on "VS COMPUTER", Enter starts
/// the entry's game, or says it is coming soon.
#[verifier::spinoff_prover]
#[verifier::rlimit(60)]
pub fn handle_play_tab(app: &mut App, key: KeyPress) -> (effects: Vec<Effect>)
    requires
        app_ok(*old(app)),
    ensures
        app_ok(*final(app)),
        effects@.len() == 0,
        is_down(key.code) ==> *final(app) == (App { play_selection: ((old(app).play_selection + 1) % 6) as usize, ..*old(app) }),
        is_up(key.code) ==> *final(app) == (App { play_selection: ((old(app).play_selection + 5) % 6) as usize, ..*old(app) }),
        is_left(key.code) ==> *final(app) == (App {
            ai_difficulty: if old(app).play_selection == 0 && old(app).ai_difficulty > 1 {
                (old(app).ai_difficulty - 1) as usize
            } else {
                old(app).ai_difficulty
            },
            ..*old(app)
        }),
        is_right(key.code) ==> *final(app) == (App {
            ai_difficulty: if old(app).play_selection == 0 && old(app).ai_difficulty < 10 {
                (old(app).ai_difficulty + 1) as usize
            } else {
                old(app).ai_difficulty
            },
            ..*old(app)
        }),
        key.code == Key::Enter && old(app).play_selection == 0 ==> crate::app::fresh_game(*final(app)) && final(app).game_mode
            == GameMode::VsAi(Color::Black),
        key.code == Key::Enter && old(app).play_selection == 1 ==> crate::app::fresh_game(*final(app)) && final(app).game_mode
            == GameMode::Local,
        key.code == Key::Enter && old(app).play_selection >= 2 ==> final(app).status_message@ == "Coming soon!"@ && *final(app)
            == (App { status_message: final(app).status_message, ..*old(app) }),
{
    match key.code {
        Key::Char('j') | Key::Down => {
            app.play_selection = (app.play_selection + 1) % 6;
        },
        Key::Char('k') | Key::Up => {
            app.play_selection = (app.play_selection + 5) % 6;
        },
        Key::Left | Key::Char('h') => {
            if app.play_selection == 0 && app.ai_difficulty > 1 {
                app.ai_difficulty = app.ai_difficulty - 1;
            }
        },
        Key::Right | Key::Char('l') => {
            if app.play_selection == 0 && app.ai_difficulty < 10 {
                app.ai_difficulty = app.ai_difficulty + 1;
            }
        },
        Key::Enter => {
            if app.play_selection == 0 {
                app.start_ai_game();
            } else if app.play_selection == 1 {
                app.start_new_game();
            } else {
                app.status_message = text("Coming soon!");
            }
        },
        _ => {},
    }
    Vec::new()
}

/// The Replays tab: `j`/`k` move through the replays (wrapping), Enter
/// opens one, `d` deletes it; nothing with no replays.
#[verifier::spinoff_prover]
#[verifier::rlimit(60)]
pub fn handle_replays_tab(app: &mut App, key: KeyPress) -> (effects: Vec<Effect>)
    requires
        app_ok(*old(app)),
    ensures
        app_ok(*final(app)),
        old(app).replay_list@.len() == 0 ==> *final(app) == *old(app) && effects@.len() == 0,
        old(app).replay_list@.len() > 0 && is_down(key.code) ==> effects@.len() == 0 && *final(app) == (App {
            replay_selection: if old(app).replay_selection + 1 < old(app).replay_list@.len() {
                (old(app).replay_selection + 1) as usize
            } else {
                0
            },
            ..*old(app)
        }),
        old(app).replay_list@.len() > 0 && is_up(key.code) ==> effects@.len() == 0 && *final(app) == (App {
            replay_selection: if old(app).replay_selection > 0 {
                (old(app).replay_selection - 1) as usize
            } else {
                (old(app).replay_list@.len() - 1) as usize
            },
            ..*old(app)
        }),
        old(app).replay_list@.len() > 0 && key.code == Key::Char('d') ==> *final(app) == *old(app) && effects@.len() == 2
            && effects@[1] is LoadReplays,
{
    let count = app.replay_list.len();
    if count == 0 {
        return Vec::new();
    }
    match key.code {
        Key::Char('j') | Key::Down => {
            // The next replay, wrapping around.
            app.replay_selection = if app.replay_selection + 1 < count {
                app.replay_selection + 1
            } else {
                0
            };
            Vec::new()
        },
        Key::Char('k') | Key::Up => {
            // The previous replay, wrapping around.
            app.replay_selection = if app.replay_selection > 0 {
                app.replay_selection - 1
            } else {
                count - 1
            };
            Vec::new()
        },
        Key::Enter => {
            let i = app.replay_selection;
            app.open_replay(i);
            Vec::new()
        },
        Key::Char('d') => app.delete_selected_replay(),
        _ => Vec::new(),
    }
}

/// The Settings tab: `j`/`k` move through the piece styles (wrapping),
/// Enter applies and saves the style.
#[verifier::spinoff_prover]
#[verifier::rlimit(60)]
pub fn handle_settings_tab(app: &mut App, key: KeyPress) -> (effects: Vec<Effect>)
    requires
        app_ok(*old(app)),
    ensures
        app_ok(*final(app)),
        is_down(key.code) ==> effects@.len() == 0 && *final(app) == (App {
            settings_style_index: ((old(app).settings_style_index + 1) % 5) as usize,
            ..*old(app)
        }),
        is_up(key.code) ==> effects@.len() == 0 && *final(app) == (App {
            settings_style_index: ((old(app).settings_style_index + 4) % 5) as usize,
            ..*old(app)
        }),
        key.code == Key::Enter ==> final(app).piece_style == style_list()[old(app).settings_style_index as int]
            && effects@.len() == 2,
{
    match key.code {
        Key::Char('j') | Key::Down => {
            app.settings_style_index = (app.settings_style_index + 1) % 5;
            Vec::new()
        },
        Key::Char('k') | Key::Up => {
            app.settings_style_index = (app.settings_style_index + 4) % 5;
            Vec::new()
        },
        Key::Enter => app.apply_piece_style(),
        _ => Vec::new(),
    }
}

fn copy_text(s: &String) -> (r: String)
    ensures
        r@ == s@,
{
    s.clone()
}

/// A text field after a key: a character is appended, Backspace removes
/// the last one, any other key leaves it as it was.
pub open spec fn edited(s: Seq<char>, k: Key) -> Seq<char> {
    match k {
        Key::Char(c) => s.push(c),
        Key::Backspace => if s.len() > 0 {
            s.drop_last()
        } else {
            s
        },
        _ => s,
    }
}

/// The code field after a key: a digit is appended while there are fewer
/// than six, Backspace removes the last one, any other key leaves it.
pub open spec fn code_edited(s: Seq<char>, k: Key) -> Seq<char> {
    match k {
        Key::Char(c) => if '0' <= c <= '9' && s.len() < 6 {
            s.push(c)
        } else {
            s
        },
        Key::Backspace => if s.len() > 0 {
            s.drop_last()
        } else {
            s
        },
        _ => s,
    }
}

/// Whether every character is an ASCII digit.
pub open spec fn all_digits(s: Seq<char>) -> bool {
    forall|i: int| 0 <= i < s.len() ==> '0' <= #[trigger] s[i] <= '9'
}

/// The e-mail step: typing, Enter to go on (to the password when
/// logging in, else asking for a code), Esc back to the start.
#[verifier::spinoff_prover]
fn email_step(app: &mut App, key: KeyPress) -> (effects: Vec<Effect>)
    requires
        app_ok(*old(app)),
        old(app).multiplayer_state == MultiplayerState::EnteringEmail,
    ensures
        app_ok(*final(app)),
        key.code == Key::Enter && old(app).login_input@.len() > 0 && old(app).has_account ==> effects@.len() == 0
            && *final(app) == (App { multiplayer_state: MultiplayerState::EnteringLoginPassword, ..*old(app) }),
        key.code == Key::Enter && old(app).login_input@.len() > 0 && !old(app).has_account ==> effects@.len() == 1
            && (effects@[0] matches Effect::Send(ClientMessage::Authenticate { email }) && email@ == old(app).login_input@)
            && *final(app) == (App { multiplayer_state: MultiplayerState::WaitingForOtp, ..*old(app) }),
        key.code == Key::Enter && old(app).login_input@.len() == 0 ==> effects@.len() == 0 && *final(app) == *old(app),
        (key.code is Char || key.code is Backspace) ==> effects@.len() == 0 && final(app).login_input@ == edited(
            old(app).login_input@,
            key.code,
        ) && *final(app) == (App { login_input: final(app).login_input, ..*old(app) }),
        key.code == Key::Esc ==> effects@.len() == 0 && final(app).login_input@.len() == 0 && *final(app) == (App {
            login_input: final(app).login_input,
            multiplayer_state: MultiplayerState::LoggedOut,
            ..*old(app)
        }),
        !(key.code is Char || key.code is Backspace || key.code is Enter || key.code is Esc) ==> effects@.len() == 0
            && *final(app) == *old(app),
{
    let mut effects: Vec<Effect> = Vec::new();
    match key.code {
        Key::Char(c) => push_char(&mut app.login_input, c),
        Key::Backspace => pop_char(&mut app.login_input),
        Key::Enter => {
            if app.login_input.as_str().len() > 0 || chars_of(app.login_input.as_str()).len() > 0 {
                if app.has_account {
                    app.multiplayer_state = MultiplayerState::EnteringLoginPassword;
                } else {
                    effects.push(Effect::Send(ClientMessage::Authenticate { email: copy_text(&app.login_input) }));
                    app.multiplayer_state = MultiplayerState::WaitingForOtp;
                }
            }
        },
        Key::Esc => {
            app.login_input = empty_string();
            app.multiplayer_state = MultiplayerState::LoggedOut;
        },
        _ => {},
    }
    effects
}

/// The code step: up to six digits, Enter sends them once there are
/// six, Esc back to the e-mail step.
#[verifier::spinoff_prover]
fn code_step(app: &mut App, key: KeyPress) -> (effects: Vec<Effect>)
    requires
        app_ok(*old(app)),
        old(app).multiplayer_state == MultiplayerState::EnteringOtp,
    ensures
        app_ok(*final(app)),
        key.code == Key::Enter ==> *final(app) == *old(app) && (old(app).otp_input@.len() == 6 ==> effects@.len() == 1
            && (effects@[0] matches Effect::Send(ClientMessage::VerifyOtp { email, code }) && email@ == old(app).login_input@
            && code@ == old(app).otp_input@)) && (old(app).otp_input@.len() != 6 ==> effects@.len() == 0),
        (key.code is Char || key.code is Backspace) ==> effects@.len() == 0 && final(app).otp_input@ == code_edited(
            old(app).otp_input@,
            key.code,
        ) && *final(app) == (App { otp_input: final(app).otp_input, ..*old(app) }),
        key.code == Key::Esc ==> effects@.len() == 0 && final(app).otp_input@.len() == 0 && *final(app) == (App {
            otp_input: final(app).otp_input,
            multiplayer_state: MultiplayerState::EnteringEmail,
            ..*old(app)
        }),
        !(key.code is Char || key.code is Backspace || key.code is Enter || key.code is Esc) ==> effects@.len() == 0
            && *final(app) == *old(app),
{
    let mut effects: Vec<Effect> = Vec::new();
    match key.code {
        Key::Char(c) => {
            if '0' <= c && c <= '9' {
                if chars_of(app.otp_input.as_str()).len() < 6 {
                    push_char(&mut app.otp_input, c);
                }
            }
        },
        Key::Backspace => pop_char(&mut app.otp_input),
        Key::Enter => {
            if chars_of(app.otp_input.as_str()).len() == 6 {
                effects.push(
                    Effect::Send(
                        ClientMessage::VerifyOtp { email: copy_text(&app.login_input), code: copy_text(&app.otp_input) },
                    ),
                );
            }
        },
        Key::Esc => {
            app.otp_input = empty_string();
            app.multiplayer_state = MultiplayerState::EnteringEmail;
        },
        _ => {},
    }
    effects
}

/// Choosing a password: Enter sends it once it has six characters or
/// more, Esc back to the start.
#[verifier::spinoff_prover]
fn password_step(app: &mut App, key: KeyPress) -> (effects: Vec<Effect>)
    requires
        app_ok(*old(app)),
        old(app).multiplayer_state == MultiplayerState::EnteringPassword,
    ensures
        app_ok(*final(app)),
        key.code == Key::Enter ==> *final(app) == *old(app) && (old(app).password_input@.len() >= 6 ==> effects@.len()
            == 1 && (effects@[0] matches Effect::Send(ClientMessage::SetPassword { password }) && password@
            == old(app).password_input@)) && (old(app).password_input@.len() < 6 ==> effects@.len() == 0),
        (key.code is Char || key.code is Backspace) ==> effects@.len() == 0 && final(app).password_input@ == edited(
            old(app).password_input@,
            key.code,
        ) && *final(app) == (App { password_input: final(app).password_input, ..*old(app) }),
        key.code == Key::Esc ==> effects@.len() == 0 && final(app).password_input@.len() == 0 && *final(app) == (App {
            password_input: final(app).password_input,
            multiplayer_state: MultiplayerState::LoggedOut,
            ..*old(app)
        }),
        !(key.code is Char || key.code is Backspace || key.code is Enter || key.code is Esc) ==> effects@.len() == 0
            && *final(app) == *old(app),
{
    let mut effects: Vec<Effect> = Vec::new();
    match key.code {
        Key::Char(c) => push_char(&mut app.password_input, c),
        Key::Backspace => pop_char(&mut app.password_input),
        Key::Enter => {
            if chars_of(app.password_input.as_str()).len() >= 6 {
                effects.push(Effect::Send(ClientMessage::SetPassword { password: copy_text(&app.password_input) }));
            }
        },
        Key::Esc => {
            app.password_input = empty_string();
            app.multiplayer_state = MultiplayerState::LoggedOut;
        },
        _ => {},
    }
    effects
}

/// The password when logging in: Enter sends the e-mail and the
/// password, Esc back to the e-mail step.
#[verifier::spinoff_prover]
fn login_password_step(app: &mut App, key: KeyPress) -> (effects: Vec<Effect>)
    requires
        app_ok(*old(app)),
        old(app).multiplayer_state == MultiplayerState::EnteringLoginPassword,
    ensures
        app_ok(*final(app)),
        key.code == Key::Enter ==> *final(app) == *old(app) && (old(app).password_input@.len() > 0 ==> effects@.len()
            == 1 && (effects@[0] matches Effect::Send(ClientMessage::LoginWithPassword { email, password }) && email@
            == old(app).login_input@ && password@ == old(app).password_input@)) && (old(app).password_input@.len() == 0
            ==> effects@.len() == 0),
        (key.code is Char || key.code is Backspace) ==> effects@.len() == 0 && final(app).password_input@ == edited(
            old(app).password_input@,
            key.code,
        ) && *final(app) == (App { password_input: final(app).password_input, ..*old(app) }),
        key.code == Key::Esc ==> effects@.len() == 0 && final(app).password_input@.len() == 0 && *final(app) == (App {
            password_input: final(app).password_input,
            multiplayer_state: MultiplayerState::EnteringEmail,
            ..*old(app)
        }),
        !(key.code is Char || key.code is Backspace || key.code is Enter || key.code is Esc) ==> effects@.len() == 0
            && *final(app) == *old(app),
{
    let mut effects: Vec<Effect> = Vec::new();
    match key.code {
        Key::Char(c) => push_char(&mut app.password_input, c),
        Key::Backspace => pop_char(&mut app.password_input),
        Key::Enter => {
            if chars_of(app.password_input.as_str()).len() > 0 {
                effects.push(
                    Effect::Send(
                        ClientMessage::LoginWithPassword {
                            email: copy_text(&app.login_input),
                            password: copy_text(&app.password_input),
                        },
                    ),
                );
            }
        },
        Key::Esc => {
            app.password_input = empty_string();
            app.multiplayer_state = MultiplayerState::EnteringEmail;
        },
        _ => {},
    }
    effects
}

/// Choosing a display name: Enter sends it and signs in under it.
#[verifier::spinoff_prover]
fn display_name_step(app: &mut App, key: KeyPress) -> (effects: Vec<Effect>)
    requires
        app_ok(*old(app)),
        old(app).multiplayer_state == MultiplayerState::EnteringDisplayName,
    ensures
        app_ok(*final(app)),
        key.code == Key::Enter && old(app).display_name_input@.len() > 0 ==> effects@.len() == 1 && (effects@[0] matches Effect::Send(
            ClientMessage::SetDisplayName { name },
        ) && name@ == old(app).display_name_input@) && (final(app).multiplayer_state matches MultiplayerState::LoggedIn {
            display_name,
            elo,
        } && display_name@ == old(app).display_name_input@ && elo == 1200),
        (key.code is Char || key.code is Backspace) ==> effects@.len() == 0 && final(app).display_name_input@ == edited(
            old(app).display_name_input@,
            key.code,
        ) && *final(app) == (App { display_name_input: final(app).display_name_input, ..*old(app) }),
        !(key.code is Char || key.code is Backspace || key.code is Enter) ==> effects@.len() == 0 && *final(app)
            == *old(app),
{
    let mut effects: Vec<Effect> = Vec::new();
    match key.code {
        Key::Char(c) => push_char(&mut app.display_name_input, c),
        Key::Backspace => pop_char(&mut app.display_name_input),
        Key::Enter => {
            if chars_of(app.display_name_input.as_str()).len() > 0 {
                effects.push(Effect::Send(ClientMessage::SetDisplayName { name: copy_text(&app.display_name_input) }));
                app.multiplayer_state = MultiplayerState::LoggedIn {
                    display_name: copy_text(&app.display_name_input),
                    elo: 1200,
                };
            }
        },
        _ => {},
    }
    effects
}

/// The online tab: signing up (e-mail, then the six-digit code), logging
/// in (e-mail, then password), choosing a display name or a password,
/// finding a game and logging out.
#[verifier::spinoff_prover]
#[verifier::rlimit(60)]
pub fn handle_multiplayer_tab(app: &mut App, key: KeyPress) -> (effects: Vec<Effect>)
    requires
        app_ok(*old(app)),
    ensures
        app_ok(*final(app)),
        old(app).multiplayer_state == MultiplayerState::LoggedOut && key.code == Key::Enter ==> effects@.len() == 1
            && (effects@[0] matches Effect::Connect(url) && url@ == old(app).server_url@) && *final(app) == (App {
            has_account: old(app).multiplayer_selection != 0,
            multiplayer_state: MultiplayerState::EnteringEmail,
            ..*old(app)
        }),
        old(app).multiplayer_state == MultiplayerState::EnteringEmail && key.code == Key::Enter
            && old(app).login_input@.len() > 0 && old(app).has_account ==> effects@.len() == 0 && *final(app) == (App {
            multiplayer_state: MultiplayerState::EnteringLoginPassword,
            ..*old(app)
        }),
        old(app).multiplayer_state == MultiplayerState::EnteringEmail && key.code == Key::Enter
            && old(app).login_input@.len() > 0 && !old(app).has_account ==> effects@.len() == 1 && (effects@[0] matches Effect::Send(
            ClientMessage::Authenticate { email },
        ) && email@ == old(app).login_input@) && *final(app) == (App {
            multiplayer_state: MultiplayerState::WaitingForOtp,
            ..*old(app)
        }),
        old(app).multiplayer_state == MultiplayerState::EnteringOtp && key.code == Key::Enter ==> *final(app) == *old(app)
            && (old(app).otp_input@.len() == 6 ==> effects@.len() == 1 && (effects@[0] matches Effect::Send(
            ClientMessage::VerifyOtp { email, code },
        ) && email@ == old(app).login_input@ && code@ == old(app).otp_input@)) && (old(app).otp_input@.len() != 6
            ==> effects@.len() == 0),
        old(app).multiplayer_state == MultiplayerState::EnteringOtp && (key.code is Char || key.code is Backspace)
            ==> effects@.len() == 0 && final(app).otp_input@ == code_edited(old(app).otp_input@, key.code)
            && *final(app) == (App { otp_input: final(app).otp_input, ..*old(app) }),
        crate::app::is_text_input_state(old(app).multiplayer_state) && !(key.code is Char || key.code is Backspace || key.code is Enter
            || key.code is Esc) ==> effects@.len() == 0 && *final(app) == *old(app),
        old(app).multiplayer_state == MultiplayerState::EnteringOtp && old(app).otp_input@.len() <= 6 && all_digits(
            old(app).otp_input@,
        ) ==> final(app).otp_input@.len() <= 6 && all_digits(final(app).otp_input@),
        old(app).multiplayer_state == MultiplayerState::EnteringOtp && key.code == Key::Esc ==> effects@.len() == 0
            && final(app).otp_input@.len() == 0 && *final(app) == (App {
            otp_input: final(app).otp_input,
            multiplayer_state: MultiplayerState::EnteringEmail,
            ..*old(app)
        }),
        old(app).multiplayer_state == MultiplayerState::EnteringEmail && (key.code is Char || key.code is Backspace)
            ==> effects@.len() == 0 && final(app).login_input@ == edited(old(app).login_input@, key.code)
            && *final(app) == (App { login_input: final(app).login_input, ..*old(app) }),
        old(app).multiplayer_state == MultiplayerState::EnteringEmail && key.code == Key::Esc ==> effects@.len() == 0
            && final(app).login_input@.len() == 0 && *final(app) == (App {
            login_input: final(app).login_input,
            multiplayer_state: MultiplayerState::LoggedOut,
            ..*old(app)
        }),
        (old(app).multiplayer_state == MultiplayerState::EnteringPassword || old(app).multiplayer_state
            == MultiplayerState::EnteringLoginPassword) && (key.code is Char || key.code is Backspace) ==> effects@.len()
            == 0 && final(app).password_input@ == edited(old(app).password_input@, key.code) && *final(app) == (App {
            password_input: final(app).password_input,
            ..*old(app)
        }),
        old(app).multiplayer_state == MultiplayerState::EnteringPassword && key.code == Key::Esc ==> effects@.len() == 0
            && final(app).password_input@.len() == 0 && *final(app) == (App {
            password_input: final(app).password_input,
            multiplayer_state: MultiplayerState::LoggedOut,
            ..*old(app)
        }),
        old(app).multiplayer_state == MultiplayerState::EnteringLoginPassword && key.code == Key::Esc ==> effects@.len()
            == 0 && final(app).password_input@.len() == 0 && *final(app) == (App {
            password_input: final(app).password_input,
            multiplayer_state: MultiplayerState::EnteringEmail,
            ..*old(app)
        }),
        old(app).multiplayer_state == MultiplayerState::EnteringPassword && key.code == Key::Enter ==> *final(app)
            == *old(app) && (old(app).password_input@.len() >= 6 ==> effects@.len() == 1 && (effects@[0] matches Effect::Send(
            ClientMessage::SetPassword { password },
        ) && password@ == old(app).password_input@)) && (old(app).password_input@.len() < 6 ==> effects@.len() == 0),
        old(app).multiplayer_state == MultiplayerState::EnteringLoginPassword && key.code == Key::Enter ==> *final(app)
            == *old(app) && (old(app).password_input@.len() > 0 ==> effects@.len() == 1 && (effects@[0] matches Effect::Send(
            ClientMessage::LoginWithPassword { email, password },
        ) && email@ == old(app).login_input@ && password@ == old(app).password_input@)) && (old(app).password_input@.len()
            == 0 ==> effects@.len() == 0),
        old(app).multiplayer_state == MultiplayerState::EnteringDisplayName && (key.code is Char || key.code is Backspace)
            ==> effects@.len() == 0 && final(app).display_name_input@ == edited(old(app).display_name_input@, key.code)
            && *final(app) == (App { display_name_input: final(app).display_name_input, ..*old(app) }),
        old(app).multiplayer_state == MultiplayerState::EnteringDisplayName && key.code == Key::Enter
            && old(app).display_name_input@.len() > 0 ==> effects@.len() == 1 && (effects@[0] matches Effect::Send(
            ClientMessage::SetDisplayName { name },
        ) && name@ == old(app).display_name_input@) && (final(app).multiplayer_state matches MultiplayerState::LoggedIn {
            display_name,
            elo,
        } && display_name@ == old(app).display_name_input@ && elo == 1200),
        old(app).multiplayer_state == MultiplayerState::Searching && key.code == Key::Esc ==> effects@.len() == 1
            && (effects@[0] matches Effect::Send(m) && m is CancelSearch) && final(app).multiplayer_state
            == MultiplayerState::LoggedOut,
        old(app).multiplayer_state is LoggedIn && key.code == Key::Enter && old(app).multiplayer_selection == 0
            ==> effects@.len() == 1 && (effects@[0] matches Effect::Send(m) && m is FindGame) && final(app).multiplayer_state
            == MultiplayerState::Searching,
        old(app).multiplayer_state is LoggedIn && key.code == Key::Enter && old(app).multiplayer_selection == 1
            ==> effects@.len() == 2 && effects@[0] is Disconnect && effects@[1] is ClearSession && final(app).multiplayer_state
            == MultiplayerState::LoggedOut,
{
    let mut effects: Vec<Effect> = Vec::new();
    match &app.multiplayer_state {
        MultiplayerState::LoggedOut => match key.code {
            Key::Char('j') | Key::Down => {
                if app.multiplayer_selection < 1 {
                    app.multiplayer_selection = app.multiplayer_selection + 1;
                }
            },
            Key::Char('k') | Key::Up => {
                if app.multiplayer_selection > 0 {
                    app.multiplayer_selection = app.multiplayer_selection - 1;
                }
            },
            Key::Enter => {
                effects.push(Effect::Connect(copy_text(&app.server_url)));
                app.has_account = app.multiplayer_selection != 0;
                app.multiplayer_state = MultiplayerState::EnteringEmail;
            },
            _ => {},
        },
        MultiplayerState::EnteringEmail => {
            effects = email_step(app, key);
        },
        MultiplayerState::EnteringOtp => {
            effects = code_step(app, key);
        },
        MultiplayerState::EnteringPassword => {
            effects = password_step(app, key);
        },
        MultiplayerState::EnteringLoginPassword => {
            effects = login_password_step(app, key);
        },
        MultiplayerState::EnteringDisplayName => {
            effects = display_name_step(app, key);
        },
        MultiplayerState::LoggedIn { .. } => match key.code {
            Key::Char('j') | Key::Down => {
                if app.multiplayer_selection < 1 {
                    app.multiplayer_selection = app.multiplayer_selection + 1;
                }
            },
            Key::Char('k') | Key::Up => {
                if app.multiplayer_selection > 0 {
                    app.multiplayer_selection = app.multiplayer_selection - 1;
                }
            },
            Key::Enter => {
                if app.multiplayer_selection == 0 {
                    effects.push(Effect::Send(ClientMessage::FindGame));
                    app.multiplayer_state = MultiplayerState::Searching;
                } else if app.multiplayer_selection == 1 {
                    effects.push(Effect::Disconnect);
                    effects.push(Effect::ClearSession);
                    app.multiplayer_state = MultiplayerState::LoggedOut;
                }
            },
            _ => {},
        },
        MultiplayerState::Searching => match key.code {
            Key::Esc => {
                effects.push(Effect::Send(ClientMessage::CancelSearch));
                app.multiplayer_state = MultiplayerState::LoggedOut;
            },
            _ => {},
        },
        _ => {},
    }
    effects
}

// ── Help ────────────────────────────────────────────────────────────────

/// The help window: typing searches, Ctrl+`j`/`k` and the arrows scroll,
/// Esc closes it.
#[verifier::spinoff_prover]
#[verifier::rlimit(60)]
pub fn handle_help_input(app: &mut App, key: KeyPress)
    requires
        app_ok(*old(app)),
    ensures
        app_ok(*final(app)),
        key.ctrl && key.code == Key::Char('j') ==> *final(app) == (App {
            help_scroll: if old(app).help_scroll < usize::MAX { (old(app).help_scroll + 1) as usize } else { usize::MAX },
            ..*old(app)
        }),
        key.ctrl && key.code == Key::Char('k') ==> *final(app) == (App {
            help_scroll: if old(app).help_scroll > 0 { (old(app).help_scroll - 1) as usize } else { 0 },
            ..*old(app)
        }),
        key.code == Key::Esc ==> !final(app).show_help && final(app).help_search@.len() == 0 && final(app).help_scroll == 0
            && final(app).board_image_dirty && final(app).kitty_image_hash == 0,
        (key.code matches Key::Char(c) ==> (!(key.ctrl && (c == 'j' || c == 'k')) ==> final(app).help_search@ == old(app).help_search@.push(c)
            && final(app).help_scroll == 0)),
        !key.ctrl && key.code == Key::Down ==> final(app).help_scroll == (if old(app).help_scroll < usize::MAX {
            (old(app).help_scroll + 1) as usize
        } else {
            usize::MAX
        }),
        !key.ctrl && key.code == Key::Up ==> final(app).help_scroll == (if old(app).help_scroll > 0 {
            (old(app).help_scroll - 1) as usize
        } else {
            0
        }),
        *final(app) == (App {
            show_help: final(app).show_help,
            help_search: final(app).help_search,
            help_scroll: final(app).help_scroll,
            board_image_dirty: final(app).board_image_dirty,
            kitty_image_hash: final(app).kitty_image_hash,
            ..*old(app)
        }),
{
    if key.ctrl {
        match key.code {
            Key::Char('j') => {
                app.help_scroll = app.help_scroll.saturating_add(1);
                return;
            },
            Key::Char('k') => {
                app.help_scroll = app.help_scroll.saturating_sub(1);
                return;
            },
            _ => {},
        }
    }
    match key.code {
        Key::Esc => {
            app.show_help = false;
            app.help_search = empty_string();
            app.help_scroll = 0;
            app.board_image_dirty = true;
            app.kitty_image_hash = 0;
        },
        Key::Backspace => pop_char(&mut app.help_search),
        Key::Down => {
            app.help_scroll = app.help_scroll.saturating_add(1);
        },
        Key::Up => {
            app.help_scroll = app.help_scroll.saturating_sub(1);
        },
        Key::Char(c) => {
            push_char(&mut app.help_search, c);
            app.help_scroll = 0;
        },
        _ => {},
    }
}

// ── In a game ───────────────────────────────────────────────────────────

/// A key in a game: Ctrl+C quits; otherwise the key goes to the board or
/// to the command line, after which the computer's answer is scheduled
/// if it is its turn.
#[verifier::spinoff_prover]
#[verifier::rlimit(60)]
pub fn handle_in_game(app: &mut App, key: KeyPress) -> (effects: Vec<Effect>)
    requires
        app_ok(*old(app)),
    ensures
        app_ok(*final(app)),
        key.code == Key::Char('c') && key.ctrl ==> *final(app) == (App { should_quit: true, ..*old(app) }) && effects@.len() == 0,
{
    if key.code == Key::Char('c') && key.ctrl {
        app.should_quit = true;
        return Vec::new();
    }
    let effects = match app.mode {
        InputMode::Play => handle_play(app, key),
        InputMode::Command => {
            handle_command(app, key)
        },
    };
    app.try_ai_move();
    effects
}

/// The keys of the board: a pending promotion choice first; Esc clears
/// the typed input, then the selection; Tab cycles through the movable
/// pieces; the arrows jump between pieces, or between the selected
/// piece's destinations; Enter selects the square under the cursor;
/// `:` opens the command line; `?` help; `q` quits unless typing; and the
/// characters of moves (files, ranks after a file, `x`, `n`, `r` after
/// something, piece letters and `O`) are typed.
#[verifier::spinoff_prover]
#[verifier::rlimit(60)]
pub fn handle_play(app: &mut App, key: KeyPress) -> (effects: Vec<Effect>)
    requires
        app_ok(*old(app)),
    ensures
        app_ok(*final(app)),
        old(app).pending_promotion is None && key.code == Key::Char(':') ==> effects@.len() == 0 && final(app).mode
            == InputMode::Command && final(app).input_buffer@.len() == 0 && final(app).command_buffer@.len() == 0,
        old(app).pending_promotion is None && key.code == Key::Char('q') && old(app).input_buffer@.len() == 0
            ==> effects@.len() == 0 && *final(app) == (App { should_quit: true, ..*old(app) }),
        old(app).pending_promotion is None && key.code == Key::Esc && old(app).input_buffer@.len() > 0 ==> effects@.len()
            == 0 && final(app).input_buffer@.len() == 0 && final(app).status_message@.len() == 0,
{
    if app.pending_promotion.is_some() {
        return handle_promotion(app, key);
    }
    match key.code {
        Key::Esc => {
            play_escape(app);
            Vec::new()
        },
        Key::Backspace => {
            pop_char(&mut app.input_buffer);
            Vec::new()
        },
        Key::Tab => {
            cycle_pieces(app, !key.shift);
            Vec::new()
        },
        Key::BackTab => {
            cycle_pieces(app, false);
            Vec::new()
        },
        Key::Left => {
            arrow(app, -1, 0);
            Vec::new()
        },
        Key::Right => {
            arrow(app, 1, 0);
            Vec::new()
        },
        Key::Up => {
            arrow(app, 0, 1);
            Vec::new()
        },
        Key::Down => {
            arrow(app, 0, -1);
            Vec::new()
        },
        Key::Enter => select_under_cursor(app),
        Key::Char(':') => {
            app.input_buffer = empty_string();
            app.mode = InputMode::Command;
            app.command_buffer = empty_string();
            Vec::new()
        },
        Key::Char('?') => {
            app.show_help = !app.show_help;
            app.help_search = empty_string();
            app.help_scroll = 0;
            Vec::new()
        },
        Key::Char(c) => play_char(app, c),
        _ => Vec::new(),
    }
}

/// Esc in a game: clears the typed input, or else the selection, and the message.
fn play_escape(app: &mut App)
    requires
        app_ok(*old(app)),
    ensures
        app_ok(*final(app)),
        old(app).input_buffer@.len() > 0 ==> final(app).input_buffer@.len() == 0 && final(app).status_message@.len() == 0,
{
    if chars_of(app.input_buffer.as_str()).len() > 0 {
        app.input_buffer = empty_string();
        app.status_message = empty_string();
    } else {
        app.deselect();
        app.status_message = empty_string();
    }
}

/// Tab in a game: clears the input and the selection and moves to the
/// next (or previous) movable piece.
#[verifier::spinoff_prover]
#[verifier::rlimit(100)]
fn cycle_pieces(app: &mut App, forward: bool)
    requires
        app_ok(*old(app)),
    ensures
        app_ok(*final(app)),
        final(app).input_buffer@.len() == 0,
        final(app).selected_square is None,
        final(app).legal_moves_for_selected@.len() == 0,
        *final(app) == (App {
            input_buffer: final(app).input_buffer,
            selected_square: None,
            legal_moves_for_selected: final(app).legal_moves_for_selected,
            cursor_file: final(app).cursor_file,
            cursor_rank: final(app).cursor_rank,
            ..*old(app)
        }),
        crate::app::next_piece_shown(
            (App {
                input_buffer: final(app).input_buffer,
                selected_square: None,
                legal_moves_for_selected: final(app).legal_moves_for_selected,
                ..*old(app)
            }),
            *final(app),
            forward,
        ),
{
    app.input_buffer = empty_string();
    app.deselect();
    app.jump_to_next_piece(forward);
}

/// Enter in a game: selects the square under the cursor.
fn select_under_cursor(app: &mut App) -> (effects: Vec<Effect>)
    requires
        app_ok(*old(app)),
    ensures
        app_ok(*final(app)),
        crate::app::select_outcome(
            *old(app),
            *final(app),
            crate::app::cursor_square_of(old(app).cursor_file, old(app).cursor_rank, old(app).board_flipped),
            effects@,
        ),
{
    let sq = app.cursor_square();
    app.select_square(sq)
}

/// A character in a game: `q` quits unless typing; files, piece letters
/// and `O` are typed; ranks, `x`, `n` and `r` are typed after something.
fn play_char(app: &mut App, c: char) -> (effects: Vec<Effect>)
    requires
        app_ok(*old(app)),
    ensures
        app_ok(*final(app)),
        c == 'q' && old(app).input_buffer@.len() == 0 ==> effects@.len() == 0 && *final(app) == (App { should_quit: true, ..*old(app) }),
{
    let typing = chars_of(app.input_buffer.as_str()).len() > 0;
    if c == 'q' {
        if !typing {
            app.should_quit = true;
            Vec::new()
        } else {
            feed_input_char(app, 'q')
        }
    } else if 'a' <= c && c <= 'h' {
        feed_input_char(app, c)
    } else if ('1' <= c && c <= '8') || c == 'x' || c == 'n' || c == 'r' {
        if typing {
            feed_input_char(app, c)
        } else {
            Vec::new()
        }
    } else if c == 'N' || c == 'B' || c == 'R' || c == 'Q' || c == 'K' || c == 'O' {
        feed_input_char(app, c)
    } else {
        Vec::new()
    }
}

/// An arrow in a game: clears the typed input and jumps in the direction,
/// between the selected piece's destinations or between movable pieces.
fn arrow(app: &mut App, df: i8, dr: i8)
    requires
        app_ok(*old(app)),
    ensures
        app_ok(*final(app)),
        final(app).input_buffer@.len() == 0,
        crate::app::jumped(
            (App { input_buffer: final(app).input_buffer, ..*old(app) }),
            *final(app),
            crate::app::jump_target(
                if old(app).selected_square is Some {
                    crate::app::destinations(old(app).legal_moves_for_selected@)
                } else {
                    crate::app::movable_pieces_of(old(app).game@.board, 64)
                },
                crate::app::cursor_square_of(old(app).cursor_file, old(app).cursor_rank, old(app).board_flipped),
                df,
                dr,
            ),
        ),
{
    app.input_buffer = empty_string();
    if app.selected_square.is_some() {
        app.jump_between_destinations(df, dr);
    } else {
        app.jump_between_pieces(df, dr);
    }
}

/// The promotion choice: left and right move along the pieces, Enter
/// promotes to the chosen one, Esc gives up the move.
#[verifier::spinoff_prover]
#[verifier::rlimit(60)]
pub fn handle_promotion(app: &mut App, key: KeyPress) -> (effects: Vec<Effect>)
    requires
        app_ok(*old(app)),
    ensures
        app_ok(*final(app)),
        old(app).pending_promotion is Some && key.code == Key::Enter ==> made_move(
            *old(app),
            *final(app),
            old(app).pending_promotion->Some_0@[old(app).promotion_choice as int],
            effects@,
        ),
        old(app).pending_promotion is Some && key.code == Key::Left ==> effects@.len() == 0 && *final(app) == (App {
            promotion_choice: if old(app).promotion_choice > 0 { (old(app).promotion_choice - 1) as usize } else { 0 },
            ..*old(app)
        }),
        old(app).pending_promotion is Some && key.code == Key::Esc ==> effects@.len() == 0 && final(app).pending_promotion
            is None && final(app).promotion_choice == 0 && final(app).selected_square is None,
{
    let n = match &app.pending_promotion {
        Some(moves) => moves.len(),
        None => {
            return Vec::new();
        },
    };
    match key.code {
        Key::Left => {
            if app.promotion_choice > 0 {
                app.promotion_choice = app.promotion_choice - 1;
            }
            Vec::new()
        },
        Key::Right => {
            if app.promotion_choice + 1 < n {
                app.promotion_choice = app.promotion_choice + 1;
            }
            Vec::new()
        },
        Key::Enter => {
            let mv = match &app.pending_promotion {
                Some(moves) => moves[app.promotion_choice],
                None => {
                    return Vec::new();
                },
            };
            app.make_move(mv)
        },
        Key::Esc => {
            app.pending_promotion = None;
            app.promotion_choice = 0;
            app.deselect();
            Vec::new()
        },
        _ => Vec::new(),
    }
}

/// The message when typed input matches no legal move.
pub open spec fn no_match_message(buf: Seq<char>) -> Seq<char> {
    "No match for '"@ + buf + "'"@
}

/// What typed characters amount to in a position.
fn read_input(board: &crate::chess::board::Board, buffer: &Vec<char>) -> (result: InputResult)
    requires
        buffer@.len() > 0,
    ensures
        result == feed_result(candidates_of(board@), buffer@),
{
    let mut parser = MoveInputParser::new(board);
    let mut result = InputResult::NeedMore(0);
    let mut i: usize = 0;
    while i < buffer.len()
        invariant
            i <= buffer@.len(),
            buffer@.len() > 0,
            parser.candidates() == candidates_of(board@),
            parser.spec_buffer() == buffer@.take(i as int),
            i > 0 ==> result == feed_result(candidates_of(board@), buffer@.take(i as int)),
        decreases buffer.len() - i,
    {
        result = parser.feed(buffer[i]);
        assert(buffer@.take(i as int).push(buffer@[i as int]) =~= buffer@.take(i + 1));
        i = i + 1;
    }
    assert(buffer@.take(i as int) =~= buffer@);
    result
}

/// Types a character of a move: the input so far, read against the legal
/// moves, makes the move when exactly one matches; with none, the input
/// is dropped with a message; with two characters naming a square, that
/// square is selected.
#[verifier::spinoff_prover]
#[verifier::rlimit(60)]
pub fn feed_input_char(app: &mut App, c: char) -> (effects: Vec<Effect>)
    requires
        app_ok(*old(app)),
    ensures
        app_ok(*final(app)),
        ({
            let buf = old(app).input_buffer@.push(c);
            let r = feed_result(candidates_of(old(app).game@.board), buf);
            &&& r matches InputResult::Exact(mv) ==> final(app).input_buffer@.len() == 0
            &&& r is NoMatch ==> effects@.len() == 0 && final(app).status_message@ == no_match_message(buf)
                && final(app).input_buffer@.len() == 0 && final(app).selected_square is None
        }),
{
    push_char(&mut app.input_buffer, c);
    let buffer = chars_of(app.input_buffer.as_str());
    let result = read_input(app.game.board(), &buffer);
    match result {
        InputResult::Exact(mv) => {
            let effects = app.make_move(mv);
            app.input_buffer = empty_string();
            effects
        },
        InputResult::NoMatch => {
            let mut msg = chars_of("No match for '");
            push_all(&mut msg, &buffer);
            push_all(&mut msg, &chars_of("'"));
            app.status_message = string_of(&msg);
            app.input_buffer = empty_string();
            app.deselect();
            Vec::new()
        },
        InputResult::NeedMore(_) => {
            if buffer.len() == 2 {
                match Square::parse_chars(buffer.as_slice()) {
                    Some(sq) => {
                        app.set_cursor_to_square(sq);
                        proof {
                            crate::app::lemma_cursor_roundtrip(sq, app.board_flipped);
                        }
                        let effects = app.select_square(sq);
                        return effects;
                    },
                    None => {},
                }
            }
            Vec::new()
        },
    }
}

/// The command line: Esc leaves it, Enter runs the command (trimmed),
/// Backspace deletes (leaving the line when it empties), characters type.
#[verifier::spinoff_prover]
#[verifier::rlimit(60)]
pub fn handle_command(app: &mut App, key: KeyPress) -> (effects: Vec<Effect>)
    requires
        app_ok(*old(app)),
    ensures
        app_ok(*final(app)),
        key.code == Key::Esc ==> effects@.len() == 0 && final(app).mode == InputMode::Play && final(app).command_buffer@.len() == 0,
        key.code == Key::Enter ==> final(app).mode == InputMode::Play && final(app).command_buffer@.len() == 0,
        (key.code matches Key::Char(c) && final(app).command_buffer@ == old(app).command_buffer@.push(c)) || !(key.code is Char),
{
    match key.code {
        Key::Esc => {
            app.mode = InputMode::Play;
            app.command_buffer = empty_string();
            Vec::new()
        },
        Key::Enter => {
            let cmd = trim_chars(&chars_of(app.command_buffer.as_str()));
            let effects = execute_command(app, &cmd);
            app.command_buffer = empty_string();
            app.mode = InputMode::Play;
            effects
        },
        Key::Backspace => {
            pop_char(&mut app.command_buffer);
            if chars_of(app.command_buffer.as_str()).len() == 0 {
                app.mode = InputMode::Play;
            }
            Vec::new()
        },
        Key::Char(c) => {
            push_char(&mut app.command_buffer, c);
            Vec::new()
        },
        _ => Vec::new(),
    }
}

/// Whether a character is white space (Unicode White_Space).
pub open spec fn is_space(c: char) -> bool {
    ('\u{9}' <= c && c <= '\u{d}') || c == ' ' || c == '\u{85}' || c == '\u{a0}' || c == '\u{1680}' || ('\u{2000}' <= c
        && c <= '\u{200a}') || c == '\u{2028}' || c == '\u{2029}' || c == '\u{202f}' || c == '\u{205f}' || c == '\u{3000}'
}

fn is_space_exec(c: char) -> (r: bool)
    ensures
        r == is_space(c),
{
    ('\u{9}' <= c && c <= '\u{d}') || c == ' ' || c == '\u{85}' || c == '\u{a0}' || c == '\u{1680}' || ('\u{2000}' <= c
        && c <= '\u{200a}') || c == '\u{2028}' || c == '\u{2029}' || c == '\u{202f}' || c == '\u{205f}' || c == '\u{3000}'
}

/// The text without white space at either end.
pub open spec fn trimmed(s: Seq<char>) -> Seq<char>
    decreases s.len(),
{
    if s.len() > 0 && is_space(s[0]) {
        trimmed(s.drop_first())
    } else if s.len() > 0 && is_space(s.last()) {
        trimmed(s.drop_last())
    } else {
        s
    }
}

/// Trims white space at both ends.
pub fn trim_chars(v: &Vec<char>) -> (r: Vec<char>)
    ensures
        r@ == trimmed(v@),
{
    let mut lo: usize = 0;
    let mut hi: usize = v.len();
    assert(v@.subrange(0, v@.len() as int) =~= v@);
    while lo < hi && (is_space_exec(v[lo]) || is_space_exec(v[hi - 1]))
        invariant
            lo <= hi <= v@.len(),
            trimmed(v@) == trimmed(v@.subrange(lo as int, hi as int)),
        decreases hi - lo,
    {
        let ghost s = v@.subrange(lo as int, hi as int);
        if is_space_exec(v[lo]) {
            assert(s.drop_first() =~= v@.subrange(lo + 1, hi as int));
            lo = lo + 1;
        } else {
            assert(s.drop_last() =~= v@.subrange(lo as int, hi - 1));
            hi = hi - 1;
        }
    }
    let mut out: Vec<char> = Vec::new();
    let mut k: usize = lo;
    while k < hi
        invariant
            lo <= k <= hi <= v@.len(),
            out@ == v@.subrange(lo as int, k as int),
        decreases hi - k,
    {
        out.push(v[k]);
        assert(out@ =~= v@.subrange(lo as int, k + 1));
        k = k + 1;
    }
    proof {
        let s = v@.subrange(lo as int, hi as int);
        if s.len() > 0 {
            assert(s[0] == v@[lo as int]);
            assert(s.last() == v@[hi - 1]);
        }
    }
    out
}

/// A command of the command line.
#[derive(Clone, Copy, PartialEq, Eq, Debug, Structural)]
pub enum Command {
    Quit,
    Resign,
    Flip,
    New,
    Debug,
    Kitty,
    Unknown,
}

/// The command a (trimmed) command line names: `q`/`quit`, `resign`/`res`,
/// `flip`/`f`, `new`/`n`, `debug`/`dbg`, `kitty`; anything else is unknown.
pub open spec fn command_of(cmd: Seq<char>) -> Command {
    if cmd == "q"@ || cmd == "quit"@ {
        Command::Quit
    } else if cmd == "resign"@ || cmd == "res"@ {
        Command::Resign
    } else if cmd == "flip"@ || cmd == "f"@ {
        Command::Flip
    } else if cmd == "new"@ || cmd == "n"@ {
        Command::New
    } else if cmd == "debug"@ || cmd == "dbg"@ {
        Command::Debug
    } else if cmd == "kitty"@ {
        Command::Kitty
    } else {
        Command::Unknown
    }
}

fn is_cmd(cmd: &Vec<char>, s: &str) -> (b: bool)
    ensures
        b == (cmd@ == s@),
{
    crate::text::same_chars(cmd, &chars_of(s))
}

/// Reads a command line.
pub fn parse_command(cmd: &Vec<char>) -> (c: Command)
    ensures
        c == command_of(cmd@),
{
    if is_cmd(cmd, "q") || is_cmd(cmd, "quit") {
        Command::Quit
    } else if is_cmd(cmd, "resign") || is_cmd(cmd, "res") {
        Command::Resign
    } else if is_cmd(cmd, "flip") || is_cmd(cmd, "f") {
        Command::Flip
    } else if is_cmd(cmd, "new") || is_cmd(cmd, "n") {
        Command::New
    } else if is_cmd(cmd, "debug") || is_cmd(cmd, "dbg") {
        Command::Debug
    } else if is_cmd(cmd, "kitty") {
        Command::Kitty
    } else {
        Command::Unknown
    }
}

/// Runs a command: quit; resign (the side to move loses; the game is
/// saved and the post-game screen opens); flip the board; a new game;
/// the debug panel on or off; the image rendering on or off; or says the
/// command is unknown.
#[verifier::spinoff_prover]
#[verifier::rlimit(60)]
pub fn execute_command(app: &mut App, cmd: &Vec<char>) -> (effects: Vec<Effect>)
    requires
        app_ok(*old(app)),
    ensures
        app_ok(*final(app)),
        command_of(cmd@) == Command::Quit ==> effects@.len() == 0 && *final(app) == (App { should_quit: true, ..*old(app) }),
        command_of(cmd@) == Command::Resign ==> effects@.len() == 1 && effects@[0] == Effect::SaveGame(
            crate::game::state::GameResult::Resignation(old(app).game@.board.side),
        ) && final(app).status_message@ == crate::app::color_name(old(app).game@.board.side) + " resigned"@
            && final(app).screen == Screen::PostGame && final(app).postgame_selection == 0,
        command_of(cmd@) == Command::Flip ==> effects@.len() == 0 && *final(app) == (App {
            board_flipped: !old(app).board_flipped,
            board_image_dirty: true,
            ..*old(app)
        }),
        command_of(cmd@) == Command::New ==> effects@.len() == 0 && crate::app::fresh_game(*final(app))
            && final(app).game_mode == GameMode::Local,
        command_of(cmd@) == Command::Debug ==> effects@.len() == 0 && *final(app) == (App { show_debug: !old(app).show_debug, ..*old(app) }),
        command_of(cmd@) == Command::Kitty ==> effects@.len() == 0 && final(app).use_kitty == !old(app).use_kitty
            && final(app).status_message@ == (if final(app).use_kitty {
            "Kitty image rendering ON"@
        } else {
            "Kitty image rendering OFF (character mode)"@
        }),
        command_of(cmd@) == Command::Unknown ==> effects@.len() == 0 && final(app).status_message@ == "Unknown command: "@
            + cmd@,
{
    match parse_command(cmd) {
        Command::Quit => {
            app.should_quit = true;
            Vec::new()
        },
        Command::Resign => {
            let loser = app.game.side_to_move();
            let mut effects: Vec<Effect> = Vec::new();
            effects.push(Effect::SaveGame(crate::game::state::GameResult::Resignation(loser)));
            let mut msg = match loser {
                Color::White => chars_of("White"),
                Color::Black => chars_of("Black"),
            };
            push_all(&mut msg, &chars_of(" resigned"));
            app.status_message = string_of(&msg);
            app.screen = Screen::PostGame;
            app.postgame_selection = 0;
            effects
        },
        Command::Flip => {
            app.board_flipped = !app.board_flipped;
            app.board_image_dirty = true;
            Vec::new()
        },
        Command::New => {
            app.start_new_game();
            Vec::new()
        },
        Command::Debug => {
            app.show_debug = !app.show_debug;
            Vec::new()
        },
        Command::Kitty => {
            app.use_kitty = !app.use_kitty;
            app.board_image_dirty = true;
            app.status_message = if app.use_kitty {
                text("Kitty image rendering ON")
            } else {
                text("Kitty image rendering OFF (character mode)")
            };
            Vec::new()
        },
        Command::Unknown => {
            let mut msg = chars_of("Unknown command: ");
            push_all(&mut msg, cmd);
            app.status_message = string_of(&msg);
            Vec::new()
        },
    }
}

// ── After a game ────────────────────────────────────────────────────────

/// A game in PGN movetext: each White move numbered ("1."), each move
/// followed by a space.
pub open spec fn pgn_of(sans: Seq<Seq<char>>) -> Seq<char>
    decreases sans.len(),
{
    if sans.len() == 0 {
        Seq::empty()
    } else {
        let i = sans.len() - 1;
        pgn_of(sans.drop_last()) + (if i % 2 == 0 {
            crate::text::decimal((i / 2 + 1) as nat).push('.')
        } else {
            Seq::empty()
        }) + sans.last().push(' ')
    }
}

/// Writes moves in SAN as PGN movetext.
pub fn pgn_text(sans: &Vec<String>) -> (r: String)
    ensures
        r@ == pgn_of(sans@.map_values(|s: String| s@)),
{
    let ghost all = sans@.map_values(|s: String| s@);
    let mut out: Vec<char> = Vec::new();
    let mut i: usize = 0;
    while i < sans.len()
        invariant
            i <= sans@.len(),
            all == sans@.map_values(|s: String| s@),
            out@ == pgn_of(all.take(i as int)),
        decreases sans.len() - i,
    {
        let ghost before = out@;
        if i % 2 == 0 {
            push_decimal(&mut out, (i / 2 + 1) as u128);
            out.push('.');
        }
        let ghost mid = out@;
        assert(mid == before + (if i % 2 == 0 {
            crate::text::decimal((i / 2 + 1) as nat).push('.')
        } else {
            Seq::empty()
        }));
        push_all(&mut out, &chars_of(sans[i].as_str()));
        out.push(' ');
        assert(out@ == mid + sans@[i as int]@.push(' '));
        assert(all.take(i + 1).drop_last() =~= all.take(i as int));
        assert(all.take(i + 1).last() == sans@[i as int]@);
        assert(out@ =~= pgn_of(all.take(i + 1)));
        i = i + 1;
    }
    assert(all.take(i as int) =~= all);
    string_of(&out)
}

/// The Debug form of a game mode.
pub open spec fn mode_debug_of(m: GameMode) -> Seq<char> {
    match m {
        GameMode::Local => "Local"@,
        GameMode::VsAi(c) => "VsAi("@ + crate::app::color_name(c) + ")"@,
        GameMode::Online { game_id, my_color, opponent_name } => "Online { game_id: \""@ + game_id@
            + "\", my_color: "@ + crate::app::color_name(my_color) + ", opponent_name: \""@ + opponent_name@ + "\" }"@,
    }
}

fn mode_debug(m: &GameMode) -> (s: String)
    ensures
        s@ == mode_debug_of(*m),
{
    let name = |c: Color| -> (v: Vec<char>)
        ensures
            v@ == crate::app::color_name(c),
        {
            match c {
                Color::White => chars_of("White"),
                Color::Black => chars_of("Black"),
            }
        };
    match m {
        GameMode::Local => text("Local"),
        GameMode::VsAi(c) => {
            let mut v = chars_of("VsAi(");
            push_all(&mut v, &name(*c));
            push_all(&mut v, &chars_of(")"));
            string_of(&v)
        },
        GameMode::Online { game_id, my_color, opponent_name } => {
            let mut v = chars_of("Online { game_id: \"");
            push_all(&mut v, &chars_of(game_id.as_str()));
            push_all(&mut v, &chars_of("\", my_color: "));
            push_all(&mut v, &name(*my_color));
            push_all(&mut v, &chars_of(", opponent_name: \""));
            push_all(&mut v, &chars_of(opponent_name.as_str()));
            push_all(&mut v, &chars_of("\" }"));
            string_of(&v)
        },
    }
}

/// A new game of the same kind: against the computer again, or a local game.
fn rematch(app: &mut App)
    requires
        app_ok(*old(app)),
    ensures
        app_ok(*final(app)),
        crate::app::fresh_game(*final(app)),
        final(app).game_mode == (if old(app).game_mode is VsAi { GameMode::VsAi(Color::Black) } else { GameMode::Local }),
{
    match app.game_mode {
        GameMode::VsAi(_) => app.start_ai_game(),
        _ => app.start_new_game(),
    }
}

/// Opens the game just played in the replay viewer.
fn review_game(app: &mut App)
    requires
        app_ok(*old(app)),
    ensures
        app_ok(*final(app)),
        final(app).screen == Screen::ReplayViewer,
        final(app).replay_viewer is Some,
{
    let moves = crate::game::replay::history_san(app.game.move_history());
    let n = moves.len();
    let saved = SavedGame {
        id: empty_string(),
        date: empty_string(),
        result: copy_text(&app.status_message),
        result_detail: empty_string(),
        mode: mode_debug(&app.game_mode),
        moves,
        move_count: n,
    };
    app.replay_viewer = Some(ReplayViewerState::from_saved(saved));
    app.screen = Screen::ReplayViewer;
}

/// Copies the game as PGN movetext.
fn copy_pgn(app: &mut App) -> (effects: Vec<Effect>)
    requires
        app_ok(*old(app)),
    ensures
        app_ok(*final(app)),
        effects@.len() == 1,
        effects@[0] is CopyToClipboard,
        final(app).status_message@ == "PGN copied to clipboard!"@,
        *final(app) == (App { status_message: final(app).status_message, ..*old(app) }),
{
    let sans = crate::game::replay::history_san(app.game.move_history());
    let pgn = pgn_text(&sans);
    app.status_message = text("PGN copied to clipboard!");
    let mut effects: Vec<Effect> = Vec::new();
    effects.push(Effect::CopyToClipboard(pgn));
    effects
}

/// The post-game screen: left and right move along rematch, review, copy
/// PGN and menu; Enter does the chosen one; `q` goes to the menu; `?` help.
#[verifier::spinoff_prover]
#[verifier::rlimit(60)]
pub fn handle_postgame(app: &mut App, key: KeyPress) -> (effects: Vec<Effect>)
    requires
        app_ok(*old(app)),
    ensures
        app_ok(*final(app)),
        is_left(key.code) ==> effects@.len() == 0 && *final(app) == (App {
            postgame_selection: if old(app).postgame_selection > 0 { (old(app).postgame_selection - 1) as usize } else { 0 },
            ..*old(app)
        }),
        is_right(key.code) ==> effects@.len() == 0 && *final(app) == (App {
            postgame_selection: if old(app).postgame_selection + 1 < 4 { (old(app).postgame_selection + 1) as usize } else { old(app).postgame_selection },
            ..*old(app)
        }),
        key.code == Key::Enter && old(app).postgame_selection == 0 ==> crate::app::fresh_game(*final(app)) && final(app).game_mode
            == (if old(app).game_mode is VsAi { GameMode::VsAi(Color::Black) } else { GameMode::Local }),
        key.code == Key::Enter && old(app).postgame_selection == 1 ==> final(app).screen == Screen::ReplayViewer
            && final(app).replay_viewer is Some,
        key.code == Key::Enter && old(app).postgame_selection == 2 ==> effects@.len() == 1 && effects@[0] is CopyToClipboard
            && final(app).status_message@ == "PGN copied to clipboard!"@,
        key.code == Key::Enter && old(app).postgame_selection == 3 ==> *final(app) == (App { screen: Screen::MainMenu, menu_selection: 0, ..*old(app) }),
        key.code == Key::Char('q') ==> *final(app) == (App { screen: Screen::MainMenu, menu_selection: 0, ..*old(app) }),
{
    match key.code {
        Key::Char('h') | Key::Left => {
            if app.postgame_selection > 0 {
                app.postgame_selection = app.postgame_selection - 1;
            }
            Vec::new()
        },
        Key::Char('l') | Key::Right => {
            if app.postgame_selection + 1 < 4 {
                app.postgame_selection = app.postgame_selection + 1;
            }
            Vec::new()
        },
        Key::Enter => {
            if app.postgame_selection == 0 {
                rematch(app);
                Vec::new()
            } else if app.postgame_selection == 1 {
                review_game(app);
                Vec::new()
            } else if app.postgame_selection == 2 {
                copy_pgn(app)
            } else {
                app.screen = Screen::MainMenu;
                app.menu_selection = 0;
                Vec::new()
            }
        },
        Key::Char('q') => {
            app.screen = Screen::MainMenu;
            app.menu_selection = 0;
            Vec::new()
        },
        Key::Char('?') => {
            app.show_help = !app.show_help;
            app.help_search = empty_string();
            app.help_scroll = 0;
            Vec::new()
        },
        _ => Vec::new(),
    }
}

// ── Replay viewer ───────────────────────────────────────────────────────

/// The replay viewer: right and left step through the moves, Home and
/// End go to the start and the end, `f` flips the board, `q` or Esc go
/// back to the replays tab.
#[verifier::spinoff_prover]
#[verifier::rlimit(60)]
pub fn handle_replay_viewer(app: &mut App, key: KeyPress)
    requires
        app_ok(*old(app)),
    ensures
        app_ok(*final(app)),
        (key.code == Key::Right || key.code == Key::Char('l')) ==> (old(app).replay_viewer matches Some(v) ==> (
        final(app).replay_viewer matches Some(w) && w.boards == v.boards && w.current_move == (if v.current_move + 1
            < v.boards@.len() {
            v.current_move + 1
        } else {
            v.current_move as int
        }))),
        (key.code == Key::Left || key.code == Key::Char('h')) ==> (old(app).replay_viewer matches Some(v) ==> (
        final(app).replay_viewer matches Some(w) && w.boards == v.boards && w.current_move == (if v.current_move > 0 {
            v.current_move - 1
        } else {
            0
        }))),
        key.code == Key::Home ==> (old(app).replay_viewer matches Some(v) ==> (final(app).replay_viewer matches Some(w)
            && w.boards == v.boards && w.current_move == 0)),
        key.code == Key::End ==> (old(app).replay_viewer matches Some(v) ==> (final(app).replay_viewer matches Some(w)
            && w.boards == v.boards && w.current_move == v.boards@.len() - 1)),
        key.code == Key::Char('f') ==> *final(app) == (App {
            board_flipped: !old(app).board_flipped,
            board_image_dirty: true,
            ..*old(app)
        }),
        (key.code == Key::Char('q') || key.code == Key::Esc) ==> *final(app) == (App {
            replay_viewer: None,
            screen: Screen::MainMenu,
            active_tab: MenuTab::Replays,
            ..*old(app)
        }),
{
    match key.code {
        Key::Right | Key::Char('l') | Key::Left | Key::Char('h') | Key::Home | Key::End => {
            let mut viewer = None;
            std::mem::swap(&mut viewer, &mut app.replay_viewer);
            match viewer {
                Some(mut v) => {
                    match key.code {
                        Key::Right | Key::Char('l') => v.go_next(),
                        Key::Left | Key::Char('h') => v.go_prev(),
                        Key::Home => v.go_start(),
                        _ => v.go_end(),
                    }
                    app.replay_viewer = Some(v);
                },
                None => {},
            }
        },
        Key::Char('f') => {
            app.board_flipped = !app.board_flipped;
            app.board_image_dirty = true;
        },
        Key::Char('q') | Key::Esc => {
            app.replay_viewer = None;
            app.screen = Screen::MainMenu;
            app.active_tab = MenuTab::Replays;
        },
        _ => {},
    }
}

// ── Mouse ───────────────────────────────────────────────────────────────

/// The square shown `col` columns right of the board's left edge and `row`
/// rows below its top edge.
pub open spec fn clicked_square(col: u8, row: u8, flipped: bool) -> Square {
    if flipped {
        Square { file: File::spec_from_index((7 - col) as u8), rank: Rank::spec_from_index(row) }
    } else {
        Square { file: File::spec_from_index(col), rank: Rank::spec_from_index((7 - row) as u8) }
    }
}

/// The application with its cursor moved onto the clicked square.
pub open spec fn cursor_on_click(a: App, col: u8, row: u8) -> App {
    App {
        cursor_file: cursor_for(clicked_square(col, row, a.board_flipped), a.board_flipped).0,
        cursor_rank: cursor_for(clicked_square(col, row, a.board_flipped), a.board_flipped).1,
        ..a
    }
}

/// A click on the board, on the square `col` columns right of its left
/// edge and `row` rows below its top edge (as the screen shows it): in a
/// game, in play mode and without a promotion choice open, the cursor
/// goes there and the square is selected. Says whether anything changed.
#[verifier::spinoff_prover]
#[verifier::rlimit(60)]
pub fn click_square(app: &mut App, col: u8, row: u8) -> (r: (bool, Vec<Effect>))
    requires
        app_ok(*old(app)),
    ensures
        app_ok(*final(app)),
        !(old(app).screen == Screen::InGame && old(app).mode == InputMode::Play && old(app).pending_promotion is None
            && col < 8 && row < 8) ==> !r.0 && *final(app) == *old(app),
        (old(app).screen == Screen::InGame && old(app).mode == InputMode::Play && old(app).pending_promotion is None
            && col < 8 && row < 8) ==> r.0 && exists|mid: App|
            #[trigger] select_outcome(
                cursor_on_click(*old(app), col, row),
                mid,
                clicked_square(col, row, old(app).board_flipped),
                r.1@,
            ) && *final(app) == (App { ai_move_at: final(app).ai_move_at, ..mid }),
{
    if !(app.screen == Screen::InGame && app.mode == InputMode::Play) || app.pending_promotion.is_some() {
        return (false, Vec::new());
    }
    if col >= 8 || row >= 8 {
        return (false, Vec::new());
    }
    let (file, rank) = if app.board_flipped {
        (7 - col, row)
    } else {
        (col, 7 - row)
    };
    let sq = Square::new(crate::chess::types::File::from_index(file), crate::chess::types::Rank::from_index(rank));
    assert(sq == clicked_square(col, row, app.board_flipped));
    app.set_cursor_to_square(sq);
    assert(*app == cursor_on_click(*old(app), col, row));
    proof {
        crate::app::lemma_cursor_roundtrip(sq, app.board_flipped);
    }
    let effects = app.select_square(sq);
    let ghost mid = *app;
    let ghost e = effects@;
    app.try_ai_move();
    assert(select_outcome(
        cursor_on_click(*old(app), col, row),
        mid,
        clicked_square(col, row, old(app).board_flipped),
        effects@,
    ));
    assert(*app == (App { ai_move_at: app.ai_move_at, ..mid }));
    let r = (true, effects);
    assert(r.1@ == e);
    assert(select_outcome(cursor_on_click(*old(app), col, row), mid, clicked_square(col, row, old(app).board_flipped), r.1@));
    assert(exists|m: App|
        #[trigger] select_outcome(cursor_on_click(*old(app), col, row), m, clicked_square(col, row, old(app).board_flipped), r.1@)
            && *app == (App { ai_move_at: app.ai_move_at, ..m })) by {
        assert(*app == (App { ai_move_at: app.ai_move_at, ..mid }));
    }
    r
}


} // verus!
