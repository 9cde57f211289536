//! Difficulty levels: how deep the engine searches, which evaluation terms
//! it uses, how long it may think, and how human its mistakes are.
use vstd::prelude::*;

verus! {

/// Which evaluation components are active at a level.
#[derive(Clone, Copy, PartialEq, Eq, Debug, Structural)]
pub struct EvalConfig {
    pub material: bool,
    pub piece_square_tables: bool,
    pub pawn_structure: bool,
    pub king_safety: bool,
    pub mobility: bool,
    pub center_control: bool,
    pub bishop_pair: bool,
    pub rook_on_open_file: bool,
    pub passed_pawns: bool,
    pub endgame_knowledge: bool,
}

/// Personality quirks that make a weak engine feel human.
#[derive(Clone, Copy, PartialEq, Eq, Debug, Structural)]
pub struct PersonalityConfig {
    /// Chance, in thousandths, of playing a suboptimal move instead of the best.
    pub blunder_rate_permille: u16,
    /// When blundering, the largest loss in centipawns the engine accepts.
    pub max_blunder_cp: i32,
    /// Whether the engine sees back-rank mate threats.
    pub sees_back_rank: bool,
    /// How deep the engine understands forks, pins and skewers.
    pub sees_tactics_depth: u8,
    /// Noise added to evaluations, in centipawns.
    pub eval_noise_cp: i32,
    /// Whether the engine trades pieces when ahead.
    pub trades_when_ahead: bool,
    /// A human-like minimum time before answering, in milliseconds.
    pub min_think_time_ms: u64,
}

/// A difficulty level.
#[derive(Clone, Copy, PartialEq, Eq, Debug)]
pub struct DifficultyLevel {
    pub level: u8,
    pub name: &'static str,
    pub description: &'static str,
    pub approx_elo: u16,
    pub max_depth: u8,
    /// Longest search, in milliseconds.
    pub max_think_time_ms: u64,
    /// Quiescence search depth (0: none).
    pub quiescence_depth: u8,
    pub eval: EvalConfig,
    pub personality: PersonalityConfig,
    pub use_opening_book: bool,
    /// Transposition table entries (0: none).
    pub tt_size: usize,
}

/// The numeric settings of each level: depth, think time (ms), quiescence
/// depth, blunder rate (thousandths), largest blunder, noise, minimum think
/// time (ms), opening book, table size.
pub open spec fn level_numbers(level: u8) -> (u8, u64, u8, u16, i32, i32, u64, bool, usize) {
    if level == 1 {
        (1, 200, 0, 350, 400, 150, 500, false, 0)
    } else if level == 2 {
        (2, 300, 1, 250, 300, 120, 600, false, 0)
    } else if level == 3 {
        (3, 500, 2, 180, 250, 90, 700, true, 0)
    } else if level == 4 {
        (3, 800, 3, 120, 200, 60, 800, true, 65536)
    } else if level == 5 {
        (4, 1000, 4, 70, 150, 40, 1000, true, 131072)
    } else if level == 6 {
        (5, 1500, 6, 40, 100, 25, 1000, true, 262144)
    } else if level == 7 {
        (6, 2000, 8, 20, 60, 15, 1200, true, 524288)
    } else if level == 8 {
        (7, 2000, 10, 0, 0, 8, 800, true, 1048576)
    } else if level == 9 {
        (8, 2000, 12, 0, 0, 0, 500, true, 1048576)
    } else {
        (10, 2000, 16, 0, 0, 0, 300, true, 2097152)
    }
}

/// The numeric settings of a level.
pub open spec fn numbers_of(d: DifficultyLevel) -> (u8, u64, u8, u16, i32, i32, u64, bool, usize) {
    (
        d.max_depth,
        d.max_think_time_ms,
        d.quiescence_depth,
        d.personality.blunder_rate_permille,
        d.personality.max_blunder_cp,
        d.personality.eval_noise_cp,
        d.personality.min_think_time_ms,
        d.use_opening_book,
        d.tt_size,
    )
}

/// Levels outside 1..=10 are brought into it.
pub open spec fn clamp_level(level: u8) -> u8 {
    if level < 1 {
        1
    } else if level > 10 {
        10
    } else {
        level
    }
}

impl DifficultyLevel {
    fn level_1() -> (l: DifficultyLevel)
        ensures
            l.level == 1,
            numbers_of(l) == level_numbers(1),
    {
        DifficultyLevel {
            level: 1,
            name: "Pawn Pusher",
            description: "Just learned how the pieces move",
            approx_elo: 400,
            max_depth: 1,
            max_think_time_ms: 200,
            quiescence_depth: 0,
            eval: EvalConfig {
                material: true,
                piece_square_tables: false,
                pawn_structure: false,
                king_safety: false,
                mobility: false,
                center_control: false,
                bishop_pair: false,
                rook_on_open_file: false,
                passed_pawns: false,
                endgame_knowledge: false,
            },
            personality: PersonalityConfig {
                blunder_rate_permille: 350,
                max_blunder_cp: 400,
                sees_back_rank: false,
                sees_tactics_depth: 0,
                eval_noise_cp: 150,
                trades_when_ahead: false,
                min_think_time_ms: 500,
            },
            use_opening_book: false,
            tt_size: 0,
        }
    }

    fn level_2() -> (l: DifficultyLevel)
        ensures
            l.level == 2,
            numbers_of(l) == level_numbers(2),
    {
        DifficultyLevel {
            level: 2,
            name: "Coffee Shop",
            description: "Plays for fun, sometimes forgets to guard pieces",
            approx_elo: 600,
            max_depth: 2,
            max_think_time_ms: 300,
            quiescence_depth: 1,
            eval: EvalConfig {
                material: true,
                piece_square_tables: true,
                pawn_structure: false,
                king_safety: false,
                mobility: false,
                center_control: true,
                bishop_pair: false,
                rook_on_open_file: false,
                passed_pawns: false,
                endgame_knowledge: false,
            },
            personality: PersonalityConfig {
                blunder_rate_permille: 250,
                max_blunder_cp: 300,
                sees_back_rank: false,
                sees_tactics_depth: 1,
                eval_noise_cp: 120,
                trades_when_ahead: false,
                min_think_time_ms: 600,
            },
            use_opening_book: false,
            tt_size: 0,
        }
    }

    fn level_3() -> (l: DifficultyLevel)
        ensures
            l.level == 3,
            numbers_of(l) == level_numbers(3),
    {
        DifficultyLevel {
            level: 3,
            name: "Park Bench",
            description: "Knows the basics, developing pieces toward the center",
            approx_elo: 800,
            max_depth: 3,
            max_think_time_ms: 500,
            quiescence_depth: 2,
            eval: EvalConfig {
                material: true,
                piece_square_tables: true,
                pawn_structure: false,
                king_safety: true,
                mobility: false,
                center_control: true,
                bishop_pair: false,
                rook_on_open_file: false,
                passed_pawns: false,
                endgame_knowledge: false,
            },
            personality: PersonalityConfig {
                blunder_rate_permille: 180,
                max_blunder_cp: 250,
                sees_back_rank: false,
                sees_tactics_depth: 1,
                eval_noise_cp: 90,
                trades_when_ahead: false,
                min_think_time_ms: 700,
            },
            use_opening_book: true,
            tt_size: 0,
        }
    }

    fn level_4() -> (l: DifficultyLevel)
        ensures
            l.level == 4,
            numbers_of(l) == level_numbers(4),
    {
        DifficultyLevel {
            level: 4,
            name: "Casual Player",
            description: "Plays online regularly, knows basic tactics",
            approx_elo: 1000,
            max_depth: 3,
            max_think_time_ms: 800,
            quiescence_depth: 3,
            eval: EvalConfig {
                material: true,
                piece_square_tables: true,
                pawn_structure: true,
                king_safety: true,
                mobility: true,
                center_control: true,
                bishop_pair: false,
                rook_on_open_file: false,
                passed_pawns: false,
                endgame_knowledge: false,
            },
            personality: PersonalityConfig {
                blunder_rate_permille: 120,
                max_blunder_cp: 200,
                sees_back_rank: true,
                sees_tactics_depth: 2,
                eval_noise_cp: 60,
                trades_when_ahead: false,
                min_think_time_ms: 800,
            },
            use_opening_book: true,
            tt_size: 65536,
        }
    }

    fn level_5() -> (l: DifficultyLevel)
        ensures
            l.level == 5,
            numbers_of(l) == level_numbers(5),
    {
        DifficultyLevel {
            level: 5,
            name: "Tournament Hopeful",
            description: "Joined a chess club, studying tactics daily",
            approx_elo: 1200,
            max_depth: 4,
            max_think_time_ms: 1000,
            quiescence_depth: 4,
            eval: EvalConfig {
                material: true,
                piece_square_tables: true,
                pawn_structure: true,
                king_safety: true,
                mobility: true,
                center_control: true,
                bishop_pair: true,
                rook_on_open_file: true,
                passed_pawns: false,
                endgame_knowledge: false,
            },
            personality: PersonalityConfig {
                blunder_rate_permille: 70,
                max_blunder_cp: 150,
                sees_back_rank: true,
                sees_tactics_depth: 3,
                eval_noise_cp: 40,
                trades_when_ahead: true,
                min_think_time_ms: 1000,
            },
            use_opening_book: true,
            tt_size: 131072,
        }
    }

    fn level_6() -> (l: DifficultyLevel)
        ensures
            l.level == 6,
            numbers_of(l) == level_numbers(6),
    {
        DifficultyLevel {
            level: 6,
            name: "Rated Player",
            description: "Has a real rating, studies openings and endgames",
            approx_elo: 1400,
            max_depth: 5,
            max_think_time_ms: 1500,
            quiescence_depth: 6,
            eval: EvalConfig {
                material: true,
                piece_square_tables: true,
                pawn_structure: true,
                king_safety: true,
                mobility: true,
                center_control: true,
                bishop_pair: true,
                rook_on_open_file: true,
                passed_pawns: true,
                endgame_knowledge: false,
            },
            personality: PersonalityConfig {
                blunder_rate_permille: 40,
                max_blunder_cp: 100,
                sees_back_rank: true,
                sees_tactics_depth: 4,
                eval_noise_cp: 25,
                trades_when_ahead: true,
                min_think_time_ms: 1000,
            },
            use_opening_book: true,
            tt_size: 262144,
        }
    }

    fn level_7() -> (l: DifficultyLevel)
        ensures
            l.level == 7,
            numbers_of(l) == level_numbers(7),
    {
        DifficultyLevel {
            level: 7,
            name: "Club Veteran",
            description: "Decades of experience, sharp tactical eye",
            approx_elo: 1600,
            max_depth: 6,
            max_think_time_ms: 2000,
            quiescence_depth: 8,
            eval: EvalConfig {
                material: true,
                piece_square_tables: true,
                pawn_structure: true,
                king_safety: true,
                mobility: true,
                center_control: true,
                bishop_pair: true,
                rook_on_open_file: true,
                passed_pawns: true,
                endgame_knowledge: true,
            },
            personality: PersonalityConfig {
                blunder_rate_permille: 20,
                max_blunder_cp: 60,
                sees_back_rank: true,
                sees_tactics_depth: 5,
                eval_noise_cp: 15,
                trades_when_ahead: true,
                min_think_time_ms: 1200,
            },
            use_opening_book: true,
            tt_size: 524288,
        }
    }

    fn level_8() -> (l: DifficultyLevel)
        ensures
            l.level == 8,
            numbers_of(l) == level_numbers(8),
    {
        DifficultyLevel {
            level: 8,
            name: "Club Champion",
            description: "Wins the club tournament, feared in rapid games",
            approx_elo: 1800,
            max_depth: 7,
            max_think_time_ms: 2000,
            quiescence_depth: 10,
            eval: EvalConfig {
                material: true,
                piece_square_tables: true,
                pawn_structure: true,
                king_safety: true,
                mobility: true,
                center_control: true,
                bishop_pair: true,
                rook_on_open_file: true,
                passed_pawns: true,
                endgame_knowledge: true,
            },
            personality: PersonalityConfig {
                blunder_rate_permille: 0,
                max_blunder_cp: 0,
                sees_back_rank: true,
                sees_tactics_depth: 6,
                eval_noise_cp: 8,
                trades_when_ahead: true,
                min_think_time_ms: 800,
            },
            use_opening_book: true,
            tt_size: 1048576,
        }
    }

    fn level_9() -> (l: DifficultyLevel)
        ensures
            l.level == 9,
            numbers_of(l) == level_numbers(9),
    {
        DifficultyLevel {
            level: 9,
            name: "Expert",
            description: "Tournament expert, plays like a machine",
            approx_elo: 1950,
            max_depth: 8,
            max_think_time_ms: 2000,
            quiescence_depth: 12,
            eval: EvalConfig {
                material: true,
                piece_square_tables: true,
                pawn_structure: true,
                king_safety: true,
                mobility: true,
                center_control: true,
                bishop_pair: true,
                rook_on_open_file: true,
                passed_pawns: true,
                endgame_knowledge: true,
            },
            personality: PersonalityConfig {
                blunder_rate_permille: 0,
                max_blunder_cp: 0,
                sees_back_rank: true,
                sees_tactics_depth: 8,
                eval_noise_cp: 0,
                trades_when_ahead: true,
                min_think_time_ms: 500,
            },
            use_opening_book: true,
            tt_size: 1048576,
        }
    }

    fn level_10() -> (l: DifficultyLevel)
        ensures
            l.level == 10,
            numbers_of(l) == level_numbers(10),
    {
        DifficultyLevel {
            level: 10,
            name: "Grandmaster Wannabe",
            description: "The engine unleashed -- good luck",
            approx_elo: 2100,
            max_depth: 10,
            max_think_time_ms: 2000,
            quiescence_depth: 16,
            eval: EvalConfig {
                material: true,
                piece_square_tables: true,
                pawn_structure: true,
                king_safety: true,
                mobility: true,
                center_control: true,
                bishop_pair: true,
                rook_on_open_file: true,
                passed_pawns: true,
                endgame_knowledge: true,
            },
            personality: PersonalityConfig {
                blunder_rate_permille: 0,
                max_blunder_cp: 0,
                sees_back_rank: true,
                sees_tactics_depth: 10,
                eval_noise_cp: 0,
                trades_when_ahead: true,
                min_think_time_ms: 300,
            },
            use_opening_book: true,
            tt_size: 2097152,
        }
    }

    /// The settings of a level, clamped to 1..=10.
    pub fn from_level(level: u8) -> (l: DifficultyLevel)
        ensures
            l.level == clamp_level(level),
            numbers_of(l) == level_numbers(clamp_level(level)),
            1 <= l.max_depth <= 10,
            l.quiescence_depth <= 16,
    {
        let lv = if level < 1 {
            1
        } else if level > 10 {
            10
        } else {
            level
        };
        if lv == 1 {
            DifficultyLevel::level_1()
        } else if lv == 2 {
            DifficultyLevel::level_2()
        } else if lv == 3 {
            DifficultyLevel::level_3()
        } else if lv == 4 {
            DifficultyLevel::level_4()
        } else if lv == 5 {
            DifficultyLevel::level_5()
        } else if lv == 6 {
            DifficultyLevel::level_6()
        } else if lv == 7 {
            DifficultyLevel::level_7()
        } else if lv == 8 {
            DifficultyLevel::level_8()
        } else if lv == 9 {
            DifficultyLevel::level_9()
        } else {
            DifficultyLevel::level_10()
        }
    }

    /// All ten levels, in order.
    pub fn all_levels() -> (v: Vec<DifficultyLevel>)
        ensures
            v@.len() == 10,
            forall|i: int| 0 <= i < 10 ==> (#[trigger] v@[i]).level == i + 1,
    {
        let mut v: Vec<DifficultyLevel> = Vec::new();
        let mut i: u8 = 1;
        while i <= 10
            invariant
                1 <= i <= 11,
                v@.len() == i - 1,
                forall|k: int| 0 <= k < v@.len() ==> (#[trigger] v@[k]).level == k + 1,
            decreases 11 - i,
        {
            v.push(DifficultyLevel::from_level(i));
            i = i + 1;
        }
        v
    }
}

} // verus!
