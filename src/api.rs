use vstd::prelude::*;

use crate::exp::{div_toward_zero, exp_through, exp_to_level, rem_toward_zero, ExpSource, EXP_PER_LEVEL};
use crate::models::{Message, Solve, User};
use crate::scoring::ScoringRule;

verus! {

/// The kinds of puzzle on offer.
#[derive(Clone, Copy, Debug, PartialEq, Eq, Structural)]
pub enum PuzzleType {
    /// Monoalphabetic substitution.
    Aristocrat,
    /// Biliteral five-bit encoding.
    Baconian,
}

/// A stored puzzle kind that names no kind of puzzle.
#[derive(Clone, Copy, Debug, PartialEq, Eq, Structural)]
pub struct InvalidPuzzleType {
    pub value: i16,
}

impl PuzzleType {
    /// The number under which the kind is stored.
    pub open spec fn spec_code(self) -> i16 {
        match self {
            PuzzleType::Aristocrat => 0,
            PuzzleType::Baconian => 1,
        }
    }

    /// The number under which the kind is stored.
    pub fn code(self) -> (r: i16)
        ensures
            r == self.spec_code(),
    {
        match self {
            PuzzleType::Aristocrat => 0,
            PuzzleType::Baconian => 1,
        }
    }

    /// The kind stored under `v`.
    pub fn try_from(v: i16) -> (r: Result<PuzzleType, InvalidPuzzleType>)
        ensures
            r is Ok <==> 0 <= v <= 1,
            r matches Ok(t) ==> t.spec_code() == v,
            r matches Err(e) ==> e.value == v,
    {
        if v == 0 {
            Ok(PuzzleType::Aristocrat)
        } else if v == 1 {
            Ok(PuzzleType::Baconian)
        } else {
            Err(InvalidPuzzleType { value: v })
        }
    }

    /// How a solve of this kind is rewarded.
    pub open spec fn spec_scoring_rule(self) -> ScoringRule {
        match self {
            PuzzleType::Aristocrat => ScoringRule { base_reward: 100, decay_num: 5, decay_den: 3 },
            PuzzleType::Baconian => ScoringRule { base_reward: 75, decay_num: 5, decay_den: 6 },
        }
    }

    /// How a solve of this kind is rewarded: 100 points decaying by 5/3 a
    /// second for substitution, 75 points decaying by 2.5/3 a second for
    /// biliteral puzzles.
    pub fn scoring_rule(self) -> (r: ScoringRule)
        ensures
            r == self.spec_scoring_rule(),
            r.wf(),
    {
        match self {
            PuzzleType::Aristocrat => ScoringRule { base_reward: 100, decay_num: 5, decay_den: 3 },
            PuzzleType::Baconian => ScoringRule { base_reward: 75, decay_num: 5, decay_den: 6 },
        }
    }
}

/// A solve about to be recorded.
pub struct NewSolve {
    pub puzzle_type: i16,
    pub message_id: i32,
    pub solver: String,
    pub time_taken: i32,
    pub exp_gained: i32,
}

impl NewSolve {
    pub fn new(
        puzzle_type: PuzzleType,
        message_id: i32,
        solver: &User,
        time_taken: i32,
        exp_gained: i32,
    ) -> (r: NewSolve)
        ensures
            r.puzzle_type == puzzle_type.spec_code(),
            r.message_id == message_id,
            r.solver@ == solver.id@,
            r.time_taken == time_taken,
            r.exp_gained == exp_gained,
    {
        NewSolve {
            puzzle_type: puzzle_type.code(),
            message_id,
            solver: solver.id.clone(),
            time_taken,
            exp_gained,
        }
    }
}

/// A user's public profile.
pub struct ProfileResponse {
    pub id: String,
    pub username: String,
    pub solved: i32,
    pub level: i32,
    pub experience: i32,
    pub exp_required: i32,
    pub exp_through: i32,
}

impl ProfileResponse {
    /// The profile of `user`: its level and the progress within that level
    /// follow from its experience.
    pub fn from(user: User) -> (r: ProfileResponse)
        ensures
            r.id@ == user.id@,
            r.username@ == user.username@,
            r.solved == user.solved,
            r.experience == user.experience,
            r.level == 1 + div_toward_zero(user.experience as int, EXP_PER_LEVEL as int),
            r.exp_through == rem_toward_zero(user.experience as int, EXP_PER_LEVEL as int),
            r.exp_required == EXP_PER_LEVEL,
    {
        let level = exp_to_level(user.experience);
        let through = exp_through(user.experience);
        ProfileResponse {
            id: user.id,
            username: user.username,
            solved: user.solved,
            level,
            experience: user.experience,
            exp_required: EXP_PER_LEVEL,
            exp_through: through,
        }
    }
}

/// The answer to a successful submission.
pub struct SubmitResponse {
    pub plaintext: String,
    pub time_taken: u128,
    pub profile: Option<ProfileResponse>,
    pub exp_sources: Option<Vec<ExpSource>>,
    pub total_exp: Option<i32>,
}

/// One recorded solve, as listed on a profile.
pub struct SolveResponse {
    pub puzzle_type: PuzzleType,
    pub plaintext: String,
    pub attribution: String,
    pub solver: String,
    pub time_taken: i32,
    pub exp_gained: i32,
}

/// The attribution shown for a source: its own, or `Unknown`.
pub fn attribution_or_unknown(attribution: &Option<String>) -> (r: String)
    ensures
        r@ == match attribution {
            Some(a) => a@,
            None => "Unknown"@,
        },
{
    match attribution {
        Some(a) => a.clone(),
        None => "Unknown".to_owned(),
    }
}

impl SolveResponse {
    /// The listing of `solve` by `user` of the puzzle made from `message`; an
    /// error when the solve names no known kind of puzzle.
    pub fn new(user: &User, solve: &Solve, message: &Message) -> (r: Result<
        SolveResponse,
        InvalidPuzzleType,
    >)
        ensures
            r is Ok <==> 0 <= solve.puzzle_type <= 1,
            r matches Ok(s) ==> {
                &&& s.puzzle_type.spec_code() == solve.puzzle_type
                &&& s.plaintext@ == message.message@
                &&& s.attribution@ == match message.attribution {
                    Some(a) => a@,
                    None => "Unknown"@,
                }
                &&& s.solver@ == user.username@
                &&& s.time_taken == solve.time_taken
                &&& s.exp_gained == solve.exp_gained
            },
    {
        let puzzle_type = match PuzzleType::try_from(solve.puzzle_type) {
            Ok(t) => t,
            Err(e) => {
                return Err(e);
            },
        };
        Ok(SolveResponse {
            puzzle_type,
            plaintext: message.message.clone(),
            attribution: attribution_or_unknown(&message.attribution),
            solver: user.username.clone(),
            time_taken: solve.time_taken,
            exp_gained: solve.exp_gained,
        })
    }
}

} // verus!
