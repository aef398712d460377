//! The payout engine: one play's outcome, drawn from the table of the
//! player's setting.

use crate::error::ErrorCode;
use crate::random::next_random;
use crate::random::random_at;
use crate::selector::bucket_of;
use crate::selector::prefix_sum;
use crate::selector::select;
use crate::selector::total_weight;
use crate::selector::lemma_bucket_exists;
use vstd::prelude::*;

verus! {

/// What one play brings.
#[derive(Clone, Copy, Debug, PartialEq, Eq, Structural)]
pub enum GameResult {
    Grape,
    Cherry,
    Replay,
    BigWin,
    RegularWin,
    /// No prize: the draw fell past the five winning buckets.
    NoPrize,
}

/// The modulus of the draw for a play.
pub const PLAY_MODULUS: u32 = 100_000;

/// Whether `setting` names one of the six payout profiles.
pub open spec fn valid_setting(setting: int) -> bool {
    1 <= setting <= 6
}

/// The payout table of each setting: the weights of Grape, Cherry, Replay,
/// the big win and the regular win, then the weight of winning nothing.
pub open spec fn payout_weights(setting: int) -> Seq<u32> {
    if setting == 1 {
        seq![17007u32, 2614u32, 13717u32, 366u32, 244u32, 66052u32]
    } else if setting == 2 {
        seq![17123u32, 2627u32, 13699u32, 369u32, 259u32, 65923u32]
    } else if setting == 3 {
        seq![17241u32, 2717u32, 13717u32, 375u32, 297u32, 65653u32]
    } else if setting == 4 {
        seq![17391u32, 2809u32, 13699u32, 394u32, 345u32, 65362u32]
    } else if setting == 5 {
        seq![17391u32, 2807u32, 13333u32, 416u32, 372u32, 65681u32]
    } else if setting == 6 {
        seq![17391u32, 2803u32, 13699u32, 436u32, 436u32, 65235u32]
    } else {
        Seq::empty()
    }
}

/// The outcome that a bucket of a payout table stands for. The sixth bucket
/// has no label of its own: like a draw that found no bucket, it wins nothing.
pub open spec fn outcome_of(bucket: Option<int>) -> GameResult {
    match bucket {
        Some(i) => if i == 0 {
            GameResult::Grape
        } else if i == 1 {
            GameResult::Cherry
        } else if i == 2 {
            GameResult::Replay
        } else if i == 3 {
            GameResult::BigWin
        } else if i == 4 {
            GameResult::RegularWin
        } else {
            GameResult::NoPrize
        },
        None => GameResult::NoPrize,
    }
}

/// What a play under `setting` brings when the source draws `random_value`.
pub open spec fn resolve_spec(setting: u8, random_value: u32) -> Result<GameResult, ErrorCode> {
    if valid_setting(setting as int) {
        Ok(outcome_of(bucket_of(payout_weights(setting as int), (random_value % 100_000) as int)))
    } else {
        Err(ErrorCode::InvalidProbabilities)
    }
}

/// Each payout table sums to exactly 100000.
pub proof fn lemma_payout_table_total(setting: int)
    requires
        valid_setting(setting),
    ensures
        payout_weights(setting).len() == 6,
        total_weight(payout_weights(setting)) == 100_000,
{
    reveal_with_fuel(prefix_sum, 7);
}

/// Under a valid setting every draw falls into one of the six buckets of the
/// table: the selection never comes back empty.
pub proof fn lemma_payout_always_selects(setting: int, random_value: u32)
    requires
        valid_setting(setting),
    ensures
        bucket_of(payout_weights(setting), (random_value % 100_000) as int) is Some,
        0 <= bucket_of(payout_weights(setting), (random_value % 100_000) as int)->0 < 6,
{
    lemma_payout_table_total(setting);
    lemma_bucket_exists(payout_weights(setting), (random_value % 100_000) as int, 6);
}

/// The payout table of `setting`, or `None` when `setting` is outside `1..=6`.
pub fn payout_table(setting: u8) -> (table: Option<[u32; 6]>)
    ensures
        table is Some <==> valid_setting(setting as int),
        table matches Some(weights) ==> weights@ == payout_weights(setting as int),
{
    let table: Option<[u32; 6]> = match setting {
        1 => Some([17007, 2614, 13717, 366, 244, 66052]),
        2 => Some([17123, 2627, 13699, 369, 259, 65923]),
        3 => Some([17241, 2717, 13717, 375, 297, 65653]),
        4 => Some([17391, 2809, 13699, 394, 345, 65362]),
        5 => Some([17391, 2807, 13333, 416, 372, 65681]),
        6 => Some([17391, 2803, 13699, 436, 436, 65235]),
        _ => None,
    };
    proof {
        if let Some(weights) = table {
            assert(weights@ =~= payout_weights(setting as int));
        }
    }
    table
}

/// The outcome for what the selection picked in a payout table.
pub fn outcome_for(picked: Option<usize>) -> (outcome: GameResult)
    ensures
        outcome == outcome_of(
            match picked {
                Some(i) => Some(i as int),
                None => None::<int>,
            },
        ),
{
    match picked {
        Some(0) => GameResult::Grape,
        Some(1) => GameResult::Cherry,
        Some(2) => GameResult::Replay,
        Some(3) => GameResult::BigWin,
        Some(4) => GameResult::RegularWin,
        _ => GameResult::NoPrize,
    }
}

/// Resolves one play under `setting` for the drawn `random_value`: the draw
/// is `random_value` modulo 100000, selected by weight in the table of
/// `setting`. A `setting` outside `1..=6` is refused with
/// `InvalidProbabilities`.
pub fn resolve(setting: u8, random_value: u32) -> (outcome: Result<GameResult, ErrorCode>)
    ensures
        outcome == resolve_spec(setting, random_value),
{
    match payout_table(setting) {
        Some(weights) => {
            let picked: Option<usize> = select(weights.as_slice(), PLAY_MODULUS, random_value);
            Ok(outcome_for(picked))
        },
        None => Err(ErrorCode::InvalidProbabilities),
    }
}

/// Plays once under `setting` with a value drawn from the clock. A `setting`
/// outside `1..=6` is refused with `InvalidProbabilities` before the clock is
/// read; a clock that cannot be read gives `ClockUnavailable`. Otherwise the
/// outcome is `resolve`'s for the value drawn.
pub fn play_game(setting: u8) -> (outcome: Result<GameResult, ErrorCode>)
    ensures
        !valid_setting(setting as int) ==> outcome == Err::<GameResult, ErrorCode>(
            ErrorCode::InvalidProbabilities,
        ),
        valid_setting(setting as int) ==> outcome == Err::<GameResult, ErrorCode>(
            ErrorCode::ClockUnavailable,
        ) || exists|unix_timestamp: i64|
            outcome == resolve_spec(setting, #[trigger] random_at(unix_timestamp)),
{
    if setting < 1 || setting > 6 {
        return Err(ErrorCode::InvalidProbabilities);
    }
    match next_random() {
        Ok(random_value) => resolve(setting, random_value),
        Err(_) => Err(ErrorCode::ClockUnavailable),
    }
}

} // verus!
