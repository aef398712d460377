//! The setting assigner: a new user's payout profile, drawn from the global
//! distribution.

use crate::error::ErrorCode;
use crate::random::next_random;
use crate::random::random_at;
use crate::selector::bucket_of;
use crate::selector::select;
use vstd::prelude::*;

verus! {

/// The modulus of the draw for a setting.
pub const SETTING_MODULUS: u32 = 10_000;

/// The setting for the drawn `random_value`: one more than the index of the
/// bucket that the draw, `random_value` modulo 10000, falls into; 6 when it
/// falls into none.
pub open spec fn setting_for(probabilities: Seq<u32>, random_value: u32) -> int {
    match bucket_of(probabilities, (random_value % 10_000) as int) {
        Some(i) => i + 1,
        None => 6,
    }
}

/// The setting that the global distribution gives for the drawn
/// `random_value`. It is always one of `1..=6`.
pub fn setting_from_draw(probabilities: &[u32; 6], random_value: u32) -> (setting: u8)
    ensures
        setting == setting_for(probabilities@, random_value),
        1 <= setting <= 6,
{
    match select(probabilities.as_slice(), SETTING_MODULUS, random_value) {
        Some(i) => {
            let index: u8 = i as u8;
            index + 1
        },
        None => 6,
    }
}

/// Assigns a setting with a value drawn from the clock. Fails with
/// `ClockUnavailable` when the clock cannot be read; otherwise the setting is
/// `setting_from_draw`'s for the value drawn.
pub fn assign_setting(probabilities: &[u32; 6]) -> (assigned: Result<u8, ErrorCode>)
    ensures
        assigned matches Ok(setting) ==> 1 <= setting <= 6 && exists|unix_timestamp: i64|
            setting == setting_for(probabilities@, #[trigger] random_at(unix_timestamp)),
        assigned matches Err(e) ==> e == ErrorCode::ClockUnavailable,
{
    match next_random() {
        Ok(random_value) => Ok(setting_from_draw(probabilities, random_value)),
        Err(_) => Err(ErrorCode::ClockUnavailable),
    }
}

} // verus!
