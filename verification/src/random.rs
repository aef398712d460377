//! The pseudo-random source: one linear congruential step on a seed taken
//! from the clock.
//!
//! The source keeps no state. Every draw takes the clock's time in whole
//! seconds as its seed, so two draws within one second give the same value,
//! and whoever knows the clock knows the draw. That weakness is part of what
//! the source is.

use crate::error::ErrorCode;
use anchor_lang::prelude::Clock;
use anchor_lang::prelude::ProgramError;
use anchor_lang::prelude::SolanaSysvar;
use vstd::prelude::*;

verus! {

/// `ProgramError`, the error with which the runtime refuses a request. It is
/// only carried from the clock to where it is turned into `ClockUnavailable`:
/// nothing is known of what it holds.
#[verifier::external_type_specification]
#[verifier::external_body]
pub struct ExProgramError(ProgramError);

/// Asks the runtime for the clock with `Clock::get` and hands out the field
/// `unix_timestamp` of what comes back, or the runtime's error. The time is
/// the runtime's to tell: nothing is claimed of the value, nor that the call
/// succeeds.
#[verifier::external_body]
fn clock_unix_timestamp() -> (timestamp: Result<i64, ProgramError>) {
    Clock::get().map(|clock| clock.unix_timestamp)
}

/// The multiplier of the linear congruential step.
pub const LCG_MULTIPLIER: u32 = 1103515245;

/// The increment of the linear congruential step.
pub const LCG_INCREMENT: u32 = 12345;

/// The seed for a time in seconds: the time modulo `2^32`.
pub open spec fn seed_of(unix_timestamp: i64) -> u32 {
    (unix_timestamp % 0x1_0000_0000) as u32
}

/// One linear congruential step: `seed * 1103515245 + 12345` modulo `2^32`.
pub open spec fn lcg_step(seed: u32) -> u32 {
    ((seed * 1103515245 + 12345) % 0x1_0000_0000) as u32
}

/// The value drawn at a time in seconds.
pub open spec fn random_at(unix_timestamp: i64) -> u32 {
    lcg_step(seed_of(unix_timestamp))
}

/// Cutting a time down to its low 32 bits takes it modulo `2^32`.
proof fn lemma_low_bits_are_remainder(unix_timestamp: i64)
    ensures
        unix_timestamp as u32 == seed_of(unix_timestamp),
{
    let low: u32 = unix_timestamp as u32;
    let high: i64 = unix_timestamp >> 32;
    assert(unix_timestamp == high * 0x1_0000_0000 + low) by (bit_vector)
        requires
            low == unix_timestamp as u32,
            high == unix_timestamp >> 32,
    ;
    assert((high * 0x1_0000_0000 + low) % 0x1_0000_0000 == low as int) by (nonlinear_arith)
        requires
            0 <= low < 0x1_0000_0000,
    ;
}

/// Applies one linear congruential step to `seed`.
pub fn scramble(seed: u32) -> (value: u32)
    ensures
        value == lcg_step(seed),
{
    seed.wrapping_mul(LCG_MULTIPLIER).wrapping_add(LCG_INCREMENT)
}

/// The value that the source draws when the clock shows `unix_timestamp`.
pub fn random_from_timestamp(unix_timestamp: i64) -> (value: u32)
    ensures
        value == random_at(unix_timestamp),
{
    proof {
        lemma_low_bits_are_remainder(unix_timestamp);
    }
    let seed: u32 = #[verifier::truncate] (unix_timestamp as u32);
    scramble(seed)
}

/// Draws a value: reads the clock and applies one step to its seconds.
/// Fails with `ClockUnavailable` when the runtime hands out no clock.
pub fn next_random() -> (drawn: Result<u32, ErrorCode>)
    ensures
        drawn matches Ok(value) ==> exists|unix_timestamp: i64|
            value == #[trigger] random_at(unix_timestamp),
        drawn matches Err(e) ==> e == ErrorCode::ClockUnavailable,
{
    match clock_unix_timestamp() {
        Ok(unix_timestamp) => Ok(random_from_timestamp(unix_timestamp)),
        Err(_) => Err(ErrorCode::ClockUnavailable),
    }
}

} // verus!
