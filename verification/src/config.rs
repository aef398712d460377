//! The global configuration and the rules that guard it: only its owner may
//! change it, and its distribution always sums to exactly 10000.

use crate::error::ErrorCode;
use crate::identity::Identity;
use crate::selector::prefix_sum;
use crate::selector::total_weight;
use vstd::prelude::*;

verus! {

/// What the weights of the global distribution must sum to.
pub const PROBABILITY_TOTAL: u32 = 10_000;

/// The play cost of a new configuration, in base monetary units.
pub const DEFAULT_PLAY_COST: u64 = 1_000_000;

/// The distribution of a new configuration.
pub open spec fn default_probabilities() -> Seq<u32> {
    seq![2000u32, 2000u32, 3000u32, 1500u32, 1000u32, 500u32]
}

/// The global configuration, one per deployment.
#[derive(Clone, Copy, Debug, PartialEq, Eq)]
pub struct GlobalState {
    /// The administrator. Set at creation and never changed.
    pub owner: Identity,
    /// The weights with which the six settings are assigned.
    pub setting_probabilities: [u32; 6],
    /// The amount charged for one play.
    pub play_cost: u64,
}

impl GlobalState {
    /// The invariant of the configuration: the weights sum to exactly 10000.
    pub open spec fn well_formed(&self) -> bool {
        total_weight(self.setting_probabilities@) == 10_000
    }

    /// Whether the weights sum to exactly 10000.
    pub fn is_well_formed(&self) -> (ok: bool)
        ensures
            ok == self.well_formed(),
    {
        sums_to_total(&self.setting_probabilities)
    }
}

/// The records of one `initialize`: the place of the configuration, empty
/// until it is created, and the identity that creates it.
#[derive(Clone, Copy, Debug, PartialEq, Eq)]
pub struct Initialize {
    pub global_state: Option<GlobalState>,
    pub owner: Identity,
}

/// The records of one `update_probabilities`: the configuration and the
/// identity that asks for the change.
#[derive(Clone, Copy, Debug, PartialEq, Eq)]
pub struct UpdateProbabilities {
    pub global_state: GlobalState,
    pub owner: Identity,
}

/// The records of one `update_play_cost`: the configuration and the identity
/// that asks for the change.
#[derive(Clone, Copy, Debug, PartialEq, Eq)]
pub struct UpdatePlayCost {
    pub global_state: GlobalState,
    pub owner: Identity,
}

/// The default distribution sums to 10000.
pub proof fn lemma_default_probabilities_total()
    ensures
        default_probabilities().len() == 6,
        total_weight(default_probabilities()) == 10_000,
{
    reveal_with_fuel(prefix_sum, 7);
}

/// Whether six weights sum to exactly 10000. The sum is taken in the
/// integers: weights that only wrap around to 10000 do not pass.
pub fn sums_to_total(weights: &[u32; 6]) -> (ok: bool)
    ensures
        ok == (total_weight(weights@) == 10_000),
{
    let mut sum: u64 = 0;
    let mut i: usize = 0;
    while i < 6
        invariant
            i <= 6,
            sum == prefix_sum(weights@, i as int),
            sum <= i * 0xffff_ffff,
        decreases 6 - i,
    {
        sum = sum + weights[i] as u64;
        i += 1;
    }
    sum == PROBABILITY_TOTAL as u64
}

/// Whether `caller` is the owner of the configuration.
pub fn is_owner(global_state: &GlobalState, caller: &Identity) -> (ok: bool)
    ensures
        ok == (*caller == global_state.owner),
{
    caller.same_as(&global_state.owner)
}

/// Creates the configuration: its owner is `accounts.owner`, its
/// distribution `[2000, 2000, 3000, 1500, 1000, 500]`, its play cost
/// 1000000. Fails with `AlreadyExists`, changing nothing, when a
/// configuration is already there.
pub fn initialize(accounts: &mut Initialize) -> (done: Result<(), ErrorCode>)
    ensures
        old(accounts).global_state is Some ==> done == Err::<(), ErrorCode>(
            ErrorCode::AlreadyExists,
        ) && *final(accounts) == *old(accounts),
        old(accounts).global_state is None ==> {
            &&& done is Ok
            &&& final(accounts).owner == old(accounts).owner
            &&& final(accounts).global_state matches Some(created)
            &&& created.owner == old(accounts).owner
            &&& created.setting_probabilities@ == default_probabilities()
            &&& created.play_cost == 1_000_000
            &&& created.well_formed()
        },
{
    if accounts.global_state.is_some() {
        return Err(ErrorCode::AlreadyExists);
    }
    let created = GlobalState {
        owner: accounts.owner,
        setting_probabilities: [2000, 2000, 3000, 1500, 1000, 500],
        play_cost: DEFAULT_PLAY_COST,
    };
    proof {
        assert(created.setting_probabilities@ =~= default_probabilities());
        lemma_default_probabilities_total();
    }
    accounts.global_state = Some(created);
    Ok(())
}

/// What `update_probabilities` does: the result and the records after it.
/// The owner is asked for first, then the sum of the new weights.
pub open spec fn update_probabilities_step(
    accounts: UpdateProbabilities,
    new_probabilities: [u32; 6],
) -> (Result<(), ErrorCode>, UpdateProbabilities) {
    if accounts.owner != accounts.global_state.owner {
        (Err(ErrorCode::Unauthorized), accounts)
    } else if total_weight(new_probabilities@) != 10_000 {
        (Err(ErrorCode::InvalidProbabilities), accounts)
    } else {
        (
            Ok(()),
            UpdateProbabilities {
                global_state: GlobalState {
                    setting_probabilities: new_probabilities,
                    ..accounts.global_state
                },
                ..accounts
            },
        )
    }
}

/// What `update_play_cost` does: the result and the records after it.
pub open spec fn update_play_cost_step(accounts: UpdatePlayCost, new_cost: u64) -> (
    Result<(), ErrorCode>,
    UpdatePlayCost,
) {
    if accounts.owner != accounts.global_state.owner {
        (Err(ErrorCode::Unauthorized), accounts)
    } else {
        (
            Ok(()),
            UpdatePlayCost {
                global_state: GlobalState { play_cost: new_cost, ..accounts.global_state },
                ..accounts
            },
        )
    }
}

/// Replaces the distribution. Fails with `Unauthorized` unless
/// `accounts.owner` is the configuration's owner, then with
/// `InvalidProbabilities` unless the new weights sum to exactly 10000.
/// A failure changes nothing; on success only the distribution changes, and
/// the stored distribution sums to exactly 10000.
pub fn update_probabilities(accounts: &mut UpdateProbabilities, new_probabilities: [u32; 6]) -> (done:
    Result<(), ErrorCode>)
    ensures
        (done, *final(accounts)) == update_probabilities_step(*old(accounts), new_probabilities),
        done is Ok ==> final(accounts).global_state.well_formed(),
        done is Err ==> *final(accounts) == *old(accounts),
        old(accounts).global_state.well_formed() ==> final(accounts).global_state.well_formed(),
{
    if !is_owner(&accounts.global_state, &accounts.owner) {
        return Err(ErrorCode::Unauthorized);
    }
    if !sums_to_total(&new_probabilities) {
        return Err(ErrorCode::InvalidProbabilities);
    }
    accounts.global_state.setting_probabilities = new_probabilities;
    Ok(())
}

/// Replaces the play cost. Fails with `Unauthorized`, changing nothing,
/// unless `accounts.owner` is the configuration's owner; on success only the
/// play cost changes.
pub fn update_play_cost(accounts: &mut UpdatePlayCost, new_cost: u64) -> (done: Result<
    (),
    ErrorCode,
>)
    ensures
        (done, *final(accounts)) == update_play_cost_step(*old(accounts), new_cost),
        done is Err ==> *final(accounts) == *old(accounts),
        old(accounts).global_state.well_formed() ==> final(accounts).global_state.well_formed(),
{
    if !is_owner(&accounts.global_state, &accounts.owner) {
        return Err(ErrorCode::Unauthorized);
    }
    accounts.global_state.play_cost = new_cost;
    Ok(())
}

} // verus!
