//! What holds of the engine whatever is asked of it, stated over the step
//! functions that the operations' contracts use.

use crate::config::update_play_cost_step;
use crate::config::update_probabilities_step;
use crate::config::GlobalState;
use crate::config::UpdatePlayCost;
use crate::config::UpdateProbabilities;
use crate::error::ErrorCode;
use crate::identity::Identity;
use crate::payout::lemma_payout_always_selects;
use crate::payout::lemma_payout_table_total;
use crate::payout::payout_weights;
use crate::payout::resolve_spec;
use crate::payout::valid_setting;
use crate::payout::GameResult;
use crate::selector::bucket_of;
use crate::selector::draws_into;
use crate::selector::lemma_bucket_exists;
use crate::selector::lemma_bucket_none;
use crate::selector::lemma_bucket_of_is_in_bucket;
use crate::selector::lemma_bucket_share;
use crate::selector::lemma_prefix_sum_monotone;
use crate::selector::prefix_sum;
use crate::selector::total_weight;
use crate::setting::setting_for;
use crate::user::create_user_step;
use crate::user::play_step;
use crate::user::CreateUser;
use crate::user::Play;
use crate::user::PlayAction;
use crate::user::PlayEvent;
use vstd::prelude::*;

verus! {

/// After every successful `update_probabilities` the stored distribution
/// sums to exactly 10000, whatever was stored before.
pub proof fn law_updated_distribution_sums_to_total(
    accounts: UpdateProbabilities,
    new_probabilities: [u32; 6],
)
    ensures
        update_probabilities_step(accounts, new_probabilities).0 is Ok ==> total_weight(
            update_probabilities_step(accounts, new_probabilities).1.global_state.setting_probabilities@,
        ) == 10_000,
{
}

/// No operation on a well-formed configuration makes it ill-formed, and none
/// changes its owner.
pub proof fn law_configuration_stays_well_formed(
    global_state: GlobalState,
    caller: Identity,
    new_probabilities: [u32; 6],
    new_cost: u64,
)
    requires
        global_state.well_formed(),
    ensures
        update_probabilities_step(
            UpdateProbabilities { global_state, owner: caller },
            new_probabilities,
        ).1.global_state.well_formed(),
        update_probabilities_step(
            UpdateProbabilities { global_state, owner: caller },
            new_probabilities,
        ).1.global_state.owner == global_state.owner,
        update_play_cost_step(
            UpdatePlayCost { global_state, owner: caller },
            new_cost,
        ).1.global_state.well_formed(),
        update_play_cost_step(
            UpdatePlayCost { global_state, owner: caller },
            new_cost,
        ).1.global_state.owner == global_state.owner,
{
}

/// An identity that is not the owner never changes the configuration: both
/// updates fail with `Unauthorized` and leave every record as it was,
/// whatever the new values are.
pub proof fn law_non_owner_changes_nothing(
    global_state: GlobalState,
    caller: Identity,
    new_probabilities: [u32; 6],
    new_cost: u64,
)
    requires
        caller != global_state.owner,
    ensures
        update_probabilities_step(
            UpdateProbabilities { global_state, owner: caller },
            new_probabilities,
        ) == (
            Err::<(), ErrorCode>(ErrorCode::Unauthorized),
            UpdateProbabilities { global_state, owner: caller },
        ),
        update_play_cost_step(UpdatePlayCost { global_state, owner: caller }, new_cost) == (
            Err::<(), ErrorCode>(ErrorCode::Unauthorized),
            UpdatePlayCost { global_state, owner: caller },
        ),
{
}

/// A user record is created with a setting in `1..=6` and no plays, for
/// every distribution and every drawn value.
pub proof fn law_created_user_is_well_formed(accounts: CreateUser, random_value: u32)
    requires
        create_user_step(accounts, random_value).0 is Ok,
    ensures
        create_user_step(accounts, random_value).1.user_state matches Some(user) && {
            &&& 1 <= user.setting <= 6
            &&& user.play_count == 0
            &&& user.owner == accounts.owner
            &&& user.well_formed()
        },
{
    let weights = accounts.global_state.setting_probabilities@;
    let draw = (random_value % 10_000) as int;
    if bucket_of(weights, draw) is Some {
        lemma_bucket_of_is_in_bucket(weights, draw, bucket_of(weights, draw)->0);
    }
}

/// No step of a play changes the user's setting or owner, creates or removes
/// the record, or touches the configuration.
pub proof fn law_play_keeps_setting(accounts: Play, event: PlayEvent, random_value: u32)
    ensures
        play_step(accounts, event, random_value).1.global_state == accounts.global_state,
        play_step(accounts, event, random_value).1.player == accounts.player,
        play_step(accounts, event, random_value).1.user_state is Some
            <==> accounts.user_state is Some,
        accounts.user_state matches Some(user) ==> {
            &&& play_step(accounts, event, random_value).1.user_state->0.setting == user.setting
            &&& play_step(accounts, event, random_value).1.user_state->0.owner == user.owner
        },
{
}

/// The count of plays never falls, and never passes 1000 once it is at most
/// 1000. It rises, by one, exactly when a play is settled. At 1000 plays or
/// more every step fails with `MaxPlaysReached` and changes nothing.
pub proof fn law_play_count_is_capped(accounts: Play, event: PlayEvent, random_value: u32)
    requires
        accounts.user_state is Some,
    ensures
        play_step(accounts, event, random_value).1.user_state->0.play_count
            >= accounts.user_state->0.play_count,
        accounts.user_state->0.play_count <= 1000 ==> play_step(
            accounts,
            event,
            random_value,
        ).1.user_state->0.play_count <= 1000,
        play_step(accounts, event, random_value).0 matches Ok(PlayAction::Settle { .. })
            ==> play_step(accounts, event, random_value).1.user_state->0.play_count
            == accounts.user_state->0.play_count + 1,
        !(play_step(accounts, event, random_value).0 matches Ok(PlayAction::Settle { .. }))
            ==> play_step(accounts, event, random_value).1 == accounts,
        accounts.user_state->0.play_count >= 1000 ==> play_step(accounts, event, random_value) == (
            Err::<PlayAction, ErrorCode>(ErrorCode::MaxPlaysReached),
            accounts,
        ),
{
}

/// The records after one charged play for each value of `draws`, in order.
pub open spec fn after_plays(accounts: Play, draws: Seq<u32>) -> Play
    decreases draws.len(),
{
    if draws.len() == 0 {
        accounts
    } else {
        play_step(after_plays(accounts, draws.drop_last()), PlayEvent::Charged, draws.last()).1
    }
}

/// A new user with a valid setting plays exactly 1000 times: each of the
/// first 1000 charged plays is settled and counted, whatever is drawn, and
/// every play after them fails with `MaxPlaysReached` and leaves the count
/// at 1000.
pub proof fn law_thousand_plays(accounts: Play, draws: Seq<u32>, random_value: u32)
    requires
        accounts.user_state matches Some(user) && user.play_count == 0 && valid_setting(
            user.setting as int,
        ),
    ensures
        after_plays(accounts, draws).user_state is Some,
        after_plays(accounts, draws).user_state->0.setting == accounts.user_state->0.setting,
        draws.len() <= 1000 ==> after_plays(accounts, draws).user_state->0.play_count
            == draws.len(),
        draws.len() >= 1000 ==> after_plays(accounts, draws).user_state->0.play_count == 1000,
        draws.len() < 1000 ==> play_step(
            after_plays(accounts, draws),
            PlayEvent::Charged,
            random_value,
        ).0 matches Ok(PlayAction::Settle { .. }),
        draws.len() >= 1000 ==> play_step(
            after_plays(accounts, draws),
            PlayEvent::Charged,
            random_value,
        ).0 == Err::<PlayAction, ErrorCode>(ErrorCode::MaxPlaysReached),
    decreases draws.len(),
{
    if draws.len() > 0 {
        law_thousand_plays(accounts, draws.drop_last(), draws.last());
    }
}

/// Under a valid setting a play never falls back: the outcome is that of
/// one of the six buckets of the setting's table, and it is a win exactly
/// when the draw is below the summed weights of the five winning buckets.
pub proof fn law_payout_never_falls_back(setting: u8, random_value: u32)
    requires
        valid_setting(setting as int),
    ensures
        resolve_spec(setting, random_value) is Ok,
        bucket_of(payout_weights(setting as int), (random_value % 100_000) as int) is Some,
        resolve_spec(setting, random_value) == Ok::<GameResult, ErrorCode>(GameResult::NoPrize)
            <==> prefix_sum(payout_weights(setting as int), 5) <= random_value % 100_000,
{
    let weights = payout_weights(setting as int);
    let draw = (random_value % 100_000) as int;
    lemma_payout_always_selects(setting as int, random_value);
    lemma_payout_table_total(setting as int);
    let i = bucket_of(weights, draw)->0;
    lemma_bucket_of_is_in_bucket(weights, draw, i);
    if i < 5 {
        lemma_prefix_sum_monotone(weights, i + 1, 5);
    } else {
        lemma_prefix_sum_monotone(weights, 5, i);
    }
}

/// Of the 10000 draws of a well-formed configuration, exactly
/// `setting_probabilities[s - 1]` give setting `s`: the share of each
/// setting among the draws is its weight.
pub proof fn law_setting_share(global_state: GlobalState, setting: int)
    requires
        global_state.well_formed(),
        1 <= setting <= 6,
    ensures
        Set::new(
            |value: int|
                0 <= value < 10_000 && setting_for(
                    global_state.setting_probabilities@,
                    value as u32,
                ) == setting,
        ).finite(),
        Set::new(
            |value: int|
                0 <= value < 10_000 && setting_for(
                    global_state.setting_probabilities@,
                    value as u32,
                ) == setting,
        ).len() == global_state.setting_probabilities@[setting - 1],
{
    let weights = global_state.setting_probabilities@;
    let share = Set::new(
        |value: int| 0 <= value < 10_000 && setting_for(weights, value as u32) == setting,
    );
    assert forall|value: int| share.contains(value) <==> draws_into(
        weights,
        setting - 1,
    ).contains(value) by {
        if 0 <= value < 10_000 {
            assert((value as u32) % 10_000 == value);
            lemma_bucket_exists(weights, value, 6);
        } else {
            lemma_bucket_none(weights, value);
        }
    }
    assert(share =~= draws_into(weights, setting - 1));
    lemma_bucket_share(weights, setting - 1);
}

} // verus!
