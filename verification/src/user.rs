//! The user record and its lifecycle: created once with a setting, then
//! played up to 1000 times.

use crate::config::GlobalState;
use crate::error::ErrorCode;
use crate::identity::Identity;
use crate::payout::play_game;
use crate::payout::resolve;
use crate::payout::resolve_spec;
use crate::payout::valid_setting;
use crate::payout::GameResult;
use crate::random::random_at;
use crate::setting::assign_setting;
use crate::setting::setting_for;
use crate::setting::setting_from_draw;
use vstd::prelude::*;

verus! {

/// The most plays that one user can make.
pub const MAX_PLAYS: u32 = 1000;

/// The record of one participant.
#[derive(Clone, Copy, Debug, PartialEq, Eq)]
pub struct UserState {
    /// The participant. Set at creation and never changed.
    pub owner: Identity,
    /// The payout profile, one of `1..=6`. Set at creation and never changed.
    pub setting: u8,
    /// How many plays the participant has made. It never falls and never
    /// exceeds 1000.
    pub play_count: u32,
}

impl UserState {
    /// The invariant of the record: a setting in `1..=6`, at most 1000 plays.
    pub open spec fn well_formed(&self) -> bool {
        &&& valid_setting(self.setting as int)
        &&& self.play_count <= 1000
    }

    /// Whether the setting is in `1..=6` and the plays are at most 1000.
    pub fn is_well_formed(&self) -> (ok: bool)
        ensures
            ok == self.well_formed(),
    {
        1 <= self.setting && self.setting <= 6 && self.play_count <= MAX_PLAYS
    }
}

/// The records of one `create_user`: the place of the caller's user record,
/// empty until it is created, the caller, and the configuration.
#[derive(Clone, Copy, Debug, PartialEq, Eq)]
pub struct CreateUser {
    pub user_state: Option<UserState>,
    pub owner: Identity,
    pub global_state: GlobalState,
}

/// The records of one `play`: the place of the player's user record, the
/// player, and the configuration.
#[derive(Clone, Copy, Debug, PartialEq, Eq)]
pub struct Play {
    pub user_state: Option<UserState>,
    pub player: Identity,
    pub global_state: GlobalState,
}

/// What the caller tells `play`.
#[derive(Clone, Copy, Debug, PartialEq, Eq, Structural)]
pub enum PlayEvent {
    /// A play is asked for; nothing has been charged yet.
    Requested,
    /// The ledger has moved the play cost from the player to the pool.
    Charged,
    /// The ledger has refused to move the play cost, with the error `code`.
    ChargeFailed { code: u64 },
}

/// What `play` asks of the caller.
#[derive(Clone, Copy, Debug, PartialEq, Eq, Structural)]
pub enum PlayAction {
    /// Move `amount` from the player to the pool, then come back with
    /// `Charged` or `ChargeFailed`.
    Charge { amount: u64 },
    /// The play is over and brought `outcome`.
    Settle { outcome: GameResult },
}

/// What `create_user` does when the source draws `random_value`: the result
/// and the records after it.
pub open spec fn create_user_step(accounts: CreateUser, random_value: u32) -> (
    Result<(), ErrorCode>,
    CreateUser,
) {
    if accounts.user_state is Some {
        (Err(ErrorCode::AlreadyExists), accounts)
    } else {
        (
            Ok(()),
            CreateUser {
                user_state: Some(
                    UserState {
                        owner: accounts.owner,
                        setting: setting_for(
                            accounts.global_state.setting_probabilities@,
                            random_value,
                        ) as u8,
                        play_count: 0,
                    },
                ),
                ..accounts
            },
        )
    }
}

/// What `play` does on `event` when the source draws `random_value`: the
/// result and the records after it. Only a settled play changes a record, and
/// only its count of plays.
pub open spec fn play_step(accounts: Play, event: PlayEvent, random_value: u32) -> (
    Result<PlayAction, ErrorCode>,
    Play,
) {
    match accounts.user_state {
        None => (Err(ErrorCode::NotFound), accounts),
        Some(user) => if user.play_count >= 1000 {
            (Err(ErrorCode::MaxPlaysReached), accounts)
        } else {
            match event {
                PlayEvent::Requested => (
                    Ok(PlayAction::Charge { amount: accounts.global_state.play_cost }),
                    accounts,
                ),
                PlayEvent::ChargeFailed { code } => (
                    Err(ErrorCode::LedgerTransferFailed { code }),
                    accounts,
                ),
                PlayEvent::Charged => match resolve_spec(user.setting, random_value) {
                    Ok(outcome) => (
                        Ok(PlayAction::Settle { outcome }),
                        Play {
                            user_state: Some(
                                UserState { play_count: (user.play_count + 1) as u32, ..user },
                            ),
                            ..accounts
                        },
                    ),
                    Err(e) => (Err(e), accounts),
                },
            }
        },
    }
}

/// Whether `play` on `event` needs a drawn value: only a charged play of a
/// user below the cap, with a valid setting, is resolved.
pub open spec fn play_draws(accounts: Play, event: PlayEvent) -> bool {
    &&& accounts.user_state matches Some(user)
    &&& user.play_count < 1000
    &&& valid_setting(user.setting as int)
    &&& event == PlayEvent::Charged
}

/// Creates the caller's user record for the drawn `random_value`: owned by
/// `accounts.owner`, with the setting that the configuration's distribution
/// gives for the value, and no plays. Fails with `AlreadyExists`, changing
/// nothing, when the record is already there.
pub fn create_user_with(accounts: &mut CreateUser, random_value: u32) -> (done: Result<
    (),
    ErrorCode,
>)
    ensures
        (done, *final(accounts)) == create_user_step(*old(accounts), random_value),
        done is Ok ==> final(accounts).user_state is Some
            && final(accounts).user_state->0.well_formed(),
{
    if accounts.user_state.is_some() {
        return Err(ErrorCode::AlreadyExists);
    }
    let setting: u8 = setting_from_draw(&accounts.global_state.setting_probabilities, random_value);
    accounts.user_state = Some(UserState { owner: accounts.owner, setting, play_count: 0 });
    Ok(())
}

/// Creates the caller's user record with a value drawn from the clock.
/// Fails with `AlreadyExists` when the record is already there, and then
/// without reading the clock; with `ClockUnavailable` when the clock cannot be
/// read. A failure changes nothing. Otherwise the records become what
/// `create_user_with` makes of them for the value drawn.
pub fn create_user(accounts: &mut CreateUser) -> (done: Result<(), ErrorCode>)
    ensures
        old(accounts).user_state is Some ==> done == Err::<(), ErrorCode>(
            ErrorCode::AlreadyExists,
        ),
        old(accounts).user_state is None ==> done == Err::<(), ErrorCode>(
            ErrorCode::ClockUnavailable,
        ) || done is Ok,
        done is Err ==> *final(accounts) == *old(accounts),
        done is Ok ==> exists|unix_timestamp: i64|
            (done, *final(accounts)) == create_user_step(
                *old(accounts),
                #[trigger] random_at(unix_timestamp),
            ),
        done is Ok ==> final(accounts).user_state is Some
            && final(accounts).user_state->0.well_formed(),
{
    if accounts.user_state.is_some() {
        return Err(ErrorCode::AlreadyExists);
    }
    match assign_setting(&accounts.global_state.setting_probabilities) {
        Ok(setting) => {
            accounts.user_state = Some(UserState { owner: accounts.owner, setting, play_count: 0 });
            proof {
                let seconds: i64 = choose|unix_timestamp: i64|
                    setting == setting_for(
                        accounts.global_state.setting_probabilities@,
                        #[trigger] random_at(unix_timestamp),
                    );
                assert((Ok::<(), ErrorCode>(()), *accounts) == create_user_step(
                    *old(accounts),
                    random_at(seconds),
                ));
            }
            Ok(())
        },
        Err(_) => Err(ErrorCode::ClockUnavailable),
    }
}

/// One step of a play for the drawn `random_value`.
///
/// Without a user record it fails with `NotFound`; at 1000 plays or more
/// with `MaxPlaysReached`. Otherwise, on `Requested` it asks for the play
/// cost to be charged; on `ChargeFailed` it fails with
/// `LedgerTransferFailed` and the ledger's own error code; on `Charged` it
/// resolves the play under the user's setting, counts it and hands out the
/// outcome, or fails with `InvalidProbabilities` when the setting is outside
/// `1..=6`. Only a settled play changes anything.
pub fn play_with(accounts: &mut Play, event: PlayEvent, random_value: u32) -> (done: Result<
    PlayAction,
    ErrorCode,
>)
    ensures
        (done, *final(accounts)) == play_step(*old(accounts), event, random_value),
        old(accounts).user_state matches Some(user) && user.well_formed()
            ==> final(accounts).user_state->0.well_formed(),
{
    let user: UserState = match accounts.user_state {
        Some(user) => user,
        None => {
            return Err(ErrorCode::NotFound);
        },
    };
    if user.play_count >= MAX_PLAYS {
        return Err(ErrorCode::MaxPlaysReached);
    }
    match event {
        PlayEvent::Requested => Ok(PlayAction::Charge { amount: accounts.global_state.play_cost }),
        PlayEvent::ChargeFailed { code } => Err(ErrorCode::LedgerTransferFailed { code }),
        PlayEvent::Charged => match resolve(user.setting, random_value) {
            Ok(outcome) => {
                accounts.user_state = Some(
                    UserState {
                        owner: user.owner,
                        setting: user.setting,
                        play_count: user.play_count + 1,
                    },
                );
                Ok(PlayAction::Settle { outcome })
            },
            Err(e) => Err(e),
        },
    }
}

/// One step of a play, with a value drawn from the clock where one is
/// needed.
///
/// Where `play_with` needs no drawn value, that is unless `play_draws`, this
/// does exactly what `play_with` does, and does not read the clock. Where it
/// needs one, this fails with `ClockUnavailable`, changing nothing, when the
/// clock cannot be read, and otherwise does what `play_with` does for the
/// value drawn.
pub fn play(accounts: &mut Play, event: PlayEvent) -> (done: Result<PlayAction, ErrorCode>)
    ensures
        old(accounts).user_state is None ==> done == Err::<PlayAction, ErrorCode>(
            ErrorCode::NotFound,
        ),
        old(accounts).user_state matches Some(user) && user.play_count >= 1000 ==> done == Err::<
            PlayAction,
            ErrorCode,
        >(ErrorCode::MaxPlaysReached),
        !(done matches Ok(PlayAction::Settle { .. })) ==> *final(accounts) == *old(accounts),
        !play_draws(*old(accounts), event) ==> forall|random_value: u32|
            (done, *final(accounts)) == #[trigger] play_step(*old(accounts), event, random_value),
        play_draws(*old(accounts), event) ==> {
            ||| (done == Err::<PlayAction, ErrorCode>(ErrorCode::ClockUnavailable)
                && *final(accounts) == *old(accounts))
            ||| (exists|unix_timestamp: i64|
                (done, *final(accounts)) == play_step(
                    *old(accounts),
                    event,
                    #[trigger] random_at(unix_timestamp),
                ))
        },
        old(accounts).user_state matches Some(user) && user.well_formed()
            ==> final(accounts).user_state->0.well_formed(),
{
    let user: UserState = match accounts.user_state {
        Some(user) => user,
        None => {
            return Err(ErrorCode::NotFound);
        },
    };
    if user.play_count >= MAX_PLAYS {
        return Err(ErrorCode::MaxPlaysReached);
    }
    match event {
        PlayEvent::Requested => Ok(PlayAction::Charge { amount: accounts.global_state.play_cost }),
        PlayEvent::ChargeFailed { code } => Err(ErrorCode::LedgerTransferFailed { code }),
        PlayEvent::Charged => match play_game(user.setting) {
            Ok(outcome) => {
                accounts.user_state = Some(
                    UserState {
                        owner: user.owner,
                        setting: user.setting,
                        play_count: user.play_count + 1,
                    },
                );
                proof {
                    let seconds: i64 = choose|unix_timestamp: i64|
                        Ok::<GameResult, ErrorCode>(outcome) == resolve_spec(
                            user.setting,
                            #[trigger] random_at(unix_timestamp),
                        );
                    assert((Ok::<PlayAction, ErrorCode>(PlayAction::Settle { outcome }), *accounts)
                        == play_step(*old(accounts), event, random_at(seconds)));
                }
                Ok(PlayAction::Settle { outcome })
            },
            Err(e) => Err(e),
        },
    }
}

} // verus!
