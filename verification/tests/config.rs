use slot_engine::config::initialize;
use slot_engine::config::is_owner;
use slot_engine::config::sums_to_total;
use slot_engine::config::update_play_cost;
use slot_engine::config::update_probabilities;
use slot_engine::config::GlobalState;
use slot_engine::config::Initialize;
use slot_engine::config::UpdatePlayCost;
use slot_engine::config::UpdateProbabilities;
use slot_engine::error::ErrorCode;
use slot_engine::identity::Identity;
use slot_engine::random::scramble;

fn identity(tag: u8) -> Identity {
    Identity::new([tag; 32])
}

fn fresh(owner: Identity) -> GlobalState {
    let mut accounts = Initialize { global_state: None, owner };
    assert_eq!(initialize(&mut accounts), Ok(()));
    accounts.global_state.unwrap()
}

#[test]
fn initialize_sets_owner_distribution_and_cost() {
    let owner = identity(1);
    let mut accounts = Initialize { global_state: None, owner };
    assert_eq!(initialize(&mut accounts), Ok(()));
    assert_eq!(accounts.owner, owner);
    let state = accounts.global_state.unwrap();
    assert_eq!(state.owner, owner);
    assert_eq!(state.setting_probabilities, [2000, 2000, 3000, 1500, 1000, 500]);
    assert_eq!(state.play_cost, 1_000_000);
    assert!(state.is_well_formed());
}

#[test]
fn initialize_twice_fails_and_changes_nothing() {
    let mut accounts = Initialize { global_state: None, owner: identity(1) };
    assert_eq!(initialize(&mut accounts), Ok(()));
    let mut again = Initialize { global_state: accounts.global_state, owner: identity(2) };
    let before = again;
    assert_eq!(initialize(&mut again), Err(ErrorCode::AlreadyExists));
    assert_eq!(again, before);
}

#[test]
fn update_probabilities_by_the_owner_replaces_the_distribution() {
    let owner = identity(1);
    let mut accounts = UpdateProbabilities { global_state: fresh(owner), owner };
    let new = [10_000, 0, 0, 0, 0, 0];
    assert_eq!(update_probabilities(&mut accounts, new), Ok(()));
    assert_eq!(accounts.global_state.setting_probabilities, new);
    assert_eq!(accounts.global_state.owner, owner);
    assert_eq!(accounts.global_state.play_cost, 1_000_000);
    assert!(accounts.global_state.is_well_formed());
    let other = [1, 2, 3, 4, 5, 9_985];
    assert_eq!(update_probabilities(&mut accounts, other), Ok(()));
    assert_eq!(accounts.global_state.setting_probabilities, other);
    let sum: u64 = accounts.global_state.setting_probabilities.iter().map(|w| *w as u64).sum();
    assert_eq!(sum, 10_000);
}

#[test]
fn update_probabilities_summing_to_9999_fails_and_changes_nothing() {
    let owner = identity(1);
    let mut accounts = UpdateProbabilities { global_state: fresh(owner), owner };
    let before = accounts;
    assert_eq!(
        update_probabilities(&mut accounts, [2000, 2000, 3000, 1500, 1000, 499]),
        Err(ErrorCode::InvalidProbabilities)
    );
    assert_eq!(accounts, before);
    assert_eq!(
        update_probabilities(&mut accounts, [2000, 2000, 3000, 1500, 1000, 501]),
        Err(ErrorCode::InvalidProbabilities)
    );
    assert_eq!(accounts, before);
    assert_eq!(
        update_probabilities(&mut accounts, [0, 0, 0, 0, 0, 0]),
        Err(ErrorCode::InvalidProbabilities)
    );
    assert_eq!(accounts, before);
}

#[test]
fn update_probabilities_rejects_weights_that_only_wrap_to_the_total() {
    let owner = identity(1);
    let mut accounts = UpdateProbabilities { global_state: fresh(owner), owner };
    let before = accounts;
    assert_eq!(
        update_probabilities(&mut accounts, [u32::MAX, 10_001, 0, 0, 0, 0]),
        Err(ErrorCode::InvalidProbabilities)
    );
    assert_eq!(accounts, before);
}

#[test]
fn update_probabilities_checks_the_owner_before_the_sum() {
    let mut accounts = UpdateProbabilities { global_state: fresh(identity(1)), owner: identity(2) };
    let before = accounts;
    assert_eq!(
        update_probabilities(&mut accounts, [1, 1, 1, 1, 1, 1]),
        Err(ErrorCode::Unauthorized)
    );
    assert_eq!(accounts, before);
    assert_eq!(
        update_probabilities(&mut accounts, [10_000, 0, 0, 0, 0, 0]),
        Err(ErrorCode::Unauthorized)
    );
    assert_eq!(accounts, before);
}

#[test]
fn update_play_cost_by_the_owner_replaces_the_cost() {
    let owner = identity(1);
    let mut accounts = UpdatePlayCost { global_state: fresh(owner), owner };
    assert_eq!(update_play_cost(&mut accounts, 42), Ok(()));
    assert_eq!(accounts.global_state.play_cost, 42);
    assert_eq!(accounts.global_state.owner, owner);
    assert_eq!(accounts.global_state.setting_probabilities, [2000, 2000, 3000, 1500, 1000, 500]);
    assert_eq!(update_play_cost(&mut accounts, 0), Ok(()));
    assert_eq!(accounts.global_state.play_cost, 0);
    assert_eq!(update_play_cost(&mut accounts, u64::MAX), Ok(()));
    assert_eq!(accounts.global_state.play_cost, u64::MAX);
}

#[test]
fn update_play_cost_by_another_identity_fails_and_changes_nothing() {
    let mut accounts = UpdatePlayCost { global_state: fresh(identity(1)), owner: identity(2) };
    let before = accounts;
    assert_eq!(update_play_cost(&mut accounts, 5), Err(ErrorCode::Unauthorized));
    assert_eq!(accounts, before);
    assert_eq!(accounts.global_state.play_cost, 1_000_000);
}

#[test]
fn a_non_owner_never_changes_the_configuration() {
    let mut owner_bytes = [0u8; 32];
    for (i, b) in owner_bytes.iter_mut().enumerate() {
        *b = i as u8;
    }
    let owner = Identity::new(owner_bytes);
    let state = fresh(owner);
    let mut seed: u32 = 7;
    for round in 0..2000u32 {
        let mut bytes = owner_bytes;
        seed = scramble(seed);
        let at = (seed >> 8) as usize % 32;
        seed = scramble(seed);
        let flip = ((seed >> 8) % 255) as u8 + 1;
        bytes[at] ^= flip;
        if round % 2 == 0 {
            for b in bytes.iter_mut() {
                seed = scramble(seed);
                *b = (seed >> 16) as u8;
            }
            if bytes == owner_bytes {
                bytes[0] ^= 1;
            }
        }
        let caller = Identity::new(bytes);
        assert!(!is_owner(&state, &caller));

        let mut first = UpdateProbabilities { global_state: state, owner: caller };
        assert_eq!(
            update_probabilities(&mut first, [10_000, 0, 0, 0, 0, 0]),
            Err(ErrorCode::Unauthorized)
        );
        assert_eq!(first.global_state, state);

        let mut second = UpdatePlayCost { global_state: state, owner: caller };
        assert_eq!(update_play_cost(&mut second, round as u64), Err(ErrorCode::Unauthorized));
        assert_eq!(second.global_state, state);
    }
}

#[test]
fn is_owner_compares_all_32_bytes() {
    let state = fresh(identity(9));
    assert!(is_owner(&state, &identity(9)));
    for at in 0..32usize {
        let mut bytes = [9u8; 32];
        bytes[at] = 8;
        assert!(!is_owner(&state, &Identity::new(bytes)));
        assert!(!Identity::new(bytes).same_as(&identity(9)));
    }
    assert!(identity(9).same_as(&identity(9)));
}

#[test]
fn sums_to_total_is_exact() {
    assert!(sums_to_total(&[2000, 2000, 3000, 1500, 1000, 500]));
    assert!(sums_to_total(&[0, 0, 0, 0, 0, 10_000]));
    assert!(!sums_to_total(&[0, 0, 0, 0, 0, 9_999]));
    assert!(!sums_to_total(&[0, 0, 0, 0, 1, 10_000]));
    assert!(!sums_to_total(&[u32::MAX; 6]));
    assert!(!sums_to_total(&[u32::MAX, 10_001, 0, 0, 0, 0]));
}

#[test]
fn is_well_formed_tells_a_bad_distribution() {
    let bad = GlobalState {
        owner: identity(1),
        setting_probabilities: [1, 2, 3, 4, 5, 6],
        play_cost: 1,
    };
    assert!(!bad.is_well_formed());
}
