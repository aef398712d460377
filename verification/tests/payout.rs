use slot_engine::error::ErrorCode;
use slot_engine::payout::outcome_for;
use slot_engine::payout::payout_table;
use slot_engine::payout::play_game;
use slot_engine::payout::resolve;
use slot_engine::payout::GameResult;

#[test]
fn payout_tables_are_the_fixed_ones() {
    assert_eq!(payout_table(1), Some([17007, 2614, 13717, 366, 244, 66052]));
    assert_eq!(payout_table(2), Some([17123, 2627, 13699, 369, 259, 65923]));
    assert_eq!(payout_table(3), Some([17241, 2717, 13717, 375, 297, 65653]));
    assert_eq!(payout_table(4), Some([17391, 2809, 13699, 394, 345, 65362]));
    assert_eq!(payout_table(5), Some([17391, 2807, 13333, 416, 372, 65681]));
    assert_eq!(payout_table(6), Some([17391, 2803, 13699, 436, 436, 65235]));
}

#[test]
fn payout_tables_each_sum_to_100000() {
    for setting in 1..=6u8 {
        let table = payout_table(setting).unwrap();
        let sum: u64 = table.iter().map(|w| *w as u64).sum();
        assert_eq!(sum, 100_000);
    }
}

#[test]
fn payout_table_outside_one_to_six_is_none() {
    assert_eq!(payout_table(0), None);
    assert_eq!(payout_table(7), None);
    assert_eq!(payout_table(255), None);
}

#[test]
fn outcome_for_maps_the_sixth_bucket_and_the_fallback_to_no_prize() {
    assert_eq!(outcome_for(Some(0)), GameResult::Grape);
    assert_eq!(outcome_for(Some(1)), GameResult::Cherry);
    assert_eq!(outcome_for(Some(2)), GameResult::Replay);
    assert_eq!(outcome_for(Some(3)), GameResult::BigWin);
    assert_eq!(outcome_for(Some(4)), GameResult::RegularWin);
    assert_eq!(outcome_for(Some(5)), GameResult::NoPrize);
    assert_eq!(outcome_for(Some(6)), GameResult::NoPrize);
    assert_eq!(outcome_for(None), GameResult::NoPrize);
}

#[test]
fn resolve_setting_three_at_the_end_of_replay() {
    assert_eq!(resolve(3, 33_674), Ok(GameResult::Replay));
    assert_eq!(resolve(3, 33_675), Ok(GameResult::BigWin));
}

#[test]
fn resolve_every_threshold_of_every_setting() {
    let cumulative: [[u32; 5]; 6] = [
        [17007, 19621, 33338, 33704, 33948],
        [17123, 19750, 33449, 33818, 34077],
        [17241, 19958, 33675, 34050, 34347],
        [17391, 20200, 33899, 34293, 34638],
        [17391, 20198, 33531, 33947, 34319],
        [17391, 20194, 33893, 34329, 34765],
    ];
    let labels = [
        GameResult::Grape,
        GameResult::Cherry,
        GameResult::Replay,
        GameResult::BigWin,
        GameResult::RegularWin,
        GameResult::NoPrize,
    ];
    for s in 0..6usize {
        let setting = (s + 1) as u8;
        assert_eq!(resolve(setting, 0), Ok(GameResult::Grape));
        for b in 0..5usize {
            assert_eq!(resolve(setting, cumulative[s][b] - 1), Ok(labels[b]));
            assert_eq!(resolve(setting, cumulative[s][b]), Ok(labels[b + 1]));
        }
        assert_eq!(resolve(setting, 99_999), Ok(GameResult::NoPrize));
    }
}

#[test]
fn resolve_takes_the_random_value_modulo_100000() {
    assert_eq!(resolve(1, 100_000), Ok(GameResult::Grape));
    assert_eq!(resolve(1, 117_007), Ok(GameResult::Cherry));
    assert_eq!(resolve(3, 4_294_967_295), Ok(GameResult::NoPrize));
    assert_eq!(resolve(3, 506_187_065), Ok(GameResult::NoPrize));
    assert_eq!(resolve(3, 12_345), Ok(GameResult::Grape));
}

#[test]
fn resolve_outside_one_to_six_is_invalid_probabilities() {
    assert_eq!(resolve(0, 5), Err(ErrorCode::InvalidProbabilities));
    assert_eq!(resolve(7, 5), Err(ErrorCode::InvalidProbabilities));
    assert_eq!(resolve(255, 33_674), Err(ErrorCode::InvalidProbabilities));
}

#[test]
fn resolve_counts_each_outcome_by_its_weight() {
    let mut counts: [u32; 6] = [0; 6];
    for draw in 0..100_000u32 {
        let at = match resolve(4, draw).unwrap() {
            GameResult::Grape => 0,
            GameResult::Cherry => 1,
            GameResult::Replay => 2,
            GameResult::BigWin => 3,
            GameResult::RegularWin => 4,
            GameResult::NoPrize => 5,
        };
        counts[at] += 1;
    }
    assert_eq!(counts, [17391, 2809, 13699, 394, 345, 65362]);
}

#[test]
fn play_game_refuses_a_bad_setting_before_it_reads_the_clock() {
    assert_eq!(play_game(0), Err(ErrorCode::InvalidProbabilities));
    assert_eq!(play_game(7), Err(ErrorCode::InvalidProbabilities));
}

#[test]
fn play_game_without_a_runtime_clock_is_clock_unavailable() {
    for setting in 1..=6u8 {
        assert_eq!(play_game(setting), Err(ErrorCode::ClockUnavailable));
    }
}
