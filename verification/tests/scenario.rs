use retro_wicket::fixed::Vec3;
use retro_wicket::outcome::{CoinSide, Role};
use retro_wicket::physics::{UnitBallPoint, JITTER_RADIUS, SPAWN_X, SPAWN_Y, SPAWN_Z};
use retro_wicket::pointer::Pointer;
use retro_wicket::state::{Draws, Input, MatchState};
use retro_wicket::teams::Teams;

fn pointer(pressed: bool, released: bool, x: i32, y: i32) -> Pointer {
    Pointer { pressed, released, x, y }
}

#[test]
fn toss_won_on_heads_leads_to_the_player_batting() {
    let offset = UnitBallPoint::new(Vec3 { x: 100_000, y: -200_000, z: 300_000 }).unwrap();
    let state = MatchState::start();
    assert_eq!(state, MatchState::PickingSide);

    // Release at x = -10.
    let state = state.update_picking_side(&pointer(false, true, -10_000_000, 0));
    assert_eq!(state, MatchState::TossingCoin { bet: CoinSide::Heads, press_start_y: None });

    // Press, then release higher up.
    let state = state.update_tossing_coin(&pointer(true, false, 0, 20_000_000), 1_000_000);
    assert_eq!(
        state,
        MatchState::TossingCoin { bet: CoinSide::Heads, press_start_y: Some(20_000_000) }
    );
    let state = state.update_tossing_coin(&pointer(false, true, 0, 5_000_000), 1_500_000);
    assert_eq!(state, MatchState::FlippingCoin { bet: CoinSide::Heads, start_time: 1_500_000 });

    // The clock runs past the length of the flip; the next two draws decide.
    let draws = Draws { coin: true, role: false };
    assert_eq!(state.finish_flip(2_500_000, draws), state);
    let state = state.finish_flip(3_600_001, draws);
    assert_eq!(
        state,
        MatchState::ShowingCoinResult {
            bet: CoinSide::Heads,
            result: CoinSide::Heads,
            opponent_choice: Role::Fielding
        }
    );

    // The bet was right: a release on the left half lets the player bat.
    let state =
        state.update_showing_coin_result(&pointer(false, true, -1_000_000, 0), 4_000_000, offset);
    match state {
        MatchState::Playing(playing) => {
            assert_eq!(playing.teams, Teams::new(["You", "Opponent"]));
            assert_eq!(playing.teams.batting.name, "You");
            assert_eq!(playing.teams.fielding.name, "Opponent");
            assert_eq!(playing.innings, 0);
            assert_eq!(playing.start_time, 4_000_000);
            assert!(!playing.ball.enabled);
            assert!(!playing.ball_thrown);
            assert!(!playing.ball_hit);
            assert_eq!(playing.ball.velocity, Vec3 { x: 0, y: 0, z: 0 });
            assert_eq!(
                playing.ball.position,
                Vec3 { x: 520_000, y: 2_360_000, z: -9_390_000 }
            );
            assert!((playing.ball.position.x - SPAWN_X).abs() <= JITTER_RADIUS);
            assert!((playing.ball.position.y - SPAWN_Y).abs() <= JITTER_RADIUS);
            assert!((playing.ball.position.z - SPAWN_Z).abs() <= JITTER_RADIUS);
        }
        other => panic!("not playing: {other:?}"),
    }
}

#[test]
fn whole_match_set_up_runs_through_advance() {
    let origin = UnitBallPoint::origin();
    let frame = |pointer: Pointer, now: u64| Input { pointer, now, offset: origin };
    let mut state = MatchState::start();
    state = state.advance(&frame(pointer(false, false, 3, 3), 0));
    assert_eq!(state, MatchState::PickingSide);
    state = state.advance(&frame(pointer(false, true, 3, 3), 16_000));
    assert_eq!(state, MatchState::TossingCoin { bet: CoinSide::Tails, press_start_y: None });
    state = state.advance(&frame(pointer(true, false, 3, 3), 32_000));
    state = state.advance(&frame(pointer(false, false, 3, 1), 48_000));
    state = state.advance(&frame(pointer(false, true, 3, -2), 64_000));
    assert_eq!(state, MatchState::FlippingCoin { bet: CoinSide::Tails, start_time: 64_000 });
    let mut now = 64_000;
    while matches!(state, MatchState::FlippingCoin { .. }) {
        now += 16_000;
        state = state.advance(&frame(pointer(false, false, 3, -2), now));
    }
    // The first frame more than 2.1 s after the start of the flip.
    assert_eq!(now, 2_176_000);
    assert!(matches!(state, MatchState::ShowingCoinResult { bet: CoinSide::Tails, .. }));
    let shown = state;
    state = state.advance(&frame(pointer(false, false, 3, -2), now + 16_000));
    assert_eq!(state, shown);
    state = state.advance(&frame(pointer(false, true, 3, -2), now + 32_000));
    match (shown, state) {
        (MatchState::ShowingCoinResult { bet, result, opponent_choice }, MatchState::Playing(p)) => {
            let opponent_first = if bet == result {
                true
            } else {
                opponent_choice == Role::Batting
            };
            let expected = if opponent_first {
                Teams::new(["Opponent", "You"])
            } else {
                Teams::new(["You", "Opponent"])
            };
            assert_eq!(p.teams, expected);
            assert_eq!(p.start_time, now + 32_000);
        }
        other => panic!("not playing: {other:?}"),
    }
}
