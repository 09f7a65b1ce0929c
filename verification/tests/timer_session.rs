use level_session::high_scores::HighScores;
use level_session::session::TransitionDecision;
use level_session::session::update_timer_and_set_high_score;
use level_session::world::GameWorld;
use level_session::world::ScreenDimensions;
use level_session::world::init_timer_text;

fn fresh_world() -> GameWorld {
    GameWorld::new(ScreenDimensions { width: 800, height: 600 })
}

fn readout_text(world: &GameWorld) -> Option<String> {
    world.timer_readout.as_ref().map(|r| r.text.clone())
}

#[test]
fn elapsed_time_is_sum_of_deltas_and_monotonic() {
    let mut world = fresh_world();
    let mut elapsed: u64 = 0;
    let deltas = [16u64, 0, 333, 1, 950];
    let mut sum: u64 = 0;
    let mut previous: u64 = 0;
    for d in deltas {
        update_timer_and_set_high_score(&mut world, &mut elapsed, 60_000, 0, "sum", d);
        sum += d;
        assert_eq!(elapsed, sum);
        assert!(elapsed >= previous);
        previous = elapsed;
    }
}

#[test]
fn expiry_comes_one_frame_after_the_boundary() {
    let mut world = fresh_world();
    let mut elapsed: u64 = 0;
    // 4900 ms, then 200 ms (crossing the 5000 ms maximum), then 100 ms.
    let d1 = update_timer_and_set_high_score(&mut world, &mut elapsed, 5000, 7, "level", 4900);
    assert_eq!(d1, TransitionDecision::Stay);
    // This tick carries the elapsed time past the maximum, yet the
    // decision still reads the pre-tick value: no transition here.
    let d2 = update_timer_and_set_high_score(&mut world, &mut elapsed, 5000, 7, "level", 200);
    assert_eq!(d2, TransitionDecision::Stay);
    assert_eq!(elapsed, 5100);
    let d3 = update_timer_and_set_high_score(&mut world, &mut elapsed, 5000, 7, "level", 100);
    assert_eq!(d3, TransitionDecision::ReplaceMainMenu);
    assert_eq!(elapsed, 5200);
}

#[test]
fn high_score_commits_exactly_once_with_the_final_score() {
    let mut world = fresh_world();
    let mut elapsed: u64 = 0;
    // Scores shrink from tick to tick: only the score handed to the
    // expiring tick may reach the store.
    update_timer_and_set_high_score(&mut world, &mut elapsed, 5000, 99, "level", 4900);
    update_timer_and_set_high_score(&mut world, &mut elapsed, 5000, 98, "level", 200);
    assert_eq!(world.high_scores.get(&"level".to_string()), None);
    let d = update_timer_and_set_high_score(&mut world, &mut elapsed, 5000, 5, "level", 100);
    assert_eq!(d, TransitionDecision::ReplaceMainMenu);
    assert_eq!(world.high_scores.get(&"level".to_string()), Some(5));
}

#[test]
fn readout_rewrites_only_on_whole_second_changes() {
    let mut world = fresh_world();
    init_timer_text(&mut world, 5000);
    assert_eq!(readout_text(&world), Some("0s /5s".to_string()));
    let mut elapsed: u64 = 0;
    // 0 -> 400 -> 700: same whole second, the text stays as it was.
    update_timer_and_set_high_score(&mut world, &mut elapsed, 5000, 0, "level", 400);
    assert_eq!(readout_text(&world), Some("0s /5s".to_string()));
    update_timer_and_set_high_score(&mut world, &mut elapsed, 5000, 0, "level", 300);
    assert_eq!(readout_text(&world), Some("0s /5s".to_string()));
    // 700 -> 950: still within the same second.
    update_timer_and_set_high_score(&mut world, &mut elapsed, 5000, 0, "level", 250);
    assert_eq!(readout_text(&world), Some("0s /5s".to_string()));
    // 950 -> 1050: the floor moves from 0 to 1 and the text is rewritten.
    update_timer_and_set_high_score(&mut world, &mut elapsed, 5000, 0, "level", 100);
    assert_eq!(elapsed, 1050);
    assert_eq!(readout_text(&world), Some("1s / 5s".to_string()));
}

#[test]
fn expiring_tick_deletes_the_readout() {
    let mut world = fresh_world();
    init_timer_text(&mut world, 1000);
    let mut elapsed: u64 = 0;
    update_timer_and_set_high_score(&mut world, &mut elapsed, 1000, 3, "level", 1000);
    assert!(world.timer_readout.is_some());
    let d = update_timer_and_set_high_score(&mut world, &mut elapsed, 1000, 3, "level", 16);
    assert_eq!(d, TransitionDecision::ReplaceMainMenu);
    assert!(world.timer_readout.is_none());
}

#[test]
fn expiry_without_readout_still_commits() {
    let mut world = fresh_world();
    assert!(world.timer_readout.is_none());
    let mut elapsed: u64 = 2000;
    let d = update_timer_and_set_high_score(&mut world, &mut elapsed, 2000, 41, "level", 16);
    assert_eq!(d, TransitionDecision::ReplaceMainMenu);
    assert_eq!(world.high_scores.get(&"level".to_string()), Some(41));
    assert!(world.timer_readout.is_none());
}

#[test]
fn zero_maximum_expires_on_the_first_tick() {
    let mut world = fresh_world();
    let mut elapsed: u64 = 0;
    let d = update_timer_and_set_high_score(&mut world, &mut elapsed, 0, 1, "level", 16);
    assert_eq!(d, TransitionDecision::ReplaceMainMenu);
    assert_eq!(world.high_scores.get(&"level".to_string()), Some(1));
}

#[test]
fn zero_delta_changes_nothing_but_time_stands() {
    let mut world = fresh_world();
    init_timer_text(&mut world, 5000);
    let mut elapsed: u64 = 1500;
    let d = update_timer_and_set_high_score(&mut world, &mut elapsed, 5000, 0, "level", 0);
    assert_eq!(d, TransitionDecision::Stay);
    assert_eq!(elapsed, 1500);
    assert_eq!(readout_text(&world), Some("0s /5s".to_string()));
}

#[test]
fn update_if_greater_keeps_the_maximum() {
    let mut scores = HighScores::new();
    let key = "wildfire".to_string();
    assert_eq!(scores.get(&key), None);
    scores.update_if_greater(&key, 10);
    assert_eq!(scores.get(&key), Some(10));
    // A lower report never lowers the stored best.
    scores.update_if_greater(&key, 4);
    assert_eq!(scores.get(&key), Some(10));
    // An equal report changes nothing: the operation is idempotent.
    scores.update_if_greater(&key, 10);
    assert_eq!(scores.get(&key), Some(10));
    scores.update_if_greater(&key, 12);
    assert_eq!(scores.get(&key), Some(12));
}

#[test]
fn high_scores_keep_keys_apart() {
    let mut scores = HighScores::new();
    let hornets = "hornets".to_string();
    let wildfires = "wildfires".to_string();
    scores.update_if_greater(&hornets, 3);
    scores.update_if_greater(&wildfires, 8);
    scores.update_if_greater(&hornets, 2);
    assert_eq!(scores.get(&hornets), Some(3));
    assert_eq!(scores.get(&wildfires), Some(8));
    assert_eq!(scores.get(&"menu".to_string()), None);
}

#[test]
fn readout_formats_fractional_maxima() {
    let mut world = fresh_world();
    init_timer_text(&mut world, 5500);
    assert_eq!(readout_text(&world), Some("0s /5.5s".to_string()));
    init_timer_text(&mut world, 5050);
    assert_eq!(readout_text(&world), Some("0s /5.05s".to_string()));
    init_timer_text(&mut world, 5005);
    assert_eq!(readout_text(&world), Some("0s /5.005s".to_string()));
    init_timer_text(&mut world, 120_000);
    assert_eq!(readout_text(&world), Some("0s /120s".to_string()));
    let mut elapsed: u64 = 950;
    update_timer_and_set_high_score(&mut world, &mut elapsed, 120_000, 0, "level", 100);
    assert_eq!(readout_text(&world), Some("1s / 120s".to_string()));
}
