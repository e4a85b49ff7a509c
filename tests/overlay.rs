use bevy_screen_diags::{
    spawn_text, update, RefreshTimer, ScreenDiagsTimer, Step, LABEL, PLACEHOLDER,
    UPDATE_INTERVAL_NANOS,
};

const TENTH: u64 = 100_000_000;

fn shown_timer() -> (ScreenDiagsTimer, RefreshTimer) {
    (ScreenDiagsTimer::new(7), RefreshTimer::new())
}

#[test]
fn spawn_without_value_shows_placeholder() {
    let text = spawn_text(None);
    assert_eq!(text.label, "FPS: ");
    assert_eq!(text.value, "...");
    assert_eq!(LABEL, "FPS: ");
    assert_eq!(PLACEHOLDER, "...");
}

#[test]
fn spawn_with_value_shows_it() {
    let text = spawn_text(Some("60".to_string()));
    assert_eq!(text.label, "FPS: ");
    assert_eq!(text.value, "60");
}

#[test]
fn spawn_with_host_formatted_value() {
    let formatted = format!("{:.0}", 59.6f64);
    let text = spawn_text(Some(formatted));
    assert_eq!(text.value, "60");
}

#[test]
fn new_timer_runs_with_one_second_period() {
    let timer = RefreshTimer::new();
    assert_eq!(timer.interval, 1_000_000_000);
    assert_eq!(UPDATE_INTERVAL_NANOS, 1_000_000_000);
    assert_eq!(timer.elapsed, 0);
    assert!(!timer.paused());
}

#[test]
fn hidden_and_paused_stays_hidden() {
    let mut marker = ScreenDiagsTimer { text_entity: None };
    let mut timer = RefreshTimer::new();
    timer.pause();
    let step = update(&mut marker, &mut timer, TENTH, Some("60".to_string()));
    assert!(matches!(step, Step::Idle));
    assert_eq!(marker.text_entity(), None);
    assert_eq!(timer.elapsed, 0);
}

#[test]
fn hidden_and_running_spawns_with_value() {
    let mut marker = ScreenDiagsTimer { text_entity: None };
    let mut timer = RefreshTimer::new();
    match update(&mut marker, &mut timer, TENTH, Some("58".to_string())) {
        Step::Spawn(text) => {
            assert_eq!(text.label, "FPS: ");
            assert_eq!(text.value, "58");
        }
        _ => panic!("expected a spawn"),
    }
    assert_eq!(marker.text_entity(), None);
    assert_eq!(timer.elapsed, 0);
    marker.attach(11);
    assert_eq!(marker.text_entity(), Some(11));
}

#[test]
fn shown_and_paused_despawns() {
    let (mut marker, mut timer) = shown_timer();
    timer.pause();
    let step = update(&mut marker, &mut timer, TENTH, Some("60".to_string()));
    assert!(matches!(step, Step::Despawn(7)));
    assert_eq!(marker.text_entity(), None);
    let again = update(&mut marker, &mut timer, TENTH, Some("60".to_string()));
    assert!(matches!(again, Step::Idle));
}

#[test]
fn shown_and_running_waits_for_the_period() {
    let (mut marker, mut timer) = shown_timer();
    let step = update(&mut marker, &mut timer, TENTH, Some("60".to_string()));
    assert!(matches!(step, Step::Idle));
    assert_eq!(timer.elapsed, TENTH);
    assert_eq!(marker.text_entity(), Some(7));
}

#[test]
fn due_tick_refreshes_value() {
    let (mut marker, mut timer) = shown_timer();
    timer.elapsed = 900_000_000;
    match update(&mut marker, &mut timer, 250_000_000, Some("61".to_string())) {
        Step::Refresh(e, v) => {
            assert_eq!(e, 7);
            assert_eq!(v, "61");
        }
        _ => panic!("expected a refresh"),
    }
    assert_eq!(timer.elapsed, 150_000_000);
}

#[test]
fn timer_tick_keeps_remainder() {
    let mut timer = RefreshTimer::with_interval(1_000);
    timer.elapsed = 600;
    assert!(!timer.tick(300));
    assert_eq!(timer.elapsed, 900);
    assert!(timer.tick(2_350));
    assert_eq!(timer.elapsed, 250);
}

#[test]
fn paused_timer_does_not_move() {
    let mut timer = RefreshTimer::with_interval(1_000);
    timer.pause();
    assert!(!timer.tick(5_000));
    assert_eq!(timer.elapsed, 0);
    timer.unpause();
    assert!(timer.tick(5_000));
    assert_eq!(timer.elapsed, 0);
}

#[test]
fn refresh_at_most_once_per_ten_ticks() {
    let (mut marker, mut timer) = shown_timer();
    let mut refreshed_at = Vec::new();
    for tick in 1..=35u64 {
        let value = format!("{}", 50 + tick);
        if let Step::Refresh(_, v) = update(&mut marker, &mut timer, TENTH, Some(value)) {
            assert_eq!(v, format!("{}", 50 + tick));
            refreshed_at.push(tick);
        }
    }
    assert_eq!(refreshed_at, vec![10, 20, 30]);
}

#[test]
fn gap_in_values_keeps_shown_text() {
    let (mut marker, mut timer) = shown_timer();
    let mut shown = "...".to_string();
    timer.elapsed = 900_000_000;
    if let Step::Refresh(_, v) = update(&mut marker, &mut timer, TENTH, Some("60".to_string())) {
        shown = v;
    }
    assert_eq!(shown, "60");
    for _ in 0..10 {
        let step = update(&mut marker, &mut timer, TENTH, None);
        assert!(matches!(step, Step::Idle));
    }
    assert_eq!(shown, "60");
    assert_eq!(timer.elapsed, 0);
}

#[test]
fn running_overlay_never_respawns() {
    let (mut marker, mut timer) = shown_timer();
    for _ in 0..25 {
        let step = update(&mut marker, &mut timer, TENTH, Some("60".to_string()));
        assert!(!matches!(step, Step::Spawn(_)));
        assert_eq!(marker.text_entity(), Some(7));
    }
}

#[test]
fn pause_then_unpause_spawns_fresh_placeholder() {
    let (mut marker, mut timer) = shown_timer();
    timer.elapsed = 900_000_000;
    let first = update(&mut marker, &mut timer, TENTH, Some("60".to_string()));
    assert!(matches!(first, Step::Refresh(7, _)));
    timer.pause();
    let hide = update(&mut marker, &mut timer, TENTH, None);
    assert!(matches!(hide, Step::Despawn(7)));
    timer.unpause();
    match update(&mut marker, &mut timer, TENTH, None) {
        Step::Spawn(text) => assert_eq!(text.value, "..."),
        _ => panic!("expected a spawn"),
    }
    marker.attach(12);
    assert_eq!(marker.text_entity(), Some(12));
}

#[test]
fn element_exists_exactly_when_running() {
    let mut marker = ScreenDiagsTimer { text_entity: None };
    let mut timer = RefreshTimer::new();
    let pattern = [false, false, true, true, false, true, false, false];
    let mut next_id: u64 = 100;
    for paused in pattern {
        if paused {
            timer.pause();
        } else {
            timer.unpause();
        }
        if let Step::Spawn(_) = update(&mut marker, &mut timer, TENTH, None) {
            marker.attach(next_id);
            next_id += 1;
        }
        assert_eq!(marker.text_entity().is_none(), paused);
    }
}
