use std::sync::Mutex;

use state_store::commands::{clear_cache, cycle_opacity};
use state_store::layout::{
    cache_dir, child, data_dir, history_path, last_url_path, profile_dir, settings_path,
};
use state_store::opacity::{opacity_percent, AppState, OPACITY_STEPS};

fn level(percent: u8) -> f64 {
    f64::from(percent) / 100.0
}

#[test]
fn ladder_has_five_levels() {
    assert_eq!(OPACITY_STEPS, 5);
    let levels: Vec<f64> = (0..5).map(|i| level(opacity_percent(i))).collect();
    assert_eq!(levels, vec![1.0, 0.9, 0.8, 0.7, 0.6]);
}

#[test]
fn fresh_state_is_fully_opaque() {
    assert_eq!(AppState::new().opacity_ix(), 0);
    assert_eq!(AppState::default().opacity_ix(), 0);
}

#[test]
fn five_cycles_from_fresh() {
    let mut state = AppState::new();
    let levels: Vec<f64> = (0..5).map(|_| level(cycle_opacity(&mut state))).collect();
    assert_eq!(levels, vec![0.9, 0.8, 0.7, 0.6, 1.0]);
    assert_eq!(state.opacity_ix(), 0);
}

#[test]
fn six_cycles_from_fresh() {
    let mut state = AppState::new();
    let levels: Vec<f64> = (0..6).map(|_| level(cycle_opacity(&mut state))).collect();
    assert_eq!(levels, vec![0.9, 0.8, 0.7, 0.6, 1.0, 0.9]);
}

#[test]
fn cycles_have_period_five() {
    let mut state = AppState::new();
    let levels: Vec<u8> = (0..23).map(|_| cycle_opacity(&mut state)).collect();
    for (i, percent) in levels.iter().enumerate() {
        assert_eq!(*percent, [100u8, 90, 80, 70, 60][(i + 1) % 5]);
    }
    assert_eq!(state.opacity_ix(), 23 % 5);
}

#[test]
fn advance_and_cycle_agree() {
    let mut a = AppState::new();
    let mut b = AppState::new();
    for _ in 0..7 {
        assert_eq!(a.advance(), cycle_opacity(&mut b));
        assert_eq!(a.opacity_ix(), b.opacity_ix());
    }
}

#[test]
fn shared_state_hands_out_each_level_in_turn() {
    let shared = Mutex::new(AppState::new());
    let mut seen: Vec<u8> = Vec::new();
    for _ in 0..12 {
        let mut state = shared.lock().unwrap();
        seen.push(cycle_opacity(&mut state));
    }
    seen.sort();
    let mut expected: Vec<u8> = (1..=12).map(|k| [100u8, 90, 80, 70, 60][k % 5]).collect();
    expected.sort();
    assert_eq!(seen, expected);
}

#[test]
fn stored_files_live_in_the_data_directory() {
    assert_eq!(data_dir(), vec!["data"]);
    assert_eq!(settings_path(), vec!["data", "settings.json"]);
    assert_eq!(history_path(), vec!["data", "history.json"]);
    assert_eq!(last_url_path(), vec!["data", "last_url.txt"]);
}

#[test]
fn profile_holds_the_cache() {
    assert_eq!(profile_dir(), vec!["profile"]);
    assert_eq!(cache_dir(), vec!["profile", "Cache"]);
}

#[test]
fn child_adds_one_name() {
    assert_eq!(child(vec!["a", "b"], "c"), vec!["a", "b", "c"]);
    assert_eq!(child(Vec::new(), "c"), vec!["c"]);
}

#[test]
fn plain_clear_removes_only_the_cache() {
    assert_eq!(clear_cache(false), vec![vec!["profile", "Cache"]]);
}

#[test]
fn hard_clear_removes_the_cache_and_then_the_profile() {
    assert_eq!(clear_cache(true), vec![vec!["profile", "Cache"], vec!["profile"]]);
}
