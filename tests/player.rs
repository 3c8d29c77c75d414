use term_player::player::{Action, App, Key, DEFAULT_VOLUME, MAX_VOLUME};

fn keys(s: &str) -> Vec<Key> {
    s.chars().map(Key::Char).collect()
}

#[test]
fn new_player_starts_running_at_default_volume() {
    let app = App::new("a.wav".to_string());
    assert_eq!(app.current, "a.wav");
    assert_eq!(app.volume, 5);
    assert_eq!(DEFAULT_VOLUME, 5);
    assert!(!app.paused);
    assert!(app.running);
}

#[test]
fn from_args_takes_first_argument() {
    let args = vec!["player".to_string(), "a.wav".to_string(), "b.wav".to_string()];
    let app = App::from_args(&args).unwrap();
    assert_eq!(app.current, "a.wav");
    assert!(app.running);
    assert_eq!(app.volume, DEFAULT_VOLUME);
}

#[test]
fn from_args_without_file_is_none() {
    let args = vec!["player".to_string()];
    assert!(App::from_args(&args).is_none());
    assert!(App::from_args(&Vec::new()).is_none());
}

#[test]
fn play_key_enqueues_once_each_press() {
    let mut app = App::new("a.wav".to_string());
    let first = app.listen_keys(&keys("p"));
    assert_eq!(first, vec![Action::Enqueue]);
    let second = app.listen_keys(&keys("p"));
    assert_eq!(second, vec![Action::Enqueue]);
    let all: Vec<Action> = first.into_iter().chain(second).collect();
    assert_eq!(all.iter().filter(|a| **a == Action::Enqueue).count(), 2);
    assert_eq!(app.current, "a.wav");
    assert!(app.running);
}

#[test]
fn ten_volume_ups_clamp_at_full_scale() {
    let mut app = App::new("a.wav".to_string());
    let actions = app.listen_keys(&keys("++++++++++"));
    assert_eq!(app.volume, MAX_VOLUME);
    assert_eq!(app.volume, 10);
    assert_eq!(
        actions,
        vec![
            Action::SetVolume(6),
            Action::SetVolume(7),
            Action::SetVolume(8),
            Action::SetVolume(9),
            Action::SetVolume(10),
            Action::Idle,
            Action::Idle,
            Action::Idle,
            Action::Idle,
            Action::Idle,
        ]
    );
}

#[test]
fn volume_downs_stop_at_silence() {
    let mut app = App::new("a.wav".to_string());
    let actions = app.listen_keys(&keys("--------"));
    assert_eq!(app.volume, 0);
    assert_eq!(actions[4], Action::SetVolume(0));
    assert_eq!(actions[5], Action::Idle);
    assert_eq!(actions[7], Action::Idle);
    let actions = app.listen_keys(&keys("+-+"));
    assert_eq!(actions, vec![Action::SetVolume(1), Action::SetVolume(0), Action::SetVolume(1)]);
    assert_eq!(app.volume, 1);
}

#[test]
fn quit_stops_reading_keys() {
    let mut app = App::new("a.wav".to_string());
    let actions = app.listen_keys(&keys("+q+p "));
    assert_eq!(actions, vec![Action::SetVolume(6), Action::Quit]);
    assert!(!app.running);
    assert_eq!(app.volume, 6);
    assert!(!app.paused);
}

#[test]
fn quit_as_first_key() {
    let mut app = App::new("a.wav".to_string());
    assert_eq!(app.handle_key(Key::Char('q')), Action::Quit);
    assert!(!app.running);
}

#[test]
fn space_twice_restores_playback() {
    let mut app = App::new("a.wav".to_string());
    assert_eq!(app.handle_key(Key::Char(' ')), Action::Pause);
    assert!(app.paused);
    assert_eq!(app.handle_key(Key::Char(' ')), Action::Resume);
    assert!(!app.paused);
}

#[test]
fn other_keys_are_ignored() {
    let mut app = App::new("a.wav".to_string());
    let actions = app.listen_keys(&vec![Key::Char('x'), Key::Other, Key::Char('Q'), Key::Char('P')]);
    assert_eq!(actions, vec![Action::Idle; 4]);
    assert!(app.running);
    assert_eq!(app.volume, DEFAULT_VOLUME);
    assert!(!app.paused);
}

#[test]
fn keys_running_out_keep_player_running() {
    let mut app = App::new("a.wav".to_string());
    assert!(app.listen_keys(&Vec::new()).is_empty());
    assert!(app.running);
}

#[test]
fn shutdown_clears_running() {
    let mut app = App::new("a.wav".to_string());
    app.shutdown();
    assert!(!app.running);
    assert_eq!(app.volume, DEFAULT_VOLUME);
}

#[test]
fn long_mixed_volume_keys_stay_in_range() {
    let mut app = App::new("a.wav".to_string());
    let mut seq = String::new();
    for i in 0..300 {
        seq.push(if (i / 37) % 2 == 0 { '+' } else { '-' });
    }
    app.listen_keys(&keys(&seq));
    assert!(app.volume <= MAX_VOLUME);
    let mut app = App::new("a.wav".to_string());
    for _ in 0..50 {
        app.handle_key(Key::Char('-'));
        assert!(app.volume <= MAX_VOLUME);
    }
    assert_eq!(app.volume, 0);
}
