use model_speed::model::Settings;
use model_speed::storage::{
    data_dir, get_config_path, get_history_path, get_settings_path, list_or_empty, record_history,
    settings_or_default, MAX_HISTORY,
};

#[test]
fn data_dir_is_below_local_data() {
    let d = data_dir(true);
    assert!(d.in_local_data);
    assert_eq!(d.components, vec!["model-speed".to_string()]);
    let d = data_dir(false);
    assert!(!d.in_local_data);
    assert_eq!(d.components, vec![".".to_string(), "model-speed".to_string()]);
}

#[test]
fn files_are_in_the_data_dir() {
    let d = data_dir(true);
    assert_eq!(get_config_path(&d).components, vec!["model-speed", "config.json"]);
    assert_eq!(get_settings_path(&d).components, vec!["model-speed", "settings.json"]);
    let d = data_dir(false);
    let h = get_history_path(&d);
    assert!(!h.in_local_data);
    assert_eq!(h.components, vec![".", "model-speed", "history.json"]);
}

#[test]
fn default_settings() {
    let s = Settings::default();
    assert_eq!(s.test_interval_minutes, 30);
    assert_eq!(s.test_duration_seconds, 60);
    assert!(!s.notify_on_complete);
    assert_eq!(s.fixed_prompt, "Say 'Token speed test successful' and count from 1 to 100.");
}

#[test]
fn missing_settings_fall_back_to_defaults() {
    let s = settings_or_default(None);
    assert_eq!(s.test_interval_minutes, 30);
    assert_eq!(s.fixed_prompt, Settings::default().fixed_prompt);
    let stored = Settings {
        test_interval_minutes: 5,
        test_duration_seconds: 10,
        notify_on_complete: true,
        fixed_prompt: "hi".to_string(),
    };
    let s = settings_or_default(Some(stored));
    assert_eq!(s.test_interval_minutes, 5);
    assert_eq!(s.fixed_prompt, "hi");
}

#[test]
fn missing_lists_are_empty() {
    assert_eq!(list_or_empty::<u32>(None), Vec::<u32>::new());
    assert_eq!(list_or_empty(Some(vec![1, 2])), vec![1, 2]);
}

#[test]
fn history_keeps_the_newest_thousand() {
    assert_eq!(MAX_HISTORY, 1000);
    let h: Vec<u32> = (0..999).collect();
    let h = record_history(h, 999);
    assert_eq!(h.len(), 1000);
    assert_eq!(h[0], 0);
    let h = record_history(h, 1000);
    assert_eq!(h.len(), 1000);
    assert_eq!(h[0], 1);
    assert_eq!(h[999], 1000);
    let h = record_history((0..1500).collect(), 7);
    assert_eq!(h.len(), 1000);
    assert_eq!(h[0], 501);
    assert_eq!(*h.last().unwrap(), 7);
}

#[test]
fn history_grows_below_the_bound() {
    assert_eq!(record_history(Vec::new(), 'a'), vec!['a']);
    assert_eq!(record_history(vec!['a'], 'b'), vec!['a', 'b']);
}
