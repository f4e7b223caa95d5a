use model_speed::model::{ModelConfig, TestOutcome};
use model_speed::run::RunGate;
use model_speed::tray::{tray_action, tray_menu_entries, tray_result_labels, TrayAction, TrayLabel};

fn model(name: &str) -> ModelConfig {
    ModelConfig {
        id: "id".to_string(),
        name: name.to_string(),
        api_type: "openai".to_string(),
        base_url: "http://h".to_string(),
        api_key: "k".to_string(),
    }
}

#[test]
fn one_run_at_a_time() {
    let mut gate = RunGate::new();
    assert!(!gate.is_running());
    assert_eq!(gate.start(0), Err("No models configured".to_string()));
    assert!(!gate.is_running());
    assert_eq!(gate.start(2), Ok("Test started".to_string()));
    assert!(gate.is_running());
    assert_eq!(gate.start(2), Err("Test already running".to_string()));
    assert!(gate.is_running());
    gate.finish();
    assert!(!gate.is_running());
    assert_eq!(gate.start(1), Ok("Test started".to_string()));
}

#[test]
fn outcome_and_speed_operands() {
    let m = model("Fast");
    let o = TestOutcome::new(&m, 2000, 150, 100, None);
    assert_eq!(o.model_name, "Fast");
    assert_eq!(o.model_id, "id");
    assert_eq!(o.speed_operands(), Some((100, 2000)));
    let o = TestOutcome::new(&m, 2000, 0, 0, Some("HTTP 500".to_string()));
    assert_eq!(o.speed_operands(), None);
    let o = TestOutcome::new(&m, 0, 0, 10, None);
    assert_eq!(o.speed_operands(), None);
}

#[test]
fn tray_menu_lists_every_model() {
    let models = vec![model("short"), model("a-very-long-model-name-indeed")];
    let entries = tray_menu_entries(&models);
    assert_eq!(entries.len(), 5);
    assert_eq!(entries[0].id.as_deref(), Some("show"));
    assert_eq!(entries[0].text, "Show Window");
    assert_eq!(entries[1].id.as_deref(), Some("test"));
    assert_eq!(entries[1].text, "Run Test Now");
    assert_eq!(entries[2].id, None);
    assert_eq!(entries[2].text, "short: \u{2014}");
    assert_eq!(entries[3].text, "a-very-long-model-na\u{2026}: \u{2014}");
    assert_eq!(entries[4].id.as_deref(), Some("quit"));
    assert_eq!(entries[4].text, "Quit");
}

#[test]
fn tray_results_follow_the_models() {
    let ok = TestOutcome::new(&model("good"), 1000, 10, 50, None);
    let bad = TestOutcome::new(&model("bad"), 1000, 0, 0, Some("x".to_string()));
    let labels = tray_result_labels(3, &[ok, bad]);
    assert_eq!(labels.len(), 3);
    match &labels[0] {
        TrayLabel::Speed(n) => assert_eq!(n, "good"),
        TrayLabel::Text(_) => panic!("a result without error shows its speed"),
    }
    match &labels[1] {
        TrayLabel::Text(t) => assert_eq!(t, "bad: ERR"),
        TrayLabel::Speed(_) => panic!("a failed result shows ERR"),
    }
    match &labels[2] {
        TrayLabel::Text(t) => assert_eq!(t, "\u{2014}"),
        TrayLabel::Speed(_) => panic!("a line without result shows a dash"),
    }
    assert!(tray_result_labels(0, &[]).is_empty());
}

#[test]
fn tray_clicks() {
    assert_eq!(tray_action("quit"), TrayAction::Quit);
    assert_eq!(tray_action("show"), TrayAction::ShowWindow);
    assert_eq!(tray_action("test"), TrayAction::RunTest);
    assert_eq!(tray_action("Quit"), TrayAction::Nothing);
    assert_eq!(tray_action(""), TrayAction::Nothing);
}
