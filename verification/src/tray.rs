//! The tray menu: its entries, the result line of each model, and what a
//! click on an entry asks for.
use vstd::prelude::*;

use crate::model::{ModelConfig, TestOutcome};
use crate::text::{truncate, truncated};

verus! {

/// The longest model name, in characters, that the tray shows uncut.
pub const TRAY_NAME_MAX: usize = 20;

/// A model name as the tray shows it.
pub open spec fn tray_name(name: Seq<char>) -> Seq<char> {
    truncated(name, TRAY_NAME_MAX as nat)
}

/// One entry of the tray menu: an identifier for entries that act on a click.
pub struct MenuEntry {
    pub id: Option<String>,
    pub text: String,
}

pub open spec fn entry_is(e: MenuEntry, id: Option<Seq<char>>, text: Seq<char>) -> bool {
    &&& match (e.id, id) {
        (Some(a), Some(b)) => a@ == b,
        (None, None) => true,
        _ => false,
    }
    &&& e.text@ == text
}

/// The line of a model that has no result yet.
pub open spec fn pending_line(name: Seq<char>) -> Seq<char> {
    tray_name(name) + ": \u{2014}"@
}

fn entry(id: &str, text: &str) -> (r: MenuEntry)
    ensures
        entry_is(r, Some(id@), text@),
{
    MenuEntry { id: Some(String::from_str(id)), text: String::from_str(text) }
}

/// The tray menu for `models`: Show Window, Run Test Now, a result line per
/// model (in order), Quit.
pub fn tray_menu_entries(models: &[ModelConfig]) -> (r: Vec<MenuEntry>)
    ensures
        r@.len() == models@.len() + 3,
        entry_is(r@[0], Some("show"@), "Show Window"@),
        entry_is(r@[1], Some("test"@), "Run Test Now"@),
        forall|i: int|
            0 <= i < models@.len() ==> entry_is(
                #[trigger] r@[i + 2],
                None,
                pending_line(models@[i].name@),
            ),
        entry_is(r@[models@.len() as int + 2], Some("quit"@), "Quit"@),
{
    let mut r: Vec<MenuEntry> = Vec::new();
    r.push(entry("show", "Show Window"));
    r.push(entry("test", "Run Test Now"));
    let mut k: usize = 0;
    while k < models.len()
        invariant
            k <= models@.len(),
            r@.len() == k + 2,
            entry_is(r@[0], Some("show"@), "Show Window"@),
            entry_is(r@[1], Some("test"@), "Run Test Now"@),
            forall|i: int|
                0 <= i < k ==> entry_is(#[trigger] r@[i + 2], None, pending_line(models@[i].name@)),
        decreases models.len() - k,
    {
        let mut text = truncate(models[k].name.as_str(), TRAY_NAME_MAX);
        text.append(": \u{2014}");
        r.push(MenuEntry { id: None, text });
        k = k + 1;
    }
    r.push(entry("quit", "Quit"));
    r
}

/// The text of a tray result line: either fixed, or a name followed by the
/// measured speed (which the display formats).
pub enum TrayLabel {
    Text(String),
    Speed(String),
}

pub open spec fn label_is_text(l: TrayLabel, text: Seq<char>) -> bool {
    match l {
        TrayLabel::Text(t) => t@ == text,
        TrayLabel::Speed(_) => false,
    }
}

pub open spec fn label_is_speed(l: TrayLabel, name: Seq<char>) -> bool {
    match l {
        TrayLabel::Text(_) => false,
        TrayLabel::Speed(n) => n@ == name,
    }
}

/// The result line of a model whose test failed.
pub open spec fn error_line(name: Seq<char>) -> Seq<char> {
    tray_name(name) + ": ERR"@
}

/// The result lines after a run: line `i` shows result `i` (the results come
/// in the order of the models, and so of the lines), or a dash where there
/// is no such result.
pub fn tray_result_labels(line_count: usize, results: &[TestOutcome]) -> (r: Vec<TrayLabel>)
    ensures
        r@.len() == line_count,
        forall|i: int|
            0 <= i < line_count ==> if i < results@.len() {
                if results@[i].error is Some {
                    label_is_text(#[trigger] r@[i], error_line(results@[i].model_name@))
                } else {
                    label_is_speed(r@[i], tray_name(results@[i].model_name@))
                }
            } else {
                label_is_text(r@[i], "\u{2014}"@)
            },
{
    let mut r: Vec<TrayLabel> = Vec::new();
    let mut k: usize = 0;
    while k < line_count
        invariant
            k <= line_count,
            r@.len() == k,
            forall|i: int|
                0 <= i < k ==> if i < results@.len() {
                    if results@[i].error is Some {
                        label_is_text(#[trigger] r@[i], error_line(results@[i].model_name@))
                    } else {
                        label_is_speed(r@[i], tray_name(results@[i].model_name@))
                    }
                } else {
                    label_is_text(r@[i], "\u{2014}"@)
                },
        decreases line_count - k,
    {
        if k < results.len() {
            let name = truncate(results[k].model_name.as_str(), TRAY_NAME_MAX);
            if results[k].error.is_some() {
                let mut text = name;
                text.append(": ERR");
                r.push(TrayLabel::Text(text));
            } else {
                r.push(TrayLabel::Speed(name));
            }
        } else {
            r.push(TrayLabel::Text(String::from_str("\u{2014}")));
        }
        k = k + 1;
    }
    r
}

/// What a click on a tray entry asks for.
#[derive(Debug, Clone, Copy, PartialEq, Eq, Structural)]
pub enum TrayAction {
    Quit,
    ShowWindow,
    RunTest,
    Nothing,
}

pub open spec fn tray_action_of(id: Seq<char>) -> TrayAction {
    if id == "quit"@ {
        TrayAction::Quit
    } else if id == "show"@ {
        TrayAction::ShowWindow
    } else if id == "test"@ {
        TrayAction::RunTest
    } else {
        TrayAction::Nothing
    }
}

/// The action of the tray entry with identifier `id`.
pub fn tray_action(id: &str) -> (r: TrayAction)
    ensures
        r == tray_action_of(id@),
{
    let s = String::from_str(id);
    if s == String::from_str("quit") {
        TrayAction::Quit
    } else if s == String::from_str("show") {
        TrayAction::ShowWindow
    } else if s == String::from_str("test") {
        TrayAction::RunTest
    } else {
        TrayAction::Nothing
    }
}

} // verus!
