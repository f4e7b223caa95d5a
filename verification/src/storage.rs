//! Where the tool keeps its files, what it falls back to when a file is
//! missing or unreadable, and how much test history it retains.
use vstd::prelude::*;

use crate::model::{default_prompt, Settings};

verus! {

/// The number of test runs that the history keeps: the newest ones.
pub const MAX_HISTORY: usize = 1000;

/// A file-system location, as path components joined in order onto the
/// platform's local data directory (`in_local_data`), or onto nothing.
pub struct DataPath {
    pub in_local_data: bool,
    pub components: Vec<String>,
}

impl DataPath {
    pub open spec fn components_view(&self) -> Seq<Seq<char>> {
        self.components@.map_values(|c: String| c@)
    }
}

/// The directory of the tool's files, `model-speed`, below the local data
/// directory; below the working directory (`.`) where the platform has none.
pub open spec fn data_dir_components(has_local_data_dir: bool) -> Seq<Seq<char>> {
    if has_local_data_dir {
        seq!["model-speed"@]
    } else {
        seq!["."@, "model-speed"@]
    }
}

/// The tool's data directory, given whether the platform has a local data
/// directory.
pub fn data_dir(has_local_data_dir: bool) -> (r: DataPath)
    ensures
        r.in_local_data == has_local_data_dir,
        r.components_view() == data_dir_components(has_local_data_dir),
{
    let mut components: Vec<String> = Vec::new();
    if !has_local_data_dir {
        components.push(String::from_str("."));
    }
    components.push(String::from_str("model-speed"));
    let r = DataPath { in_local_data: has_local_data_dir, components };
    assert(r.components_view() =~= data_dir_components(has_local_data_dir));
    r
}

fn file_in(dir: &DataPath, name: &str) -> (r: DataPath)
    ensures
        r.in_local_data == dir.in_local_data,
        r.components_view() == dir.components_view().push(name@),
{
    let mut components: Vec<String> = Vec::new();
    let mut k: usize = 0;
    while k < dir.components.len()
        invariant
            k <= dir.components@.len(),
            components@.len() == k,
            forall|j: int| 0 <= j < k ==> components@[j]@ == dir.components@[j]@,
        decreases dir.components.len() - k,
    {
        components.push(dir.components[k].clone());
        k = k + 1;
    }
    components.push(String::from_str(name));
    let r = DataPath { in_local_data: dir.in_local_data, components };
    assert(r.components_view() =~= dir.components_view().push(name@));
    r
}

/// The file of the configured models, `config.json` in `data_dir`.
pub fn get_config_path(data_dir: &DataPath) -> (r: DataPath)
    ensures
        r.in_local_data == data_dir.in_local_data,
        r.components_view() == data_dir.components_view().push("config.json"@),
{
    file_in(data_dir, "config.json")
}

/// The file of the settings, `settings.json` in `data_dir`.
pub fn get_settings_path(data_dir: &DataPath) -> (r: DataPath)
    ensures
        r.in_local_data == data_dir.in_local_data,
        r.components_view() == data_dir.components_view().push("settings.json"@),
{
    file_in(data_dir, "settings.json")
}

/// The file of the test history, `history.json` in `data_dir`.
pub fn get_history_path(data_dir: &DataPath) -> (r: DataPath)
    ensures
        r.in_local_data == data_dir.in_local_data,
        r.components_view() == data_dir.components_view().push("history.json"@),
{
    file_in(data_dir, "history.json")
}

/// The settings to use: those stored, or the defaults when there were none
/// (no file, an unreadable file, or one that did not parse).
pub fn settings_or_default(stored: Option<Settings>) -> (r: Settings)
    ensures
        match stored {
            Some(s) => r == s,
            None => r.test_interval_minutes == 30 && r.test_duration_seconds == 60
                && !r.notify_on_complete && r.fixed_prompt@ == default_prompt(),
        },
{
    match stored {
        Some(s) => s,
        None => Settings::default(),
    }
}

/// A stored list (of models, or of history records), or the empty list when
/// there was none (no file, an unreadable file, or one that did not parse).
pub fn list_or_empty<T>(stored: Option<Vec<T>>) -> (r: Vec<T>)
    ensures
        match stored {
            Some(v) => r == v,
            None => r@ == Seq::<T>::empty(),
        },
{
    match stored {
        Some(v) => v,
        None => Vec::new(),
    }
}

/// The newest `MAX_HISTORY` entries of `h`, in order.
pub open spec fn retained<T>(h: Seq<T>) -> Seq<T> {
    if h.len() > MAX_HISTORY {
        h.skip(h.len() - MAX_HISTORY)
    } else {
        h
    }
}

/// Appends the record of a finished run to the history, dropping the oldest
/// records beyond `MAX_HISTORY`.
pub fn record_history<T>(history: Vec<T>, record: T) -> (r: Vec<T>)
    ensures
        r@ == retained(history@.push(record)),
{
    let mut h = history;
    h.push(record);
    if h.len() > MAX_HISTORY {
        let at = h.len() - MAX_HISTORY;
        let kept = h.split_off(at);
        kept
    } else {
        h
    }
}

/// The history never holds more than `MAX_HISTORY` records; the newest record
/// is always kept, last; and what is kept is the newest part of the history,
/// in order.
pub proof fn law_history_bounded<T>(history: Seq<T>, record: T)
    ensures
        retained(history.push(record)).len() <= MAX_HISTORY,
        retained(history.push(record)).last() == record,
        history.push(record).len() <= MAX_HISTORY ==> retained(history.push(record)) == history.push(
            record,
        ),
        retained(history.push(record)) == history.push(record).skip(
            history.push(record).len() - retained(history.push(record)).len(),
        ),
{
    let h = history.push(record);
    if h.len() <= MAX_HISTORY {
        assert(h.skip(0) =~= h);
    }
}

} // verus!
