//! The persisted application configuration, as the host edits it in memory.
//! Reading and writing the file is the caller's part.

use vstd::prelude::*;

use crate::strs::text_eq;

verus! {

/// Window position and size, in physical pixels.
#[derive(Debug, Clone, Copy, PartialEq, Eq, Structural)]
pub struct WindowBounds {
    pub x: i32,
    pub y: i32,
    pub width: u32,
    pub height: u32,
}

/// The configuration root: window geometry, theme, and free key-value data
/// whose keys are unique.
#[derive(Debug)]
pub struct AppConfig {
    pub window: Option<WindowBounds>,
    pub theme: Option<String>,
    pub data: Vec<(String, serde_json::Value)>,
}

/// No key occurs twice among the entries.
pub open spec fn keys_unique(data: Seq<(String, serde_json::Value)>) -> bool {
    forall|i: int, j: int|
        0 <= i < j < data.len() ==> (#[trigger] data[i]).0@ != (#[trigger] data[j]).0@
}

/// The entries as a map from key to value; a later entry wins.
pub open spec fn entries(data: Seq<(String, serde_json::Value)>) -> Map<Seq<char>, serde_json::Value>
    decreases data.len(),
{
    if data.len() == 0 {
        Map::empty()
    } else {
        entries(data.drop_last()).insert(data.last().0@, data.last().1)
    }
}

proof fn lemma_entries_hold(data: Seq<(String, serde_json::Value)>)
    requires
        keys_unique(data),
    ensures
        forall|i: int|
            0 <= i < data.len() ==> entries(data).contains_key(#[trigger] data[i].0@) && entries(
                data,
            )[data[i].0@] == data[i].1,
        forall|k: Seq<char>|
            entries(data).contains_key(k) ==> exists|i: int|
                0 <= i < data.len() && (#[trigger] data[i]).0@ == k,
    decreases data.len(),
{
    if data.len() > 0 {
        let d = data.drop_last();
        assert(keys_unique(d));
        lemma_entries_hold(d);
        assert forall|i: int| 0 <= i < data.len() implies entries(data).contains_key(
            #[trigger] data[i].0@,
        ) && entries(data)[data[i].0@] == data[i].1 by {
            if i < data.len() - 1 {
                assert(d[i] == data[i]);
                assert(data[i].0@ != data[data.len() - 1].0@);
            }
        }
        assert forall|k: Seq<char>| entries(data).contains_key(k) implies exists|i: int|
            0 <= i < data.len() && (#[trigger] data[i]).0@ == k by {
            if k != data.last().0@ {
                assert(entries(d).contains_key(k));
                let i = choose|i: int| 0 <= i < d.len() && (#[trigger] d[i]).0@ == k;
                assert(data[i] == d[i]);
            } else {
                assert(data[data.len() - 1].0@ == k);
            }
        }
    }
}

proof fn lemma_entries_update(
    data: Seq<(String, serde_json::Value)>,
    i: int,
    entry: (String, serde_json::Value),
)
    requires
        keys_unique(data),
        0 <= i < data.len(),
        data[i].0@ == entry.0@,
    ensures
        entries(data.update(i, entry)) == entries(data).insert(entry.0@, entry.1),
        keys_unique(data.update(i, entry)),
    decreases data.len(),
{
    let u = data.update(i, entry);
    let d = data.drop_last();
    assert(keys_unique(u)) by {
        assert forall|a: int, b: int| 0 <= a < b < u.len() implies (#[trigger] u[a]).0@ != (
        #[trigger] u[b]).0@ by {
            assert(data[a].0@ != data[b].0@);
        }
    }
    if i == data.len() - 1 {
        assert(u.drop_last() =~= d);
        assert(entries(u) =~= entries(data).insert(entry.0@, entry.1));
    } else {
        assert(keys_unique(d));
        lemma_entries_update(d, i, entry);
        assert(u.drop_last() =~= d.update(i, entry));
        assert(data.last().0@ != entry.0@) by {
            assert(data[i].0@ != data[data.len() - 1].0@);
        }
        assert(entries(u) =~= entries(data).insert(entry.0@, entry.1));
    }
}

/// Position of the entry stored under `key`, if any.
fn find_key(data: &Vec<(String, serde_json::Value)>, key: &str) -> (r: Option<usize>)
    ensures
        match r {
            Some(i) => i < data@.len() && data@[i as int].0@ == key@,
            None => forall|i: int| 0 <= i < data@.len() ==> (#[trigger] data@[i]).0@ != key@,
        },
{
    let n = data.len();
    let mut i: usize = 0;
    while i < n
        invariant
            n == data@.len(),
            i <= n,
            forall|j: int| 0 <= j < i ==> (#[trigger] data@[j]).0@ != key@,
        decreases n - i,
    {
        if text_eq(data[i].0.as_str(), key) {
            return Some(i);
        }
        i = i + 1;
    }
    None
}

impl AppConfig {
    /// Well-formed: the data keys are unique.
    pub open spec fn wf(&self) -> bool {
        keys_unique(self.data@)
    }

    /// An empty configuration.
    pub fn new() -> (r: Self)
        ensures
            r.wf(),
            r.window is None,
            r.theme is None,
            entries(r.data@) == Map::<Seq<char>, serde_json::Value>::empty(),
    {
        AppConfig { window: None, theme: None, data: Vec::new() }
    }
}

/// Reads the value stored under `key`.
pub fn get_value<'a>(config: &'a AppConfig, key: &str) -> (r: Option<&'a serde_json::Value>)
    requires
        config.wf(),
    ensures
        match r {
            Some(v) => entries(config.data@).contains_key(key@) && *v == entries(
                config.data@,
            )[key@],
            None => !entries(config.data@).contains_key(key@),
        },
{
    proof {
        lemma_entries_hold(config.data@);
    }
    match find_key(&config.data, key) {
        Some(i) => Some(&config.data[i].1),
        None => None,
    }
}

/// Stores `value` under `key`, replacing what was there; everything else is
/// kept.
pub fn set_value(config: &mut AppConfig, key: String, value: serde_json::Value)
    requires
        old(config).wf(),
    ensures
        final(config).wf(),
        entries(final(config).data@) == entries(old(config).data@).insert(key@, value),
        final(config).window == old(config).window,
        final(config).theme == old(config).theme,
{
    match find_key(&config.data, key.as_str()) {
        Some(i) => {
            proof {
                lemma_entries_update(config.data@, i as int, (key, value));
            }
            config.data.set(i, (key, value));
        },
        None => {
            let ghost d = config.data@;
            config.data.push((key, value));
            proof {
                assert(config.data@.drop_last() =~= d);
                assert forall|a: int, b: int|
                    0 <= a < b < config.data@.len() implies (#[trigger] config.data@[a]).0@ != (
                #[trigger] config.data@[b]).0@ by {
                    if b == d.len() {
                        assert(config.data@[a] == d[a]);
                    } else {
                        assert(d[a].0@ != d[b].0@);
                    }
                }
            }
        },
    }
}

/// Records the window geometry; the rest of the configuration is kept.
pub fn save_window_bounds(config: &mut AppConfig, x: i32, y: i32, width: u32, height: u32)
    ensures
        final(config).window == Some(WindowBounds { x, y, width, height }),
        final(config).theme == old(config).theme,
        final(config).data@ == old(config).data@,
{
    config.window = Some(WindowBounds { x, y, width, height });
}

/// The saved window geometry, if any.
pub fn load_window_bounds(config: &AppConfig) -> (r: Option<WindowBounds>)
    ensures
        r == config.window,
{
    config.window
}

} // verus!
