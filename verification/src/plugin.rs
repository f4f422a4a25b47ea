//! Script action plugins: manifest validation and the registry of loaded
//! plugins.
use vstd::prelude::*;

use crate::error::CoreError;
use crate::named::{
    find_name, lemma_increasing_distinct, lemma_named_len, lemma_named_val, named_map,
    names_increasing, upsert_sorted,
};
pub use crate::protocol::PluginPermissionScope;
use crate::text::{chars_of, concat, owned, trim};

verus! {

/// A plugin's manifest.
#[derive(Debug, Clone, PartialEq, Eq)]
pub struct PluginManifest {
    pub id: String,
    pub version: String,
    pub description: String,
    pub executable: String,
    pub timeout_ms: u64,
    pub permissions: Vec<PluginPermissionScope>,
    pub enabled: bool,
}

/// Whether `c` may appear in a plugin id: lowercase ASCII letter, digit,
/// `-` or `_`.
pub open spec fn id_char(c: char) -> bool {
    ('a' <= c <= 'z') || ('0' <= c <= '9') || c == '-' || c == '_'
}

/// A valid plugin id: 1 to 64 characters, starting with a lowercase ASCII
/// letter, each a lowercase letter, digit, `-` or `_`.
pub open spec fn valid_plugin_id(id: Seq<char>) -> bool {
    &&& 1 <= id.len() <= 64
    &&& 'a' <= id[0] <= 'z'
    &&& forall|i: int| 0 <= i < id.len() ==> id_char(#[trigger] id[i])
}

/// The first problem of a manifest, if any.
pub open spec fn manifest_problem(m: PluginManifest) -> Option<Seq<char>> {
    if !valid_plugin_id(m.id@) {
        Some("plugin id must be 1-64 lowercase ascii characters, digits, '-' or '_'"@)
    } else if trim(m.version@).len() == 0 {
        Some("version cannot be empty"@)
    } else if trim(m.executable@).len() == 0 {
        Some("executable cannot be empty"@)
    } else if m.timeout_ms == 0 || m.timeout_ms > 60_000 {
        Some("timeout_ms must be between 1 and 60000"@)
    } else if m.permissions@.contains(PluginPermissionScope::NoneRequired) && m.permissions@.len() > 1 {
        Some("'none' cannot be combined with other permission scopes"@)
    } else {
        None
    }
}

impl PluginManifest {
    fn invalid(&self, message: &str) -> (r: CoreError)
        ensures
            r matches CoreError::Validation { profile, message: m } && profile@ == self.id@ && m@
                == "invalid plugin manifest: "@ + message@,
    {
        CoreError::Validation {
            profile: self.id.clone(),
            message: concat("invalid plugin manifest: ", message),
        }
    }

    /// Checks the id, version, executable, timeout and permission scopes;
    /// reports the first problem.
    pub fn validate(&self) -> (r: Result<(), CoreError>)
        ensures
            match manifest_problem(*self) {
                None => r is Ok,
                Some(p) => r matches Err(CoreError::Validation { profile, message }) && profile@
                    == self.id@ && message@ == "invalid plugin manifest: "@ + p,
            },
    {
        let id = chars_of(self.id.as_str());
        let mut ok = id.len() >= 1 && id.len() <= 64 && 'a' <= id[0] && id[0] <= 'z';
        let mut i: usize = 0;
        while ok && i < id.len()
            invariant
                i <= id@.len(),
                id@ == self.id@,
                ok ==> forall|j: int| 0 <= j < i ==> id_char(#[trigger] id@[j]),
                ok ==> 1 <= id@.len() <= 64 && 'a' <= id@[0] <= 'z',
                !ok ==> !valid_plugin_id(self.id@),
            decreases id@.len() - i,
        {
            let c = id[i];
            if !(('a' <= c && c <= 'z') || ('0' <= c && c <= '9') || c == '-' || c == '_') {
                ok = false;
                assert(!id_char(id@[i as int]));
            }
            i = i + 1;
        }
        if !ok {
            return Err(
                self.invalid("plugin id must be 1-64 lowercase ascii characters, digits, '-' or '_'"),
            );
        }
        let v = chars_of(self.version.as_str());
        if crate::text::trim_chars(&v).len() == 0 {
            return Err(self.invalid("version cannot be empty"));
        }
        let e = chars_of(self.executable.as_str());
        if crate::text::trim_chars(&e).len() == 0 {
            return Err(self.invalid("executable cannot be empty"));
        }
        if self.timeout_ms == 0 || self.timeout_ms > 60_000 {
            return Err(self.invalid("timeout_ms must be between 1 and 60000"));
        }
        let mut has_none = false;
        let mut k: usize = 0;
        while k < self.permissions.len()
            invariant
                k <= self.permissions@.len(),
                has_none == exists|j: int| 0 <= j < k && self.permissions@[j] == PluginPermissionScope::NoneRequired,
            decreases self.permissions@.len() - k,
        {
            if self.permissions[k] == PluginPermissionScope::NoneRequired {
                has_none = true;
            }
            k = k + 1;
        }
        if has_none && self.permissions.len() > 1 {
            return Err(self.invalid("'none' cannot be combined with other permission scopes"));
        }
        proof {
            if self.permissions@.contains(PluginPermissionScope::NoneRequired) {
                let j = choose|j: int| 0 <= j < self.permissions@.len() && self.permissions@[j] == PluginPermissionScope::NoneRequired;
                assert(has_none);
            }
        }
        Ok(())
    }
}

/// A plugin whose manifest was loaded, with the file it came from.
#[derive(Debug, Clone)]
pub struct LoadedPlugin {
    pub manifest: PluginManifest,
    pub source_path: String,
}

/// The loaded plugins by id, and the failures by id.
#[derive(Debug, Clone, Default)]
pub struct PluginRegistry {
    plugins: Vec<(String, LoadedPlugin)>,
    failed: Vec<(String, String)>,
}

impl PluginRegistry {
    pub closed spec fn wf(&self) -> bool {
        &&& names_increasing(self.plugins@)
        &&& names_increasing(self.failed@)
        &&& forall|k: Seq<char>| #[trigger]
            named_map(self.plugins@).contains_key(k) ==> named_map(self.plugins@)[k].manifest.id@ == k
    }

    /// The loaded plugins, by id.
    pub closed spec fn loaded(&self) -> Map<Seq<char>, LoadedPlugin> {
        named_map(self.plugins@)
    }

    /// The failure message of each plugin that did not load, by id.
    pub closed spec fn failures_map(&self) -> Map<Seq<char>, String> {
        named_map(self.failed@)
    }

    pub fn new() -> (r: PluginRegistry)
        ensures
            r.wf(),
            r.loaded() == Map::<Seq<char>, LoadedPlugin>::empty(),
            r.failures_map() == Map::<Seq<char>, String>::empty(),
    {
        let r = PluginRegistry { plugins: Vec::new(), failed: Vec::new() };
        assert(r.loaded() =~= Map::<Seq<char>, LoadedPlugin>::empty());
        assert(r.failures_map() =~= Map::<Seq<char>, String>::empty());
        r
    }

    /// Forgets every plugin and failure (before a reload).
    pub fn clear(&mut self)
        ensures
            final(self).wf(),
            final(self).loaded() == Map::<Seq<char>, LoadedPlugin>::empty(),
            final(self).failures_map() == Map::<Seq<char>, String>::empty(),
    {
        *self = PluginRegistry::new();
    }

    /// Registers a validated manifest read from `source_path`: a second
    /// plugin with the same id is recorded as a failure instead. Tells
    /// whether it was loaded.
    pub fn register(&mut self, manifest: PluginManifest, source_path: &str) -> (r: bool)
        requires
            old(self).wf(),
        ensures
            final(self).wf(),
            r == !old(self).loaded().contains_key(manifest.id@),
            r ==> final(self).loaded().contains_key(manifest.id@) && final(self).loaded()[manifest.id@].manifest
                == manifest && final(self).loaded()[manifest.id@].source_path@ == source_path@,
            r ==> forall|k: Seq<char>| k != manifest.id@ ==> (final(self).loaded().contains_key(k)
                == old(self).loaded().contains_key(k)) && (final(self).loaded().contains_key(k)
                ==> final(self).loaded()[k] == old(self).loaded()[k]),
            r ==> final(self).failures_map() == old(self).failures_map(),
            !r ==> final(self).loaded() == old(self).loaded(),
            !r ==> final(self).failures_map().contains_key(manifest.id@) && final(self).failures_map()[manifest.id@]@
                == "duplicate plugin id"@,
            !r ==> forall|k: Seq<char>| k != manifest.id@ ==> (#[trigger] final(self).failures_map().contains_key(k)
                == old(self).failures_map().contains_key(k)) && (final(self).failures_map().contains_key(k)
                ==> final(self).failures_map()[k] == old(self).failures_map()[k]),
    {
        proof {
            lemma_increasing_distinct(self.plugins@);
        }
        match find_name(&self.plugins, manifest.id.as_str()) {
            Some(i) => {
                proof {
                    lemma_named_val(self.plugins@, i as int);
                }
                let id = manifest.id.clone();
                upsert_sorted(&mut self.failed, id, owned("duplicate plugin id"));
                false
            },
            None => {
                let id = manifest.id.clone();
                upsert_sorted(
                    &mut self.plugins,
                    id,
                    LoadedPlugin { manifest, source_path: owned(source_path) },
                );
                true
            },
        }
    }

    /// Records that the plugin `id` failed to load, with `message`.
    pub fn record_failure(&mut self, id: &str, message: &str)
        requires
            old(self).wf(),
        ensures
            final(self).wf(),
            final(self).loaded() == old(self).loaded(),
            final(self).failures_map().contains_key(id@),
            final(self).failures_map()[id@]@ == message@,
            forall|k: Seq<char>| k != id@ ==> (#[trigger] final(self).failures_map().contains_key(k)
                == old(self).failures_map().contains_key(k)) && (final(self).failures_map().contains_key(k)
                ==> final(self).failures_map()[k] == old(self).failures_map()[k]),
    {
        upsert_sorted(&mut self.failed, owned(id), owned(message));
    }

    /// The loaded plugin with id `id`.
    pub fn get(&self, id: &str) -> (r: Option<&LoadedPlugin>)
        requires
            self.wf(),
        ensures
            match r {
                Some(p) => self.loaded().contains_key(id@) && *p == self.loaded()[id@],
                None => !self.loaded().contains_key(id@),
            },
    {
        proof {
            lemma_increasing_distinct(self.plugins@);
        }
        match find_name(&self.plugins, id) {
            Some(i) => {
                proof {
                    lemma_named_val(self.plugins@, i as int);
                }
                Some(&self.plugins[i].1)
            },
            None => None,
        }
    }

    /// Each loaded plugin is filed under its own id.
    pub proof fn lemma_filed_by_id(&self, k: Seq<char>)
        requires
            self.wf(),
            self.loaded().contains_key(k),
        ensures
            self.loaded()[k].manifest.id@ == k,
    {
    }

    /// The loaded plugins, by increasing id.
    pub fn plugins(&self) -> (r: Vec<&LoadedPlugin>)
        requires
            self.wf(),
        ensures
            r@.len() == self.loaded().dom().len(),
            r@.len() == self.plugin_ids().len(),
            forall|i: int| 0 <= i < r@.len() ==> self.loaded().contains_key(#[trigger] self.plugin_ids()[i]),
            forall|i: int, j: int| 0 <= i < j < r@.len() ==> crate::text::seq_lt(
                self.plugin_ids()[i],
                self.plugin_ids()[j],
            ),
            forall|i: int| 0 <= i < r@.len() ==> *(#[trigger] r@[i]) == self.loaded()[self.plugin_ids()[i]],
    {
        proof {
            lemma_increasing_distinct(self.plugins@);
            lemma_named_len(self.plugins@);
        }
        let mut out: Vec<&LoadedPlugin> = Vec::new();
        let mut i: usize = 0;
        while i < self.plugins.len()
            invariant
                i <= self.plugins@.len(),
                out@.len() == i,
                crate::named::names_distinct(self.plugins@),
                forall|j: int| 0 <= j < i ==> *(#[trigger] out@[j]) == self.plugins@[j].1,
            decreases self.plugins@.len() - i,
        {
            out.push(&self.plugins[i].1);
            i = i + 1;
        }
        proof {
            assert forall|j: int| 0 <= j < out@.len() implies *(#[trigger] out@[j]) == self.loaded()[self.plugin_ids()[j]] by {
                lemma_named_val(self.plugins@, j);
            }
            assert forall|j: int| 0 <= j < out@.len() implies self.loaded().contains_key(#[trigger] self.plugin_ids()[j]) by {
                lemma_named_val(self.plugins@, j);
            }
        }
        out
    }

    /// The ids of the loaded plugins, increasing.
    pub closed spec fn plugin_ids(&self) -> Seq<Seq<char>> {
        self.plugins@.map_values(|p: (String, LoadedPlugin)| p.0@)
    }

    /// The failures `(id, message)`, by increasing id.
    pub closed spec fn failures_list(&self) -> Seq<(String, String)> {
        self.failed@
    }

    /// The failures `(id, message)`, by increasing id.
    pub fn failures(&self) -> (r: &Vec<(String, String)>)
        requires
            self.wf(),
        ensures
            names_increasing(r@),
            named_map(r@) == self.failures_map(),
            r@ == self.failures_list(),
    {
        &self.failed
    }

    pub fn loaded_count(&self) -> (r: usize)
        requires
            self.wf(),
        ensures
            r == self.loaded().dom().len(),
    {
        proof {
            lemma_increasing_distinct(self.plugins@);
            lemma_named_len(self.plugins@);
        }
        self.plugins.len()
    }

    pub fn failed_count(&self) -> (r: usize)
        requires
            self.wf(),
        ensures
            r == self.failures_map().dom().len(),
    {
        proof {
            lemma_increasing_distinct(self.failed@);
            lemma_named_len(self.failed@);
        }
        self.failed.len()
    }
}

/// A manifest file found in the plugin directory: its path, its file stem
/// (`unknown` when it has none) and the manifest read from it, or why it
/// could not be read.
pub struct PluginEntry {
    pub path: String,
    pub stem: String,
    pub parsed: Result<PluginManifest, String>,
}

/// The manifest an entry contributes, when it was read and is valid.
pub open spec fn entry_manifest(e: PluginEntry) -> Option<PluginManifest> {
    match e.parsed {
        Ok(m) => if manifest_problem(m) is None {
            Some(m)
        } else {
            None
        },
        Err(_) => None,
    }
}

/// Why an entry contributes no manifest.
pub open spec fn entry_failure(e: PluginEntry) -> Seq<char> {
    match e.parsed {
        Ok(m) => match manifest_problem(m) {
            Some(p) => "Validation error in profile '"@ + m.id@ + "': "@ + ("invalid plugin manifest: "@ + p),
            None => Seq::empty(),
        },
        Err(x) => x@,
    }
}

/// The plugins loaded from entries `es` in order: each valid manifest
/// whose id is new, with its path.
pub open spec fn loads_after(es: Seq<PluginEntry>) -> Map<Seq<char>, (PluginManifest, Seq<char>)>
    decreases es.len(),
{
    if es.len() == 0 {
        Map::empty()
    } else {
        let prev = loads_after(es.drop_last());
        match entry_manifest(es.last()) {
            Some(m) => if prev.contains_key(m.id@) {
                prev
            } else {
                prev.insert(m.id@, (m, es.last().path@))
            },
            None => prev,
        }
    }
}

/// The failures recorded loading entries `es` in order: a repeated id is a
/// `duplicate plugin id`, and an entry without a valid manifest fails under
/// its file stem.
pub open spec fn failures_after(es: Seq<PluginEntry>) -> Map<Seq<char>, Seq<char>>
    decreases es.len(),
{
    if es.len() == 0 {
        Map::empty()
    } else {
        let prev = failures_after(es.drop_last());
        match entry_manifest(es.last()) {
            Some(m) => if loads_after(es.drop_last()).contains_key(m.id@) {
                prev.insert(m.id@, "duplicate plugin id"@)
            } else {
                prev
            },
            None => prev.insert(es.last().stem@, entry_failure(es.last())),
        }
    }
}

/// How many plugins loading entries `es` in order loads.
pub open spec fn load_count(es: Seq<PluginEntry>) -> nat
    decreases es.len(),
{
    if es.len() == 0 {
        0
    } else {
        load_count(es.drop_last()) + match entry_manifest(es.last()) {
            Some(m) => if loads_after(es.drop_last()).contains_key(m.id@) {
                0nat
            } else {
                1nat
            },
            None => 0nat,
        }
    }
}

impl PluginRegistry {
    /// Replaces the registry's contents by the plugins of a directory's
    /// manifest entries, in order; tells how many were loaded.
    pub fn load_entries(&mut self, entries: Vec<PluginEntry>) -> (r: usize)
        ensures
            final(self).wf(),
            r == load_count(entries@),
            forall|k: Seq<char>| #[trigger] final(self).loaded().contains_key(k) == loads_after(entries@).contains_key(k),
            forall|k: Seq<char>|
                #[trigger] final(self).loaded().contains_key(k) ==> final(self).loaded()[k].manifest
                    == loads_after(entries@)[k].0 && final(self).loaded()[k].source_path@ == loads_after(
                    entries@,
                )[k].1,
            forall|k: Seq<char>| #[trigger] final(self).failures_map().contains_key(k) == failures_after(entries@).contains_key(k),
            forall|k: Seq<char>|
                #[trigger] final(self).failures_map().contains_key(k) ==> final(self).failures_map()[k]@
                    == failures_after(entries@)[k],
    {
        self.clear();
        let ghost all = entries@;
        let total = entries.len();
        let mut rest = entries;
        let mut count: usize = 0;
        let mut i: usize = 0;
        while rest.len() > 0
            invariant
                self.wf(),
                i <= all.len(),
                all.len() == total,
                rest@ == all.skip(i as int),
                count == load_count(all.take(i as int)),
                count <= i,
                forall|k: Seq<char>| #[trigger] self.loaded().contains_key(k) == loads_after(all.take(i as int)).contains_key(k),
                forall|k: Seq<char>|
                    #[trigger] self.loaded().contains_key(k) ==> self.loaded()[k].manifest == loads_after(all.take(i as int))[k].0
                        && self.loaded()[k].source_path@ == loads_after(all.take(i as int))[k].1,
                forall|k: Seq<char>| #[trigger] self.failures_map().contains_key(k) == failures_after(all.take(i as int)).contains_key(k),
                forall|k: Seq<char>|
                    #[trigger] self.failures_map().contains_key(k) ==> self.failures_map()[k]@ == failures_after(all.take(i as int))[k],
            decreases rest@.len(),
        {
            let e = rest.remove(0);
            let ghost ev = e;
            assert(ev == all[i as int]);
            let ghost pre = all.take(i as int);
            assert(all.take(i + 1).drop_last() =~= pre);
            assert(all.take(i + 1).last() == ev);
            let PluginEntry { path, stem, parsed } = e;
            let ghost l0 = loads_after(pre);
            let ghost f0 = failures_after(pre);
            let ghost reg0 = self.loaded();
            let ghost fail0 = self.failures_map();
            match parsed {
                Ok(m) => {
                    let ghost mv = m;
                    match m.validate() {
                        Ok(()) => {
                            assert(entry_manifest(ev) == Some(mv));
                            let added = self.register(m, path.as_str());
                            if added {
                                count = count + 1;
                                assert(loads_after(all.take(i + 1)) == l0.insert(mv.id@, (mv, path@)));
                                assert(failures_after(all.take(i + 1)) == f0);
                                assert(self.failures_map() == fail0);
                            } else {
                                assert(loads_after(all.take(i + 1)) == l0);
                                assert(failures_after(all.take(i + 1)) == f0.insert(mv.id@, "duplicate plugin id"@));
                                proof {
                                    assert forall|k: Seq<char>| #[trigger] self.failures_map().contains_key(k) == f0.insert(mv.id@, "duplicate plugin id"@).contains_key(k) by {
                                        assert(fail0.contains_key(k) == f0.contains_key(k));
                                        if k != mv.id@ {
                                            assert(self.failures_map().contains_key(k) == fail0.contains_key(k));
                                        }
                                    }
                                }
                            }
                        },
                        Err(err) => {
                            assert(entry_manifest(ev) is None);
                            let text = err.message();
                            assert(text@ == entry_failure(ev));
                            self.record_failure(stem.as_str(), text.as_str());
                            proof {
                                assert forall|k: Seq<char>| #[trigger] self.failures_map().contains_key(k) == f0.insert(stem@, entry_failure(ev)).contains_key(k) by {
                                    assert(fail0.contains_key(k) == f0.contains_key(k));
                                    if k != stem@ {
                                        assert(self.failures_map().contains_key(k) == fail0.contains_key(k));
                                    }
                                }
                            }
                            assert(loads_after(all.take(i + 1)) == l0);
                            assert(failures_after(all.take(i + 1)) == f0.insert(stem@, entry_failure(ev)));
                        },
                    }
                },
                Err(x) => {
                    assert(entry_manifest(ev) is None);
                    self.record_failure(stem.as_str(), x.as_str());
                    proof {
                        assert forall|k: Seq<char>| #[trigger] self.failures_map().contains_key(k) == f0.insert(stem@, entry_failure(ev)).contains_key(k) by {
                            assert(fail0.contains_key(k) == f0.contains_key(k));
                            if k != stem@ {
                                assert(self.failures_map().contains_key(k) == fail0.contains_key(k));
                            }
                        }
                    }
                    assert(loads_after(all.take(i + 1)) == l0);
                    assert(failures_after(all.take(i + 1)) == f0.insert(stem@, entry_failure(ev)));
                },
            }
            proof {
                let l1 = loads_after(all.take(i + 1));
                let f1 = failures_after(all.take(i + 1));
                assert forall|k: Seq<char>| #[trigger] self.loaded().contains_key(k) == l1.contains_key(k) by {
                    assert(reg0.contains_key(k) == l0.contains_key(k));
                }
                assert forall|k: Seq<char>| #[trigger] self.failures_map().contains_key(k) == f1.contains_key(k) by {
                    assert(fail0.contains_key(k) == f0.contains_key(k));
                }
            }
            i = i + 1;
            assert(rest@ =~= all.skip(i as int));
        }
        assert(all.take(i as int) =~= all);
        count
    }
}

/// What a plugin reads on its standard input: the action it is run for and
/// the profile active at the time (its JSON form has `action_id`, `args`
/// null and `context` holding the profile).
#[derive(Debug, Clone, PartialEq, Eq)]
pub struct PluginActionInput {
    pub action_id: String,
    pub profile: String,
}

impl PluginActionInput {
    pub fn new(action_id: &str, profile: &str) -> (r: PluginActionInput)
        ensures
            r.action_id@ == action_id@,
            r.profile@ == profile@,
    {
        PluginActionInput { action_id: owned(action_id), profile: owned(profile) }
    }
}

/// What a plugin prints on its standard output: whether it succeeded, its
/// message, its data (as JSON text) and whether trying again may help.
#[derive(Debug, Clone, PartialEq, Eq)]
pub struct PluginActionOutput {
    pub ok: bool,
    pub message: String,
    pub data: String,
    pub retryable: bool,
}

/// The most a plugin may print on its standard output, in bytes.
pub const MAX_PLUGIN_OUTPUT_BYTES: usize = 65536;

/// How a plugin process ended: past its time limit, or with its standard
/// output size, whether it succeeded, its exit status text and its
/// standard error text.
pub enum PluginExit {
    TimedOut,
    Finished { stdout_len: usize, success: bool, status: String, stderr: String },
}

/// The error about plugin `p` with `message`.
pub open spec fn plugin_error(p: LoadedPlugin, message: Seq<char>, e: CoreError) -> bool {
    e matches CoreError::Validation { profile, message: m } && profile@ == p.manifest.id@ && m@ == message
}

/// A disabled plugin is not run.
pub fn check_plugin_enabled(plugin: &LoadedPlugin) -> (r: Result<(), CoreError>)
    ensures
        plugin.manifest.enabled ==> r is Ok,
        !plugin.manifest.enabled ==> (r matches Err(e) && plugin_error(*plugin, "plugin is disabled"@, e)),
{
    if plugin.manifest.enabled {
        Ok(())
    } else {
        Err(CoreError::Validation { profile: plugin.manifest.id.clone(), message: owned("plugin is disabled") })
    }
}

/// Whether a finished plugin may have its output read: within its time
/// limit, with at most 64 KiB of output and a successful exit.
pub fn judge_plugin_exit(plugin: &LoadedPlugin, exit: &PluginExit) -> (r: Result<(), CoreError>)
    ensures
        match *exit {
            PluginExit::TimedOut => r matches Err(e) && plugin_error(
                *plugin,
                "plugin timed out after "@ + crate::text::decimal(plugin.manifest.timeout_ms as nat) + "ms"@,
                e,
            ),
            PluginExit::Finished { stdout_len, success, status, stderr } => if stdout_len > MAX_PLUGIN_OUTPUT_BYTES {
                r matches Err(e) && plugin_error(*plugin, "plugin output exceeds 64 KiB"@, e)
            } else if !success {
                r matches Err(e) && plugin_error(
                    *plugin,
                    "plugin exited with "@ + status@ + ": "@ + trim(stderr@),
                    e,
                )
            } else {
                r is Ok
            },
        },
{
    match exit {
        PluginExit::TimedOut => {
            let mut m = owned("plugin timed out after ");
            crate::text::push_decimal(&mut m, plugin.manifest.timeout_ms as u128);
            crate::text::push_str(&mut m, "ms");
            Err(CoreError::Validation { profile: plugin.manifest.id.clone(), message: m })
        },
        PluginExit::Finished { stdout_len, success, status, stderr } => {
            if *stdout_len > MAX_PLUGIN_OUTPUT_BYTES {
                Err(
                    CoreError::Validation {
                        profile: plugin.manifest.id.clone(),
                        message: owned("plugin output exceeds 64 KiB"),
                    },
                )
            } else if !*success {
                let mut m = concat("plugin exited with ", status.as_str());
                crate::text::push_str(&mut m, ": ");
                let t = crate::text::trim_str(stderr.as_str());
                crate::text::push_str(&mut m, t.as_str());
                Err(CoreError::Validation { profile: plugin.manifest.id.clone(), message: m })
            } else {
                Ok(())
            }
        },
    }
}

/// The error for plugin output that is not the expected JSON.
pub fn invalid_output_error(plugin: &LoadedPlugin, reason: &str) -> (r: CoreError)
    ensures
        plugin_error(*plugin, "invalid plugin JSON output: "@ + reason@, r),
{
    CoreError::Validation {
        profile: plugin.manifest.id.clone(),
        message: concat("invalid plugin JSON output: ", reason),
    }
}

} // verus!
