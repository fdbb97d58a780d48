use vstd::prelude::*;
use vstd::string::StringExecFns;
use crate::plugin::{
    find_plugin, sort_plugins_by_order, lemma_sort_map, first_named, is_first_named, loaded_plugin, lemma_first_named_none, lemma_first_named_unique, plugin_view,
    plugins_view, stable_sort_by, view_order_key, load_error_text, Plugin, PluginLoadError,
    PluginManager, PluginOrderedConfig, PluginTopologicalConfig, PluginStatus, PluginView, StatusView,
};

verus! {

/// Errors of reading the plugin configuration.
#[derive(Debug)]
pub enum PluginConfigError {
    ReadFileError { error: String },
    ParsingError { error: String },
    PluginParsingError { plugin_name: String, error: String },
    PluginMissingError { plugins: Vec<String> },
}

/// A change of the plugin set that a new configuration asks for.
#[derive(Debug)]
pub enum PluginConfigChange {
    /// A new plugin to load.
    Add(PluginOrderedConfig),
    /// The name of a plugin to drop.
    Remove(String),
    /// A plugin to load again.
    Reload(PluginOrderedConfig),
    /// The name of a plugin to disable.
    Disable(String),
    /// A plugin to enable again.
    Enable(PluginOrderedConfig),
    /// The name of a plugin that stays as it is.
    NoChange(String),
}

/// A change, with names taken by their views.
pub enum ChangeView {
    Add(PluginOrderedConfig),
    Remove(Seq<char>),
    Reload(PluginOrderedConfig),
    Disable(Seq<char>),
    Enable(PluginOrderedConfig),
    NoChange(Seq<char>),
}

/// The view of a change.
pub open spec fn change_view(c: PluginConfigChange) -> ChangeView {
    match c {
        PluginConfigChange::Add(cfg) => ChangeView::Add(cfg),
        PluginConfigChange::Remove(n) => ChangeView::Remove(n@),
        PluginConfigChange::Reload(cfg) => ChangeView::Reload(cfg),
        PluginConfigChange::Disable(n) => ChangeView::Disable(n@),
        PluginConfigChange::Enable(cfg) => ChangeView::Enable(cfg),
        PluginConfigChange::NoChange(n) => ChangeView::NoChange(n@),
    }
}

/// The views of a list of changes.
pub open spec fn changes_view(cs: Seq<PluginConfigChange>) -> Seq<ChangeView> {
    cs.map_values(|c: PluginConfigChange| change_view(c))
}

/// Whether the plugin's library may have changed: it has when either signature is unknown,
/// or when they differ.
pub open spec fn file_changed_spec(old_config: PluginOrderedConfig, new_config: PluginOrderedConfig) -> bool {
    match (old_config.file_hash, new_config.file_hash) {
        (Some(a), Some(b)) => a@ != b@,
        _ => true,
    }
}

/// Whether the plugin at `i` is the last one named `name`.
pub open spec fn is_last_named<P>(ps: Seq<PluginView<P>>, name: Seq<char>, i: int) -> bool {
    &&& 0 <= i < ps.len()
    &&& ps[i].config.name@ == name
    &&& forall|j: int| i < j < ps.len() ==> (#[trigger] ps[j]).config.name@ != name
}

/// Position of the last plugin named `name`, if any.
pub open spec fn last_named<P>(ps: Seq<PluginView<P>>, name: Seq<char>) -> Option<int> {
    if exists|i: int| is_last_named(ps, name, i) {
        Some(choose|i: int| is_last_named(ps, name, i))
    } else {
        None
    }
}

proof fn lemma_last_named_unique<P>(ps: Seq<PluginView<P>>, name: Seq<char>, i: int)
    requires
        is_last_named(ps, name, i),
    ensures
        last_named(ps, name) == Some(i),
{
    let k = choose|k: int| is_last_named(ps, name, k);
    assert(is_last_named(ps, name, k));
    if k < i {
        assert(ps[i].config.name@ != name);
    } else if i < k {
        assert(ps[k].config.name@ != name);
    }
}

/// The change that `cfg` asks of the plugins `current`, compared with the last plugin of the
/// same name: none for a new, disabled plugin.
pub open spec fn change_for<P>(current: Seq<PluginView<P>>, cfg: PluginOrderedConfig) -> Option<ChangeView> {
    match last_named(current, cfg.name@) {
        Some(i) => {
            let cur = current[i];
            if !cfg.enable {
                Some(ChangeView::Disable(cfg.name@))
            } else if cfg.reload {
                Some(ChangeView::Reload(cfg))
            } else if cur.config.path@ != cfg.path@ || cur.config.order != cfg.order {
                Some(ChangeView::Reload(cfg))
            } else if file_changed_spec(cur.config, cfg) {
                Some(ChangeView::Reload(cfg))
            } else if !(cur.status is Enable) {
                Some(ChangeView::Enable(cfg))
            } else {
                Some(ChangeView::NoChange(cfg.name@))
            }
        },
        None => if cfg.enable {
            Some(ChangeView::Add(cfg))
        } else {
            None
        },
    }
}

/// The changes that the configurations `cfgs` ask for, in their order.
pub open spec fn config_changes<P>(current: Seq<PluginView<P>>, cfgs: Seq<PluginOrderedConfig>) -> Seq<ChangeView>
    decreases cfgs.len(),
{
    if cfgs.len() == 0 {
        Seq::empty()
    } else {
        let rest = config_changes(current, cfgs.drop_last());
        match change_for(current, cfgs.last()) {
            Some(c) => rest.push(c),
            None => rest,
        }
    }
}

/// Whether some configuration of `cfgs` is named `name`.
pub open spec fn configured(cfgs: Seq<PluginOrderedConfig>, name: Seq<char>) -> bool {
    exists|j: int| 0 <= j < cfgs.len() && (#[trigger] cfgs[j]).name@ == name
}

/// One removal for each plugin of `ps` whose name no configuration of `cfgs` has, in the
/// order of `ps`.
pub open spec fn removals<P>(ps: Seq<PluginView<P>>, cfgs: Seq<PluginOrderedConfig>) -> Seq<ChangeView>
    decreases ps.len(),
{
    if ps.len() == 0 {
        Seq::empty()
    } else {
        let rest = removals(ps.drop_last(), cfgs);
        if configured(cfgs, ps.last().config.name@) {
            rest
        } else {
            rest.push(ChangeView::Remove(ps.last().config.name@))
        }
    }
}

/// The plugin loader's decisions, on values that the application reads and loads.
pub struct PluginLoader {}

impl PluginLoader {
    /// Whether the plugin's library may have changed (see `file_changed_spec`).
    pub fn file_changed(old_config: &PluginOrderedConfig, new_config: &PluginOrderedConfig) -> (b: bool)
        ensures
            b == file_changed_spec(*old_config, *new_config),
    {
        match (&old_config.file_hash, &new_config.file_hash) {
            (Some(a), Some(b)) => !(*a == *b),
            _ => true,
        }
    }
}

/// Position of the last plugin named `name`.
fn last_plugin_named<P>(ps: &[Plugin<P>], name: &String) -> (r: Option<usize>)
    ensures
        r matches Some(i) ==> is_last_named(plugins_view(ps@), name@, i as int),
        r is None ==> forall|j: int| 0 <= j < ps@.len() ==> (#[trigger] plugins_view(ps@)[j]).config.name@ != name@,
{
    let mut found: Option<usize> = None;
    let mut i: usize = 0;
    while i < ps.len()
        invariant
            i <= ps@.len(),
            found matches Some(k) ==> k < i && plugins_view(ps@)[k as int].config.name@ == name@
                && forall|j: int| k < j < i ==> (#[trigger] plugins_view(ps@)[j]).config.name@ != name@,
            found is None ==> forall|j: int| 0 <= j < i ==> (#[trigger] plugins_view(ps@)[j]).config.name@ != name@,
        decreases ps@.len() - i,
    {
        if ps[i].config.name == *name {
            found = Some(i);
        }
        i = i + 1;
    }
    found
}

/// Whether some configuration is named `name`.
fn is_configured(cfgs: &[PluginOrderedConfig], name: &String) -> (b: bool)
    ensures
        b == configured(cfgs@, name@),
{
    let mut i: usize = 0;
    while i < cfgs.len()
        invariant
            i <= cfgs@.len(),
            forall|j: int| 0 <= j < i ==> (#[trigger] cfgs@[j]).name@ != name@,
        decreases cfgs@.len() - i,
    {
        if cfgs[i].name == *name {
            return true;
        }
        i = i + 1;
    }
    false
}

/// The change that `cfg` asks of `current` (see `change_for`).
fn change_for_config<P>(current: &[Plugin<P>], cfg: &PluginOrderedConfig) -> (r: Option<PluginConfigChange>)
    ensures
        r matches Some(c) ==> change_for(plugins_view(current@), *cfg) == Some(change_view(c)),
        r is None ==> change_for(plugins_view(current@), *cfg) is None,
{
    let ghost cv = plugins_view(current@);
    match last_plugin_named(current, &cfg.name) {
        Some(i) => {
            proof {
                lemma_last_named_unique(cv, cfg.name@, i as int);
            }
            let cur = &current[i];
            assert(cv[i as int].config == cur.config);
            if !cfg.enable {
                Some(PluginConfigChange::Disable(cfg.name.clone()))
            } else if cfg.reload {
                Some(PluginConfigChange::Reload(cfg.clone()))
            } else if !(cur.config.path == cfg.path) || cur.config.order != cfg.order {
                Some(PluginConfigChange::Reload(cfg.clone()))
            } else if PluginLoader::file_changed(&cur.config, cfg) {
                Some(PluginConfigChange::Reload(cfg.clone()))
            } else {
                let enabled = match &cur.status {
                    PluginStatus::Enable(_) => true,
                    _ => false,
                };
                assert(enabled == cv[i as int].status is Enable);
                if !enabled {
                    Some(PluginConfigChange::Enable(cfg.clone()))
                } else {
                    Some(PluginConfigChange::NoChange(cfg.name.clone()))
                }
            }
        },
        None => {
            assert(!exists|i: int| is_last_named(cv, cfg.name@, i));
            if cfg.enable {
                Some(PluginConfigChange::Add(cfg.clone()))
            } else {
                None
            }
        },
    }
}

/// Re-enabling a plugin: for an enabled configuration that asks for no reload and names a
/// loaded plugin (the last of its name) with the same path, order and known signature, the
/// change is `Enable` of the configuration when that plugin is not enabled, and `NoChange`
/// when it already is.
pub proof fn lemma_enable_when_not_enabled<P>(current: Seq<PluginView<P>>, cfg: PluginOrderedConfig, i: int)
    requires
        is_last_named(current, cfg.name@, i),
        cfg.enable,
        !cfg.reload,
        current[i].config.path@ == cfg.path@,
        current[i].config.order == cfg.order,
        current[i].config.file_hash is Some,
        cfg.file_hash is Some,
        current[i].config.file_hash->Some_0@ == cfg.file_hash->Some_0@,
    ensures
        !(current[i].status is Enable) ==> change_for(current, cfg) == Some(ChangeView::Enable(cfg)),
        current[i].status is Enable ==> change_for(current, cfg) == Some(ChangeView::NoChange(cfg.name@)),
{
    lemma_last_named_unique(current, cfg.name@, i);
}

/// A configuration is answered with `NoChange` only when it is enabled, asks for no reload,
/// and the last loaded plugin of its name is enabled, with the same path, order and known
/// signature.
pub proof fn lemma_no_change_only_when_enabled<P>(current: Seq<PluginView<P>>, cfg: PluginOrderedConfig)
    requires
        change_for(current, cfg) matches Some(ChangeView::NoChange(_)),
    ensures
        exists|i: int| #[trigger] is_last_named(current, cfg.name@, i) && current[i].status is Enable
            && cfg.enable && !cfg.reload && current[i].config.path@ == cfg.path@
            && current[i].config.order == cfg.order && !file_changed_spec(current[i].config, cfg),
{
    let i = choose|i: int| is_last_named(current, cfg.name@, i);
    assert(is_last_named(current, cfg.name@, i));
}

/// A configuration that names no loaded plugin adds it when it is enabled and asks for nothing
/// otherwise; one that names a loaded plugin but is not enabled disables it.
pub proof fn lemma_add_or_disable<P>(current: Seq<PluginView<P>>, cfg: PluginOrderedConfig)
    ensures
        (forall|j: int| 0 <= j < current.len() ==> (#[trigger] current[j]).config.name@ != cfg.name@) ==> change_for(
            current,
            cfg,
        ) == (if cfg.enable { Some(ChangeView::Add(cfg)) } else { None }),
        (exists|j: int| 0 <= j < current.len() && (#[trigger] current[j]).config.name@ == cfg.name@) && !cfg.enable
            ==> change_for(current, cfg) == Some(ChangeView::Disable(cfg.name@)),
{
    if exists|j: int| 0 <= j < current.len() && (#[trigger] current[j]).config.name@ == cfg.name@ {
        lemma_some_last_named(current, cfg.name@);
    } else {
        if exists|i: int| is_last_named(current, cfg.name@, i) {
            let i = choose|i: int| is_last_named(current, cfg.name@, i);
            assert(current[i].config.name@ == cfg.name@);
        }
    }
}

/// An enabled configuration that names a loaded plugin is reloaded when it asks for it, or
/// when the path, the order or the library's signature differ from those of the last loaded
/// plugin of its name (an unknown signature counts as different).
pub proof fn lemma_reload_when_changed<P>(current: Seq<PluginView<P>>, cfg: PluginOrderedConfig, i: int)
    requires
        is_last_named(current, cfg.name@, i),
        cfg.enable,
        cfg.reload || current[i].config.path@ != cfg.path@ || current[i].config.order != cfg.order
            || current[i].config.file_hash is None || cfg.file_hash is None
            || current[i].config.file_hash->Some_0@ != cfg.file_hash->Some_0@,
    ensures
        change_for(current, cfg) == Some(ChangeView::Reload(cfg)),
{
    lemma_last_named_unique(current, cfg.name@, i);
}

/// When some plugin is named `name`, one of them is the last one so named.
proof fn lemma_some_last_named<P>(ps: Seq<PluginView<P>>, name: Seq<char>)
    requires
        exists|j: int| 0 <= j < ps.len() && (#[trigger] ps[j]).config.name@ == name,
    ensures
        exists|i: int| is_last_named(ps, name, i),
    decreases ps.len(),
{
    if ps.last().config.name@ == name {
        assert(is_last_named(ps, name, ps.len() - 1));
    } else {
        let j = choose|j: int| 0 <= j < ps.len() && (#[trigger] ps[j]).config.name@ == name;
        let q = ps.drop_last();
        assert(q[j].config.name@ == name);
        lemma_some_last_named(q, name);
        let i = choose|i: int| is_last_named(q, name, i);
        assert forall|k: int| i < k < ps.len() implies (#[trigger] ps[k]).config.name@ != name by {
            if k < q.len() {
                assert(q[k] == ps[k]);
            }
        }
        assert(is_last_named(ps, name, i));
    }
}

/// Disabling: processing `Disable(name)` when the first plugin named `name` is enabled leaves
/// it disabled with the same plugin and configuration; every other plugin stays as it was,
/// and nothing stops the processing.
pub proof fn lemma_disable_disables<P>(ps: Seq<PluginView<P>>, name: Seq<char>, i: int, loaded: Option<Result<P, PluginLoadError>>)
    requires
        is_first_named(ps, name, i),
        ps[i].status is Enable,
    ensures
        change_step(ps, ChangeView::Disable(name), loaded).1 is None,
        change_step(ps, ChangeView::Disable(name), loaded).0.len() == ps.len(),
        change_step(ps, ChangeView::Disable(name), loaded).0[i] == (PluginView {
            status: StatusView::Disable(ps[i].status->Enable_0),
            config: ps[i].config,
        }),
        forall|j: int| 0 <= j < ps.len() && j != i ==> #[trigger] change_step(ps, ChangeView::Disable(name), loaded).0[j] == ps[j],
{
    lemma_first_named_unique(ps, name, i);
}

/// Enabling: processing `Enable(cfg)` when the first plugin of its name is disabled makes it
/// enabled with the same plugin under the new configuration; every other plugin stays as it
/// was, and nothing stops the processing.
pub proof fn lemma_enable_enables<P>(ps: Seq<PluginView<P>>, cfg: PluginOrderedConfig, i: int, loaded: Option<Result<P, PluginLoadError>>)
    requires
        is_first_named(ps, cfg.name@, i),
        ps[i].status is Disable,
    ensures
        change_step(ps, ChangeView::Enable(cfg), loaded).1 is None,
        change_step(ps, ChangeView::Enable(cfg), loaded).0.len() == ps.len(),
        change_step(ps, ChangeView::Enable(cfg), loaded).0[i] == (PluginView {
            status: StatusView::Enable(ps[i].status->Disable_0),
            config: cfg,
        }),
        forall|j: int| 0 <= j < ps.len() && j != i ==> #[trigger] change_step(ps, ChangeView::Enable(cfg), loaded).0[j] == ps[j],
{
    lemma_first_named_unique(ps, cfg.name@, i);
}

/// Adding, reloading and removing. `Add(cfg)` appends the plugin under `cfg`, enabled with
/// the loaded library or recorded as failed; `Reload(cfg)` first takes out the first plugin of
/// its name, then appends the same; `Remove(name)` takes out the first plugin named `name`
/// and keeps the others in order. Only a failed load of a system plugin stops the processing.
pub proof fn lemma_add_reload_remove<P>(ps: Seq<PluginView<P>>, cfg: PluginOrderedConfig, name: Seq<char>, i: int, o: Result<P, PluginLoadError>)
    requires
        is_first_named(ps, name, i),
    ensures
        ({
            let r = change_step(ps, ChangeView::Add(cfg), Some(o));
            &&& r.0.len() == ps.len() + 1
            &&& r.0.take(ps.len() as int) == ps
            &&& r.0.last().config == cfg
            &&& (o is Ok <==> r.0.last().status is Enable)
            &&& (o matches Ok(p) ==> r.0.last().status == StatusView::Enable(p))
            &&& (r.1 is Some <==> o is Err && cfg.system)
        }),
        ({
            let r = change_step(ps, ChangeView::Remove(name), None);
            &&& r.1 is None
            &&& r.0.len() == ps.len() - 1
            &&& forall|j: int| 0 <= j < i ==> #[trigger] r.0[j] == ps[j]
            &&& forall|j: int| i <= j < r.0.len() ==> #[trigger] r.0[j] == ps[j + 1]
        }),
        cfg.name@ == name ==> ({
            let r = change_step(ps, ChangeView::Reload(cfg), Some(o));
            &&& r.0.len() == ps.len()
            &&& r.0.drop_last() == ps.remove(i)
            &&& r.0.last().config == cfg
            &&& (o matches Ok(p) ==> r.0.last().status == StatusView::Enable(p))
            &&& (r.1 is Some <==> o is Err && cfg.system)
        }),
{
    lemma_first_named_unique(ps, name, i);
    let r = change_step(ps, ChangeView::Add(cfg), Some(o));
    assert(r.0.take(ps.len() as int) =~= ps);
    if cfg.name@ == name {
        let q = change_step(ps, ChangeView::Reload(cfg), Some(o));
        assert(q.0.drop_last() =~= ps.remove(i));
    }
}

/// The removals a new configuration asks for are exactly those of the loaded plugins that no
/// configuration names: each removal names such a plugin, and each such plugin is named by a
/// removal.
pub proof fn lemma_removals_are_unconfigured<P>(ps: Seq<PluginView<P>>, cfgs: Seq<PluginOrderedConfig>)
    ensures
        forall|k: int| 0 <= k < removals(ps, cfgs).len() ==> (#[trigger] removals(ps, cfgs)[k]) is Remove
            && !configured(cfgs, removals(ps, cfgs)[k]->Remove_0)
            && exists|j: int| 0 <= j < ps.len() && (#[trigger] ps[j]).config.name@ == removals(ps, cfgs)[k]->Remove_0,
        forall|j: int| 0 <= j < ps.len() && !configured(cfgs, (#[trigger] ps[j]).config.name@) ==> exists|k: int|
            0 <= k < removals(ps, cfgs).len() && #[trigger] removals(ps, cfgs)[k] == ChangeView::Remove(ps[j].config.name@),
    decreases ps.len(),
{
    if ps.len() > 0 {
        let q = ps.drop_last();
        lemma_removals_are_unconfigured(q, cfgs);
        let rq = removals(q, cfgs);
        let r = removals(ps, cfgs);
        assert forall|k: int| 0 <= k < r.len() implies (#[trigger] r[k]) is Remove
            && !configured(cfgs, r[k]->Remove_0)
            && exists|j: int| 0 <= j < ps.len() && (#[trigger] ps[j]).config.name@ == r[k]->Remove_0 by {
            if k < rq.len() {
                assert(r[k] == rq[k]);
                let n = rq[k]->Remove_0;
                let j = choose|j: int| 0 <= j < q.len() && (#[trigger] q[j]).config.name@ == n;
                assert(ps[j] == q[j]);
            } else {
                assert(ps[ps.len() - 1].config.name@ == ps.last().config.name@);
            }
        }
        assert forall|j: int| 0 <= j < ps.len() && !configured(cfgs, (#[trigger] ps[j]).config.name@) implies exists|k: int|
            0 <= k < r.len() && #[trigger] r[k] == ChangeView::Remove(ps[j].config.name@) by {
            if j < q.len() {
                assert(q[j] == ps[j]);
                let k = choose|k: int| 0 <= k < rq.len() && #[trigger] rq[k] == ChangeView::Remove(q[j].config.name@);
                assert(r[k] == rq[k]);
            } else {
                assert(r[rq.len() as int] == ChangeView::Remove(ps[j].config.name@));
            }
        }
    }
}

impl PluginLoader {
    /// The changes that the configurations `new_configs` ask of the plugins `current_plugins`:
    /// one change per configuration, compared with the last plugin of the same name (see
    /// `change_for`), then one removal per plugin that no configuration names.
    pub fn analyze_config_changes<P>(current_plugins: &[Plugin<P>], new_configs: &[PluginOrderedConfig]) -> (r: Vec<PluginConfigChange>)
        ensures
            changes_view(r@) == config_changes(plugins_view(current_plugins@), new_configs@) + removals(
                plugins_view(current_plugins@),
                new_configs@,
            ),
    {
        let ghost cv = plugins_view(current_plugins@);
        let mut changes: Vec<PluginConfigChange> = Vec::new();
        let mut i: usize = 0;
        while i < new_configs.len()
            invariant
                i <= new_configs@.len(),
                cv == plugins_view(current_plugins@),
                changes_view(changes@) == config_changes(cv, new_configs@.take(i as int)),
            decreases new_configs@.len() - i,
        {
            let ghost before = changes@;
            assert(new_configs@.take(i + 1).drop_last() == new_configs@.take(i as int));
            assert(new_configs@.take(i + 1).last() == new_configs@[i as int]);
            match change_for_config(current_plugins, &new_configs[i]) {
                Some(c) => {
                    changes.push(c);
                    assert(changes_view(changes@) =~= changes_view(before).push(change_view(c)));
                },
                None => {},
            }
            i = i + 1;
        }
        assert(new_configs@.take(new_configs@.len() as int) == new_configs@);
        let ghost first_part = changes_view(changes@);
        let mut k: usize = 0;
        while k < current_plugins.len()
            invariant
                k <= current_plugins@.len(),
                cv == plugins_view(current_plugins@),
                changes_view(changes@) == first_part + removals(cv.take(k as int), new_configs@),
            decreases current_plugins@.len() - k,
        {
            let ghost before = changes@;
            assert(cv.take(k + 1).drop_last() == cv.take(k as int));
            assert(cv.take(k + 1).last() == cv[k as int]);
            let name = &current_plugins[k].config.name;
            if !is_configured(new_configs, name) {
                changes.push(PluginConfigChange::Remove(name.clone()));
                assert(changes_view(changes@) =~= changes_view(before).push(
                    ChangeView::Remove(cv[k as int].config.name@),
                ));
            }
            k = k + 1;
        }
        assert(cv.take(cv.len() as int) == cv);
        changes
    }
}

/// Whether processing `change` loads a library.
pub open spec fn change_needs_load(change: ChangeView) -> bool {
    change is Add || change is Reload
}

/// The configuration a change loads, when it loads one.
pub open spec fn change_config(change: ChangeView) -> PluginOrderedConfig {
    match change {
        ChangeView::Add(cfg) => cfg,
        ChangeView::Reload(cfg) => cfg,
        ChangeView::Enable(cfg) => cfg,
        _ => arbitrary(),
    }
}

/// `ps` without its first plugin named `name`, if there is one.
pub open spec fn without_first_named<P>(ps: Seq<PluginView<P>>, name: Seq<char>) -> Seq<PluginView<P>> {
    match first_named(ps, name) {
        Some(i) => ps.remove(i),
        None => ps,
    }
}

/// The plugins after processing one change, and the error that stops the processing, if any.
/// A library that failed to load is recorded as failed; the failure stops the processing when
/// the plugin is a system plugin.
pub open spec fn change_step<P>(
    ps: Seq<PluginView<P>>,
    change: ChangeView,
    loaded: Option<Result<P, PluginLoadError>>,
) -> (Seq<PluginView<P>>, Option<PluginLoadError>) {
    match change {
        ChangeView::Add(cfg) => (
            ps.push(loaded_plugin(cfg, loaded.unwrap())),
            match loaded.unwrap() {
                Err(e) => if cfg.system { Some(e) } else { None },
                Ok(_) => None,
            },
        ),
        ChangeView::Reload(cfg) => (
            without_first_named(ps, cfg.name@).push(loaded_plugin(cfg, loaded.unwrap())),
            match loaded.unwrap() {
                Err(e) => if cfg.system { Some(e) } else { None },
                Ok(_) => None,
            },
        ),
        ChangeView::Remove(name) => (without_first_named(ps, name), None),
        ChangeView::Disable(name) => (
            match first_named(ps, name) {
                Some(i) => match ps[i].status {
                    StatusView::Enable(p) => ps.update(i, PluginView { status: StatusView::Disable(p), config: ps[i].config }),
                    _ => ps.update(i, PluginView { status: StatusView::Unloaded, config: ps[i].config }),
                },
                None => ps,
            },
            None,
        ),
        ChangeView::Enable(cfg) => (
            match first_named(ps, cfg.name@) {
                Some(i) => match ps[i].status {
                    StatusView::Disable(p) => ps.update(i, PluginView { status: StatusView::Enable(p), config: cfg }),
                    _ => ps.update(i, PluginView { status: StatusView::Unloaded, config: ps[i].config }),
                },
                None => ps,
            },
            None,
        ),
        ChangeView::NoChange(_) => (ps, None),
    }
}

/// The plugins after processing `changes` in turn, the `i`-th load having outcome `outs[i]`,
/// and the error that stopped the processing, if any.
pub open spec fn change_fold<P>(
    ps: Seq<PluginView<P>>,
    changes: Seq<ChangeView>,
    outs: Seq<Option<Result<P, PluginLoadError>>>,
) -> (Seq<PluginView<P>>, Option<PluginLoadError>)
    decreases changes.len(),
{
    if changes.len() == 0 {
        (ps, None)
    } else {
        let prev = change_fold(ps, changes.drop_last(), outs.drop_last());
        if prev.1 is Some {
            prev
        } else {
            change_step(prev.0, changes.last(), outs.last())
        }
    }
}

/// `outs` are outcomes that `loader` may give while `changes` are processed: there is an
/// outcome exactly where a change that loads is processed, and it is one the loader can
/// return for that plugin's path.
pub open spec fn change_outcomes_fit<P, F: Fn(&str) -> Result<P, PluginLoadError>>(
    ps: Seq<PluginView<P>>,
    changes: Seq<ChangeView>,
    outs: Seq<Option<Result<P, PluginLoadError>>>,
    loader: F,
) -> bool {
    &&& outs.len() == changes.len()
    &&& forall|i: int|
        0 <= i < changes.len() ==> ((#[trigger] outs[i]) is Some <==> (change_needs_load(changes[i])
            && change_fold(ps, changes.take(i), outs.take(i)).1 is None))
    &&& forall|i: int|
        0 <= i < changes.len() ==> (#[trigger] outs[i] matches Some(o) ==> exists|path: &str|
            path@ == change_config(changes[i]).path@ && loader.ensures((path,), o))
}

/// `std::mem::forget`: the plugin is dropped without running its destructor, so that its
/// library stays mapped.
#[verifier::external_body]
fn forget_plugin<P>(plugin: Plugin<P>) {
    std::mem::forget(plugin)
}

proof fn lemma_change_fold_push<P>(
    start: Seq<PluginView<P>>,
    changes: Seq<ChangeView>,
    outs: Seq<Option<Result<P, PluginLoadError>>>,
    x: Option<Result<P, PluginLoadError>>,
    i: int,
)
    requires
        0 <= i < changes.len(),
        outs.len() == i,
        change_fold(start, changes.take(i), outs).1 is None,
    ensures
        change_fold(start, changes.take(i + 1), outs.push(x)) == change_step(
            change_fold(start, changes.take(i), outs).0,
            changes[i],
            x,
        ),
        outs.push(x).take(i) == outs,
{
    assert(changes.take(i + 1).drop_last() == changes.take(i));
    assert(outs.push(x).drop_last() == outs);
    assert(outs.push(x).take(i) == outs);
    assert(changes.take(i + 1).last() == changes[i]);
}

/// Removes the first plugin named `name`, if there is one, and hands it back.
fn take_first_named<P>(plugins: &mut Vec<Plugin<P>>, name: &String) -> (r: Option<Plugin<P>>)
    ensures
        plugins_view(final(plugins)@) == without_first_named(plugins_view(old(plugins)@), name@),
{
    let ghost before = plugins_view(plugins@);
    match find_plugin(plugins, name) {
        Some(i) => {
            proof {
                lemma_first_named_unique(before, name@, i as int);
            }
            let p = plugins.remove(i);
            assert(plugins_view(plugins@) =~= before.remove(i as int));
            Some(p)
        },
        None => {
            proof {
                lemma_first_named_none(before, name@);
            }
            None
        },
    }
}

/// Processes one change (see `change_step`); the ghost value is the outcome of the load, when
/// the change loads a library.
fn apply_change<P, F: Fn(&str) -> Result<P, PluginLoadError>>(
    manager: &mut PluginManager<P>,
    change: PluginConfigChange,
    loader: &F,
) -> (r: (Option<PluginLoadError>, Ghost<Option<Result<P, PluginLoadError>>>))
    requires
        forall|s: &str| loader.requires((s,)),
    ensures
        change_step(old(manager)@, change_view(change), r.1@) == (final(manager)@, r.0),
        r.1@ is Some <==> change_needs_load(change_view(change)),
        r.1@ matches Some(o) ==> exists|path: &str|
            path@ == change_config(change_view(change)).path@ && loader.ensures((path,), o),
{
    let ghost cv = change_view(change);
    let ghost before = manager@;
    match change {
        PluginConfigChange::Add(config) => {
            let res = loader(config.path.as_str());
            let ghost g = res;
            let plugins = manager.get_plugins();
            let ghost c = config;
            let failure = push_loaded(plugins, config, res);
            assert(plugins_view(plugins@) =~= before.push(loaded_plugin(c, g)));
            (failure, Ghost(Some(g)))
        },
        PluginConfigChange::Reload(config) => {
            let plugins = manager.get_plugins();
            let old_plugin = take_first_named(plugins, &config.name);
            let ghost mid = plugins_view(plugins@);
            let res = loader(config.path.as_str());
            let ghost g = res;
            let ghost c = config;
            let failure = push_loaded(plugins, config, res);
            assert(plugins_view(plugins@) =~= mid.push(loaded_plugin(c, g)));
            (failure, Ghost(Some(g)))
        },
        PluginConfigChange::Remove(name) => {
            let plugins = manager.get_plugins();
            match take_first_named(plugins, &name) {
                Some(p) => forget_plugin(p),
                None => {},
            }
            (None, Ghost(None))
        },
        PluginConfigChange::Disable(name) => {
            let plugins = manager.get_plugins();
            match find_plugin(plugins, &name) {
                Some(i) => {
                    proof {
                        lemma_first_named_unique(before, name@, i as int);
                    }
                    let old_plugin = plugins.remove(i);
                    let Plugin { status, config } = old_plugin;
                    let np = match status {
                        PluginStatus::Enable(x) => Plugin { status: PluginStatus::Disable(x), config },
                        _ => Plugin { status: PluginStatus::Unloaded, config },
                    };
                    plugins.insert(i, np);
                    assert(plugins_view(plugins@) =~= change_step(before, cv, None).0);
                },
                None => {
                    proof {
                        lemma_first_named_none(before, name@);
                    }
                },
            }
            (None, Ghost(None))
        },
        PluginConfigChange::Enable(config) => {
            let plugins = manager.get_plugins();
            match find_plugin(plugins, &config.name) {
                Some(i) => {
                    proof {
                        lemma_first_named_unique(before, config.name@, i as int);
                    }
                    let old_plugin = plugins.remove(i);
                    let Plugin { status, config: old_config } = old_plugin;
                    let ghost c = config;
                    let np = match status {
                        PluginStatus::Disable(x) => Plugin { status: PluginStatus::Enable(x), config },
                        _ => Plugin { status: PluginStatus::Unloaded, config: old_config },
                    };
                    plugins.insert(i, np);
                    assert(plugins_view(plugins@) =~= change_step(before, cv, None).0);
                },
                None => {
                    proof {
                        lemma_first_named_none(before, config.name@);
                    }
                },
            }
            (None, Ghost(None))
        },
        PluginConfigChange::NoChange(_) => (None, Ghost(None)),
    }
}

/// Appends the plugin made from a configuration and the outcome of loading its library;
/// returns the load error when a system plugin failed to load.
fn push_loaded<P>(plugins: &mut Vec<Plugin<P>>, config: PluginOrderedConfig, loaded: Result<P, PluginLoadError>) -> (r: Option<PluginLoadError>)
    ensures
        plugins_view(final(plugins)@) == plugins_view(old(plugins)@).push(loaded_plugin(config, loaded)),
        r == (match loaded {
            Err(e) => if config.system { Some(e) } else { None },
            Ok(_) => None,
        }),
{
    let ghost before = plugins@;
    match loaded {
        Ok(p) => {
            plugins.push(Plugin { status: PluginStatus::Enable(p), config });
            assert(plugins_view(plugins@) =~= plugins_view(before).push(loaded_plugin(config, loaded)));
            None
        },
        Err(e) => {
            let library_name = config.path.clone();
            let error = e.message();
            let system = config.system;
            let ghost c = config;
            plugins.push(Plugin { status: PluginStatus::LoadingFailed { library_name, error }, config });
            assert(plugins_view(plugins@) =~= plugins_view(before).push(loaded_plugin(c, loaded)));
            if system {
                Some(e)
            } else {
                None
            }
        },
    }
}
/// The changes in reverse order, so that popping yields them in their original order.
fn reversed(v: Vec<PluginConfigChange>) -> (r: Vec<PluginConfigChange>)
    ensures
        r@.len() == v@.len(),
        forall|j: int| 0 <= j < r@.len() ==> #[trigger] r@[j] == v@[v@.len() - 1 - j],
{
    let mut v = v;
    let ghost orig = v@;
    let mut r: Vec<PluginConfigChange> = Vec::new();
    while v.len() > 0
        invariant
            v@ == orig.take(v@.len() as int),
            r@.len() + v@.len() == orig.len(),
            forall|j: int| 0 <= j < r@.len() ==> #[trigger] r@[j] == orig[orig.len() - 1 - j],
        decreases v@.len(),
    {
        let x = v.pop().unwrap();
        r.push(x);
        assert(v@ == orig.take(v@.len() as int));
    }
    r
}

/// Once a system plugin failed to load, the remaining changes are not processed.
proof fn lemma_change_fold_stopped<P>(
    start: Seq<PluginView<P>>,
    cs: Seq<ChangeView>,
    outs: Seq<Option<Result<P, PluginLoadError>>>,
    m: int,
)
    requires
        0 <= m <= cs.len(),
        outs.len() == cs.len(),
        change_fold(start, cs.take(m), outs.take(m)).1 is Some,
    ensures
        forall|k: int|
            m <= k <= cs.len() ==> #[trigger] change_fold(start, cs.take(k), outs.take(k)) == change_fold(
                start,
                cs.take(m),
                outs.take(m),
            ),
    decreases cs.len() - m,
{
    if m < cs.len() {
        assert(cs.take(m + 1).drop_last() == cs.take(m));
        assert(outs.take(m + 1).drop_last() == outs.take(m));
        assert(change_fold(start, cs.take(m + 1), outs.take(m + 1)) == change_fold(start, cs.take(m), outs.take(m)));
        lemma_change_fold_stopped(start, cs, outs, m + 1);
    }
}

/// When processing stops after the changes of `outs`, the outcomes extended with none for the
/// unprocessed changes fit, and the whole processing ends where it stopped.
proof fn lemma_stop_outcomes<P, F: Fn(&str) -> Result<P, PluginLoadError>>(
    start: Seq<PluginView<P>>,
    cs: Seq<ChangeView>,
    outs: Seq<Option<Result<P, PluginLoadError>>>,
    loader: F,
) -> (full: Seq<Option<Result<P, PluginLoadError>>>)
    requires
        0 < outs.len() <= cs.len(),
        forall|k: int|
            0 <= k < outs.len() ==> ((#[trigger] outs[k]) is Some <==> (change_needs_load(cs[k])
                && change_fold(start, cs.take(k), outs.take(k)).1 is None)),
        forall|k: int|
            0 <= k < outs.len() ==> (#[trigger] outs[k] matches Some(o) ==> exists|path: &str|
                path@ == change_config(cs[k]).path@ && loader.ensures((path,), o)),
        change_fold(start, cs.take(outs.len() as int), outs).1 is Some,
    ensures
        change_outcomes_fit(start, cs, full, loader),
        change_fold(start, cs, full) == change_fold(start, cs.take(outs.len() as int), outs),
{
    let m = outs.len() as int;
    let n = cs.len() as int;
    let full = outs + Seq::new((n - m) as nat, |j: int| None::<Result<P, PluginLoadError>>);
    assert(full.take(m) == outs);
    lemma_change_fold_stopped(start, cs, full, m);
    assert(cs.take(n) == cs);
    assert(full.take(n) == full);
    assert forall|k: int| 0 <= k < n implies ((#[trigger] full[k]) is Some <==> (change_needs_load(cs[k])
        && change_fold(start, cs.take(k), full.take(k)).1 is None)) by {
        if k < m {
            assert(full[k] == outs[k]);
            assert(full.take(k) == outs.take(k));
        } else {
            assert(full[k] is None);
        }
    }
    assert forall|k: int| 0 <= k < n implies (#[trigger] full[k] matches Some(o) ==> exists|path: &str|
        path@ == change_config(cs[k]).path@ && loader.ensures((path,), o)) by {
        if k < m {
            assert(full[k] == outs[k]);
        }
    }
    full
}

impl PluginLoader {
    /// Processes the changes in turn (see `change_step`), loading libraries with `loader`.
    /// Processing stops at the first system plugin whose library fails to load, and that
    /// error is returned; otherwise the plugins are then sorted by their configurations'
    /// `order` keys (a stable sort).
    pub fn apply_config_changes<P, F: Fn(&str) -> Result<P, PluginLoadError>>(
        plugin_manager: &mut PluginManager<P>,
        changes: Vec<PluginConfigChange>,
        loader: F,
    ) -> (r: Result<(), PluginLoadError>)
        requires
            forall|s: &str| loader.requires((s,)),
        ensures
            exists|outs: Seq<Option<Result<P, PluginLoadError>>>|
                change_outcomes_fit(old(plugin_manager)@, changes_view(changes@), outs, loader) && (match r {
                    Ok(_) => change_fold(old(plugin_manager)@, changes_view(changes@), outs).1 is None
                        && final(plugin_manager)@ == stable_sort_by(
                        change_fold(old(plugin_manager)@, changes_view(changes@), outs).0,
                        view_order_key::<P>(),
                    ),
                    Err(e) => change_fold(old(plugin_manager)@, changes_view(changes@), outs).1 == Some(e)
                        && final(plugin_manager)@ == change_fold(old(plugin_manager)@, changes_view(changes@), outs).0,
                }),
    {
        let ghost start = plugin_manager@;
        let ghost cs = changes_view(changes@);
        let ghost mut outs: Seq<Option<Result<P, PluginLoadError>>> = Seq::empty();
        let n = changes.len();
        let mut pending = reversed(changes);
        let mut i: usize = 0;
        while i < n
            invariant
                n == cs.len(),
                cs == changes_view(changes@),
                start == old(plugin_manager)@,
                i <= n,
                pending@.len() == n - i,
                forall|j: int| 0 <= j < pending@.len() ==> change_view(#[trigger] pending@[j]) == cs[n - 1 - j],
                outs.len() == i,
                forall|s: &str| loader.requires((s,)),
                forall|k: int|
                    0 <= k < i ==> ((#[trigger] outs[k]) is Some <==> (change_needs_load(cs[k])
                        && change_fold(start, cs.take(k), outs.take(k)).1 is None)),
                forall|k: int|
                    0 <= k < i ==> (#[trigger] outs[k] matches Some(o) ==> exists|path: &str|
                        path@ == change_config(cs[k]).path@ && loader.ensures((path,), o)),
                change_fold(start, cs.take(i as int), outs).1 is None,
                plugin_manager@ == change_fold(start, cs.take(i as int), outs).0,
            decreases n - i,
        {
            let change = pending.pop().unwrap();
            assert(change_view(change) == cs[i as int]);
            let ghost before = plugin_manager@;
            let (failure, Ghost(loaded)) = apply_change(plugin_manager, change, &loader);
            let ghost old_outs = outs;
            proof {
                lemma_change_fold_push(start, cs, old_outs, loaded, i as int);
                outs = outs.push(loaded);
            }
            assert forall|k: int| 0 <= k < i + 1 implies ((#[trigger] outs[k]) is Some <==> (change_needs_load(cs[k])
                && change_fold(start, cs.take(k), outs.take(k)).1 is None)) by {
                if k < i {
                    assert(outs.take(k) == old_outs.take(k));
                }
            }
            assert forall|k: int| 0 <= k < i + 1 implies (#[trigger] outs[k] matches Some(o) ==> exists|path: &str|
                path@ == change_config(cs[k]).path@ && loader.ensures((path,), o)) by {
                if k < i {
                    assert(outs[k] == old_outs[k]);
                }
            }
            match failure {
                Some(e) => {
                    let ghost full = lemma_stop_outcomes(start, cs, outs, loader);
                    assert(change_fold(start, cs.take(i + 1), outs) == (plugin_manager@, Some(e)));
                    assert(change_outcomes_fit(start, cs, full, loader));
                    assert(change_fold(start, cs, full).1 == Some(e));
                    assert(plugin_manager@ == change_fold(start, cs, full).0);
                    assert(cs == changes_view(changes@));
                    assert(start == old(plugin_manager)@);
                    return Err(e);
                },
                None => {},
            }
            i = i + 1;
        }
        assert(cs.take(n as int) == cs);
        let ghost before_sort = plugin_manager@;
        let plugins = plugin_manager.get_plugins();
        let ghost raw = plugins@;
        sort_plugins_by_order(plugins);
        proof {
            lemma_sort_map(raw);
        }
        assert(change_outcomes_fit(start, cs, outs, loader));
        Ok(())
    }
}

/// One section of the `plugins` table of the configuration file, read as plain values.
#[derive(Debug)]
pub struct PluginSection {
    /// The section's key: the plugin's name.
    pub name: String,
    /// Whether the section is a table; sections of any other kind are skipped.
    pub is_table: bool,
    pub enable: Option<bool>,
    /// The `path` field, when it is a string.
    pub path: Option<String>,
    pub order: Option<i64>,
    pub reload: Option<bool>,
    pub system: Option<bool>,
    pub required: Option<bool>,
    /// The `depend` field, when it is an array: each element, when it is a string.
    pub depend: Option<Vec<Option<String>>>,
}

/// Whether `name` is one of the plugins that must be configured and enabled: `poll` and
/// `logger`.
pub open spec fn is_required(name: Seq<char>) -> bool {
    name == "poll"@ || name == "logger"@
}

/// The configuration read from a table section whose order is `order`; the signature of the
/// library is filled in by the caller, who reads the file.
pub open spec fn section_config(s: PluginSection, order: i64) -> PluginOrderedConfig {
    PluginOrderedConfig {
        enable: match s.enable { Some(b) => b, None => true },
        system: match s.system { Some(b) => b, None => false },
        order,
        reload: match s.reload { Some(b) => b, None => false },
        name: s.name,
        path: s.path.unwrap(),
        file_hash: None,
    }
}

/// The order of a table section: its own, or `next`, the order after the previous section's.
pub open spec fn section_order(s: PluginSection, next: int) -> int {
    match s.order {
        Some(o) => o as int,
        None => next,
    }
}

/// Position of the first table section without a valid path.
pub open spec fn first_missing_path(ss: Seq<PluginSection>) -> Option<int>
    decreases ss.len(),
{
    if ss.len() == 0 {
        None
    } else if ss[0].is_table && ss[0].path is None {
        Some(0)
    } else {
        match first_missing_path(ss.drop_first()) {
            Some(k) => Some(k + 1),
            None => None,
        }
    }
}

/// The orders given to the sections never overflow: each one is below `i64::MAX`, up to the
/// first table section without a path.
pub open spec fn orders_fit(ss: Seq<PluginSection>, next: int) -> bool
    decreases ss.len(),
{
    if ss.len() == 0 {
        true
    } else if !ss[0].is_table {
        orders_fit(ss.drop_first(), next)
    } else if ss[0].path is None {
        true
    } else {
        section_order(ss[0], next) < i64::MAX && orders_fit(ss.drop_first(), section_order(ss[0], next) + 1)
    }
}

/// The configurations read from the sections, the next default order being `next`.
pub open spec fn section_configs(ss: Seq<PluginSection>, next: int) -> Seq<PluginOrderedConfig>
    decreases ss.len(),
{
    if ss.len() == 0 {
        Seq::empty()
    } else if !ss[0].is_table {
        section_configs(ss.drop_first(), next)
    } else {
        let o = section_order(ss[0], next);
        seq![section_config(ss[0], o as i64)] + section_configs(ss.drop_first(), o + 1)
    }
}

/// Whether some enabled configuration is named `name`.
pub open spec fn enabled_named(cfgs: Seq<PluginOrderedConfig>, name: Seq<char>) -> bool {
    exists|j: int| 0 <= j < cfgs.len() && (#[trigger] cfgs[j]).name@ == name && cfgs[j].enable
}

/// The required plugins that no enabled configuration names: `poll`, then `logger`.
pub open spec fn missing_required(cfgs: Seq<PluginOrderedConfig>) -> Seq<Seq<char>> {
    (if enabled_named(cfgs, "poll"@) { Seq::empty() } else { seq!["poll"@] })
    + (if enabled_named(cfgs, "logger"@) { Seq::empty() } else { seq!["logger"@] })
}

/// A configuration with a required plugin enabled and marked as a system plugin.
pub open spec fn mark_one(c: PluginOrderedConfig) -> PluginOrderedConfig {
    if is_required(c.name@) {
        PluginOrderedConfig { enable: true, system: true, ..c }
    } else {
        c
    }
}

/// `cfgs` with every required plugin enabled and marked as a system plugin.
pub open spec fn mark_required(cfgs: Seq<PluginOrderedConfig>) -> Seq<PluginOrderedConfig> {
    cfgs.map_values(|c: PluginOrderedConfig| mark_one(c))
}

/// What reading the sections of the `plugins` table gives: the first table section without a
/// path is refused, then a configuration that leaves out a required plugin, and otherwise the
/// configurations in the order of the sections, the required plugins enabled and marked as
/// system plugins.
pub open spec fn ordered_config_outcome(ss: Seq<PluginSection>) -> Result<Seq<PluginOrderedConfig>, ConfigErrorView> {
    match first_missing_path(ss) {
        Some(k) => Err(ConfigErrorView::PluginParsing(ss[k].name@, "missing valid 'path'"@)),
        None => {
            let cfgs = section_configs(ss, 0);
            if missing_required(cfgs).len() > 0 {
                Err(ConfigErrorView::PluginMissing(missing_required(cfgs)))
            } else {
                Ok(mark_required(cfgs))
            }
        },
    }
}

/// Every configuration read successfully enables the plugins `poll` and `logger` and marks
/// them as system plugins, and keeps all other configurations as they were read.
pub proof fn lemma_required_plugins_enabled(ss: Seq<PluginSection>, cfgs: Seq<PluginOrderedConfig>)
    requires
        ordered_config_outcome(ss) == Ok::<Seq<PluginOrderedConfig>, ConfigErrorView>(cfgs),
    ensures
        forall|k: int| 0 <= k < cfgs.len() && is_required(#[trigger] cfgs[k].name@) ==> cfgs[k].enable && cfgs[k].system,
        forall|k: int| 0 <= k < cfgs.len() && !is_required(#[trigger] cfgs[k].name@) ==> cfgs[k] == section_configs(ss, 0)[k],
        enabled_named(cfgs, "poll"@),
        enabled_named(cfgs, "logger"@),
{
    let raw = section_configs(ss, 0);
    assert(missing_required(raw).len() == 0);
    assert(enabled_named(raw, "poll"@));
    assert(enabled_named(raw, "logger"@));
    let j = choose|j: int| 0 <= j < raw.len() && (#[trigger] raw[j]).name@ == "poll"@ && raw[j].enable;
    assert(cfgs[j] == mark_one(raw[j]));
    let l = choose|l: int| 0 <= l < raw.len() && (#[trigger] raw[l]).name@ == "logger"@ && raw[l].enable;
    assert(cfgs[l] == mark_one(raw[l]));
}

/// The table section that the `k`-th configuration read from `ss` comes from, and the order
/// it was given.
proof fn lemma_config_section(ss: Seq<PluginSection>, next: int, k: int) -> (r: (int, i64))
    requires
        0 <= k < section_configs(ss, next).len(),
    ensures
        0 <= r.0 < ss.len(),
        ss[r.0].is_table,
        first_missing_path(ss) is None ==> ss[r.0].path is Some,
        section_configs(ss, next)[k] == section_config(ss[r.0], r.1),
    decreases ss.len(),
{
    let rest = ss.drop_first();
    if !ss[0].is_table {
        assert(first_missing_path(ss) is None ==> first_missing_path(rest) is None);
        let (j, o) = lemma_config_section(rest, next, k);
        assert(rest[j] == ss[j + 1]);
        (j + 1, o)
    } else {
        let o = section_order(ss[0], next);
        if k == 0 {
            (0, o as i64)
        } else {
            assert(first_missing_path(ss) is None ==> first_missing_path(rest) is None);
            let (j, o2) = lemma_config_section(rest, o + 1, k - 1);
            assert(rest[j] == ss[j + 1]);
            (j + 1, o2)
        }
    }
}

/// Every configuration read successfully comes from a table section of the `plugins` table
/// with the same name and path. Its `reload` flag is the section's own, false only when the
/// section has none. For a plugin other than `poll` and `logger`, `enable` is the section's
/// own (true when absent) and `system` the section's own (false when absent); those two
/// required plugins are always enabled system plugins.
pub proof fn lemma_configs_follow_sections(ss: Seq<PluginSection>, cfgs: Seq<PluginOrderedConfig>, k: int)
    requires
        ordered_config_outcome(ss) == Ok::<Seq<PluginOrderedConfig>, ConfigErrorView>(cfgs),
        0 <= k < cfgs.len(),
    ensures
        exists|j: int|
            0 <= j < ss.len() && (#[trigger] ss[j]).is_table && ss[j].name@ == cfgs[k].name@
                && ss[j].path is Some && ss[j].path->Some_0@ == cfgs[k].path@
                && cfgs[k].reload == (ss[j].reload == Some(true))
                && (is_required(cfgs[k].name@) ==> cfgs[k].enable && cfgs[k].system)
                && (!is_required(cfgs[k].name@) ==> cfgs[k].enable == (ss[j].enable != Some(false))
                    && cfgs[k].system == (ss[j].system == Some(true))),
{
    let raw = section_configs(ss, 0);
    assert(cfgs[k] == mark_one(raw[k]));
    let (j, o) = lemma_config_section(ss, 0, k);
    assert(raw[k] == section_config(ss[j], o));
    assert(ss[j].is_table);
}

/// A configuration error, with its texts taken by their views.
pub enum ConfigErrorView {
    ReadFile(Seq<char>),
    Parsing(Seq<char>),
    PluginParsing(Seq<char>, Seq<char>),
    PluginMissing(Seq<Seq<char>>),
}

/// The view of a configuration error.
pub open spec fn config_error_view(e: PluginConfigError) -> ConfigErrorView {
    match e {
        PluginConfigError::ReadFileError { error } => ConfigErrorView::ReadFile(error@),
        PluginConfigError::ParsingError { error } => ConfigErrorView::Parsing(error@),
        PluginConfigError::PluginParsingError { plugin_name, error } => ConfigErrorView::PluginParsing(plugin_name@, error@),
        PluginConfigError::PluginMissingError { plugins } => ConfigErrorView::PluginMissing(plugins@.map_values(|s: String| s@)),
    }
}

proof fn lemma_skip_step<T>(ss: Seq<T>, i: int)
    requires
        0 <= i < ss.len(),
    ensures
        ss.skip(i).drop_first() == ss.skip(i + 1),
        ss.skip(i)[0] == ss[i],
        ss.skip(i).len() == ss.len() - i,
{
    assert(ss.skip(i).drop_first() =~= ss.skip(i + 1));
}

fn has_enabled(cfgs: &Vec<PluginOrderedConfig>, name: &String) -> (b: bool)
    ensures
        b == enabled_named(cfgs@, name@),
{
    let mut j: usize = 0;
    while j < cfgs.len()
        invariant
            j <= cfgs.len(),
            forall|k: int| 0 <= k < j ==> !((#[trigger] cfgs@[k]).name@ == name@ && cfgs@[k].enable),
        decreases cfgs.len() - j,
    {
        if cfgs[j].enable && cfgs[j].name == *name {
            return true;
        }
        j = j + 1;
    }
    false
}

impl PluginLoader {
    /// Reads the sections of the `plugins` table of the configuration file into ordered
    /// configurations.
    ///
    /// A section gets its own `order`, or the one after the previous section's; `enable`
    /// defaults to true, `reload` and `system` to false. The plugins `poll` and `logger` must
    /// be configured and enabled, and come out marked as system plugins. The signature of each
    /// library is left empty for the caller, who reads the files.
    pub fn load_ordered_plugin_config(sections: &[PluginSection]) -> (r: Result<Vec<PluginOrderedConfig>, PluginConfigError>)
        requires
            orders_fit(sections@, 0),
        ensures
            match r {
                Ok(cfgs) => ordered_config_outcome(sections@) == Ok::<Seq<PluginOrderedConfig>, ConfigErrorView>(cfgs@),
                Err(e) => ordered_config_outcome(sections@) == Err::<Seq<PluginOrderedConfig>, ConfigErrorView>(config_error_view(e)),
            },
    {
        let ghost ss = sections@;
        let mut configs: Vec<PluginOrderedConfig> = Vec::new();
        let mut next: i64 = 0;
        let mut i: usize = 0;
        assert(ss.skip(0) == ss);
        while i < sections.len()
            invariant
                ss == sections@,
                i <= ss.len(),
                orders_fit(ss.skip(i as int), next as int),
                section_configs(ss, 0) == configs@ + section_configs(ss.skip(i as int), next as int),
                first_missing_path(ss) == match first_missing_path(ss.skip(i as int)) {
                    Some(k) => Some(k + i),
                    None => None::<int>,
                },
            decreases sections.len() - i,
        {
            proof {
                lemma_skip_step(ss, i as int);
            }
            let s = &sections[i];
            if s.is_table {
                match &s.path {
                    None => {
                        proof {
                            reveal_strlit("missing valid 'path'");
                        }
                        let e = PluginConfigError::PluginParsingError {
                            plugin_name: s.name.clone(),
                            error: String::from_str("missing valid 'path'"),
                        };
                        return Err(e);
                    },
                    Some(path) => {
                        let order: i64 = match s.order {
                            Some(o) => o,
                            None => next,
                        };
                        let enable: bool = match s.enable {
                            Some(b) => b,
                            None => true,
                        };
                        let reload: bool = match s.reload {
                            Some(b) => b,
                            None => false,
                        };
                        let system: bool = match s.system {
                            Some(b) => b,
                            None => false,
                        };
                        let cfg = PluginOrderedConfig {
                            enable,
                            system,
                            order,
                            reload,
                            name: s.name.clone(),
                            path: path.clone(),
                            file_hash: None,
                        };
                        assert(cfg == section_config(ss[i as int], order));
                        let ghost before = configs@;
                        configs.push(cfg);
                        assert(configs@ == before + seq![section_config(ss[i as int], order)]);
                        next = order + 1;
                    },
                }
            }
            i = i + 1;
        }
        assert(ss.skip(i as int).len() == 0);
        assert(configs@ == section_configs(ss, 0));
        let poll = String::from_str("poll");
        let logger = String::from_str("logger");
        let has_poll = has_enabled(&configs, &poll);
        let has_logger = has_enabled(&configs, &logger);
        if !has_poll || !has_logger {
            let mut missing: Vec<String> = Vec::new();
            if !has_poll {
                missing.push(poll);
            }
            if !has_logger {
                missing.push(logger);
            }
            let ghost mv = missing@.map_values(|s: String| s@);
            assert(mv == missing_required(configs@));
            return Err(PluginConfigError::PluginMissingError { plugins: missing });
        }
        let ghost unmarked = configs@;
        let mut j: usize = 0;
        while j < configs.len()
            invariant
                j <= configs.len(),
                poll@ == "poll"@,
                logger@ == "logger"@,
                configs.len() == unmarked.len(),
                forall|k: int| 0 <= k < j ==> #[trigger] configs@[k] == mark_one(unmarked[k]),
                forall|k: int| j <= k < configs.len() ==> #[trigger] configs@[k] == unmarked[k],
            decreases configs.len() - j,
        {
            let required = configs[j].name == poll || configs[j].name == logger;
            if required {
                let mut c = configs[j].clone();
                c.enable = true;
                c.system = true;
                configs.set(j, c);
            }
            j = j + 1;
        }
        assert(configs@ == mark_required(unmarked));
        Ok(configs)
    }
}

/// A topological configuration, with its texts taken by their views.
pub struct TopologicalView {
    pub name: Seq<char>,
    pub path: Seq<char>,
    pub required: bool,
    pub depend: Seq<Seq<char>>,
}

/// The view of a topological configuration.
pub open spec fn topological_view(c: PluginTopologicalConfig) -> TopologicalView {
    TopologicalView {
        name: c.name@,
        path: c.path@,
        required: c.required,
        depend: string_views(c.depend@),
    }
}

/// The views of a sequence of strings.
pub open spec fn string_views(v: Seq<String>) -> Seq<Seq<char>> {
    v.map_values(|x: String| x@)
}

/// The views of a sequence of topological configurations.
pub open spec fn topological_views(cs: Seq<PluginTopologicalConfig>) -> Seq<TopologicalView> {
    cs.map_values(|c: PluginTopologicalConfig| topological_view(c))
}

/// The strings among the elements of a `depend` array, in order.
pub open spec fn string_items(d: Seq<Option<String>>) -> Seq<Seq<char>>
    decreases d.len(),
{
    if d.len() == 0 {
        Seq::empty()
    } else {
        string_items(d.drop_last()) + match d.last() {
            Some(x) => seq![x@],
            None => Seq::<Seq<char>>::empty(),
        }
    }
}

/// The topological configuration read from a table section with a path: `required` defaults
/// to false, and the dependencies are the strings of its `depend` array, if it has one.
pub open spec fn section_topological(s: PluginSection) -> TopologicalView {
    TopologicalView {
        name: s.name@,
        path: s.path.unwrap()@,
        required: match s.required {
            Some(b) => b,
            None => false,
        },
        depend: match s.depend {
            Some(d) => string_items(d@),
            None => Seq::empty(),
        },
    }
}

/// The topological configurations read from the table sections, in order.
pub open spec fn topological_sections(ss: Seq<PluginSection>) -> Seq<TopologicalView>
    decreases ss.len(),
{
    if ss.len() == 0 {
        Seq::empty()
    } else if !ss[0].is_table {
        topological_sections(ss.drop_first())
    } else {
        seq![section_topological(ss[0])] + topological_sections(ss.drop_first())
    }
}

/// The message that refuses a plugin section without a valid path.
pub open spec fn missing_path_text(name: Seq<char>) -> Seq<char> {
    "Plugin '"@ + name + "' missing valid 'path'"@
}

/// The strings among the elements of `d`, in order.
fn string_elements(d: &Vec<Option<String>>) -> (r: Vec<String>)
    ensures
        string_views(r@) == string_items(d@),
{
    let mut out: Vec<String> = Vec::new();
    let mut i: usize = 0;
    while i < d.len()
        invariant
            i <= d@.len(),
            string_views(out@) == string_items(d@.take(i as int)),
        decreases d@.len() - i,
    {
        assert(d@.take(i as int + 1).drop_last() =~= d@.take(i as int));
        assert(d@.take(i as int + 1).last() == d@[i as int]);
        let ghost before = out@;
        match &d[i] {
            Some(x) => {
                out.push(x.clone());
                assert(string_views(out@) =~= string_views(before).push(x@));
            },
            None => {
                assert(string_items(d@.take(i as int + 1)) =~= string_items(d@.take(i as int)));
            },
        }
        i = i + 1;
    }
    assert(d@.take(d@.len() as int) =~= d@);
    out
}

impl PluginLoader {
    /// Reads the sections of the `plugins` table into configurations that name the plugins
    /// they depend on. Sections that are not tables are skipped; a table section without a
    /// valid path is refused with a message that names it.
    pub fn load_topological_plugin_config(sections: &[PluginSection]) -> (r: Result<Vec<PluginTopologicalConfig>, String>)
        ensures
            match first_missing_path(sections@) {
                Some(k) => r matches Err(e) && e@ == missing_path_text(sections@[k].name@),
                None => r matches Ok(cfgs) && topological_views(cfgs@) == topological_sections(sections@),
            },
    {
        let ghost ss = sections@;
        let mut configs: Vec<PluginTopologicalConfig> = Vec::new();
        let mut i: usize = 0;
        assert(ss.skip(0) == ss);
        while i < sections.len()
            invariant
                ss == sections@,
                i <= ss.len(),
                topological_sections(ss) == topological_views(configs@) + topological_sections(ss.skip(i as int)),
                first_missing_path(ss) == match first_missing_path(ss.skip(i as int)) {
                    Some(k) => Some(k + i),
                    None => None::<int>,
                },
            decreases sections.len() - i,
        {
            proof {
                lemma_skip_step(ss, i as int);
            }
            let s = &sections[i];
            if s.is_table {
                match &s.path {
                    None => {
                        proof {
                            reveal_strlit("Plugin '");
                            reveal_strlit("' missing valid 'path'");
                        }
                        let mut msg = String::from_str("Plugin '");
                        msg.append(s.name.as_str());
                        msg.append("' missing valid 'path'");
                        return Err(msg);
                    },
                    Some(path) => {
                        let required: bool = match s.required {
                            Some(b) => b,
                            None => false,
                        };
                        let depend: Vec<String> = match &s.depend {
                            Some(d) => string_elements(d),
                            None => {
                                let none: Vec<String> = Vec::new();
                                assert(string_views(none@) =~= Seq::<Seq<char>>::empty());
                                none
                            },
                        };
                        let cfg = PluginTopologicalConfig { name: s.name.clone(), path: path.clone(), required, depend };
                        assert(topological_view(cfg) == section_topological(ss[i as int]));
                        let ghost before = configs@;
                        configs.push(cfg);
                        assert(topological_views(configs@) =~= topological_views(before) + seq![section_topological(ss[i as int])]);
                    },
                }
            }
            i = i + 1;
        }
        assert(ss.skip(i as int).len() == 0);
        assert(topological_views(configs@) =~= topological_sections(ss));
        Ok(configs)
    }
}

} // verus!

verus! {

/// The symbols a plugin library may register itself by, in the order they are tried.
pub open spec fn register_symbols() -> Seq<Seq<char>> {
    seq!["register_rust_plugin"@, "register_c_plugin"@]
}

/// Whether an attempt to load failed only because the symbol was not found.
pub open spec fn missed<P>(o: Result<P, PluginLoadError>) -> bool {
    o matches Err(e) && symbol_missing(e)
}

/// `outs` are the outcomes of the attempts made, in order, with the symbols `syms` they were
/// made with: attempt `k` uses the symbol `register_symbols()[k / 2]`, the Rust loader on even
/// attempts and the C loader on odd ones; every attempt but the last missed its symbol, and at
/// most four were made.
pub open spec fn attempts_fit<P, R: Fn(&str) -> Result<P, PluginLoadError>, C: Fn(&str) -> Result<P, PluginLoadError>>(
    outs: Seq<Result<P, PluginLoadError>>,
    syms: Seq<&'static str>,
    load_rust: R,
    load_c: C,
) -> bool {
    &&& outs.len() == syms.len()
    &&& outs.len() <= 4
    &&& forall|k: int| 0 <= k < syms.len() ==> (#[trigger] syms[k])@ == register_symbols()[k / 2]
    &&& forall|k: int| 0 <= k < outs.len() && k % 2 == 0 ==> load_rust.ensures((syms[k],), #[trigger] outs[k])
    &&& forall|k: int| 0 <= k < outs.len() && k % 2 == 1 ==> load_c.ensures((syms[k],), #[trigger] outs[k])
    &&& forall|k: int| 0 <= k < outs.len() - 1 ==> missed(#[trigger] outs[k])
}

/// Whether a loading error says only that the symbol was not found, so that the next way of
/// loading is tried.
pub open spec fn symbol_missing(e: PluginLoadError) -> bool {
    e is SymbolNotFound
}

impl PluginLoader {
    /// Loads the plugin library `plugin_name` by each symbol of `register_symbols()` in turn,
    /// first as a Rust plugin (`load_rust`) and then as a C plugin (`load_c`): the first
    /// attempt that finds its symbol decides, whether it succeeds or fails. When no attempt
    /// finds its symbol, the error names the library and both symbols.
    pub fn try_load_plugin<P, R, C>(plugin_name: &str, load_rust: R, load_c: C) -> (r: Result<P, PluginLoadError>)
        where
            R: Fn(&str) -> Result<P, PluginLoadError>,
            C: Fn(&str) -> Result<P, PluginLoadError>,
        requires
            forall|s: &str| #[trigger] load_rust.requires((s,)),
            forall|s: &str| #[trigger] load_c.requires((s,)),
        ensures
            exists|outs: Seq<Result<P, PluginLoadError>>, syms: Seq<&'static str>|
                #[trigger] attempts_fit(outs, syms, load_rust, load_c) && outs.len() >= 1 && if missed(outs.last()) {
                    outs.len() == 4 && (r matches Err(PluginLoadError::SymbolNotFound { library_name, symbols_name })
                        && library_name@ == plugin_name@ && symbols_name@ == "register_rust_plugin, register_c_plugin"@)
                } else {
                    r == outs.last()
                },
    {
        proof {
            reveal_strlit("register_rust_plugin");
            reveal_strlit("register_c_plugin");
        }
        let symbols: [&'static str; 2] = ["register_rust_plugin", "register_c_plugin"];
        let ghost mut outs: Seq<Result<P, PluginLoadError>> = Seq::empty();
        let ghost mut syms: Seq<&'static str> = Seq::empty();
        let mut i: usize = 0;
        while i < 2
            invariant
                i <= 2,
                symbols@[0]@ == "register_rust_plugin"@,
                symbols@[1]@ == "register_c_plugin"@,
                forall|s: &str| #[trigger] load_rust.requires((s,)),
                forall|s: &str| #[trigger] load_c.requires((s,)),
                outs.len() == 2 * i,
                attempts_fit(outs, syms, load_rust, load_c),
                forall|k: int| 0 <= k < outs.len() ==> missed(#[trigger] outs[k]),
            decreases 2 - i,
        {
            let symbol = symbols[i];
            assert(register_symbols()[(2 * i) as int / 2] == symbol@);
            assert(register_symbols()[(2 * i + 1) as int / 2] == symbol@);
            let from_rust = load_rust(symbol);
            proof {
                outs = outs.push(from_rust);
                syms = syms.push(symbol);
                assert(attempts_fit(outs, syms, load_rust, load_c));
            }
            match from_rust {
                Ok(p) => return Ok(p),
                Err(PluginLoadError::SymbolNotFound { .. }) => {},
                Err(e) => return Err(e),
            }
            let from_c = load_c(symbol);
            proof {
                outs = outs.push(from_c);
                syms = syms.push(symbol);
                assert(attempts_fit(outs, syms, load_rust, load_c));
            }
            match from_c {
                Ok(p) => return Ok(p),
                Err(PluginLoadError::SymbolNotFound { .. }) => {},
                Err(e) => return Err(e),
            }
            i = i + 1;
        }
        proof {
            reveal_strlit("register_rust_plugin, register_c_plugin");
        }
        Err(PluginLoadError::SymbolNotFound {
            library_name: String::from_str(plugin_name),
            symbols_name: String::from_str("register_rust_plugin, register_c_plugin"),
        })
    }
}

} // verus!
