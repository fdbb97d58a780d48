use abstractions::plugin::{Plugin, PluginLoadError, PluginManager, PluginOrderedConfig, PluginStatus, PluginTopologicalConfig};
use abstractions::plugin_loader::{PluginConfigChange, PluginConfigError, PluginLoader, PluginSection};

fn cfg(name: &str, order: i64, enable: bool, hash: Option<&str>) -> PluginOrderedConfig {
    PluginOrderedConfig {
        enable,
        system: false,
        order,
        reload: false,
        name: name.to_string(),
        path: format!("lib{}.so", name),
        file_hash: hash.map(|h| h.to_string()),
    }
}

fn section(name: &str, path: Option<&str>, order: Option<i64>, enable: Option<bool>) -> PluginSection {
    PluginSection {
        name: name.to_string(),
        is_table: true,
        enable,
        path: path.map(|p| p.to_string()),
        order,
        reload: None,
        system: None,
        required: None,
        depend: None,
    }
}

#[test]
fn ordered_config_defaults_and_required_plugins() {
    let sections = vec![
        section("logger", Some("liblogger.so"), Some(5), None),
        section("poll", Some("libpoll.so"), None, Some(false)),
        section("extra", Some("libextra.so"), None, None),
    ];
    match PluginLoader::load_ordered_plugin_config(&sections) {
        Err(PluginConfigError::PluginMissingError { plugins }) => assert_eq!(plugins, vec![String::from("poll")]),
        other => panic!("expected the missing poll plugin, got {:?}", other),
    }
    let sections = vec![
        section("logger", Some("liblogger.so"), Some(5), None),
        section("poll", Some("libpoll.so"), None, None),
        section("extra", Some("libextra.so"), None, Some(false)),
    ];
    let cfgs = PluginLoader::load_ordered_plugin_config(&sections).unwrap();
    assert_eq!(cfgs.len(), 3);
    assert_eq!((cfgs[0].order, cfgs[1].order, cfgs[2].order), (5, 6, 7));
    assert!(cfgs[0].system && cfgs[0].enable);
    assert!(cfgs[1].system && cfgs[1].enable);
    assert!(!cfgs[2].system && !cfgs[2].enable);
    assert_eq!(cfgs[2].file_hash, None);
}

#[test]
fn ordered_config_refuses_missing_path() {
    let mut not_table = section("ignored", None, None, None);
    not_table.is_table = false;
    let sections = vec![not_table, section("poll", None, None, None)];
    match PluginLoader::load_ordered_plugin_config(&sections) {
        Err(PluginConfigError::PluginParsingError { plugin_name, error }) => {
            assert_eq!(plugin_name, "poll");
            assert_eq!(error, "missing valid 'path'");
        }
        other => panic!("expected a parsing error, got {:?}", other),
    }
    match PluginLoader::load_ordered_plugin_config(&[]) {
        Err(PluginConfigError::PluginMissingError { plugins }) => {
            assert_eq!(plugins, vec![String::from("poll"), String::from("logger")])
        }
        other => panic!("expected both required plugins missing, got {:?}", other),
    }
}

#[test]
fn file_changed_needs_both_signatures() {
    assert!(PluginLoader::file_changed(&cfg("a", 0, true, None), &cfg("a", 0, true, Some("1"))));
    assert!(PluginLoader::file_changed(&cfg("a", 0, true, Some("1")), &cfg("a", 0, true, Some("2"))));
    assert!(!PluginLoader::file_changed(&cfg("a", 0, true, Some("1")), &cfg("a", 0, true, Some("1"))));
}

fn loaded(name: &str, order: i64) -> Plugin<u32> {
    Plugin { status: PluginStatus::Enable(order as u32), config: cfg(name, order, true, Some("1")) }
}

#[test]
fn analyze_changes_covers_each_kind() {
    let current = vec![loaded("same", 1), loaded("moved", 2), loaded("gone", 3), loaded("off", 4)];
    let new_configs = vec![
        cfg("same", 1, true, Some("1")),
        cfg("moved", 9, true, Some("1")),
        cfg("off", 4, false, Some("1")),
        cfg("new", 5, true, None),
    ];
    let changes = PluginLoader::analyze_config_changes(&current, &new_configs);
    let kinds: Vec<String> = changes
        .iter()
        .map(|c| match c {
            PluginConfigChange::Add(c) => format!("add {}", c.name),
            PluginConfigChange::Remove(n) => format!("remove {}", n),
            PluginConfigChange::Reload(c) => format!("reload {}", c.name),
            PluginConfigChange::Disable(n) => format!("disable {}", n),
            PluginConfigChange::Enable(c) => format!("enable {}", c.name),
            PluginConfigChange::NoChange(n) => format!("keep {}", n),
        })
        .collect();
    assert!(kinds.contains(&String::from("keep same")));
    assert!(kinds.contains(&String::from("reload moved")));
    assert!(kinds.contains(&String::from("disable off")));
    assert!(kinds.contains(&String::from("add new")));
    assert!(kinds.contains(&String::from("remove gone")));
}

#[test]
fn manager_loads_in_order() {
    let mut m: PluginManager<u32> = PluginManager::new();
    assert!(m.is_empty());
    let configs = vec![cfg("b", 2, true, None), cfg("a", 1, true, None), cfg("c", 3, false, None)];
    let r = m.load_plugin_from_ordered_config(configs, |c: &PluginOrderedConfig| Ok(c.order as u32 * 10));
    assert!(r.is_ok());
    assert!(m.is_loaded("a"));
    assert!(m.is_loaded("b"));
    let names: Vec<String> = m.get_plugins().iter().map(|p| p.config.name.clone()).collect();
    assert_eq!(names[0], "a");
    assert!(!m.all_plugins_unloaded());
}

#[test]
fn apply_changes_adds_and_removes() {
    let mut m: PluginManager<u32> = PluginManager::new();
    m.get_plugins().push(loaded("old", 1));
    let changes = vec![PluginConfigChange::Remove(String::from("old")), PluginConfigChange::Add(cfg("fresh", 2, true, None))];
    let r = PluginLoader::apply_config_changes(&mut m, changes, |_name: &str| Ok(7u32));
    assert!(r.is_ok());
    assert!(!m.is_loaded("old"));
    assert!(m.is_loaded("fresh"));
}

#[test]
fn try_load_plugin_walks_the_symbols() {
    let found = PluginLoader::try_load_plugin(
        "libx.so",
        |sym: &str| {
            if sym == "register_c_plugin" {
                Ok(1u8)
            } else {
                Err(PluginLoadError::SymbolNotFound { library_name: String::new(), symbols_name: sym.to_string() })
            }
        },
        |sym: &str| Err(PluginLoadError::SymbolNotFound { library_name: String::new(), symbols_name: sym.to_string() }),
    );
    assert_eq!(found.unwrap(), 1);
    let none: Result<u8, PluginLoadError> = PluginLoader::try_load_plugin(
        "liby.so",
        |sym: &str| Err(PluginLoadError::SymbolNotFound { library_name: String::new(), symbols_name: sym.to_string() }),
        |sym: &str| Err(PluginLoadError::SymbolNotFound { library_name: String::new(), symbols_name: sym.to_string() }),
    );
    match none {
        Err(PluginLoadError::SymbolNotFound { library_name, symbols_name }) => {
            assert_eq!(library_name, "liby.so");
            assert_eq!(symbols_name, "register_rust_plugin, register_c_plugin");
        }
        _ => panic!("expected no symbol"),
    }
    let failed: Result<u8, PluginLoadError> = PluginLoader::try_load_plugin(
        "libz.so",
        |_sym: &str| Err(PluginLoadError::MissingConfig { plugin_name: String::from("z") }),
        |_sym: &str| Ok(2u8),
    );
    assert!(matches!(failed, Err(PluginLoadError::MissingConfig { .. })));
}

#[test]
fn topological_config_and_error_texts() {
    let t = PluginTopologicalConfig::new("p", "libp.so", true, &["a", "b"]);
    assert_eq!(t.name(), "p");
    assert_eq!(t.path(), "libp.so");
    assert_eq!(t.depend, vec![String::from("a"), String::from("b")]);
    let e = PluginLoadError::MissingConfig { plugin_name: String::from("p") };
    assert!(!e.message().is_empty());
    let o = cfg("n", 1, true, None);
    assert_eq!(o.name(), "n");
    assert_eq!(o.path(), "libn.so");
}

#[test]
fn topological_config_reads_dependencies() {
    let mut a = section("a", Some("liba.so"), None, None);
    a.required = Some(true);
    a.depend = Some(vec![Some("poll".to_string()), None, Some("logger".to_string())]);
    let mut not_table = section("skip", None, None, None);
    not_table.is_table = false;
    let b = section("b", Some("libb.so"), Some(3), None);
    let cfgs = PluginLoader::load_topological_plugin_config(&[a, not_table, b]).unwrap();
    assert_eq!(cfgs.len(), 2);
    assert_eq!(cfgs[0].name, "a");
    assert_eq!(cfgs[0].path, "liba.so");
    assert!(cfgs[0].required);
    assert_eq!(cfgs[0].depend, vec!["poll".to_string(), "logger".to_string()]);
    assert_eq!(cfgs[1].name, "b");
    assert!(!cfgs[1].required);
    assert!(cfgs[1].depend.is_empty());
}

#[test]
fn topological_config_refuses_missing_path() {
    let ok = section("ok", Some("libok.so"), None, None);
    let bad = section("broken", None, None, None);
    let err = PluginLoader::load_topological_plugin_config(&[ok, bad]).unwrap_err();
    assert_eq!(err, "Plugin 'broken' missing valid 'path'");
}

#[test]
fn plugin_round_codes_and_unloading() {
    let mut enabled: PluginStatus<u32> = PluginStatus::Enable(7);
    assert_eq!(enabled.round_code(), None);
    assert_eq!(enabled.settle(0), None);
    assert!(matches!(enabled, PluginStatus::Enable(7)));
    assert_eq!(enabled.settle(1), Some(7));
    assert!(matches!(enabled, PluginStatus::Unloaded));
    assert_eq!(enabled.round_code(), Some(1));
    assert_eq!(enabled.settle(1), None);

    let disabled: PluginStatus<u32> = PluginStatus::Disable(3);
    assert_eq!(disabled.round_code(), Some(0));
    let failed: PluginStatus<u32> = PluginStatus::LoadingFailed { library_name: "x".to_string(), error: "e".to_string() };
    assert_eq!(failed.round_code(), Some(0));
}
