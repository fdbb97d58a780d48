use abstractions::config_file::{plugin_sections, plugin_sections_from_text, TomlValue};
use abstractions::plugin_loader::{PluginConfigError, PluginLoader};

const CONFIG: &str = r#"
title = "host"

[plugins.signal]
path = "builtin:signal"
order = 2
required = true
depend = ["poll", 3, "logger"]

[plugins.poll]
path = "builtin:poll"
enable = true
system = true

[plugins.broken]
path = 7
"#;

#[test]
fn sections_come_from_the_plugins_table_in_key_order() {
    let sections = plugin_sections_from_text(CONFIG).unwrap();
    let names: Vec<&str> = sections.iter().map(|s| s.name.as_str()).collect();
    assert_eq!(names, vec!["broken", "poll", "signal"]);
    let broken = &sections[0];
    assert!(broken.is_table);
    assert_eq!(broken.path, None);
    let poll = &sections[1];
    assert_eq!(poll.path.as_deref(), Some("builtin:poll"));
    assert_eq!(poll.enable, Some(true));
    assert_eq!(poll.system, Some(true));
    assert_eq!(poll.order, None);
    assert_eq!(poll.depend, None);
    let signal = &sections[2];
    assert_eq!(signal.order, Some(2));
    assert_eq!(signal.required, Some(true));
    assert_eq!(signal.depend, Some(vec![Some("poll".to_string()), None, Some("logger".to_string())]));
}

#[test]
fn non_table_entries_and_bad_text() {
    let sections = plugin_sections_from_text("[plugins]\nloose = 5\n").unwrap();
    assert_eq!(sections.len(), 1);
    assert!(!sections[0].is_table);
    assert!(matches!(plugin_sections_from_text("[plugins"), Err(PluginConfigError::ParsingError { .. })));
    match plugin_sections(&TomlValue::Integer(1)) {
        Err(PluginConfigError::ParsingError { error }) => assert_eq!(error, "Top-level TOML is not a table"),
        other => panic!("unexpected {:?}", other),
    }
    assert!(plugin_sections_from_text("other = 1\n").unwrap().is_empty());
}

#[test]
fn text_to_ordered_configs() {
    let text = "[plugins.logger]\npath = \"a.so\"\n[plugins.poll]\npath = \"b.so\"\norder = 5\n";
    let sections = plugin_sections_from_text(text).unwrap();
    let cfgs = PluginLoader::load_ordered_plugin_config(&sections).unwrap();
    assert_eq!(cfgs.len(), 2);
    assert_eq!(cfgs[0].name, "logger");
    assert_eq!(cfgs[0].order, 0);
    assert_eq!(cfgs[1].order, 5);
    assert!(cfgs[1].system);
}
