use sohablog::plugin::{
    expected_version, Construction, PluginError, PluginManager, PluginType, Probe,
    PLUGIN_TRAIT_VERSION, THEME_TRAIT_VERSION,
};

type Manager = PluginManager<&'static str, &'static str, &'static str>;

fn theme(lib: &'static str, identity: &str, abi_version: u32, object: &'static str) -> Probe<&'static str, &'static str, &'static str> {
    Probe::Opened(lib, Construction::Theme { identity: identity.to_string(), abi_version, theme: object })
}

fn plugin(lib: &'static str, abi_version: u32, object: &'static str) -> Probe<&'static str, &'static str, &'static str> {
    Probe::Opened(lib, Construction::Plugin { abi_version, plugin: object })
}

#[test]
fn new_registry_is_empty() {
    let m = Manager::new();
    assert_eq!(m.theme_count(), 0);
    assert_eq!(m.plugin_count(), 0);
    assert_eq!(m.library_count(), 0);
    assert!(m.get_theme(&"basic".to_string()).is_none());
}

#[test]
fn expected_versions_by_kind() {
    assert_eq!(expected_version(PluginType::Theme), 1);
    assert_eq!(expected_version(PluginType::Plugin), 0);
    assert_eq!(THEME_TRAIT_VERSION, 1);
    assert_eq!(PLUGIN_TRAIT_VERSION, 0);
}

#[test]
fn matching_theme_is_registered() {
    let mut m = Manager::new();
    assert_eq!(m.load(theme("a.so", "basic", THEME_TRAIT_VERSION, "A")), Ok(()));
    assert_eq!(m.get_theme(&"basic".to_string()), Some(&"A"));
    assert_eq!(m.theme_count(), 1);
    assert_eq!(m.library_count(), 1);
}

#[test]
fn scenario_matching_and_newer_theme() {
    let mut m = Manager::new();
    let listing: Result<_, ()> = Ok(vec![
        theme("themeA.so", "basic", THEME_TRAIT_VERSION, "from themeA"),
        theme("themeB.so", "fancy", THEME_TRAIT_VERSION + 1, "from themeB"),
    ]);
    let outcomes = m.load_listing(listing).expect("directory was listed");
    assert_eq!(outcomes, vec![Ok(()), Err(PluginError::IncompatibleVersion(PluginType::Theme))]);
    assert_eq!(m.get_theme(&"basic".to_string()), Some(&"from themeA"));
    assert!(m.get_theme(&"fancy".to_string()).is_none());
    assert_eq!(m.theme_count(), 1);
    assert_eq!(m.library_count(), 2);
}

#[test]
fn scenario_text_file_is_skipped() {
    let mut m = Manager::new();
    let listing: Result<_, ()> = Ok(vec![Probe::Unloadable]);
    let outcomes = m.load_listing(listing).expect("directory was listed");
    assert_eq!(outcomes, vec![Err(PluginError::Load)]);
    assert_eq!(m.theme_count() + m.plugin_count(), 0);
    assert_eq!(m.library_count(), 0);
}

#[test]
fn unlistable_directory_fails() {
    let mut m = Manager::new();
    let listing: Result<Vec<Probe<&'static str, &'static str, &'static str>>, &str> = Err("no such directory");
    assert_eq!(m.load_listing(listing), Err("no such directory"));
    assert_eq!(m.library_count(), 0);
}

#[test]
fn entries_count_modules_that_pass() {
    let mut m = Manager::new();
    let probes = vec![
        theme("t1.so", "one", THEME_TRAIT_VERSION, "T1"),
        Probe::Unloadable,
        Probe::Opened("nometa.so", Construction::NoMetadata),
        plugin("one.so", PLUGIN_TRAIT_VERSION, "plugin one"),
        Probe::Opened("noobj.so", Construction::NoObject(PluginType::Theme)),
        plugin("two.so", PLUGIN_TRAIT_VERSION + 3, "plugin two"),
        theme("t2.so", "two", THEME_TRAIT_VERSION, "T2"),
        theme("t3.so", "three", 0, "T3"),
    ];
    let outcomes = m.load_all(probes);
    let passed = outcomes.iter().filter(|o| o.is_ok()).count();
    assert_eq!(passed, 3);
    assert_eq!(m.theme_count() + m.plugin_count(), 3);
    assert_eq!(m.plugin_count(), 1);
    assert_eq!(m.library_count(), 7);
    assert_eq!(outcomes[2], Err(PluginError::InvalidModule));
    assert_eq!(outcomes[4], Err(PluginError::InvalidModule));
    assert_eq!(outcomes[5], Err(PluginError::IncompatibleVersion(PluginType::Plugin)));
}

#[test]
fn same_identity_last_loaded_wins() {
    let mut m = Manager::new();
    assert_eq!(m.load(theme("first.so", "basic", THEME_TRAIT_VERSION, "first")), Ok(()));
    assert_eq!(m.load(theme("second.so", "basic", THEME_TRAIT_VERSION, "second")), Ok(()));
    assert_eq!(m.theme_count(), 1);
    assert_eq!(m.get_theme(&"basic".to_string()), Some(&"second"));
    assert_eq!(m.library_count(), 2);
}

#[test]
fn mismatched_plugin_is_not_registered() {
    let mut m = Manager::new();
    assert_eq!(
        m.load(plugin("p.so", PLUGIN_TRAIT_VERSION + 1, "P")),
        Err(PluginError::IncompatibleVersion(PluginType::Plugin))
    );
    assert_eq!(m.plugin_count(), 0);
    assert_eq!(m.library_count(), 1);
}

#[test]
fn mismatched_theme_keeps_earlier_entry() {
    let mut m = Manager::new();
    m.register_theme("basic".to_string(), "kept");
    assert_eq!(
        m.load(theme("new.so", "basic", 7, "rejected")),
        Err(PluginError::IncompatibleVersion(PluginType::Theme))
    );
    assert_eq!(m.get_theme(&"basic".to_string()), Some(&"kept"));
}

#[test]
fn unregistered_name_resolves_to_nothing() {
    let mut m = Manager::new();
    m.register_theme("basic".to_string(), "B");
    m.register_plugin("P");
    assert!(m.get_theme(&"anything-not-registered".to_string()).is_none());
    assert!(m.get_theme(&"".to_string()).is_none());
    assert!(m.get_theme(&"Basic".to_string()).is_none());
}

#[test]
fn error_messages() {
    assert_eq!(PluginError::Load.message(), "Unable to load the library");
    assert_eq!(PluginError::InvalidModule.message(), "Not a valid plugin library");
    assert_eq!(
        PluginError::IncompatibleVersion(PluginType::Theme).message(),
        "Theme version is not compatible."
    );
    assert_eq!(
        PluginError::IncompatibleVersion(PluginType::Plugin).message(),
        "Plugin version is not compatible."
    );
}
