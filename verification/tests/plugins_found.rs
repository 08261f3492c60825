use turbosheet::plugin::discovery::{is_native_extension, is_plugin_package, PluginInfo};

#[test]
fn plugin_packages_and_libraries() {
    assert!(is_plugin_package("tsheet-plugin-axe"));
    assert!(is_plugin_package("@tsheet/reporter"));
    assert!(!is_plugin_package("tsheet-plugins"));
    assert!(!is_plugin_package("@tsheetx/a"));
    assert!(is_native_extension(Some("so")));
    assert!(is_native_extension(Some("dylib")));
    assert!(!is_native_extension(Some("dll")));
    assert!(!is_native_extension(None));
}

#[test]
fn plugin_information() {
    let p = PluginInfo::js("tsheet-plugin-a", "/m/tsheet-plugin-a", None, Some("1.2.3"));
    assert_eq!((p.name.as_str(), p.version.as_str(), p.plugin_type.as_str()), ("tsheet-plugin-a", "1.2.3", "js"));
    let q = PluginInfo::js("dir", "/m/dir", Some("@tsheet/x"), None);
    assert_eq!((q.name.as_str(), q.version.as_str(), q.path.as_str()), ("@tsheet/x", "0.0.0", "/m/dir"));
    let r = PluginInfo::native(None, "/p/.so");
    assert_eq!((r.name.as_str(), r.version.as_str(), r.plugin_type.as_str()), ("unknown", "0.0.0", "rust"));
}
