use turbosheet::component::mount::{
    detect_framework_from_package_json, detect_framework_from_source, parse_framework, render_component_html,
    render_react_html, render_svelte_html, render_vue_html, ComponentMountOptions, FrameworkType,
};
use turbosheet::component::pool::ComponentContextPool;
use turbosheet::plugin::registry::{MatcherPlugin, PluginRegistry, ReporterPlugin};

#[test]
fn pool_reuses_free_pages_per_framework() {
    let mut pool = ComponentContextPool::new(2);
    let a = pool.acquire("react", 0).unwrap();
    let b = pool.acquire("vue", 0).unwrap();
    assert_ne!(a, b);
    assert!(pool.acquire("react", 1).is_none());
    pool.release("react", &a, 2);
    assert_eq!(pool.acquire("react", 3).unwrap(), a);
    let s = pool.stats();
    assert_eq!((s.total_contexts, s.in_use_contexts, s.available_contexts), (2, 2, 0));
}

#[test]
fn pool_release_needs_the_matching_framework() {
    let mut pool = ComponentContextPool::default();
    let a = pool.acquire("react", 0).unwrap();
    pool.release("vue", &a, 1);
    assert_eq!(pool.stats().in_use_contexts, 1);
    pool.release("react", &a, 1);
    assert_eq!(pool.stats().available_contexts, 1);
    pool.clear();
    assert_eq!(pool.stats().total_contexts, 0);
}

#[test]
fn frameworks_by_name() {
    assert_eq!(parse_framework(Some("React")), FrameworkType::React);
    assert_eq!(parse_framework(Some("VUE")), FrameworkType::Vue);
    assert_eq!(parse_framework(Some("svelte")), FrameworkType::Svelte);
    assert_eq!(parse_framework(Some("angular")), FrameworkType::Auto);
    assert_eq!(parse_framework(None), FrameworkType::Auto);
    assert_eq!(FrameworkType::Svelte.name(), "svelte");
    assert_eq!(FrameworkType::default(), FrameworkType::Auto);
}

#[test]
fn framework_detection() {
    assert_eq!(detect_framework_from_package_json("{\"dependencies\":{\"vue\":\"3\"}}".to_string()), "vue");
    assert_eq!(detect_framework_from_package_json("{}".to_string()), "unknown");
    assert_eq!(detect_framework_from_source("import x from \"react-dom\";".to_string()), "react");
    assert_eq!(detect_framework_from_source("const s = require('svelte')".to_string()), "svelte");
    assert_eq!(detect_framework_from_source("import vue from 'vuex'".to_string()), "unknown");
}

#[test]
fn react_page() {
    let opts = ComponentMountOptions { wrapper: Some("section".to_string()), ..ComponentMountOptions::default() };
    let html = render_react_html("<b>`${x}`</b>", &opts);
    assert!(html.starts_with("<!DOCTYPE html>\n<html>\n<head>\n"));
    assert!(html.contains("const Wrapper = (props) => <section {...props} />;\nconst Component = () => {\nreturn <Wrapper>{<b>\\`\\${x}\\`</b>}</Wrapper>;\n};\ntry {\n"));
    assert!(html.ends_with("\n  </script>\n</body>\n</html>"));
    let default_wrapper = render_react_html("<i/>", &ComponentMountOptions::default());
    assert!(default_wrapper.contains("<div {...props} />"));
}

#[test]
fn vue_and_svelte_pages() {
    let opts = ComponentMountOptions::default();
    let vue = render_vue_html("<p>{{ a }}</p>", &opts);
    assert!(vue.contains("      template: `\n<p>{{ a }}</p>`\n    });\n    app.mount('#app');\n"));
    let svelte = render_svelte_html("<h1>$x</h1>", &opts);
    assert!(svelte.contains("const { js } = svelte.compile(`<h1>\\$x</h1>`, { format: 'esm' });"));
}

#[test]
fn auto_framework_prefers_react() {
    let opts = ComponentMountOptions::default();
    let auto = render_component_html("<template><p/></template>", &FrameworkType::Auto, &opts);
    assert_eq!(auto, render_react_html("<template><p/></template>", &opts));
    let plain = render_component_html("hello", &FrameworkType::Auto, &opts);
    assert_eq!(plain, render_react_html("hello", &opts));
    assert_eq!(render_component_html("x", &FrameworkType::Vue, &opts), render_vue_html("x", &opts));
    assert_eq!(opts.timeout_ms(), 5000);
}

fn reporter(name: &str) -> ReporterPlugin {
    ReporterPlugin { name: name.to_string(), path: format!("./{}.js", name), enabled: true }
}

#[test]
fn plugin_registry_enable_and_unregister() {
    let mut reg = PluginRegistry::new();
    reg.register_reporter(reporter("r1"));
    reg.register_matcher(MatcherPlugin {
        name: "m1".to_string(),
        path: "./m1.js".to_string(),
        matcher_names: vec!["toGlow".to_string()],
        enabled: true,
    });
    assert!(reg.enable_plugin("m1", false).is_ok());
    assert!(!reg.get_matchers()[0].enabled);
    assert!(reg.enable_plugin("r1", false).is_ok());
    assert!(!reg.get_reporters()[0].enabled);
    assert_eq!(reg.enable_plugin("zz", true).unwrap_err(), "Plugin 'zz' not found");
    assert!(reg.unregister_plugin("r1").is_ok());
    assert!(reg.get_reporters().is_empty());
    assert_eq!(reg.unregister_plugin("r1").unwrap_err(), "Plugin 'r1' not found");
    assert!(reg.unregister_plugin("m1").is_ok());
    assert!(reg.get_matchers().is_empty());
}

#[test]
fn unregister_removes_only_the_first_of_a_name() {
    let mut reg = PluginRegistry::default();
    reg.register_reporter(reporter("dup"));
    reg.register_reporter(ReporterPlugin { name: "dup".to_string(), path: "second".to_string(), enabled: false });
    reg.unregister_plugin("dup").unwrap();
    assert_eq!(reg.get_reporters().len(), 1);
    assert_eq!(reg.get_reporters()[0].path, "second");
}
