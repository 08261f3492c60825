use turbosheet::injection::stealth::{StealthConfig, StealthNameStyle};

#[test]
fn test_default_is_enabled_simple() {
    let cfg = StealthConfig::default();
    assert!(cfg.enabled);
    assert_eq!(cfg.name_style, StealthNameStyle::Simple);
}

#[test]
fn test_disabled_config() {
    let cfg = StealthConfig::disabled();
    assert!(!cfg.enabled);
    assert_eq!(cfg.name_style, StealthNameStyle::Explicit);
}

#[test]
fn test_generate_names_explicit() {
    let cfg = StealthConfig { enabled: true, name_style: StealthNameStyle::Explicit };
    let (g, b) = cfg.generate_names();
    assert!(g.starts_with("__ts_g_"));
    assert!(b.starts_with("__ts_b_"));
    assert!(g.len() > 10);
}

#[test]
fn test_generate_names_simple() {
    let cfg = StealthConfig { enabled: true, name_style: StealthNameStyle::Simple };
    let (g, b) = cfg.generate_names();
    assert!(g.starts_with("_a"));
    assert!(b.starts_with("_b"));
    assert_eq!(g.len(), 10);
    assert_eq!(b.len(), 10);
}

#[test]
fn test_generate_names_realistic() {
    let cfg = StealthConfig { enabled: true, name_style: StealthNameStyle::Realistic };
    let (g, b) = cfg.generate_names();
    assert!(!g.starts_with("__ts"));
    assert!(b.starts_with("_"));
    assert!(g.len() > 6);
}

#[test]
fn test_process_script_placeholder_replacement() {
    let cfg = StealthConfig::default();
    let script = "window.__TS_GLOBAL__.dispatch('abc', 'click'); (window.__TS_BINDING__)('payload');";
    let (global, binding) = cfg.generate_names();
    let result = cfg.process_script(script, &global, &binding);
    assert!(!result.contains("__TS_GLOBAL__"));
    assert!(!result.contains("__TS_BINDING__"));
    assert!(result.contains(&global));
    assert!(result.contains(&binding));
}

#[test]
fn test_process_script_disabled() {
    let cfg = StealthConfig::disabled();
    let script = "window.__TS_GLOBAL__.dispatch('abc');";
    let result = cfg.process_script(script, "__ts_g_abc123", "__ts_b_abc123");
    assert!(result.contains("__ts_g_abc123"));
    assert!(!result.contains("__TS_GLOBAL__"));
}

#[test]
fn test_global_expr_stealth_uses_bracket_notation() {
    let cfg = StealthConfig::default();
    assert_eq!(cfg.global_expr("_abc123"), "window['_abc123']");
}

#[test]
fn test_global_expr_disabled_uses_dot_notation() {
    let cfg = StealthConfig::disabled();
    assert_eq!(cfg.global_expr("__ts_g_abc"), "window.__ts_g_abc");
}

#[test]
fn test_global_expr_explicit_uses_dot_notation() {
    let cfg = StealthConfig { enabled: true, name_style: StealthNameStyle::Explicit };
    assert_eq!(cfg.global_expr("__ts_g_abc"), "window.__ts_g_abc");
}

#[test]
fn test_generate_names_non_stealth_uses_ts_prefix() {
    let cfg = StealthConfig::disabled();
    let (g, b) = cfg.generate_names();
    assert!(g.starts_with("__ts_g_"));
    assert!(b.starts_with("__ts_b_"));
}

#[test]
fn names_from_fixed_identifiers() {
    let u1 = "0123456789abcdef0123456789abcdef";
    let u2 = "fedcba9876543210fedcba9876543210";
    let simple = StealthConfig::default();
    assert_eq!(simple.names_from(u1, u2), ("_a01234567".to_string(), "_b01234567".to_string()));
    let explicit = StealthConfig { enabled: true, name_style: StealthNameStyle::Explicit };
    assert_eq!(
        explicit.names_from(u1, u2),
        (format!("__ts_g_{}", u1), format!("__ts_b_{}", u2))
    );
}

#[test]
fn process_script_replaces_every_placeholder() {
    let cfg = StealthConfig::default();
    let out = cfg.process_script("__TS_GLOBAL__ __TS_BINDING__ __TS_GLOBAL__", "G", "B");
    assert_eq!(out, "G B G");
}
