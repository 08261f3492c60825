use vstd::prelude::*;
use crate::text::{chars_of, has_prefix, starts_with_chars, str_eq};

verus! {

/// A plugin found on disk: its name, version, location and kind (`js` or
/// `rust`).
pub struct PluginInfo {
    pub name: String,
    pub version: String,
    pub path: String,
    pub plugin_type: String,
}

/// Whether a package in `node_modules` is a plugin: its name starts with
/// `tsheet-plugin-` or with the `@tsheet/` scope.
pub open spec fn is_plugin_package_spec(name: Seq<char>) -> bool {
    has_prefix(name, "tsheet-plugin-"@) || has_prefix(name, "@tsheet/"@)
}

/// Whether a file with this extension is a native plugin library: `so`
/// or `dylib`.
pub open spec fn is_native_extension_spec(ext: Option<Seq<char>>) -> bool {
    match ext {
        Some(e) => e == "so"@ || e == "dylib"@,
        None => false,
    }
}

/// Whether the package `name` is a plugin (see `is_plugin_package_spec`).
pub fn is_plugin_package(name: &str) -> (r: bool)
    ensures
        r == is_plugin_package_spec(name@),
{
    let n = chars_of(name);
    starts_with_chars(&n, &chars_of("tsheet-plugin-")) || starts_with_chars(&n, &chars_of("@tsheet/"))
}

/// Whether a file with extension `ext` is a native plugin (see
/// `is_native_extension_spec`).
pub fn is_native_extension(ext: Option<&str>) -> (r: bool)
    ensures
        r == is_native_extension_spec(match ext {
            Some(e) => Some(e@),
            None => None,
        }),
{
    match ext {
        Some(e) => str_eq(e, "so") || str_eq(e, "dylib"),
        None => false,
    }
}

impl PluginInfo {
    /// A JavaScript plugin in directory `dir_name` at `path`: named and
    /// versioned by its `package.json` where it says, else by the
    /// directory's name and `0.0.0`.
    pub fn js(dir_name: &str, path: &str, package_name: Option<&str>, package_version: Option<&str>) -> (r: Self)
        ensures
            r.name@ == (match package_name {
                Some(n) => n@,
                None => dir_name@,
            }),
            r.version@ == (match package_version {
                Some(v) => v@,
                None => "0.0.0"@,
            }),
            r.path@ == path@,
            r.plugin_type@ == "js"@,
    {
        let name = match package_name {
            Some(n) => n,
            None => dir_name,
        };
        let version = match package_version {
            Some(v) => v,
            None => "0.0.0",
        };
        PluginInfo {
            name: String::from_str(name),
            version: String::from_str(version),
            path: String::from_str(path),
            plugin_type: String::from_str("js"),
        }
    }

    /// A native plugin library at `path` whose file stem is `stem`
    /// (`unknown` without one), in version `0.0.0`.
    pub fn native(stem: Option<&str>, path: &str) -> (r: Self)
        ensures
            r.name@ == (match stem {
                Some(s) => s@,
                None => "unknown"@,
            }),
            r.version@ == "0.0.0"@,
            r.path@ == path@,
            r.plugin_type@ == "rust"@,
    {
        let name = match stem {
            Some(s) => s,
            None => "unknown",
        };
        PluginInfo {
            name: String::from_str(name),
            version: String::from_str("0.0.0"),
            path: String::from_str(path),
            plugin_type: String::from_str("rust"),
        }
    }
}

} // verus!
