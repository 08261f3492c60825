use vstd::prelude::*;
use std::collections::HashMap;
use crate::text::{push_str, string_from_chars, replace_spec, replace_str, contains_spec, str_contains, str_eq};
use crate::engine::keys::{lowercase_of, to_lowercase};
use crate::text::{all_ascii, ascii_lower_char};

verus! {

/// The UI frameworks a component can be written in.
#[derive(PartialEq, Eq, Structural, Clone, Copy, Debug)]
pub enum FrameworkType {
    React,
    Vue,
    Svelte,
    Auto,
}

impl Default for FrameworkType {
    fn default() -> (r: Self)
        ensures
            r == FrameworkType::Auto,
    {
        FrameworkType::Auto
    }
}

/// The lowercase name of a framework.
pub open spec fn framework_name(f: FrameworkType) -> Seq<char> {
    match f {
        FrameworkType::React => "react"@,
        FrameworkType::Vue => "vue"@,
        FrameworkType::Svelte => "svelte"@,
        FrameworkType::Auto => "auto"@,
    }
}

impl FrameworkType {
    /// The framework's lowercase name, as it is displayed.
    pub fn name(&self) -> (s: String)
        ensures
            s@ == framework_name(*self),
    {
        match self {
            FrameworkType::React => String::from_str("react"),
            FrameworkType::Vue => String::from_str("vue"),
            FrameworkType::Svelte => String::from_str("svelte"),
            FrameworkType::Auto => String::from_str("auto"),
        }
    }
}

/// How a component is mounted: its framework, the element wrapped around
/// it, its properties and how long to wait for it, in milliseconds.
pub struct ComponentMountOptions {
    pub framework: Option<String>,
    pub wrapper: Option<String>,
    pub props: Option<HashMap<String, String>>,
    pub timeout: Option<u32>,
}

impl Default for ComponentMountOptions {
    fn default() -> (r: Self)
        ensures
            r.framework.is_none(),
            r.wrapper.is_none(),
            r.props.is_none(),
            r.timeout.is_none(),
    {
        ComponentMountOptions { framework: None, wrapper: None, props: None, timeout: None }
    }
}

impl ComponentMountOptions {
    /// How long to wait for the component to render: the given timeout, or
    /// 5000 ms.
    pub fn timeout_ms(&self) -> (r: u64)
        ensures
            r == match self.timeout {
                Some(t) => t as u64,
                None => 5000u64,
            },
    {
        match self.timeout {
            Some(t) => t as u64,
            None => 5000,
        }
    }
}

/// The framework with the lowercase name `l`; `Auto` for any other.
pub open spec fn framework_from_lowered(l: Seq<char>) -> FrameworkType {
    if l == "react"@ {
        FrameworkType::React
    } else if l == "vue"@ {
        FrameworkType::Vue
    } else if l == "svelte"@ {
        FrameworkType::Svelte
    } else {
        FrameworkType::Auto
    }
}

/// The framework named (in any case) by `s`; `Auto` for any other name or
/// none.
pub open spec fn framework_of(s: Option<Seq<char>>) -> FrameworkType {
    match s {
        Some(x) => framework_from_lowered(lowercase_of(x)),
        None => FrameworkType::Auto,
    }
}

/// The framework named by `s` (see `framework_of`); for an ASCII name,
/// the one whose name it is up to case.
pub fn parse_framework(s: Option<&str>) -> (r: FrameworkType)
    ensures
        r == framework_of(match s {
            Some(x) => Some(x@),
            None => None,
        }),
        match s {
            Some(x) => all_ascii(x@) ==> r == framework_from_lowered(x@.map_values(|c: char| ascii_lower_char(c))),
            None => true,
        },
{
    match s {
        Some(x) => {
            let l = to_lowercase(x);
            if str_eq(l.as_str(), "react") {
                FrameworkType::React
            } else if str_eq(l.as_str(), "vue") {
                FrameworkType::Vue
            } else if str_eq(l.as_str(), "svelte") {
                FrameworkType::Svelte
            } else {
                FrameworkType::Auto
            }
        },
        None => FrameworkType::Auto,
    }
}

/// A framework's name reads back, in any case, as that framework.
pub proof fn law_framework_name_round_trip(f: FrameworkType)
    ensures
        framework_from_lowered(framework_name(f).map_values(|c: char| ascii_lower_char(c))) == f,
{
    reveal_strlit("react");
    reveal_strlit("vue");
    reveal_strlit("svelte");
    reveal_strlit("auto");
    let n = framework_name(f);
    assert(n.map_values(|c: char| ascii_lower_char(c)) =~= n);
}

/// Source text made safe inside a JavaScript template literal: backticks
/// and dollar signs escaped with a backslash.
pub open spec fn escape_template_spec(s: Seq<char>) -> Seq<char> {
    replace_spec(replace_spec(s, "`"@, "\\`"@), "$"@, "\\$"@)
}

/// Escapes `s` as `escape_template_spec` describes.
pub fn escape_template(s: &str) -> (r: String)
    ensures
        r@ == escape_template_spec(s@),
{
    let a = replace_str(s, "`", "\\`");
    replace_str(a.as_str(), "$", "\\$")
}

/// The page that mounts a React component inside `wrapper`.
pub open spec fn react_html_spec(component: Seq<char>, wrapper: Seq<char>) -> Seq<char> {
    ("<!DOCTYPE html>\n<html>\n<head>\n  <meta charset=\"UTF-8\">\n  <script src=\"https://unpkg.com/react@18/umd/react.production.min.js\" crossorigin></script>\n  <script src=\"https://unpkg.com/react-dom@18/umd/react-dom.production.min.js\" crossorigin></script>\n  <script src=\"https://unpkg.com/@babel/standalone/babel.min.js\"></script>\n  <style>\n    * { box-sizing: border-box; }\n    body { margin: 0; font-family: -apple-system, BlinkMacSystemFont, 'Segoe UI', sans-serif; }\n  </style>\n</head>\n<body>\n  <div id=\"root\"></div>\n  <script type=\"text/babel\" data-presets=\"react\">\nconst Wrapper = (props) => <")@ + wrapper + (" {...props} />;\nconst Component = () => {\nreturn <Wrapper>{")@ + escape_template_spec(component) + ("}</Wrapper>;\n};\ntry {\nconst root = ReactDOM.createRoot(document.getElementById('root'));\nroot.render(<Component />);\n} catch (e) {\ndocument.getElementById('root').innerHTML = '<div style=\"color: #dc2626; padding: 20px; background: #fef2f2; border: 1px solid #fecaca; border-radius: 8px; margin: 20px;\"><strong>Error:</strong> ' + e.message + '</div>';\n}\n  </script>\n</body>\n</html>")@
}

/// The page that mounts a Vue template.
pub open spec fn vue_html_spec(component: Seq<char>) -> Seq<char> {
    ("<!DOCTYPE html>\n<html>\n<head>\n  <meta charset=\"UTF-8\">\n  <script src=\"https://unpkg.com/vue@3/dist/vue.global.prod.js\"></script>\n  <style>\n    * { box-sizing: border-box; }\n    body { margin: 0; font-family: -apple-system, BlinkMacSystemFont, 'Segoe UI', sans-serif; }\n  </style>\n</head>\n<body>\n  <div id=\"app\"></div>\n  <script>\n    const app = Vue.createApp({\n      template: `\n")@ + escape_template_spec(component) + ("`\n    });\n    app.mount('#app');\n  </script>\n</body>\n</html>")@
}

/// The page that compiles and mounts a Svelte component.
pub open spec fn svelte_html_spec(component: Seq<char>) -> Seq<char> {
    ("<!DOCTYPE html>\n<html>\n<head>\n  <meta charset=\"UTF-8\">\n  <script src=\"https://unpkg.com/svelte@3.59.2/compiler.js\"></script>\n  <style>\n    * { box-sizing: border-box; }\n    body { margin: 0; font-family: -apple-system, BlinkMacSystemFont, 'Segoe UI', sans-serif; }\n  </style>\n</head>\n<body>\n  <div id=\"root\"></div>\n  <script type=\"module\">\ntry {\nconst { js } = svelte.compile(`")@ + escape_template_spec(component) + ("`, { format: 'esm' });\nconst code = js.code.replace(/svelte\\/internal/g, 'https://unpkg.com/svelte@3.59.2/internal/index.mjs');\nconst blob = new Blob([code], { type: 'text/javascript' });\nconst url = URL.createObjectURL(blob);\nimport(url).then(mod => {\nwindow.__svelte_app = new mod.default({ target: document.getElementById('root') });\n});\n} catch (e) {\ndocument.getElementById('root').innerHTML = '<div style=\"color: #dc2626; padding: 20px; background: #fef2f2; border: 1px solid #fecaca; border-radius: 8px; margin: 20px;\"><strong>Svelte Error:</strong> ' + e.message + '</div>';\n}\n  </script>\n</body>\n</html>")@
}

/// The element a component is wrapped in: the one given, or `div`.
pub open spec fn wrapper_of(opts: ComponentMountOptions) -> Seq<char> {
    match opts.wrapper {
        Some(w) => w@,
        None => "div"@,
    }
}

/// The page for a component in a framework; with `Auto`, React when the
/// source mentions `React`, `jsx` or `<`, else Vue when it holds
/// `<template`, else React.
pub open spec fn component_html_spec(component: Seq<char>, framework: FrameworkType, wrapper: Seq<char>) -> Seq<char> {
    match framework {
        FrameworkType::React => react_html_spec(component, wrapper),
        FrameworkType::Vue => vue_html_spec(component),
        FrameworkType::Svelte => svelte_html_spec(component),
        FrameworkType::Auto => if contains_spec(component, "React"@) || contains_spec(component, "jsx"@)
            || contains_spec(component, "<"@) {
            react_html_spec(component, wrapper)
        } else if contains_spec(component, "<template"@) {
            vue_html_spec(component)
        } else {
            react_html_spec(component, wrapper)
        },
    }
}

/// The page that mounts `component` (see `component_html_spec`).
pub fn render_component_html(component: &str, framework: &FrameworkType, opts: &ComponentMountOptions) -> (r: String)
    ensures
        r@ == component_html_spec(component@, *framework, wrapper_of(*opts)),
{
    match framework {
        FrameworkType::React => render_react_html(component, opts),
        FrameworkType::Vue => render_vue_html(component, opts),
        FrameworkType::Svelte => render_svelte_html(component, opts),
        FrameworkType::Auto => {
            if str_contains(component, "React") || str_contains(component, "jsx") || str_contains(component, "<") {
                render_react_html(component, opts)
            } else if str_contains(component, "<template") {
                render_vue_html(component, opts)
            } else {
                render_react_html(component, opts)
            }
        },
    }
}

/// The React page for `component` (see `react_html_spec`).
pub fn render_react_html(component: &str, opts: &ComponentMountOptions) -> (r: String)
    ensures
        r@ == react_html_spec(component@, wrapper_of(*opts)),
{
    let escaped = escape_template(component);
    let mut out: Vec<char> = Vec::new();
    push_str(&mut out, "<!DOCTYPE html>\n<html>\n<head>\n  <meta charset=\"UTF-8\">\n  <script src=\"https://unpkg.com/react@18/umd/react.production.min.js\" crossorigin></script>\n  <script src=\"https://unpkg.com/react-dom@18/umd/react-dom.production.min.js\" crossorigin></script>\n  <script src=\"https://unpkg.com/@babel/standalone/babel.min.js\"></script>\n  <style>\n    * { box-sizing: border-box; }\n    body { margin: 0; font-family: -apple-system, BlinkMacSystemFont, 'Segoe UI', sans-serif; }\n  </style>\n</head>\n<body>\n  <div id=\"root\"></div>\n  <script type=\"text/babel\" data-presets=\"react\">\nconst Wrapper = (props) => <");
    match &opts.wrapper {
        Some(w) => push_str(&mut out, w.as_str()),
        None => push_str(&mut out, "div"),
    }
    push_str(&mut out, " {...props} />;\nconst Component = () => {\nreturn <Wrapper>{");
    push_str(&mut out, escaped.as_str());
    push_str(&mut out, "}</Wrapper>;\n};\ntry {\nconst root = ReactDOM.createRoot(document.getElementById('root'));\nroot.render(<Component />);\n} catch (e) {\ndocument.getElementById('root').innerHTML = '<div style=\"color: #dc2626; padding: 20px; background: #fef2f2; border: 1px solid #fecaca; border-radius: 8px; margin: 20px;\"><strong>Error:</strong> ' + e.message + '</div>';\n}\n  </script>\n</body>\n</html>");
    assert(out@ =~= react_html_spec(component@, wrapper_of(*opts)));
    string_from_chars(&out)
}

/// The Vue page for `component` (see `vue_html_spec`).
pub fn render_vue_html(component: &str, opts: &ComponentMountOptions) -> (r: String)
    ensures
        r@ == vue_html_spec(component@),
{
    let escaped = escape_template(component);
    let mut out: Vec<char> = Vec::new();
    push_str(&mut out, "<!DOCTYPE html>\n<html>\n<head>\n  <meta charset=\"UTF-8\">\n  <script src=\"https://unpkg.com/vue@3/dist/vue.global.prod.js\"></script>\n  <style>\n    * { box-sizing: border-box; }\n    body { margin: 0; font-family: -apple-system, BlinkMacSystemFont, 'Segoe UI', sans-serif; }\n  </style>\n</head>\n<body>\n  <div id=\"app\"></div>\n  <script>\n    const app = Vue.createApp({\n      template: `\n");
    push_str(&mut out, escaped.as_str());
    push_str(&mut out, "`\n    });\n    app.mount('#app');\n  </script>\n</body>\n</html>");
    assert(out@ =~= vue_html_spec(component@));
    string_from_chars(&out)
}

/// The Svelte page for `component` (see `svelte_html_spec`).
pub fn render_svelte_html(component: &str, opts: &ComponentMountOptions) -> (r: String)
    ensures
        r@ == svelte_html_spec(component@),
{
    let escaped = escape_template(component);
    let mut out: Vec<char> = Vec::new();
    push_str(&mut out, "<!DOCTYPE html>\n<html>\n<head>\n  <meta charset=\"UTF-8\">\n  <script src=\"https://unpkg.com/svelte@3.59.2/compiler.js\"></script>\n  <style>\n    * { box-sizing: border-box; }\n    body { margin: 0; font-family: -apple-system, BlinkMacSystemFont, 'Segoe UI', sans-serif; }\n  </style>\n</head>\n<body>\n  <div id=\"root\"></div>\n  <script type=\"module\">\ntry {\nconst { js } = svelte.compile(`");
    push_str(&mut out, escaped.as_str());
    push_str(&mut out, "`, { format: 'esm' });\nconst code = js.code.replace(/svelte\\/internal/g, 'https://unpkg.com/svelte@3.59.2/internal/index.mjs');\nconst blob = new Blob([code], { type: 'text/javascript' });\nconst url = URL.createObjectURL(blob);\nimport(url).then(mod => {\nwindow.__svelte_app = new mod.default({ target: document.getElementById('root') });\n});\n} catch (e) {\ndocument.getElementById('root').innerHTML = '<div style=\"color: #dc2626; padding: 20px; background: #fef2f2; border: 1px solid #fecaca; border-radius: 8px; margin: 20px;\"><strong>Svelte Error:</strong> ' + e.message + '</div>';\n}\n  </script>\n</body>\n</html>");
    assert(out@ =~= svelte_html_spec(component@));
    string_from_chars(&out)
}

/// The framework a `package.json` depends on: the first of React, Vue and
/// Svelte whose quoted name it holds, else "unknown".
pub open spec fn framework_in_package_json(s: Seq<char>) -> Seq<char> {
    if contains_spec(s, "\"react\""@) {
        "react"@
    } else if contains_spec(s, "\"vue\""@) {
        "vue"@
    } else if contains_spec(s, "\"svelte\""@) {
        "svelte"@
    } else {
        "unknown"@
    }
}

/// See `framework_in_package_json`.
pub fn detect_framework_from_package_json(package_json: String) -> (r: String)
    ensures
        r@ == framework_in_package_json(package_json@),
{
    let s = package_json.as_str();
    if str_contains(s, "\"react\"") {
        String::from_str("react")
    } else if str_contains(s, "\"vue\"") {
        String::from_str("vue")
    } else if str_contains(s, "\"svelte\"") {
        String::from_str("svelte")
    } else {
        String::from_str("unknown")
    }
}

/// Whether source text imports or requires the module `m`, quoted either
/// way.
pub open spec fn imports_spec(s: Seq<char>, from_single: Seq<char>, from_double: Seq<char>, req_single: Seq<char>, req_double: Seq<char>) -> bool {
    contains_spec(s, from_single) || contains_spec(s, from_double) || contains_spec(s, req_single)
        || contains_spec(s, req_double)
}

/// The framework a test file imports: React (or React DOM), Vue or Svelte,
/// tested in that order, else "unknown".
pub open spec fn framework_in_source(s: Seq<char>) -> Seq<char> {
    if imports_spec(s, "from 'react'"@, "from \"react\""@, "require('react')"@, "require(\"react\")"@)
        || contains_spec(s, "from 'react-dom'"@) || contains_spec(s, "from \"react-dom\""@) {
        "react"@
    } else if imports_spec(s, "from 'vue'"@, "from \"vue\""@, "require('vue')"@, "require(\"vue\")"@) {
        "vue"@
    } else if imports_spec(s, "from 'svelte'"@, "from \"svelte\""@, "require('svelte')"@, "require(\"svelte\")"@) {
        "svelte"@
    } else {
        "unknown"@
    }
}

/// See `framework_in_source`.
pub fn detect_framework_from_source(source: String) -> (r: String)
    ensures
        r@ == framework_in_source(source@),
{
    let s = source.as_str();
    if str_contains(s, "from 'react'") || str_contains(s, "from \"react\"") || str_contains(s, "require('react')")
        || str_contains(s, "require(\"react\")") || str_contains(s, "from 'react-dom'")
        || str_contains(s, "from \"react-dom\"") {
        String::from_str("react")
    } else if str_contains(s, "from 'vue'") || str_contains(s, "from \"vue\"") || str_contains(s, "require('vue')")
        || str_contains(s, "require(\"vue\")") {
        String::from_str("vue")
    } else if str_contains(s, "from 'svelte'") || str_contains(s, "from \"svelte\"")
        || str_contains(s, "require('svelte')") || str_contains(s, "require(\"svelte\")") {
        String::from_str("svelte")
    } else {
        String::from_str("unknown")
    }
}

} // verus!
