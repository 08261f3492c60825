use vstd::prelude::*;
use crate::text::{push_str, string_from_chars};
use crate::ids::{new_uuid, is_hyphenated_uuid};
use crate::injection::stealth::process_script_spec;

verus! {

/// Holds the compiled injected scripts (the core script, run on every new
/// document, and the actions script, loaded on the first action) and
/// builds the snippets that call into them.
pub struct InjectionManager {
    core_script: String,
    actions_script: String,
}

/// The snippet that loads the actions script if needed and dispatches
/// `action` with id `action_id` through the page's global proxy.
pub open spec fn action_call_spec(
    actions_script: Seq<char>,
    global_name: Seq<char>,
    binding_name: Seq<char>,
    action: Seq<char>,
    args_serialized: Seq<char>,
    action_id: Seq<char>,
) -> Seq<char> {
    "(async function() {\n                if (!window."@ + global_name + " || !window."@ + global_name
        + ".content) {\n                    "@ + process_script_spec(actions_script, global_name, binding_name)
        + "\n                }\n                window."@ + global_name + ".dispatch('"@ + action_id
        + "', '"@ + action + (if args_serialized.len() == 0 { ""@ } else { ", "@ }) + args_serialized
        + "');\n            })()"@
}

impl InjectionManager {
    /// A manager for the given compiled scripts.
    pub fn new(core_script: String, actions_script: String) -> (r: Self)
        ensures
            r.core_script_view() == core_script@,
            r.actions_script_view() == actions_script@,
    {
        InjectionManager { core_script, actions_script }
    }

    pub closed spec fn core_script_view(&self) -> Seq<char> {
        self.core_script@
    }

    pub closed spec fn actions_script_view(&self) -> Seq<char> {
        self.actions_script@
    }

    /// The core script, for `addScriptToEvaluateOnNewDocument`.
    pub fn core_script(&self) -> (s: &str)
        ensures
            s@ == self.core_script_view(),
    {
        self.core_script.as_str()
    }

    /// The actions script.
    pub fn actions_script(&self) -> (s: &str)
        ensures
            s@ == self.actions_script_view(),
    {
        self.actions_script.as_str()
    }

    /// The action-call snippet for the given action id (see `action_call_spec`).
    pub fn build_action_call_with_id(
        &self,
        global_name: &str,
        binding_name: &str,
        action: &str,
        args_serialized: &str,
        action_id: &str,
    ) -> (r: String)
        ensures
            r@ == action_call_spec(
                self.actions_script_view(),
                global_name@,
                binding_name@,
                action@,
                args_serialized@,
                action_id@,
            ),
    {
        let script = crate::text::replace_str(self.actions_script.as_str(), "__TS_GLOBAL__", global_name);
        let script = crate::text::replace_str(script.as_str(), "__TS_BINDING__", binding_name);
        let mut out: Vec<char> = Vec::new();
        push_str(&mut out, "(async function() {\n                if (!window.");
        push_str(&mut out, global_name);
        push_str(&mut out, " || !window.");
        push_str(&mut out, global_name);
        push_str(&mut out, ".content) {\n                    ");
        push_str(&mut out, script.as_str());
        push_str(&mut out, "\n                }\n                window.");
        push_str(&mut out, global_name);
        push_str(&mut out, ".dispatch('");
        push_str(&mut out, action_id);
        push_str(&mut out, "', '");
        push_str(&mut out, action);
        if args_serialized.is_empty() {
            push_str(&mut out, "");
        } else {
            push_str(&mut out, ", ");
        }
        push_str(&mut out, args_serialized);
        push_str(&mut out, "');\n            })()");
        string_from_chars(&out)
    }

    /// The action-call snippet, with a fresh random action id.
    pub fn build_action_call(
        &self,
        global_name: &str,
        binding_name: &str,
        action: &str,
        args_serialized: &str,
    ) -> (r: String)
        ensures
            exists|id: Seq<char>| is_hyphenated_uuid(id) && r@ == #[trigger] action_call_spec(
                self.actions_script_view(),
                global_name@,
                binding_name@,
                action@,
                args_serialized@,
                id,
            ),
    {
        let id = new_uuid();
        self.build_action_call_with_id(global_name, binding_name, action, args_serialized, id.as_str())
    }
}

} // verus!
