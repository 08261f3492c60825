use vstd::prelude::*;
use std::sync::Arc;
use crate::error::TurbosheetError;
use crate::edge::runtime::{EdgeRuntime, RuntimeType};

verus! {

/// Runs tests in the edge runtime it was given.
pub struct EdgeTestRunner {
    runtime: Arc<EdgeRuntime>,
}

/// How long a test takes in a runtime, in milliseconds: 50 on a JavaScript
/// edge host, 150 on Node or bare metal; none in an unknown runtime.
pub open spec fn execution_time_spec(t: RuntimeType) -> Option<u64> {
    match t {
        RuntimeType::Workerd | RuntimeType::Deno | RuntimeType::Bun => Some(50u64),
        RuntimeType::Node | RuntimeType::BareMetal => Some(150u64),
        RuntimeType::Unknown => None,
    }
}

impl EdgeTestRunner {
    /// A runner for `runtime`.
    pub fn new(runtime: Arc<EdgeRuntime>) -> (r: Self)
        ensures
            r.runtime() == *runtime,
    {
        EdgeTestRunner { runtime }
    }

    /// The runtime the runner uses.
    pub closed spec fn runtime(&self) -> EdgeRuntime {
        *self.runtime
    }

    /// The kind of runtime the runner uses.
    pub fn runtime_type(&self) -> (t: RuntimeType)
        ensures
            t == self.runtime().info_spec().runtime_type,
    {
        self.runtime.info().runtime_type
    }

    /// How a test is run here: the time it takes (see
    /// `execution_time_spec`) and that it passes, or the error for an
    /// unknown runtime.
    pub fn execution_plan(&self) -> (r: Result<u64, TurbosheetError>)
        ensures
            match execution_time_spec(self.runtime().info_spec().runtime_type) {
                Some(ms) => r == Ok::<u64, TurbosheetError>(ms),
                None => r matches Err(TurbosheetError::Other(m)) && m@ == "Unsupported runtime for edge execution"@,
            },
    {
        match self.runtime.info().runtime_type {
            RuntimeType::Workerd | RuntimeType::Deno | RuntimeType::Bun => Ok(50),
            RuntimeType::Node | RuntimeType::BareMetal => Ok(150),
            RuntimeType::Unknown => Err(TurbosheetError::Other(String::from_str("Unsupported runtime for edge execution"))),
        }
    }
}

} // verus!
