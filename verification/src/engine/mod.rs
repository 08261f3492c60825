use vstd::prelude::*;

pub mod bidi;
pub mod bidi_preprocessor;
pub mod chromium;
pub mod keys;
pub mod webdriver;
pub mod webkit;

verus! {

/// The point of page loading that a navigation waits for.
#[derive(PartialEq, Eq, Structural, Clone, Copy, Debug)]
pub enum LoadState {
    Load,
    DomContentLoaded,
    NetworkIdle,
}

impl Default for LoadState {
    fn default() -> (r: Self)
        ensures
            r == LoadState::Load,
    {
        LoadState::Load
    }
}

/// How often, and how far apart, an operation is retried.
#[derive(PartialEq, Eq, Structural, Clone, Copy, Debug)]
pub struct RetryConfig {
    pub retries: u32,
    pub delay_ms: u64,
}

impl Default for RetryConfig {
    fn default() -> (r: Self)
        ensures
            r.retries == 3,
            r.delay_ms == 100,
    {
        RetryConfig { retries: 3, delay_ms: 100 }
    }
}

} // verus!
