use vstd::prelude::*;

verus! {

/// A WebDriver BiDi connection; it carries no state yet, as console events
/// of such browsers are polled instead.
pub struct BidiConnection;

} // verus!
