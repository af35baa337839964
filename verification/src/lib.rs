pub mod chat;
pub mod decision;
pub mod engine;
pub mod extract;
pub mod jsonio;
pub mod repair;
pub mod schema;
pub mod strtool;

use vstd::prelude::*;

verus! {

/// Default used when a request omits its routing option: tool handling is on.
pub fn default_true() -> (r: bool)
    ensures
        r,
{
    true
}

} // verus!
