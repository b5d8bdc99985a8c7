use vstd::prelude::*;

verus! {

/// Sends requests to the origin verbatim, with no change to them.
pub struct DirectRequestSender;

} // verus!
