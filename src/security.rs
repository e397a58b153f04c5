use vstd::prelude::*;

verus! {

/// The acting user, as handed over by the authentication layer.
#[derive(Clone, Copy, Debug, PartialEq, Eq)]
pub struct UserCtx {
    pub user_id: i64,
}

} // verus!
