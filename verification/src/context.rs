//! What each operation works on: the records that the host resolved for it,
//! each slot either holding a record or empty, and the caller's identity.

use crate::account::{PigeonState, UserAccount};
use anchor_lang::prelude::Pubkey;
use vstd::prelude::*;

verus! {

/// The admin gate: a state record exists and names `caller` as its admin.
pub open spec fn is_admin(state: Option<PigeonState>, caller: Pubkey) -> bool {
    state matches Some(s) && s.admin == caller
}

/// Records resolved for `initialize`.
pub struct Initialize {
    /// The slot of the singleton state record.
    pub pigeon_state: Option<PigeonState>,
    /// The caller, who becomes the admin.
    pub admin: Pubkey,
}

/// Records resolved for `onboard_user`.
pub struct OnboardUser {
    pub pigeon_state: Option<PigeonState>,
    /// The slot under the phone number to onboard.
    pub user_account: Option<UserAccount>,
    /// The caller.
    pub admin: Pubkey,
}

/// Records resolved for `update_user`.
pub struct UpdateUser {
    pub pigeon_state: Option<PigeonState>,
    /// The slot under the phone number to update.
    pub user_account: Option<UserAccount>,
    /// The caller.
    pub admin: Pubkey,
}

/// Records resolved for `delete_user`.
pub struct DeleteUser {
    pub pigeon_state: Option<PigeonState>,
    /// The slot under the phone number to delete.
    pub user_account: Option<UserAccount>,
    /// The caller.
    pub admin: Pubkey,
}

/// Records resolved for `get_user` and `get_user_address`.
pub struct GetUser {
    pub user_account: Option<UserAccount>,
}

/// Records resolved for `user_exists`.
pub struct UserExists {
    pub user_account: Option<UserAccount>,
}

/// Records resolved for `get_total_users`.
pub struct GetTotalUsers {
    pub pigeon_state: Option<PigeonState>,
}

} // verus!
