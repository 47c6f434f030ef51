//! The operations, each as a transition on the records resolved for it.
//! A refused operation changes nothing.

use crate::account::{
    byte_len, PigeonState, UserAccount, UserData, UserRecord, MAX_ADDRESS_LEN, MAX_MNEMONIC_LEN,
};
use crate::context::{
    is_admin, DeleteUser, GetTotalUsers, GetUser, Initialize, OnboardUser, UpdateUser, UserExists,
};
use crate::error::PigeonError;
use crate::identity::same_key;
use anchor_lang::prelude::Pubkey;
use vstd::prelude::*;

verus! {

/// The guard in front of every mutation: passes exactly when a state record
/// exists and `caller` is its admin.
pub fn require_admin(state: &Option<PigeonState>, caller: &Pubkey) -> (result: Result<
    (),
    PigeonError,
>)
    ensures
        result == if is_admin(*state, *caller) {
            Ok::<(), PigeonError>(())
        } else {
            Err(PigeonError::Unauthorized)
        },
{
    match state {
        Some(s) => if same_key(&s.admin, caller) {
            Ok(())
        } else {
            Err(PigeonError::Unauthorized)
        },
        None => Err(PigeonError::Unauthorized),
    }
}

/// Creates the state record and makes the caller its admin. A second call
/// finds the record in place and is refused.
pub fn initialize(ctx: &mut Initialize) -> (result: Result<(), PigeonError>)
    ensures
        result == if old(ctx).pigeon_state is Some {
            Err::<(), PigeonError>(PigeonError::AlreadyExists)
        } else {
            Ok(())
        },
        result is Err ==> *final(ctx) == *old(ctx),
        result is Ok ==> {
            &&& final(ctx).admin == old(ctx).admin
            &&& final(ctx).pigeon_state == Some(
                PigeonState { admin: old(ctx).admin, total_users: 0 },
            )
        },
{
    if ctx.pigeon_state.is_some() {
        return Err(PigeonError::AlreadyExists);
    }
    ctx.pigeon_state = Some(PigeonState { admin: ctx.admin, total_users: 0 });
    Ok(())
}

/// What `onboard_user` answers on the given records.
pub open spec fn onboard_user_outcome(ctx: OnboardUser) -> Result<(), PigeonError> {
    if !is_admin(ctx.pigeon_state, ctx.admin) {
        Err(PigeonError::Unauthorized)
    } else if ctx.user_account is Some {
        Err(PigeonError::AlreadyExists)
    } else if ctx.pigeon_state->0.total_users == u64::MAX {
        Err(PigeonError::Overflow)
    } else {
        Ok(())
    }
}

/// Registers a new user under `phone` and counts them.
pub fn onboard_user(
    ctx: &mut OnboardUser,
    phone: String,
    address: String,
    encrypted_mnemonic: String,
    created_at: u64,
) -> (result: Result<(), PigeonError>)
    requires
        (UserRecord {
            phone: phone@,
            address: address@,
            encrypted_mnemonic: encrypted_mnemonic@,
            created_at,
        }).within_limits(),
    ensures
        result == onboard_user_outcome(*old(ctx)),
        result is Err ==> *final(ctx) == *old(ctx),
        result is Ok ==> {
            &&& final(ctx).admin == old(ctx).admin
            &&& final(ctx).pigeon_state == Some(
                PigeonState {
                    admin: old(ctx).pigeon_state->0.admin,
                    total_users: (old(ctx).pigeon_state->0.total_users + 1) as u64,
                },
            )
            &&& final(ctx).user_account is Some
            &&& final(ctx).user_account->0@ == (UserRecord {
                phone: phone@,
                address: address@,
                encrypted_mnemonic: encrypted_mnemonic@,
                created_at,
            })
        },
{
    require_admin(&ctx.pigeon_state, &ctx.admin)?;
    if ctx.user_account.is_some() {
        return Err(PigeonError::AlreadyExists);
    }
    let state = match ctx.pigeon_state.take() {
        Some(state) => state,
        None => { return Err(PigeonError::Unauthorized); },
    };
    let total_users = match state.total_users.checked_add(1) {
        Some(n) => n,
        None => {
            ctx.pigeon_state = Some(state);
            return Err(PigeonError::Overflow);
        },
    };
    ctx.user_account = Some(UserAccount { phone, address, encrypted_mnemonic, created_at });
    ctx.pigeon_state = Some(PigeonState { admin: state.admin, total_users });
    Ok(())
}

/// What `update_user` answers on the given records.
pub open spec fn update_user_outcome(ctx: UpdateUser) -> Result<(), PigeonError> {
    if !is_admin(ctx.pigeon_state, ctx.admin) {
        Err(PigeonError::Unauthorized)
    } else if ctx.user_account is None {
        Err(PigeonError::NotFound)
    } else {
        Ok(())
    }
}

/// Replaces the wallet address and the ciphertext of the resolved user. The
/// phone number and the onboarding time stay as they are.
pub fn update_user(
    ctx: &mut UpdateUser,
    _phone: String,
    address: String,
    encrypted_mnemonic: String,
) -> (result: Result<(), PigeonError>)
    requires
        byte_len(address@) <= MAX_ADDRESS_LEN,
        byte_len(encrypted_mnemonic@) <= MAX_MNEMONIC_LEN,
    ensures
        result == update_user_outcome(*old(ctx)),
        result is Err ==> *final(ctx) == *old(ctx),
        result is Ok ==> {
            &&& final(ctx).admin == old(ctx).admin
            &&& final(ctx).pigeon_state == old(ctx).pigeon_state
            &&& final(ctx).user_account is Some
            &&& final(ctx).user_account->0@ == old(ctx).user_account->0@.updated(
                address@,
                encrypted_mnemonic@,
            )
        },
{
    require_admin(&ctx.pigeon_state, &ctx.admin)?;
    let user = match ctx.user_account.take() {
        Some(user) => user,
        None => { return Err(PigeonError::NotFound); },
    };
    ctx.user_account = Some(
        UserAccount {
            phone: user.phone,
            address,
            encrypted_mnemonic,
            created_at: user.created_at,
        },
    );
    Ok(())
}

/// What `delete_user` answers on the given records.
pub open spec fn delete_user_outcome(ctx: DeleteUser) -> Result<(), PigeonError> {
    if !is_admin(ctx.pigeon_state, ctx.admin) {
        Err(PigeonError::Unauthorized)
    } else if ctx.user_account is None {
        Err(PigeonError::NotFound)
    } else if ctx.pigeon_state->0.total_users == 0 {
        Err(PigeonError::Underflow)
    } else {
        Ok(())
    }
}

/// Removes the resolved user and counts one user fewer. The slot is left
/// empty, free for the same phone number to be onboarded again.
pub fn delete_user(ctx: &mut DeleteUser, _phone: String) -> (result: Result<(), PigeonError>)
    ensures
        result == delete_user_outcome(*old(ctx)),
        result is Err ==> *final(ctx) == *old(ctx),
        result is Ok ==> {
            &&& final(ctx).admin == old(ctx).admin
            &&& final(ctx).pigeon_state == Some(
                PigeonState {
                    admin: old(ctx).pigeon_state->0.admin,
                    total_users: (old(ctx).pigeon_state->0.total_users - 1) as u64,
                },
            )
            &&& final(ctx).user_account is None
        },
{
    require_admin(&ctx.pigeon_state, &ctx.admin)?;
    if ctx.user_account.is_none() {
        return Err(PigeonError::NotFound);
    }
    let state = match ctx.pigeon_state.take() {
        Some(state) => state,
        None => { return Err(PigeonError::Unauthorized); },
    };
    let total_users = match state.total_users.checked_sub(1) {
        Some(n) => n,
        None => {
            ctx.pigeon_state = Some(state);
            return Err(PigeonError::Underflow);
        },
    };
    ctx.pigeon_state = Some(PigeonState { admin: state.admin, total_users });
    ctx.user_account = None;
    Ok(())
}

/// The full record of the resolved user.
pub fn get_user(ctx: &GetUser, _phone: String) -> (result: Result<UserData, PigeonError>)
    ensures
        match result {
            Ok(data) => ctx.user_account matches Some(user) && data@ == user@,
            Err(e) => ctx.user_account is None && e == PigeonError::NotFound,
        },
{
    match &ctx.user_account {
        Some(user) => Ok(user.to_data()),
        None => Err(PigeonError::NotFound),
    }
}

/// Whether a user is stored under the resolved slot: `Ok(true)` if so, and
/// the `NotFound` failure otherwise.
pub fn user_exists(ctx: &UserExists, _phone: String) -> (result: Result<bool, PigeonError>)
    ensures
        result == if ctx.user_account is Some {
            Ok::<bool, PigeonError>(true)
        } else {
            Err(PigeonError::NotFound)
        },
{
    match &ctx.user_account {
        Some(_) => Ok(true),
        None => Err(PigeonError::NotFound),
    }
}

/// The wallet address of the resolved user.
pub fn get_user_address(ctx: &GetUser, _phone: String) -> (result: Result<String, PigeonError>)
    ensures
        match result {
            Ok(address) => ctx.user_account matches Some(user) && address@ == user.address@,
            Err(e) => ctx.user_account is None && e == PigeonError::NotFound,
        },
{
    match &ctx.user_account {
        Some(user) => Ok(user.address.clone()),
        None => Err(PigeonError::NotFound),
    }
}

/// The number of live users, read from the state record.
pub fn get_total_users(ctx: &GetTotalUsers) -> (result: Result<u64, PigeonError>)
    ensures
        result == match ctx.pigeon_state {
            Some(state) => Ok::<u64, PigeonError>(state.total_users),
            None => Err(PigeonError::NotFound),
        },
{
    match &ctx.pigeon_state {
        Some(state) => Ok(state.total_users),
        None => Err(PigeonError::NotFound),
    }
}

} // verus!
