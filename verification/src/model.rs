//! The registry as a mathematical value, and each operation as a function
//! on it: what it answers, and the registry it leaves behind.

use crate::account::{byte_len, PigeonState, UserRecord, MAX_ADDRESS_LEN, MAX_MNEMONIC_LEN};
use crate::context::is_admin;
use crate::error::PigeonError;
use anchor_lang::prelude::Pubkey;
use vstd::prelude::*;

verus! {

/// A whole deployment: the state record, if it was created, and the live
/// user records by phone number.
#[verifier::ext_equal]
pub struct RegistryView {
    pub state: Option<PigeonState>,
    pub users: Map<Seq<char>, UserRecord>,
}

impl RegistryView {
    /// A deployment on which nothing has run yet.
    pub open spec fn fresh() -> RegistryView {
        RegistryView { state: None, users: Map::empty() }
    }

    /// Every record is stored under its own phone number and fits its
    /// storage, and the counter is the number of live records.
    pub open spec fn wf(self) -> bool {
        &&& self.users.dom().finite()
        &&& forall|phone: Seq<char>| #[trigger]
            self.users.contains_key(phone) ==> self.users[phone].phone == phone
                && self.users[phone].within_limits()
        &&& match self.state {
            Some(state) => state.total_users == self.users.dom().len(),
            None => self.users.dom().len() == 0,
        }
    }

    /// What `initialize` answers: refused once the state record exists.
    pub open spec fn initialize_outcome(self) -> Result<(), PigeonError> {
        if self.state is Some {
            Err(PigeonError::AlreadyExists)
        } else {
            Ok(())
        }
    }

    /// The deployment after `initialize` by `caller`.
    pub open spec fn after_initialize(self, caller: Pubkey) -> RegistryView {
        if self.initialize_outcome() is Ok {
            RegistryView { state: Some(PigeonState { admin: caller, total_users: 0 }), ..self }
        } else {
            self
        }
    }

    /// What onboarding `phone` answers to `caller`: the admin gate comes
    /// first, then the exclusive creation, then the counter.
    pub open spec fn onboard_user_outcome(self, caller: Pubkey, phone: Seq<char>) -> Result<
        (),
        PigeonError,
    > {
        if !is_admin(self.state, caller) {
            Err(PigeonError::Unauthorized)
        } else if self.users.contains_key(phone) {
            Err(PigeonError::AlreadyExists)
        } else if self.state->0.total_users == u64::MAX {
            Err(PigeonError::Overflow)
        } else {
            Ok(())
        }
    }

    /// The deployment after `caller` asked to onboard `record`.
    pub open spec fn after_onboard_user(self, caller: Pubkey, record: UserRecord) -> RegistryView {
        if self.onboard_user_outcome(caller, record.phone) is Ok {
            RegistryView {
                state: Some(
                    PigeonState {
                        admin: self.state->0.admin,
                        total_users: (self.state->0.total_users + 1) as u64,
                    },
                ),
                users: self.users.insert(record.phone, record),
            }
        } else {
            self
        }
    }

    /// What updating `phone` answers to `caller`.
    pub open spec fn update_user_outcome(self, caller: Pubkey, phone: Seq<char>) -> Result<
        (),
        PigeonError,
    > {
        if !is_admin(self.state, caller) {
            Err(PigeonError::Unauthorized)
        } else if !self.users.contains_key(phone) {
            Err(PigeonError::NotFound)
        } else {
            Ok(())
        }
    }

    /// The deployment after `caller` asked to update `phone`.
    pub open spec fn after_update_user(
        self,
        caller: Pubkey,
        phone: Seq<char>,
        address: Seq<char>,
        encrypted_mnemonic: Seq<char>,
    ) -> RegistryView {
        if self.update_user_outcome(caller, phone) is Ok {
            RegistryView {
                users: self.users.insert(
                    phone,
                    self.users[phone].updated(address, encrypted_mnemonic),
                ),
                ..self
            }
        } else {
            self
        }
    }

    /// What deleting `phone` answers to `caller`: the admin gate comes first,
    /// then the lookup, then the counter.
    pub open spec fn delete_user_outcome(self, caller: Pubkey, phone: Seq<char>) -> Result<
        (),
        PigeonError,
    > {
        if !is_admin(self.state, caller) {
            Err(PigeonError::Unauthorized)
        } else if !self.users.contains_key(phone) {
            Err(PigeonError::NotFound)
        } else if self.state->0.total_users == 0 {
            Err(PigeonError::Underflow)
        } else {
            Ok(())
        }
    }

    /// The deployment after `caller` asked to delete `phone`.
    pub open spec fn after_delete_user(self, caller: Pubkey, phone: Seq<char>) -> RegistryView {
        if self.delete_user_outcome(caller, phone) is Ok {
            RegistryView {
                state: Some(
                    PigeonState {
                        admin: self.state->0.admin,
                        total_users: (self.state->0.total_users - 1) as u64,
                    },
                ),
                users: self.users.remove(phone),
            }
        } else {
            self
        }
    }

    /// The record stored under `phone`.
    pub open spec fn get_user(self, phone: Seq<char>) -> Result<UserRecord, PigeonError> {
        if self.users.contains_key(phone) {
            Ok(self.users[phone])
        } else {
            Err(PigeonError::NotFound)
        }
    }

    /// Whether a record is stored under `phone`; absence is a failure, never
    /// `Ok(false)`.
    pub open spec fn user_exists(self, phone: Seq<char>) -> Result<bool, PigeonError> {
        if self.users.contains_key(phone) {
            Ok(true)
        } else {
            Err(PigeonError::NotFound)
        }
    }

    /// The wallet address stored under `phone`.
    pub open spec fn get_user_address(self, phone: Seq<char>) -> Result<Seq<char>, PigeonError> {
        if self.users.contains_key(phone) {
            Ok(self.users[phone].address)
        } else {
            Err(PigeonError::NotFound)
        }
    }

    /// The counter of the state record.
    pub open spec fn get_total_users(self) -> Result<u64, PigeonError> {
        match self.state {
            Some(state) => Ok(state.total_users),
            None => Err(PigeonError::NotFound),
        }
    }
}

/// A fresh deployment is well formed.
pub proof fn fresh_is_wf()
    ensures
        RegistryView::fresh().wf(),
{
}

/// `initialize` keeps the deployment well formed.
pub proof fn initialize_preserves_wf(view: RegistryView, caller: Pubkey)
    requires
        view.wf(),
    ensures
        view.after_initialize(caller).wf(),
{
}

/// `onboard_user` keeps the deployment well formed: in particular the
/// counter still is the number of live records.
pub proof fn onboard_user_preserves_wf(view: RegistryView, caller: Pubkey, record: UserRecord)
    requires
        view.wf(),
        record.within_limits(),
    ensures
        view.after_onboard_user(caller, record).wf(),
{
    let after = view.after_onboard_user(caller, record);
    if view.onboard_user_outcome(caller, record.phone) is Ok {
        assert(after.users.dom() =~= view.users.dom().insert(record.phone));
    }
}

/// `update_user` keeps the deployment well formed.
pub proof fn update_user_preserves_wf(
    view: RegistryView,
    caller: Pubkey,
    phone: Seq<char>,
    address: Seq<char>,
    encrypted_mnemonic: Seq<char>,
)
    requires
        view.wf(),
        byte_len(address) <= MAX_ADDRESS_LEN,
        byte_len(encrypted_mnemonic) <= MAX_MNEMONIC_LEN,
    ensures
        view.after_update_user(caller, phone, address, encrypted_mnemonic).wf(),
{
    let after = view.after_update_user(caller, phone, address, encrypted_mnemonic);
    if view.update_user_outcome(caller, phone) is Ok {
        assert(after.users.dom() =~= view.users.dom());
    }
}

/// `delete_user` keeps the deployment well formed: in particular the counter
/// still is the number of live records.
pub proof fn delete_user_preserves_wf(view: RegistryView, caller: Pubkey, phone: Seq<char>)
    requires
        view.wf(),
    ensures
        view.after_delete_user(caller, phone).wf(),
{
    let after = view.after_delete_user(caller, phone);
    if view.delete_user_outcome(caller, phone) is Ok {
        assert(after.users.dom() =~= view.users.dom().remove(phone));
    }
}

} // verus!
