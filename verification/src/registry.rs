//! The store behind the operations: it resolves the records an operation
//! addresses, runs the operation on them, and keeps what it wrote only if
//! the operation succeeded.

use crate::account::{
    byte_len, PigeonState, UserAccount, UserData, UserRecord, MAX_ADDRESS_LEN, MAX_MNEMONIC_LEN,
};
use crate::context::{
    DeleteUser, GetTotalUsers, GetUser, Initialize, OnboardUser, UpdateUser, UserExists,
};
use crate::error::PigeonError;
use crate::instructions;
use crate::model::{
    delete_user_preserves_wf, initialize_preserves_wf, onboard_user_preserves_wf,
    update_user_preserves_wf, RegistryView,
};
use anchor_lang::prelude::Pubkey;
use vstd::prelude::*;

verus! {

/// The records of `users` by phone number; of two records with one phone
/// number the later one counts.
spec fn records_by_phone(users: Seq<UserAccount>) -> Map<Seq<char>, UserRecord>
    decreases users.len(),
{
    if users.len() == 0 {
        Map::empty()
    } else {
        records_by_phone(users.drop_last()).insert(users.last().phone@, users.last()@)
    }
}

/// No phone number occurs twice in `users`.
spec fn distinct_phones(users: Seq<UserAccount>) -> bool {
    forall|i: int, j: int|
        0 <= i < j < users.len() ==> (#[trigger] users[i]).phone@ != (#[trigger] users[j]).phone@
}

/// The keys of `records_by_phone` are the phone numbers that occur, and
/// there are finitely many.
proof fn lemma_records_keys(users: Seq<UserAccount>)
    ensures
        records_by_phone(users).dom().finite(),
        forall|phone: Seq<char>| #[trigger]
            records_by_phone(users).contains_key(phone) <==> exists|i: int|
                0 <= i < users.len() && (#[trigger] users[i]).phone@ == phone,
    decreases users.len(),
{
    if users.len() > 0 {
        let front = users.drop_last();
        lemma_records_keys(front);
        assert forall|phone: Seq<char>| #[trigger]
            records_by_phone(users).contains_key(phone) implies exists|i: int|
            0 <= i < users.len() && (#[trigger] users[i]).phone@ == phone by {
            if phone == users.last().phone@ {
                assert(users[users.len() - 1].phone@ == phone);
            } else {
                assert(records_by_phone(front).contains_key(phone));
                let i = choose|i: int| 0 <= i < front.len() && (#[trigger] front[i]).phone@ == phone;
                assert(users[i].phone@ == phone);
            }
        }
        assert forall|phone: Seq<char>|
            (exists|i: int|
                0 <= i < users.len() && (#[trigger] users[i]).phone@ == phone) implies #[trigger]
            records_by_phone(users).contains_key(phone) by {
            let i = choose|i: int| 0 <= i < users.len() && (#[trigger] users[i]).phone@ == phone;
            if i < users.len() - 1 {
                assert(front[i].phone@ == phone);
            }
        }
    }
}

/// With distinct phone numbers, each record is found under its own phone
/// number and the map has as many entries as there are records.
proof fn lemma_records_entries(users: Seq<UserAccount>)
    requires
        distinct_phones(users),
    ensures
        records_by_phone(users).dom().len() == users.len(),
        forall|i: int|
            0 <= i < users.len() ==> records_by_phone(users).contains_key(
                (#[trigger] users[i]).phone@,
            ) && records_by_phone(users)[users[i].phone@] == users[i]@,
    decreases users.len(),
{
    if users.len() > 0 {
        let front = users.drop_last();
        let last = users.last();
        assert(distinct_phones(front)) by {
            assert forall|i: int, j: int| 0 <= i < j < front.len() implies (#[trigger] front[i]).phone@
                != (#[trigger] front[j]).phone@ by {
                assert(users[i].phone@ != users[j].phone@);
            }
        }
        lemma_records_entries(front);
        lemma_records_keys(front);
        assert(!records_by_phone(front).contains_key(last.phone@)) by {
            if records_by_phone(front).contains_key(last.phone@) {
                let i = choose|i: int|
                    0 <= i < front.len() && (#[trigger] front[i]).phone@ == last.phone@;
                assert(users[i].phone@ != users[users.len() - 1].phone@);
            }
        }
        assert forall|i: int| 0 <= i < users.len() implies records_by_phone(users).contains_key(
            (#[trigger] users[i]).phone@,
        ) && records_by_phone(users)[users[i].phone@] == users[i]@ by {
            if i < users.len() - 1 {
                assert(front[i] == users[i]);
                assert(users[i].phone@ != users[users.len() - 1].phone@);
            }
        }
    }
}

/// Taking one record out removes exactly its phone number from the map.
proof fn lemma_records_remove(users: Seq<UserAccount>, at: int)
    requires
        distinct_phones(users),
        0 <= at < users.len(),
    ensures
        distinct_phones(users.remove(at)),
        records_by_phone(users.remove(at)) == records_by_phone(users).remove(users[at].phone@),
    decreases users.len(),
{
    let rest = users.remove(at);
    assert(distinct_phones(rest)) by {
        assert forall|i: int, j: int| 0 <= i < j < rest.len() implies (#[trigger] rest[i]).phone@
            != (#[trigger] rest[j]).phone@ by {
            let i0 = if i < at { i } else { i + 1 };
            let j0 = if j < at { j } else { j + 1 };
            assert(users[i0].phone@ != users[j0].phone@);
        }
    }
    let front = users.drop_last();
    let last = users.last();
    if at == users.len() - 1 {
        assert(rest =~= front);
        lemma_records_keys(front);
        assert(!records_by_phone(front).contains_key(last.phone@)) by {
            if records_by_phone(front).contains_key(last.phone@) {
                let i = choose|i: int|
                    0 <= i < front.len() && (#[trigger] front[i]).phone@ == last.phone@;
                assert(users[i].phone@ != users[users.len() - 1].phone@);
            }
        }
        assert(records_by_phone(rest) =~= records_by_phone(users).remove(users[at].phone@));
    } else {
        assert(distinct_phones(front)) by {
            assert forall|i: int, j: int| 0 <= i < j < front.len() implies (#[trigger] front[i]).phone@
                != (#[trigger] front[j]).phone@ by {
                assert(users[i].phone@ != users[j].phone@);
            }
        }
        lemma_records_remove(front, at);
        assert(rest.drop_last() =~= front.remove(at));
        assert(rest.last() == last);
        assert(front[at] == users[at]);
        assert(users[at].phone@ != users[users.len() - 1].phone@);
        assert(records_by_phone(rest) =~= records_by_phone(users).remove(users[at].phone@));
    }
}

/// One deployment of the registry.
pub struct Registry {
    state: Option<PigeonState>,
    users: Vec<UserAccount>,
}

impl View for Registry {
    type V = RegistryView;

    closed spec fn view(&self) -> RegistryView {
        RegistryView { state: self.state, users: records_by_phone(self.users@) }
    }
}

impl Registry {
    /// No two stored records share a phone number.
    pub closed spec fn distinct(&self) -> bool {
        distinct_phones(self.users@)
    }

    /// The store is sound: `distinct`, and its contents are a well-formed
    /// deployment.
    pub open spec fn wf(&self) -> bool {
        self.distinct() && self@.wf()
    }

    /// A deployment on which nothing has run yet.
    pub fn new() -> (registry: Registry)
        ensures
            registry.wf(),
            registry@ == RegistryView::fresh(),
    {
        let registry = Registry { state: None, users: Vec::new() };
        assert(registry@ =~= RegistryView::fresh());
        registry
    }

    /// Where the record of `phone` is stored, if there is one.
    fn position(&self, phone: &String) -> (at: Option<usize>)
        ensures
            match at {
                Some(i) => i < self.users@.len() && self.users@[i as int].phone@ == phone@,
                None => forall|i: int|
                    0 <= i < self.users@.len() ==> (#[trigger] self.users@[i]).phone@ != phone@,
            },
    {
        let mut i: usize = 0;
        while i < self.users.len()
            invariant
                i <= self.users@.len(),
                forall|k: int| 0 <= k < i ==> (#[trigger] self.users@[k]).phone@ != phone@,
            decreases self.users@.len() - i,
        {
            if self.users[i].phone == *phone {
                return Some(i);
            }
            i += 1;
        }
        None
    }

    /// A copy of the slot under `phone`, with the place of the record if the
    /// slot is taken.
    fn load_user(&self, phone: &String) -> (found: (Option<usize>, Option<UserAccount>))
        requires
            self.wf(),
        ensures
            found.1 is Some <==> self@.users.contains_key(phone@),
            found.1 is Some <==> found.0 is Some,
            found.1 matches Some(user) ==> user@ == self@.users[phone@],
            found.0 matches Some(i) ==> i < self.users@.len() && self.users@[i as int].phone@
                == phone@,
    {
        proof {
            lemma_records_keys(self.users@);
            lemma_records_entries(self.users@);
        }
        match self.position(phone) {
            Some(i) => {
                let user = &self.users[i];
                let copy = UserAccount {
                    phone: user.phone.clone(),
                    address: user.address.clone(),
                    encrypted_mnemonic: user.encrypted_mnemonic.clone(),
                    created_at: user.created_at,
                };
                (Some(i), Some(copy))
            },
            None => (None, None),
        }
    }

    /// Creates the state record with `caller` as admin; refused with
    /// `AlreadyExists` once the record is there.
    pub fn initialize(&mut self, caller: Pubkey) -> (result: Result<(), PigeonError>)
        requires
            old(self).wf(),
        ensures
            final(self).wf(),
            result == old(self)@.initialize_outcome(),
            final(self)@ == old(self)@.after_initialize(caller),
    {
        let mut ctx = Initialize { pigeon_state: self.state, admin: caller };
        let result = instructions::initialize(&mut ctx);
        if result.is_ok() {
            self.state = ctx.pigeon_state;
        }
        proof {
            initialize_preserves_wf(old(self)@, caller);
            assert(self@ =~= old(self)@.after_initialize(caller));
        }
        result
    }

    /// Stores a new user under `phone` and counts them. Refused with
    /// `Unauthorized` unless `caller` is the admin, with `AlreadyExists` if
    /// the phone number is registered, with `Overflow` if the counter is at
    /// its maximum.
    pub fn onboard_user(
        &mut self,
        caller: &Pubkey,
        phone: &str,
        address: &str,
        encrypted_mnemonic: &str,
        created_at: u64,
    ) -> (result: Result<(), PigeonError>)
        requires
            old(self).wf(),
            (UserRecord {
                phone: phone@,
                address: address@,
                encrypted_mnemonic: encrypted_mnemonic@,
                created_at,
            }).within_limits(),
        ensures
            final(self).wf(),
            result == old(self)@.onboard_user_outcome(*caller, phone@),
            final(self)@ == old(self)@.after_onboard_user(
                *caller,
                UserRecord {
                    phone: phone@,
                    address: address@,
                    encrypted_mnemonic: encrypted_mnemonic@,
                    created_at,
                },
            ),
    {
        let ghost record = UserRecord {
            phone: phone@,
            address: address@,
            encrypted_mnemonic: encrypted_mnemonic@,
            created_at,
        };
        let key = phone.to_owned();
        let (_, user_account) = self.load_user(&key);
        let mut ctx = OnboardUser {
            pigeon_state: self.state,
            user_account,
            admin: *caller,
        };
        let result = instructions::onboard_user(
            &mut ctx,
            key,
            address.to_owned(),
            encrypted_mnemonic.to_owned(),
            created_at,
        );
        if result.is_ok() {
            let created = ctx.user_account.unwrap();
            proof {
                lemma_records_keys(self.users@);
                assert(self.users@.push(created).drop_last() =~= self.users@);
            }
            self.state = ctx.pigeon_state;
            self.users.push(created);
        }
        proof {
            onboard_user_preserves_wf(old(self)@, *caller, record);
            assert(self@ =~= old(self)@.after_onboard_user(*caller, record));
        }
        result
    }

    /// Replaces the address and the ciphertext stored under `phone`; the
    /// phone number and the onboarding time stay. Refused with
    /// `Unauthorized` unless `caller` is the admin, with `NotFound` if the
    /// phone number is not registered.
    pub fn update_user(
        &mut self,
        caller: &Pubkey,
        phone: &str,
        address: &str,
        encrypted_mnemonic: &str,
    ) -> (result: Result<(), PigeonError>)
        requires
            old(self).wf(),
            byte_len(address@) <= MAX_ADDRESS_LEN,
            byte_len(encrypted_mnemonic@) <= MAX_MNEMONIC_LEN,
        ensures
            final(self).wf(),
            result == old(self)@.update_user_outcome(*caller, phone@),
            final(self)@ == old(self)@.after_update_user(
                *caller,
                phone@,
                address@,
                encrypted_mnemonic@,
            ),
    {
        let key = phone.to_owned();
        let (at, user_account) = self.load_user(&key);
        let mut ctx = UpdateUser {
            pigeon_state: self.state,
            user_account,
            admin: *caller,
        };
        let result = instructions::update_user(
            &mut ctx,
            key,
            address.to_owned(),
            encrypted_mnemonic.to_owned(),
        );
        if result.is_ok() {
            let updated = ctx.user_account.unwrap();
            let i = at.unwrap();
            proof {
                lemma_records_entries(self.users@);
                lemma_records_remove(self.users@, i as int);
                lemma_records_keys(self.users@.remove(i as int));
                assert(self.users@.remove(i as int).push(updated).drop_last() =~= self.users@.remove(
                    i as int,
                ));
            }
            self.users.remove(i);
            self.users.push(updated);
        }
        proof {
            update_user_preserves_wf(old(self)@, *caller, phone@, address@, encrypted_mnemonic@);
            assert(self@ =~= old(self)@.after_update_user(
                *caller,
                phone@,
                address@,
                encrypted_mnemonic@,
            ));
        }
        result
    }

    /// Removes the record stored under `phone` and counts one user fewer.
    /// Refused with `Unauthorized` unless `caller` is the admin, with
    /// `NotFound` if the phone number is not registered, with `Underflow` if
    /// the counter is at zero.
    pub fn delete_user(&mut self, caller: &Pubkey, phone: &str) -> (result: Result<
        (),
        PigeonError,
    >)
        requires
            old(self).wf(),
        ensures
            final(self).wf(),
            result == old(self)@.delete_user_outcome(*caller, phone@),
            final(self)@ == old(self)@.after_delete_user(*caller, phone@),
    {
        let key = phone.to_owned();
        let (at, user_account) = self.load_user(&key);
        let mut ctx = DeleteUser {
            pigeon_state: self.state,
            user_account,
            admin: *caller,
        };
        let result = instructions::delete_user(&mut ctx, key);
        if result.is_ok() {
            let i = at.unwrap();
            proof {
                lemma_records_remove(self.users@, i as int);
            }
            self.state = ctx.pigeon_state;
            self.users.remove(i);
        }
        proof {
            delete_user_preserves_wf(old(self)@, *caller, phone@);
            assert(self@ =~= old(self)@.after_delete_user(*caller, phone@));
        }
        result
    }

    /// The record stored under `phone`, or `NotFound`.
    pub fn get_user(&self, phone: &str) -> (result: Result<UserData, PigeonError>)
        requires
            self.wf(),
        ensures
            match result {
                Ok(data) => self@.get_user(phone@) == Ok::<UserRecord, PigeonError>(data@),
                Err(e) => self@.get_user(phone@) == Err::<UserRecord, PigeonError>(e),
            },
    {
        let key = phone.to_owned();
        let (_, user_account) = self.load_user(&key);
        instructions::get_user(&GetUser { user_account }, key)
    }

    /// `Ok(true)` if a record is stored under `phone`, `NotFound` otherwise.
    pub fn user_exists(&self, phone: &str) -> (result: Result<bool, PigeonError>)
        requires
            self.wf(),
        ensures
            result == self@.user_exists(phone@),
    {
        let key = phone.to_owned();
        let (_, user_account) = self.load_user(&key);
        instructions::user_exists(&UserExists { user_account }, key)
    }

    /// The wallet address stored under `phone`, or `NotFound`.
    pub fn get_user_address(&self, phone: &str) -> (result: Result<String, PigeonError>)
        requires
            self.wf(),
        ensures
            match result {
                Ok(address) => self@.get_user_address(phone@) == Ok::<Seq<char>, PigeonError>(
                    address@,
                ),
                Err(e) => self@.get_user_address(phone@) == Err::<Seq<char>, PigeonError>(e),
            },
    {
        let key = phone.to_owned();
        let (_, user_account) = self.load_user(&key);
        instructions::get_user_address(&GetUser { user_account }, key)
    }

    /// The number of live users, or `NotFound` before `initialize`.
    pub fn get_total_users(&self) -> (result: Result<u64, PigeonError>)
        ensures
            result == self@.get_total_users(),
    {
        instructions::get_total_users(&GetTotalUsers { pigeon_state: self.state })
    }
}

} // verus!
