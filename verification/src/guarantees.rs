//! What holds of the operations taken together, proved over the model that
//! their contracts speak of.

use crate::account::{PigeonState, UserRecord};
use crate::address::{user_address_is_injective, user_address_of};
use crate::context::{is_admin, DeleteUser};
use crate::error::PigeonError;
use crate::instructions::delete_user_outcome;
use crate::model::RegistryView;
use anchor_lang::prelude::Pubkey;
use vstd::prelude::*;

verus! {

/// A refused operation has no effect: whenever an operation answers with a
/// failure, the registry after it is the registry before it.
pub proof fn refused_operation_changes_nothing(
    view: RegistryView,
    caller: Pubkey,
    record: UserRecord,
    phone: Seq<char>,
    address: Seq<char>,
    encrypted_mnemonic: Seq<char>,
)
    ensures
        view.initialize_outcome() is Err ==> view.after_initialize(caller) == view,
        view.onboard_user_outcome(caller, record.phone) is Err ==> view.after_onboard_user(
            caller,
            record,
        ) == view,
        view.update_user_outcome(caller, phone) is Err ==> view.after_update_user(
            caller,
            phone,
            address,
            encrypted_mnemonic,
        ) == view,
        view.delete_user_outcome(caller, phone) is Err ==> view.after_delete_user(caller, phone)
            == view,
{
}

/// A caller who is not the admin cannot change anything: onboarding,
/// updating and deleting are all refused with `Unauthorized`, whatever else
/// is wrong with the request, and leave the registry as it was.
pub proof fn stranger_changes_nothing(
    view: RegistryView,
    caller: Pubkey,
    record: UserRecord,
    phone: Seq<char>,
    address: Seq<char>,
    encrypted_mnemonic: Seq<char>,
)
    requires
        !is_admin(view.state, caller),
    ensures
        view.onboard_user_outcome(caller, record.phone) == Err::<(), PigeonError>(
            PigeonError::Unauthorized,
        ),
        view.after_onboard_user(caller, record) == view,
        view.update_user_outcome(caller, phone) == Err::<(), PigeonError>(
            PigeonError::Unauthorized,
        ),
        view.after_update_user(caller, phone, address, encrypted_mnemonic) == view,
        view.delete_user_outcome(caller, phone) == Err::<(), PigeonError>(
            PigeonError::Unauthorized,
        ),
        view.after_delete_user(caller, phone) == view,
{
}

/// Once `initialize` has run, running it again is refused with
/// `AlreadyExists` and changes nothing, so the first caller stays admin.
pub proof fn initialize_happens_once(view: RegistryView, first: Pubkey, second: Pubkey)
    ensures
        view.after_initialize(first).initialize_outcome() == Err::<(), PigeonError>(
            PigeonError::AlreadyExists,
        ),
        view.after_initialize(first).after_initialize(second) == view.after_initialize(first),
        view.state is None ==> view.after_initialize(first).state == Some(
            PigeonState { admin: first, total_users: 0 },
        ),
{
}

/// No operation replaces the admin of an initialized registry.
pub proof fn admin_is_fixed(
    view: RegistryView,
    caller: Pubkey,
    record: UserRecord,
    phone: Seq<char>,
    address: Seq<char>,
    encrypted_mnemonic: Seq<char>,
)
    requires
        view.state is Some,
    ensures
        view.after_initialize(caller).state->0.admin == view.state->0.admin,
        view.after_onboard_user(caller, record).state->0.admin == view.state->0.admin,
        view.after_update_user(caller, phone, address, encrypted_mnemonic).state->0.admin
            == view.state->0.admin,
        view.after_delete_user(caller, phone).state->0.admin == view.state->0.admin,
{
}

/// Onboarding an unregistered phone number succeeds; the record read back
/// is exactly the one onboarded, and the counter is one higher.
pub proof fn onboarded_user_is_read_back(view: RegistryView, caller: Pubkey, record: UserRecord)
    requires
        is_admin(view.state, caller),
        !view.users.contains_key(record.phone),
        view.state->0.total_users < u64::MAX,
    ensures
        view.onboard_user_outcome(caller, record.phone) == Ok::<(), PigeonError>(()),
        view.after_onboard_user(caller, record).get_user(record.phone) == Ok::<
            UserRecord,
            PigeonError,
        >(record),
        view.after_onboard_user(caller, record).get_total_users() == Ok::<u64, PigeonError>(
            (view.state->0.total_users + 1) as u64,
        ),
        view.after_onboard_user(caller, record).state->0.total_users == view.state->0.total_users
            + 1,
{
}

/// Onboarding a registered phone number is refused with `AlreadyExists`
/// and changes nothing, the counter included.
pub proof fn registered_phone_is_not_onboarded_again(
    view: RegistryView,
    caller: Pubkey,
    record: UserRecord,
)
    requires
        is_admin(view.state, caller),
        view.users.contains_key(record.phone),
    ensures
        view.onboard_user_outcome(caller, record.phone) == Err::<(), PigeonError>(
            PigeonError::AlreadyExists,
        ),
        view.after_onboard_user(caller, record) == view,
{
}

/// Updating a registered phone number stores the new address and
/// ciphertext and keeps the phone number and the onboarding time; no other
/// record and no counter changes.
pub proof fn update_keeps_created_at(
    view: RegistryView,
    caller: Pubkey,
    phone: Seq<char>,
    address: Seq<char>,
    encrypted_mnemonic: Seq<char>,
)
    requires
        is_admin(view.state, caller),
        view.users.contains_key(phone),
    ensures
        view.update_user_outcome(caller, phone) == Ok::<(), PigeonError>(()),
        view.after_update_user(caller, phone, address, encrypted_mnemonic).get_user(phone) == Ok::<
            UserRecord,
            PigeonError,
        >(
            UserRecord {
                phone: view.users[phone].phone,
                address,
                encrypted_mnemonic,
                created_at: view.users[phone].created_at,
            },
        ),
        view.after_update_user(caller, phone, address, encrypted_mnemonic).state == view.state,
        forall|other: Seq<char>|
            other != phone ==> view.after_update_user(
                caller,
                phone,
                address,
                encrypted_mnemonic,
            ).get_user(other) == view.get_user(other),
{
}

/// A user who is onboarded and then updated still carries the onboarding
/// time given at onboarding.
pub proof fn update_after_onboard_keeps_created_at(
    view: RegistryView,
    caller: Pubkey,
    record: UserRecord,
    address: Seq<char>,
    encrypted_mnemonic: Seq<char>,
)
    requires
        is_admin(view.state, caller),
        !view.users.contains_key(record.phone),
        view.state->0.total_users < u64::MAX,
    ensures
        view.after_onboard_user(caller, record).after_update_user(
            caller,
            record.phone,
            address,
            encrypted_mnemonic,
        ).get_user(record.phone) == Ok::<UserRecord, PigeonError>(
            UserRecord {
                phone: record.phone,
                address,
                encrypted_mnemonic,
                created_at: record.created_at,
            },
        ),
{
}

/// Updating or deleting a phone number that is not registered is refused
/// with `NotFound` and changes nothing.
pub proof fn missing_user_is_not_found(
    view: RegistryView,
    caller: Pubkey,
    phone: Seq<char>,
    address: Seq<char>,
    encrypted_mnemonic: Seq<char>,
)
    requires
        is_admin(view.state, caller),
        !view.users.contains_key(phone),
    ensures
        view.update_user_outcome(caller, phone) == Err::<(), PigeonError>(PigeonError::NotFound),
        view.after_update_user(caller, phone, address, encrypted_mnemonic) == view,
        view.delete_user_outcome(caller, phone) == Err::<(), PigeonError>(PigeonError::NotFound),
        view.after_delete_user(caller, phone) == view,
        view.get_user(phone) == Err::<UserRecord, PigeonError>(PigeonError::NotFound),
        view.get_user_address(phone) == Err::<Seq<char>, PigeonError>(PigeonError::NotFound),
{
}

/// Deleting a registered phone number succeeds: the record is gone, the
/// counter is one lower, and the same phone number can be onboarded afresh,
/// with whatever onboarding time the new record gives.
pub proof fn deleted_user_can_be_onboarded_again(
    view: RegistryView,
    caller: Pubkey,
    phone: Seq<char>,
    again: UserRecord,
)
    requires
        view.wf(),
        is_admin(view.state, caller),
        view.users.contains_key(phone),
        again.phone == phone,
    ensures
        view.delete_user_outcome(caller, phone) == Ok::<(), PigeonError>(()),
        view.after_delete_user(caller, phone).get_user(phone) == Err::<UserRecord, PigeonError>(
            PigeonError::NotFound,
        ),
        view.after_delete_user(caller, phone).state->0.total_users == view.state->0.total_users
            - 1,
        view.after_delete_user(caller, phone).onboard_user_outcome(caller, phone) == Ok::<
            (),
            PigeonError,
        >(()),
        view.after_delete_user(caller, phone).after_onboard_user(caller, again).get_user(phone)
            == Ok::<UserRecord, PigeonError>(again),
        view.after_delete_user(caller, phone).after_onboard_user(caller, again).state
            == view.state,
{
    assert(view.users.dom().len() > 0) by {
        if view.users.dom().len() == 0 {
            assert(view.users.dom() =~= Set::empty());
        }
    }
}

/// The registry after onboarding `records` one after the other, first to
/// last.
pub open spec fn onboard_all(view: RegistryView, caller: Pubkey, records: Seq<UserRecord>) -> RegistryView
    decreases records.len(),
{
    if records.len() == 0 {
        view
    } else {
        onboard_all(view, caller, records.drop_last()).after_onboard_user(caller, records.last())
    }
}

/// The registry after deleting `phones` one after the other, first to last.
pub open spec fn delete_all(view: RegistryView, caller: Pubkey, phones: Seq<Seq<char>>) -> RegistryView
    decreases phones.len(),
{
    if phones.len() == 0 {
        view
    } else {
        delete_all(view, caller, phones.drop_last()).after_delete_user(caller, phones.last())
    }
}

/// The phone numbers of `records` are pairwise distinct.
pub open spec fn distinct_records(records: Seq<UserRecord>) -> bool {
    forall|i: int, j: int|
        0 <= i < j < records.len() ==> (#[trigger] records[i]).phone != (#[trigger] records[j]).phone
}

/// Onboarding a batch of new, distinct phone numbers adds exactly these
/// records and raises the counter by their number, without wrapping.
pub proof fn onboard_all_adds_each(view: RegistryView, caller: Pubkey, records: Seq<UserRecord>)
    requires
        view.wf(),
        is_admin(view.state, caller),
        distinct_records(records),
        forall|i: int|
            0 <= i < records.len() ==> !view.users.contains_key((#[trigger] records[i]).phone)
                && records[i].within_limits(),
        view.state->0.total_users + records.len() <= u64::MAX,
    ensures
        onboard_all(view, caller, records).wf(),
        is_admin(onboard_all(view, caller, records).state, caller),
        onboard_all(view, caller, records).state->0.total_users == view.state->0.total_users
            + records.len(),
        forall|phone: Seq<char>| #[trigger]
            onboard_all(view, caller, records).users.contains_key(phone)
                <==> view.users.contains_key(phone) || exists|i: int|
                0 <= i < records.len() && (#[trigger] records[i]).phone == phone,
        forall|phone: Seq<char>|
            view.users.contains_key(phone) ==> #[trigger] onboard_all(
                view,
                caller,
                records,
            ).users[phone] == view.users[phone],
        forall|i: int|
            0 <= i < records.len() ==> onboard_all(view, caller, records).users[(
            #[trigger] records[i]).phone] == records[i],
    decreases records.len(),
{
    if records.len() > 0 {
        let front = records.drop_last();
        let last = records.last();
        assert forall|i: int| 0 <= i < front.len() implies !view.users.contains_key(
            (#[trigger] front[i]).phone,
        ) && front[i].within_limits() by {
            assert(front[i] == records[i]);
        }
        assert(distinct_records(front)) by {
            assert forall|i: int, j: int| 0 <= i < j < front.len() implies (#[trigger] front[i]).phone
                != (#[trigger] front[j]).phone by {
                assert(records[i].phone != records[j].phone);
            }
        }
        onboard_all_adds_each(view, caller, front);
        let before = onboard_all(view, caller, front);
        let after = onboard_all(view, caller, records);
        assert(!before.users.contains_key(last.phone)) by {
            if before.users.contains_key(last.phone) {
                assert(!view.users.contains_key(records[records.len() - 1].phone));
                let i = choose|i: int| 0 <= i < front.len() && (#[trigger] front[i]).phone == last.phone;
                assert(records[i].phone != records[records.len() - 1].phone);
            }
        }
        crate::model::onboard_user_preserves_wf(before, caller, last);
        assert forall|phone: Seq<char>| #[trigger]
            after.users.contains_key(phone) <==> view.users.contains_key(phone) || exists|i: int|
                0 <= i < records.len() && (#[trigger] records[i]).phone == phone by {
            if after.users.contains_key(phone) && !view.users.contains_key(phone) {
                if phone == last.phone {
                    assert(records[records.len() - 1].phone == phone);
                } else {
                    assert(before.users.contains_key(phone));
                    let i = choose|i: int| 0 <= i < front.len() && (#[trigger] front[i]).phone == phone;
                    assert(records[i].phone == phone);
                }
            }
            if exists|i: int| 0 <= i < records.len() && (#[trigger] records[i]).phone == phone {
                let i = choose|i: int| 0 <= i < records.len() && (#[trigger] records[i]).phone == phone;
                if i < records.len() - 1 {
                    assert(front[i].phone == phone);
                    assert(before.users.contains_key(phone));
                }
            }
        }
        assert forall|phone: Seq<char>| view.users.contains_key(phone) implies #[trigger]
            after.users[phone] == view.users[phone] by {
            assert(before.users[phone] == view.users[phone]);
            assert(phone != last.phone);
        }
        assert forall|i: int| 0 <= i < records.len() implies after.users[(
        #[trigger] records[i]).phone] == records[i] by {
            if i < records.len() - 1 {
                assert(front[i] == records[i]);
                assert(records[i].phone != records[records.len() - 1].phone);
                assert(before.users[front[i].phone] == front[i]);
            }
        }
    }
}

/// Deleting a batch of distinct, registered phone numbers removes exactly
/// these records and lowers the counter by their number, never below zero.
pub proof fn delete_all_removes_each(view: RegistryView, caller: Pubkey, phones: Seq<Seq<char>>)
    requires
        view.wf(),
        is_admin(view.state, caller),
        phones.no_duplicates(),
        forall|i: int| 0 <= i < phones.len() ==> view.users.contains_key(#[trigger] phones[i]),
    ensures
        delete_all(view, caller, phones).wf(),
        is_admin(delete_all(view, caller, phones).state, caller),
        delete_all(view, caller, phones).state->0.total_users == view.state->0.total_users
            - phones.len(),
        forall|phone: Seq<char>| #[trigger]
            delete_all(view, caller, phones).users.contains_key(phone)
                <==> view.users.contains_key(phone) && !phones.contains(phone),
        forall|phone: Seq<char>| #[trigger]
            delete_all(view, caller, phones).users.contains_key(phone) ==> delete_all(
                view,
                caller,
                phones,
            ).users[phone] == view.users[phone],
    decreases phones.len(),
{
    if phones.len() > 0 {
        let front = phones.drop_last();
        let last = phones.last();
        assert(front.no_duplicates());
        assert forall|i: int| 0 <= i < front.len() implies view.users.contains_key(
            #[trigger] front[i],
        ) by {
            assert(front[i] == phones[i]);
        }
        delete_all_removes_each(view, caller, front);
        let before = delete_all(view, caller, front);
        let after = delete_all(view, caller, phones);
        assert(before.users.contains_key(last)) by {
            assert(view.users.contains_key(phones[phones.len() - 1]));
            if front.contains(last) {
                let i = choose|i: int| 0 <= i < front.len() && front[i] == last;
                assert(phones[i] == phones[phones.len() - 1]);
            }
        }
        assert(before.users.dom().len() > 0) by {
            if before.users.dom().len() == 0 {
                assert(before.users.dom() =~= Set::empty());
            }
        }
        crate::model::delete_user_preserves_wf(before, caller, last);
        assert forall|phone: Seq<char>| #[trigger]
            after.users.contains_key(phone) <==> view.users.contains_key(phone) && !phones.contains(
                phone,
            ) by {
            if phones.contains(phone) {
                let i = choose|i: int| 0 <= i < phones.len() && phones[i] == phone;
                if i < phones.len() - 1 {
                    assert(front[i] == phone);
                }
            }
            if front.contains(phone) {
                let i = choose|i: int| 0 <= i < front.len() && front[i] == phone;
                assert(phones[i] == phone);
            }
            if phone == last {
                assert(phones[phones.len() - 1] == phone);
            }
        }
    }
}

/// Onboarding a batch of new users and then deleting every one of them
/// brings the registry back to where it started: the same records and the
/// same counter.
pub proof fn onboard_then_delete_restores(
    view: RegistryView,
    caller: Pubkey,
    records: Seq<UserRecord>,
)
    requires
        view.wf(),
        is_admin(view.state, caller),
        distinct_records(records),
        forall|i: int|
            0 <= i < records.len() ==> !view.users.contains_key((#[trigger] records[i]).phone)
                && records[i].within_limits(),
        view.state->0.total_users + records.len() <= u64::MAX,
    ensures
        delete_all(
            onboard_all(view, caller, records),
            caller,
            records.map_values(|record: UserRecord| record.phone),
        ) == view,
{
    let phones = records.map_values(|record: UserRecord| record.phone);
    let full = onboard_all(view, caller, records);
    onboard_all_adds_each(view, caller, records);
    assert(phones.no_duplicates()) by {
        assert forall|i: int, j: int| 0 <= i < phones.len() && 0 <= j < phones.len() && i != j implies phones[i]
            != phones[j] by {
            if i < j {
                assert(records[i].phone != records[j].phone);
            } else {
                assert(records[j].phone != records[i].phone);
            }
        }
    }
    assert forall|i: int| 0 <= i < phones.len() implies full.users.contains_key(
        #[trigger] phones[i],
    ) by {
        assert(records[i].phone == phones[i]);
    }
    delete_all_removes_each(full, caller, phones);
    let back = delete_all(full, caller, phones);
    assert forall|phone: Seq<char>| back.users.contains_key(phone) <==> view.users.contains_key(
        phone,
    ) by {
        if view.users.contains_key(phone) && phones.contains(phone) {
            let i = choose|i: int| 0 <= i < phones.len() && phones[i] == phone;
            assert(records[i].phone == phone);
        }
        if back.users.contains_key(phone) && !view.users.contains_key(phone) {
            assert(full.users.contains_key(phone));
            let i = choose|i: int| 0 <= i < records.len() && (#[trigger] records[i]).phone == phone;
            assert(phones[i] == phone);
        }
    }
    assert(back.users =~= view.users);
    assert(back =~= view);
}

/// Looking a user up goes by address: two phone numbers that derive the
/// same address are answered alike by every query.
pub proof fn lookup_goes_by_address(view: RegistryView, first: Seq<char>, second: Seq<char>)
    requires
        user_address_of(first) == user_address_of(second),
    ensures
        view.get_user(first) == view.get_user(second),
        view.user_exists(first) == view.user_exists(second),
        view.get_user_address(first) == view.get_user_address(second),
{
    user_address_is_injective(first, second);
}

/// A well-formed registry never answers `Underflow`: where a record is
/// found, the counter is at least one.
pub proof fn counter_covers_every_record(view: RegistryView, caller: Pubkey, phone: Seq<char>)
    requires
        view.wf(),
    ensures
        view.delete_user_outcome(caller, phone) != Err::<(), PigeonError>(PigeonError::Underflow),
{
    if view.users.contains_key(phone) && view.users.dom().len() == 0 {
        assert(view.users.dom() =~= Set::empty());
    }
}

/// On records whose counter is already at zero, deleting a resolved user is
/// refused with `Underflow`: the counter never goes below zero.
pub proof fn delete_at_zero_underflows(ctx: DeleteUser)
    requires
        is_admin(ctx.pigeon_state, ctx.admin),
        ctx.user_account is Some,
        ctx.pigeon_state->0.total_users == 0,
    ensures
        delete_user_outcome(ctx) == Err::<(), PigeonError>(PigeonError::Underflow),
{
}

} // verus!
