//! Storage addresses. Every record lives at an address derived from its
//! logical key: the state record from a fixed tag, a user record from a tag
//! followed by the bytes of its phone number. Distinct keys never share an
//! address, so looking a key up and creating a record exclusively can both
//! go by address alone.

use vstd::prelude::*;
use vstd::utf8::{decode_utf8, encode_utf8, encode_utf8_decode_utf8};

verus! {

/// The tag of the state record: the ASCII text `pigeon-state`.
pub open spec fn state_tag() -> Seq<u8> {
    seq![112u8, 105u8, 103u8, 101u8, 111u8, 110u8, 45u8, 115u8, 116u8, 97u8, 116u8, 101u8]
}

/// The tag in front of every user address: the ASCII text `user`.
pub open spec fn user_tag() -> Seq<u8> {
    seq![117u8, 115u8, 101u8, 114u8]
}

/// The address of the state record.
pub open spec fn state_address_of() -> Seq<u8> {
    state_tag()
}

/// The address of the user record of `phone`.
pub open spec fn user_address_of(phone: Seq<char>) -> Seq<u8> {
    user_tag() + encode_utf8(phone)
}

/// Derives the address of the state record.
pub fn state_address() -> (address: Vec<u8>)
    ensures
        address@ == state_address_of(),
{
    let address = vec![112u8, 105u8, 103u8, 101u8, 111u8, 110u8, 45u8, 115u8, 116u8, 97u8, 116u8, 101u8];
    assert(address@ =~= state_address_of());
    address
}

/// Derives the address of the user record of `phone`.
pub fn user_address(phone: &str) -> (address: Vec<u8>)
    ensures
        address@ == user_address_of(phone@),
{
    let mut address = vec![117u8, 115u8, 101u8, 114u8];
    assert(address@ =~= user_tag());
    address.extend_from_slice(phone.as_bytes());
    address
}

/// Two phone numbers with the same address are the same phone number.
pub proof fn user_address_is_injective(first: Seq<char>, second: Seq<char>)
    requires
        user_address_of(first) == user_address_of(second),
    ensures
        first == second,
{
    let a = encode_utf8(first);
    let b = encode_utf8(second);
    assert(a =~= user_address_of(first).subrange(4, user_address_of(first).len() as int));
    assert(b =~= user_address_of(second).subrange(4, user_address_of(second).len() as int));
    encode_utf8_decode_utf8(first);
    encode_utf8_decode_utf8(second);
    assert(decode_utf8(a) == first);
    assert(decode_utf8(b) == second);
}

/// No user record shares its address with the state record.
pub proof fn user_address_is_not_state_address(phone: Seq<char>)
    ensures
        user_address_of(phone) != state_address_of(),
{
    assert(user_address_of(phone)[0] == 117u8);
    assert(state_address_of()[0] == 112u8);
}

} // verus!
