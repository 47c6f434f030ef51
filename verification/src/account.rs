//! The two record shapes the registry persists, and what they stand for in
//! contracts.

use anchor_lang::prelude::Pubkey;
use vstd::prelude::*;
use vstd::utf8::encode_utf8;

verus! {

/// Most bytes a stored phone number may take.
pub const MAX_PHONE_LEN: usize = 20;

/// Most bytes a stored wallet address may take.
pub const MAX_ADDRESS_LEN: usize = 64;

/// Most bytes a stored mnemonic ciphertext may take.
pub const MAX_MNEMONIC_LEN: usize = 512;

/// The singleton record: who the admin is and how many users are live.
#[derive(Clone, Copy, Debug, PartialEq, Eq)]
pub struct PigeonState {
    /// The only identity allowed to change the registry.
    pub admin: Pubkey,
    /// Number of live user records.
    pub total_users: u64,
}

/// What a user record holds, as mathematical values.
pub struct UserRecord {
    pub phone: Seq<char>,
    pub address: Seq<char>,
    pub encrypted_mnemonic: Seq<char>,
    pub created_at: u64,
}

/// Number of bytes a string takes in storage.
pub open spec fn byte_len(text: Seq<char>) -> nat {
    encode_utf8(text).len()
}

impl UserRecord {
    /// The record fits the storage reserved for it when it was created.
    pub open spec fn within_limits(self) -> bool {
        &&& byte_len(self.phone) <= MAX_PHONE_LEN
        &&& byte_len(self.address) <= MAX_ADDRESS_LEN
        &&& byte_len(self.encrypted_mnemonic) <= MAX_MNEMONIC_LEN
    }

    /// This record after an update: only the address and the ciphertext
    /// change.
    pub open spec fn updated(self, address: Seq<char>, encrypted_mnemonic: Seq<char>) -> UserRecord {
        UserRecord { address, encrypted_mnemonic, ..self }
    }
}

/// One stored user, keyed by its phone number.
#[derive(Clone, Debug, PartialEq, Eq)]
pub struct UserAccount {
    /// Normalised phone number; the key, never rewritten.
    pub phone: String,
    /// Wallet address.
    pub address: String,
    /// Ciphertext of the recovery phrase; opaque to the registry.
    pub encrypted_mnemonic: String,
    /// When the user was onboarded; never rewritten.
    pub created_at: u64,
}

impl View for UserAccount {
    type V = UserRecord;

    open spec fn view(&self) -> UserRecord {
        UserRecord {
            phone: self.phone@,
            address: self.address@,
            encrypted_mnemonic: self.encrypted_mnemonic@,
            created_at: self.created_at,
        }
    }
}

/// A user record as handed to a reader.
#[derive(Clone, Debug, PartialEq, Eq)]
pub struct UserData {
    pub phone: String,
    pub address: String,
    pub encrypted_mnemonic: String,
    pub created_at: u64,
}

impl View for UserData {
    type V = UserRecord;

    open spec fn view(&self) -> UserRecord {
        UserRecord {
            phone: self.phone@,
            address: self.address@,
            encrypted_mnemonic: self.encrypted_mnemonic@,
            created_at: self.created_at,
        }
    }
}

/// Number of bytes `text` takes in storage.
pub fn stored_len(text: &str) -> (len: usize)
    ensures
        len == byte_len(text@),
{
    text.as_bytes().len()
}

/// Whether the three strings of a record fit the storage reserved for them.
pub fn fields_within_limits(phone: &str, address: &str, encrypted_mnemonic: &str) -> (fits: bool)
    ensures
        fits == (UserRecord {
            phone: phone@,
            address: address@,
            encrypted_mnemonic: encrypted_mnemonic@,
            created_at: 0,
        }).within_limits(),
{
    stored_len(phone) <= MAX_PHONE_LEN && stored_len(address) <= MAX_ADDRESS_LEN && stored_len(
        encrypted_mnemonic,
    ) <= MAX_MNEMONIC_LEN
}

impl UserAccount {
    /// A copy of this record for a reader.
    pub fn to_data(&self) -> (data: UserData)
        ensures
            data@ == self@,
    {
        UserData {
            phone: self.phone.clone(),
            address: self.address.clone(),
            encrypted_mnemonic: self.encrypted_mnemonic.clone(),
            created_at: self.created_at,
        }
    }
}

} // verus!
