//! An admin-controlled registry that maps a normalised phone number to a
//! wallet record, with every state transition proved against its contract.
//!
//! `instructions` holds the operations as transitions on the records that
//! were resolved for them; `registry` is the store that resolves the records
//! and commits what an operation wrote; `model` says what both mean, and
//! `guarantees` proves what holds of the operations taken together.

pub mod account;
pub mod address;
pub mod context;
pub mod error;
pub mod guarantees;
pub mod identity;
pub mod instructions;
pub mod model;
pub mod registry;

pub use account::{PigeonState, UserAccount, UserData};
pub use context::{
    DeleteUser, GetTotalUsers, GetUser, Initialize, OnboardUser, UpdateUser, UserExists,
};
pub use error::PigeonError;
pub use instructions::{
    delete_user, get_total_users, get_user, get_user_address, initialize, onboard_user,
    update_user, user_exists,
};
pub use registry::Registry;
