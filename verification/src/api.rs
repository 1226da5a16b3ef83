//! The services that outside programs call.

pub mod layout;
