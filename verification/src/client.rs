//! The side of the configuration program: what it makes of the answers of
//! the compositor's services.

pub mod output;
