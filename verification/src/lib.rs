//! Request rules of a laboratory inventory server: validation of inventory
//! operations, the HTTP status each failure is answered with, and the
//! federation protocol that lets two deployments read and borrow from each
//! other.
use vstd::prelude::*;

pub mod borrowing;
pub mod conversions;
pub mod crypto;
pub mod errors;
pub mod federation;
pub mod guests;
pub mod ids;
pub mod inventory;
pub mod listing;
pub mod numeric;
pub mod public_data;
pub mod remote;
pub mod routing;
pub mod security;
pub mod sql;
pub mod text;
pub mod uploads;

verus! {

} // verus!
