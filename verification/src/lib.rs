//! Currency conversion against a daily rate snapshot.
//!
//! The library keeps the fixed set of supported currency codes, builds a
//! [`table::RateTable`] from a decoded rate listing, and resolves currency
//! names to rates.  Rates travel through the library as opaque 64-bit
//! payloads: callers store the bit pattern of a rate and interpret it again
//! on the way out, so the numeric work stays at the caller while every
//! lookup and validation rule is verified here.

pub mod codes;
pub mod lookup;
pub mod table;
