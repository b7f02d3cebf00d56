//! Recovery of stored wireless network credentials: the walk over a
//! wireless configuration service's interfaces and profiles, the decoding
//! of the documents it returns, and the extraction of each network's name
//! and plaintext key.

pub mod xml;

pub mod profile;
pub mod wide;
pub mod passwords;
pub mod walk;
