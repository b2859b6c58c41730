//! Composite fingerprints for threat-actor profiles, and their comparison
//! against a corpus of earlier fingerprints.

pub mod builder;
pub mod corpus;
pub mod digest;
pub mod error;
pub mod fingerprint;
pub mod hexcode;
pub mod scorer;
pub mod similarity;
pub mod text;
