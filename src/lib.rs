//! Ring verifiable random function: suite descriptors, hash-to-curve by
//! try-and-increment, and the rules by which ring signatures are set up and
//! verified.
pub mod curve;
pub mod h2c;
pub mod ring;
pub mod suite;
