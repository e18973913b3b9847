//! A pointer-sized value that may be absent, and its atomically shared
//! counterpart.
//!
//! A pointer is modelled by its address: zero stands for "absent", any other
//! value for the address of a `T`. Nothing here owns, allocates or reads the
//! memory that an address refers to.
pub mod atomic;
pub mod nullable;
pub mod offset;
