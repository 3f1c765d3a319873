//! Discovery of network gateways on a local IPv4 range.
//!
//! The library holds the verified logic: the address range walk, the
//! hardware-address value type, the decisions taken on probe responses, the
//! race between the two protocol probes and the bounded scheduler. The
//! network work itself is driven by the program around the library.
pub mod probe;
pub mod race;
pub mod range;
pub mod scheduler;
pub mod types;
