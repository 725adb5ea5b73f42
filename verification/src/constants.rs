use vstd::prelude::*;

verus! {

/// Largest payload, in bytes, that is accepted when no other limit was set: 256 KiB.
pub const DEFAULT_PAYLOAD_LIMIT: usize = 262_144;

/// Capacity, in bytes, that the accumulation buffer starts with. It is a
/// hint for the allocator and bounds nothing.
pub const INITIAL_BUFFER_CAPACITY: usize = 8192;

} // verus!
