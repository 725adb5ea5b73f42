use crate::constants::DEFAULT_PAYLOAD_LIMIT;
use vstd::prelude::*;

verus! {

/// Extractor configuration: the largest payload that a request may carry.
pub struct MsgPackConfig {
    pub(crate) limit: usize,
}

impl MsgPackConfig {
    /// The limit that this configuration holds, in bytes.
    pub closed spec fn max_size(&self) -> usize {
        self.limit
    }

    /// Set maximum accepted payload size in bytes. The default limit is 256KiB.
    pub fn limit(&mut self, limit: usize) -> (config: &mut Self)
        ensures
            config.max_size() == limit,
            *final(self) == *final(config),
    {
        self.limit = limit;
        self
    }
}

impl Default for MsgPackConfig {
    fn default() -> (config: Self)
        ensures
            config.max_size() == DEFAULT_PAYLOAD_LIMIT,
    {
        MsgPackConfig { limit: DEFAULT_PAYLOAD_LIMIT }
    }
}

/// The budget of one extraction: the limit of the configuration that the
/// request carries, or the default where it carries none.
pub fn effective_limit(config: Option<&MsgPackConfig>) -> (limit: usize)
    ensures
        limit == match config {
            Some(c) => c.max_size(),
            None => DEFAULT_PAYLOAD_LIMIT,
        },
{
    match config {
        Some(c) => c.limit,
        None => DEFAULT_PAYLOAD_LIMIT,
    }
}

} // verus!
