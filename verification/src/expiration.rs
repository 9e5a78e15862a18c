//! When an auction stops taking bids.

use vstd::prelude::*;
use crate::host::BlockInfo;

verus! {

/// A point at which something expires: a block height, a time, or never.
#[derive(Debug, Clone, Copy, PartialEq, Eq)]
pub enum Expiration {
    /// Expired from the block of this height on.
    AtHeight(u64),
    /// Expired from this time on, in nanoseconds since the epoch.
    AtTime(u64),
    /// Never expired.
    Never,
}

impl Expiration {
    /// Whether this point has been reached in `block`.
    pub open spec fn expired_at(self, block: BlockInfo) -> bool {
        match self {
            Expiration::AtHeight(height) => block.height >= height,
            Expiration::AtTime(time) => block.time >= time,
            Expiration::Never => false,
        }
    }

    /// Whether this point has been reached in `block`.
    pub fn is_expired(&self, block: &BlockInfo) -> (expired: bool)
        ensures
            expired == self.expired_at(*block),
    {
        cw_is_expired(*self, block.height, block.time)
    }
}

/// Asks `cw721::Expiration::is_expired`, in a block of the given height and
/// time. An expiration at a height is reached once the block's height is at
/// least that height, one at a time once the block's time is at least that
/// time, and `Never` is never reached.
#[verifier::external_body]
fn cw_is_expired(expiration: Expiration, height: u64, time: u64) -> (expired: bool)
    ensures
        expired == expiration.expired_at(BlockInfo { height, time }),
{
    let block = cosmwasm_std::BlockInfo {
        height,
        time: cosmwasm_std::Timestamp::from_nanos(time),
        chain_id: String::new(),
    };
    let outside = match expiration {
        Expiration::AtHeight(h) => cw721::Expiration::AtHeight(h),
        Expiration::AtTime(t) => cw721::Expiration::AtTime(cosmwasm_std::Timestamp::from_nanos(t)),
        Expiration::Never => cw721::Expiration::Never {},
    };
    outside.is_expired(&block)
}

} // verus!
