//! Values that live on the chains.

use vstd::prelude::*;

verus! {

/// An account on either chain.
#[derive(Clone, Copy, Debug, PartialEq, Eq)]
pub struct AccountId(pub [u8; 32]);

impl View for AccountId {
    type V = Seq<u8>;

    open spec fn view(&self) -> Seq<u8> {
        self.0@
    }
}

impl AccountId {
    /// Whether two accounts are the same.
    pub fn same_as(&self, other: &AccountId) -> (same: bool)
        ensures
            same == (self@ == other@),
    {
        let mut i: usize = 0;
        while i < 32
            invariant
                i <= 32,
                forall|j: int| 0 <= j < i ==> self@[j] == #[trigger] other@[j],
            decreases 32 - i,
        {
            if self.0[i] != other.0[i] {
                assert(self@[i as int] != other@[i as int]);
                return false;
            }
            i += 1;
        }
        assert(self@ =~= other@);
        true
    }
}

/// A region of bulk coretime: some parts of a core, from some timeslice on.
#[derive(Clone, Copy, Debug, PartialEq, Eq)]
pub struct RegionId {
    /// The timeslice at which the region begins.
    pub begin: u32,
    /// The core it lies on.
    pub core: u16,
    /// The parts of the core it covers.
    pub mask: [u8; 10],
}

/// A sale of regions.
#[derive(Clone, Copy, Debug, PartialEq, Eq, Structural)]
pub struct Sale {
    /// The block at which the sale starts.
    pub sale_start: u32,
    /// How many blocks the price takes to come down.
    pub leadin_length: u32,
    /// The price at the start.
    pub start_price: u128,
    /// The price that it comes down to.
    pub end_price: u128,
    /// The timeslice at which the regions on sale begin.
    pub region_begin: u32,
    /// The timeslice at which they end.
    pub region_end: u32,
    /// How many cores should ideally be sold.
    pub ideal_cores_sold: u16,
    /// How many cores are offered.
    pub cores_offered: u16,
}

/// What the parachain events that are waited for carry.
#[derive(Clone, Copy, Debug, PartialEq, Eq)]
pub enum Payload {
    /// `Balances::Minted`: tokens came into being on an account.
    Minted { who: AccountId },
    /// `Broker::SaleInitialized`: a sale of regions began.
    SaleInitialized(Sale),
    /// `Broker::HistoryInitialized`: the pools of a timeslice were fixed.
    HistoryInitialized { when: u32, private_pool_size: u32 },
    /// `Broker::ClaimsReady`: the revenue of a timeslice can be claimed.
    ClaimsReady { when: u32, private_payout: u128 },
    /// Any other event, and any of the above that did not decode.
    Other,
}

} // verus!
