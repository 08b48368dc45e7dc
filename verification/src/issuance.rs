//! Total issuance on both chains.

use vstd::prelude::*;

verus! {

/// The total issuance of the relay chain and of the coretime parachain.
#[derive(Clone, Copy, Debug, PartialEq, Eq, Structural)]
pub struct TotalIssuance {
    /// On the relay chain.
    pub relay: u128,
    /// On the parachain.
    pub para: u128,
}

/// The total issuance on the chains is not what it should be.
#[derive(Clone, Copy, Debug, PartialEq, Eq, Structural)]
pub struct IssuanceMismatch {
    /// What it should be.
    pub expected: TotalIssuance,
    /// What it is.
    pub actual: TotalIssuance,
}

/// Compares the total issuance found on the chains with the expected one.
pub fn assert_total_issuance(
    actual: TotalIssuance,
    expected: TotalIssuance,
) -> (outcome: Result<(), IssuanceMismatch>)
    ensures
        outcome == (if actual == expected {
            Ok::<(), IssuanceMismatch>(())
        } else {
            Err::<(), IssuanceMismatch>(IssuanceMismatch { expected, actual })
        }),
{
    if actual == expected {
        Ok(())
    } else {
        Err(IssuanceMismatch { expected, actual })
    }
}

/// A total issuance as a signed number of the same width: from half of the range on it wraps
/// around to a negative one.
pub open spec fn as_signed(total: u128) -> int {
    if total <= i128::MAX {
        total as int
    } else {
        total - u128::MAX - 1
    }
}

/// What a new reading of the total issuance of a chain comes to.
#[derive(Clone, Copy, Debug, PartialEq, Eq, Structural)]
pub enum Observation {
    /// It is what it was.
    Unchanged,
    /// It is `issuance` now, which is `diff` more than before.
    Changed { issuance: i128, diff: i128 },
    /// It differs by more than a signed number of its width can hold.
    Overflow,
}

/// What a reading of `total` comes to after one of `issuance`.
pub open spec fn observation(issuance: int, total: u128) -> Observation {
    let diff = as_signed(total) - issuance;
    if diff < i128::MIN || diff > i128::MAX {
        Observation::Overflow
    } else if diff == 0 {
        Observation::Unchanged
    } else {
        Observation::Changed { issuance: as_signed(total) as i128, diff: diff as i128 }
    }
}

/// Watches the total issuance of one chain from block to block.
pub struct IssuanceWatcher {
    issuance: i128,
}

impl View for IssuanceWatcher {
    type V = int;

    /// The last reading.
    closed spec fn view(&self) -> int {
        self.issuance as int
    }
}

impl IssuanceWatcher {
    /// A watcher that has seen nothing yet, and takes the issuance to be zero.
    pub fn new() -> (watcher: IssuanceWatcher)
        ensures
            watcher@ == 0,
    {
        IssuanceWatcher { issuance: 0 }
    }

    /// Takes the total issuance at the next block. A reading that overflows is not kept.
    pub fn observe(&mut self, total: u128) -> (seen: Observation)
        ensures
            seen == observation(old(self)@, total),
            final(self)@ == (if seen is Overflow {
                old(self)@
            } else {
                as_signed(total)
            }),
    {
        let issuance: i128 = #[verifier::truncate] (total as i128);
        proof {
            assert(total <= 0x7fff_ffff_ffff_ffff_ffff_ffff_ffff_ffffu128 ==> (total as i128)
                == total) by (bit_vector);
            assert(total > 0x7fff_ffff_ffff_ffff_ffff_ffff_ffff_ffffu128 ==> (total as i128)
                == total - 0x1_0000_0000_0000_0000_0000_0000_0000_0000) by (bit_vector);
        }
        match issuance.checked_sub(self.issuance) {
            None => Observation::Overflow,
            Some(diff) => {
                self.issuance = issuance;
                if diff != 0 {
                    Observation::Changed { issuance, diff }
                } else {
                    Observation::Unchanged
                }
            },
        }
    }
}

impl TotalIssuance {
    /// This issuance with changes on both chains.
    pub open spec fn changed_by(self, relay: int, para: int) -> TotalIssuance {
        TotalIssuance { relay: (self.relay + relay) as u128, para: (self.para + para) as u128 }
    }

    /// Whether both chains can hold the changes.
    pub open spec fn can_change_by(self, relay: int, para: int) -> bool {
        &&& 0 <= self.relay + relay <= u128::MAX
        &&& 0 <= self.para + para <= u128::MAX
    }

    /// Accounts for tokens that come into being on the parachain alone.
    pub fn minted_on_para(&self, amount: u128) -> (issuance: Option<TotalIssuance>)
        ensures
            issuance == (if self.can_change_by(0, amount as int) {
                Some(self.changed_by(0, amount as int))
            } else {
                None
            }),
    {
        match self.para.checked_add(amount) {
            Some(para) => Some(TotalIssuance { relay: self.relay, para }),
            None => None,
        }
    }

    /// Accounts for tokens that are burnt on both chains.
    pub fn burnt_on_both(&self, amount: u128) -> (issuance: Option<TotalIssuance>)
        ensures
            issuance == (if self.can_change_by(-amount, -amount) {
                Some(self.changed_by(-amount, -amount))
            } else {
                None
            }),
    {
        match (self.relay.checked_sub(amount), self.para.checked_sub(amount)) {
            (Some(relay), Some(para)) => Some(TotalIssuance { relay, para }),
            _ => None,
        }
    }
}

/// The last reading that a watcher keeps after a sequence of them.
pub open spec fn issuance_after(issuance: int, totals: Seq<u128>) -> int
    decreases totals.len(),
{
    if totals.len() == 0 {
        issuance
    } else {
        let before = issuance_after(issuance, totals.drop_last());
        if observation(before, totals.last()) is Overflow {
            before
        } else {
            as_signed(totals.last())
        }
    }
}

/// The sum of the differences that a watcher reports over a sequence of readings.
pub open spec fn reported_sum(issuance: int, totals: Seq<u128>) -> int
    decreases totals.len(),
{
    if totals.len() == 0 {
        0
    } else {
        let before = issuance_after(issuance, totals.drop_last());
        let sum = reported_sum(issuance, totals.drop_last());
        match observation(before, totals.last()) {
            Observation::Changed { diff, .. } => sum + diff,
            _ => sum,
        }
    }
}

/// The differences that a watcher reports add up to the whole change: none is lost or counted
/// twice.
pub proof fn law_reports_add_up(issuance: int, totals: Seq<u128>)
    ensures
        issuance + reported_sum(issuance, totals) == issuance_after(issuance, totals),
    decreases totals.len(),
{
    if totals.len() > 0 {
        law_reports_add_up(issuance, totals.drop_last());
    }
}

/// A reading is reported exactly where it differs from the one before.
pub proof fn law_only_changes_are_reported(before: u128, total: u128)
    ensures
        observation(as_signed(before), total) is Unchanged <==> before == total,
{
}

/// As long as issuances stay in the lower half of the range, readings never overflow and
/// are taken at their value.
pub proof fn law_ordinary_readings_do_not_overflow(before: u128, total: u128)
    requires
        before <= i128::MAX,
        total <= i128::MAX,
    ensures
        !(observation(as_signed(before), total) is Overflow),
        before != total ==> observation(as_signed(before), total) == (Observation::Changed {
            issuance: total as i128,
            diff: (total - before) as i128,
        }),
{
}

/// What is minted on the parachain and burnt on both chains again is missing on the relay chain
/// alone.
pub proof fn law_mint_then_burn(issuance: TotalIssuance, amount: u128)
    requires
        issuance.can_change_by(0, amount as int),
        issuance.changed_by(0, amount as int).can_change_by(-amount, -amount),
    ensures
        issuance.changed_by(0, amount as int).changed_by(-amount, -amount) == issuance.changed_by(
            -amount,
            0,
        ),
{
}

/// A signed reading is the total issuance, or that less the size of the whole range, whichever fits
/// a signed number of its width.
pub proof fn law_signed_reading_differs_by_whole_range(total: u128)
    ensures
        i128::MIN <= as_signed(total) <= i128::MAX,
        as_signed(total) == total || as_signed(total) == total
            - 0x1_0000_0000_0000_0000_0000_0000_0000_0000int,
{
}

/// What is reported is the new reading and by how much it is more than the last one, and every
/// difference that fits is reported. Only one that does not fit overflows.
pub proof fn law_report_is_exact(before: int, total: u128)
    ensures
        ({
            let diff = as_signed(total) - before;
            let seen = observation(before, total);
            &&& seen is Overflow <==> diff < i128::MIN || i128::MAX < diff
            &&& seen is Unchanged <==> diff == 0
            &&& seen matches Observation::Changed { issuance: reported, diff: by } ==> {
                &&& reported == as_signed(total)
                &&& reported == before + by
            }
        }),
{
    law_signed_reading_differs_by_whole_range(total);
}

/// Both chains can hold changes exactly if neither issuance would leave the range of its type, and
/// each issuance then differs by its own change.
pub proof fn law_changes_are_exact(issuance: TotalIssuance, relay: int, para: int)
    ensures
        issuance.can_change_by(relay, para) <==> {
            &&& 0 <= issuance.relay + relay <= u128::MAX
            &&& 0 <= issuance.para + para <= u128::MAX
        },
        issuance.can_change_by(relay, para) ==> {
            &&& issuance.changed_by(relay, para).relay - issuance.relay == relay
            &&& issuance.changed_by(relay, para).para - issuance.para == para
        },
{
}

} // verus!
