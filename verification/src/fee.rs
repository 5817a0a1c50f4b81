//! The network's fee for a transaction. Where fees are on, a transaction
//! pays for each started unit of its encoded size, at least for one, and
//! the price of a unit is the schedule's multiplier. Where fees are off,
//! a transaction pays nothing.

use crate::result::Error;
use vstd::prelude::*;

verus! {

/// The network's fee parameters.
#[derive(Clone, Copy, Debug, PartialEq, Eq, Structural)]
pub struct FeeSchedule {
    /// Whether transactions pay fees at all.
    pub txn_fees: bool,
    /// The price of one unit of payload.
    pub txn_fee_multiplier: u64,
    /// The number of bytes in one unit of payload.
    pub dc_payload_size: u64,
}

/// The units of payload that `size` bytes start, at least one.
pub open spec fn payload_units(size: nat, unit: nat) -> nat
    recommends
        unit > 0,
{
    if size <= unit {
        1
    } else {
        ((size + unit - 1) / unit as int) as nat
    }
}

/// The fee for a transaction of `size` encoded bytes, or why there is
/// none.
pub open spec fn schedule_fee(schedule: FeeSchedule, size: u64) -> Result<u64, Error> {
    if !schedule.txn_fees {
        Ok(0)
    } else if schedule.dc_payload_size == 0 {
        Err(Error::FeeSchedule)
    } else if payload_units(size as nat, schedule.dc_payload_size as nat)
        * schedule.txn_fee_multiplier > u64::MAX {
        Err(Error::FeeOverflow)
    } else {
        Ok(
            (payload_units(size as nat, schedule.dc_payload_size as nat)
                * schedule.txn_fee_multiplier) as u64,
        )
    }
}

/// The schedule that the network's variables give: whether it charges
/// fees, the price of a unit and the size of a unit. There is none where
/// the network does not say whether it charges, and none where it charges
/// and does not say how much.
pub open spec fn schedule_of_vars(
    txn_fees: Option<bool>,
    txn_fee_multiplier: Option<u64>,
    dc_payload_size: Option<u64>,
) -> Result<FeeSchedule, Error> {
    match (txn_fees, txn_fee_multiplier, dc_payload_size) {
        (Some(true), Some(multiplier), Some(unit)) => Ok(
            FeeSchedule { txn_fees: true, txn_fee_multiplier: multiplier, dc_payload_size: unit },
        ),
        (Some(false), _, _) => Ok(
            FeeSchedule { txn_fees: false, txn_fee_multiplier: 0, dc_payload_size: 0 },
        ),
        _ => Err(Error::FeeSchedule),
    }
}

impl FeeSchedule {
    /// Takes the schedule from the network's variables.
    pub fn from_vars(
        txn_fees: Option<bool>,
        txn_fee_multiplier: Option<u64>,
        dc_payload_size: Option<u64>,
    ) -> (schedule: Result<FeeSchedule, Error>)
        ensures
            schedule == schedule_of_vars(txn_fees, txn_fee_multiplier, dc_payload_size),
    {
        match txn_fees {
            Some(false) => Ok(
                FeeSchedule { txn_fees: false, txn_fee_multiplier: 0, dc_payload_size: 0 },
            ),
            Some(true) => match (txn_fee_multiplier, dc_payload_size) {
                (Some(multiplier), Some(unit)) => Ok(
                    FeeSchedule {
                        txn_fees: true,
                        txn_fee_multiplier: multiplier,
                        dc_payload_size: unit,
                    },
                ),
                _ => Err(Error::FeeSchedule),
            },
            None => Err(Error::FeeSchedule),
        }
    }

    /// Computes the fee for a transaction of `size` encoded bytes. A
    /// schedule that charges per unit of zero bytes is refused, and so is a
    /// fee that does not fit in 64 bits.
    pub fn txn_fee(&self, size: u64) -> (fee: Result<u64, Error>)
        ensures
            fee == schedule_fee(*self, size),
    {
        if !self.txn_fees {
            return Ok(0);
        }
        let unit: u64 = self.dc_payload_size;
        if unit == 0 {
            return Err(Error::FeeSchedule);
        }
        let units: u64 = if size <= unit {
            1
        } else {
            // size > unit >= 1: one unit for each full one, and one more
            // for what is left
            let full: u64 = size / unit;
            if size % unit == 0 {
                proof {
                    lemma_units_exact(size as nat, unit as nat);
                }
                full
            } else {
                proof {
                    lemma_units_started(size as nat, unit as nat);
                    assert(full < u64::MAX) by (nonlinear_arith)
                        requires
                            full == size as int / unit as int,
                            size as int % unit as int != 0,
                            unit > 0,
                            size <= u64::MAX,
                    ;
                }
                full + 1
            }
        };
        match units.checked_mul(self.txn_fee_multiplier) {
            Some(fee) => Ok(fee),
            None => Err(Error::FeeOverflow),
        }
    }
}

proof fn lemma_units_exact(size: nat, unit: nat)
    requires
        unit > 0,
        size > unit,
        size % unit == 0,
    ensures
        payload_units(size, unit) == size / unit,
{
    let q = size / unit;
    assert(size == q * unit) by (nonlinear_arith)
        requires
            q == size / unit,
            size % unit == 0,
            unit > 0,
    ;
    assert((q * unit + unit - 1) / unit as int == q) by (nonlinear_arith)
        requires
            unit > 0,
            q >= 0,
    ;
}

proof fn lemma_units_started(size: nat, unit: nat)
    requires
        unit > 0,
        size > unit,
        size % unit != 0,
    ensures
        payload_units(size, unit) == size / unit + 1,
{
    let q = size / unit;
    let r = size % unit;
    assert(size == q * unit + r && 0 < r < unit) by (nonlinear_arith)
        requires
            q == size / unit,
            r == size % unit,
            r != 0,
            unit > 0,
    ;
    assert((q * unit + r + unit - 1) / unit as int == q + 1) by (nonlinear_arith)
        requires
            unit > 0,
            q >= 0,
            0 < r < unit,
    ;
}

} // verus!
