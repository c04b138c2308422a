//! Per-category telemetry snapshots and the anti-regression filter.
//!
//! A meter delivers one reading per phase slot: slot 0 is the aggregate
//! (`total`), slots 1 to 3 are the line phases (`l1`, `l2`, `l3`). Readings
//! arrive already converted to the canonical fixed-point scale (milli-units:
//! milliamps, millivolts, milliwatts, milliwatt-hours). A slot is overwritten
//! only when the new value is at least the stored one, or rises above the
//! last-known `l3` reference; anything below is treated as meter noise and
//! dropped. Only an accepted `total` marks the snapshot as `updated`, which
//! is the sole signal that a complete cycle arrived and evaluation should run.

use vstd::prelude::*;

use crate::EnergyError;

verus! {

/// The closed set of telemetry categories a meter can report.
#[derive(Clone, Copy, Debug, Default, PartialEq, Eq, Structural)]
pub enum MeterTagSet {
    Current,
    Tension,
    Power,
    OverCurrent,
    Energy,
    #[default]
    Unset,
}

/// One category's multi-phase snapshot in fixed-point milli-units.
///
/// `start` is the baseline subtracted from the aggregate slot so that
/// cumulative energy counters yield session values; `variation` is a guard
/// factor reserved for meters that need a coarser debounce; `updated` flags
/// that the last aggregate reading passed the filter.
#[derive(Clone, Copy, Debug, PartialEq, Eq, Structural)]
pub struct MeterDataSet {
    pub start: i32,
    pub variation: i32,
    pub updated: bool,
    pub tag: MeterTagSet,
    pub total: i32,
    pub l1: i32,
    pub l2: i32,
    pub l3: i32,
}

/// The snapshot after one phase reading, as stored by [`MeterDataSet::update`].
///
/// Slot 0 is baseline-adjusted and decides `updated`; slots 1 to 3 keep
/// `updated` as it is; any other phase leaves the snapshot unchanged.
pub open spec fn updated_set(s: MeterDataSet, phase: int, value: i32) -> MeterDataSet {
    if phase == 0 {
        let v = value - s.start;
        if v >= s.total || v > s.l3 {
            MeterDataSet { total: v as i32, updated: true, ..s }
        } else {
            MeterDataSet { updated: false, ..s }
        }
    } else if phase == 1 {
        if value >= s.l1 || value > s.l3 {
            MeterDataSet { l1: value, ..s }
        } else {
            s
        }
    } else if phase == 2 {
        if value >= s.l2 || value > s.l3 {
            MeterDataSet { l2: value, ..s }
        } else {
            s
        }
    } else if phase == 3 {
        if value >= s.l3 {
            MeterDataSet { l3: value, ..s }
        } else {
            s
        }
    } else {
        s
    }
}

/// The snapshot after the first `n` readings of `vs`, fed as phases `0..n`.
pub open spec fn updated_prefix(s: MeterDataSet, vs: Seq<i32>, n: int) -> MeterDataSet
    decreases n,
{
    if n <= 0 {
        s
    } else {
        updated_set(updated_prefix(s, vs, n - 1), n - 1, vs[n - 1])
    }
}

impl MeterDataSet {
    /// A fresh snapshot for one category: all slots zero, filter armed.
    pub fn default(tag: MeterTagSet) -> (r: Self)
        ensures
            r == (MeterDataSet {
                start: 0,
                variation: 1,
                updated: false,
                tag,
                total: 0,
                l1: 0,
                l2: 0,
                l3: 0,
            }),
    {
        MeterDataSet {
            tag,
            variation: 1,
            start: 0,
            updated: false,
            total: 0,
            l1: 0,
            l2: 0,
            l3: 0,
        }
    }

    /// Feed one phase reading through the anti-regression filter.
    ///
    /// Phase 0 stores the baseline-adjusted aggregate and sets `updated`
    /// exactly when the filter passes; phases 1 to 3 store their slot under
    /// the same filter without touching `updated`; any other phase is
    /// rejected and leaves the snapshot as it was.
    pub fn update(&mut self, phase: usize, value: i32) -> (r: Result<(), EnergyError>)
        requires
            phase == 0 ==> i32::MIN <= value - old(self).start <= i32::MAX,
        ensures
            *final(self) == updated_set(*old(self), phase as int, value),
            r is Ok <==> phase <= 3,
            phase > 3 ==> r == Result::<(), EnergyError>::Err(EnergyError::InvalidPhase),
    {
        match phase {
            0 => {
                let v = value - self.start;
                if v >= self.total || v > self.l3 {
                    self.total = v;
                    self.updated = true;
                } else {
                    self.updated = false;
                }
                Ok(())
            }
            1 => {
                if value >= self.l1 || value > self.l3 {
                    self.l1 = value;
                }
                Ok(())
            }
            2 => {
                if value >= self.l2 || value > self.l3 {
                    self.l2 = value;
                }
                Ok(())
            }
            3 => {
                if value >= self.l3 {
                    self.l3 = value;
                }
                Ok(())
            }
            _ => Err(EnergyError::InvalidPhase),
        }
    }

    /// Rebase the session counter on a freshly read meter total: only the
    /// cumulative energy category keeps a baseline, so any other category
    /// rejects the reset untouched.
    pub fn reset(&mut self, start: i32) -> (r: Result<(), EnergyError>)
        ensures
            old(self).tag == MeterTagSet::Energy ==> *final(self) == (MeterDataSet {
                start,
                total: 0,
                ..*old(self)
            }) && r is Ok,
            old(self).tag != MeterTagSet::Energy ==> *final(self) == *old(self) && r
                == Result::<(), EnergyError>::Err(EnergyError::ResetNotSupported),
    {
        match self.tag {
            MeterTagSet::Energy => {
                self.start = start;
                self.total = 0;
                Ok(())
            }
            _ => Err(EnergyError::ResetNotSupported),
        }
    }

    /// Feed a whole telemetry frame, one reading per phase slot in order.
    ///
    /// A frame longer than the four slots is applied up to slot 3 and then
    /// rejected, exactly as feeding each reading one by one would be.
    pub fn update_all(&mut self, values: &Vec<i32>) -> (r: Result<(), EnergyError>)
        requires
            values@.len() > 0 ==> i32::MIN <= values@[0] - old(self).start <= i32::MAX,
        ensures
            *final(self) == updated_prefix(
                *old(self),
                values@,
                if values@.len() <= 4 { values@.len() as int } else { 4 },
            ),
            r is Ok <==> values@.len() <= 4,
            values@.len() > 4 ==> r == Result::<(), EnergyError>::Err(EnergyError::InvalidPhase),
    {
        let n = values.len();
        let mut i: usize = 0;
        while i < n
            invariant
                i <= n,
                n == values@.len(),
                i <= 4,
                *self == updated_prefix(*old(self), values@, i as int),
                values@.len() > 0 ==> i32::MIN <= values@[0] - old(self).start <= i32::MAX,
            decreases n - i,
        {
            match self.update(i, values[i]) {
                Ok(_) => {}
                Err(e) => {
                    return Err(e);
                }
            }
            i = i + 1;
        }
        Ok(())
    }
}

/// Anti-regression law: a reading at or above its stored slot (or above
/// the `l3` reference) is stored — the baseline-adjusted phase-0 reading
/// also flags the snapshot as updated; a reading below both is dropped
/// whole, and on phase 0 clears the flag.
pub proof fn lemma_update_filter(s: MeterDataSet, value: i32)
    requires
        i32::MIN <= value - s.start <= i32::MAX,
    ensures
        value - s.start >= s.total || value - s.start > s.l3 ==> updated_set(s, 0, value)
            == (MeterDataSet { total: (value - s.start) as i32, updated: true, ..s }),
        value - s.start < s.total && value - s.start <= s.l3 ==> updated_set(s, 0, value)
            == (MeterDataSet { updated: false, ..s }),
        value >= s.l1 || value > s.l3 ==> updated_set(s, 1, value) == (MeterDataSet {
            l1: value,
            ..s
        }),
        value < s.l1 && value <= s.l3 ==> updated_set(s, 1, value) == s,
        value >= s.l2 || value > s.l3 ==> updated_set(s, 2, value) == (MeterDataSet {
            l2: value,
            ..s
        }),
        value < s.l2 && value <= s.l3 ==> updated_set(s, 2, value) == s,
        value >= s.l3 ==> updated_set(s, 3, value) == (MeterDataSet { l3: value, ..s }),
        value < s.l3 ==> updated_set(s, 3, value) == s,
{
}

} // verus!
