//! The energy manager: effective safety limits, threshold evaluation, and
//! the available-current computation.
//!
//! All stored quantities use the canonical fixed-point scale of milli-units
//! (milliamps, millivolts, milliwatts, milliwatt-hours). The hardware
//! ceilings are fixed at construction; the effective limits start at the
//! ceilings and can only ever be narrowed by configuration. Evaluation never
//! sends anything itself: it returns the notification to emit, so the
//! transport around the library can deliver it after every guard is
//! released.

use vstd::prelude::*;

use crate::EnergyError;
use crate::meter::{MeterDataSet, MeterTagSet, updated_prefix};

verus! {

/// The aggregate mutable state: observed values and effective limits.
///
/// `imax`, `pmax` and `umax` are the effective cable, backend and voltage
/// limits; `subscription_max` is the contractual power ceiling and `tension`
/// the last known line voltage; `current`, `power` and `session` are the
/// last observed aggregates, and `timestamp` the time of the last snapshot.
#[derive(Clone, Copy, Debug, PartialEq, Eq, Structural)]
pub struct EnergyState {
    pub imax: i32,
    pub pmax: i32,
    pub umax: i32,
    pub subscription_max: i32,
    pub tension: i32,
    pub current: i32,
    pub power: i32,
    pub session: i32,
    pub timestamp: u64,
}

impl EnergyState {
    /// A fresh state: limits at the given values, nothing observed yet.
    pub fn default(imax: i32, pmax: i32, umax: i32) -> (r: Self)
        ensures
            r == (EnergyState {
                imax,
                pmax,
                umax,
                subscription_max: 0,
                tension: 0,
                current: 0,
                power: 0,
                session: 0,
                timestamp: 0,
            }),
    {
        EnergyState {
            imax,
            pmax,
            umax,
            subscription_max: 0,
            tension: 0,
            current: 0,
            power: 0,
            session: 0,
            timestamp: 0,
        }
    }
}

/// The resolved effective configuration, in whole amps and watts.
#[derive(Clone, Copy, Debug, PartialEq, Eq, Structural)]
pub struct EngyConfSet {
    pub imax: i32,
    pub pmax: i32,
}

/// An over-limit notification: which category tripped and the limit that
/// was exceeded, in the canonical milli scale.
#[derive(Clone, Copy, Debug, PartialEq, Eq, Structural)]
pub struct OverLimit {
    pub tag: MeterTagSet,
    pub value: i32,
}

/// Commands broadcast to charge-point subscribers reacting to limits.
#[allow(non_camel_case_types)]
#[derive(Clone, Copy, Debug, Default, PartialEq, Eq, Structural)]
pub enum PowerEvent {
    #[default]
    STOP,
    START,
    IMAX(u32),
    UNSET,
}

/// How a requested limit (already scaled to milli-units) resolves against a
/// hardware ceiling: granted when strictly between zero and the ceiling,
/// otherwise reset to the ceiling.
pub open spec fn resolve_limit(ceiling: i32, requested_milli: int) -> int {
    if 0 < requested_milli && requested_milli < ceiling {
        requested_milli
    } else {
        ceiling as int
    }
}

/// The single long-lived owner of the energy state.
///
/// `imax` and `pmax` are the hardware ceilings the effective limits in
/// `state` can never exceed; `phase` is the declared phase count of the
/// installation, kept for snapshots while evaluation detects the live
/// count from telemetry.
pub struct ManagerHandle {
    pub state: EnergyState,
    pub imax: i32,
    pub pmax: i32,
    pub phase: i32,
}

/// The manager after a cable-limit request.
pub open spec fn apply_cable(h: ManagerHandle, amp_max: i32) -> ManagerHandle {
    ManagerHandle {
        state: EnergyState {
            imax: resolve_limit(h.imax, amp_max * 1000) as i32,
            ..h.state
        },
        ..h
    }
}

/// The manager after a backend-limit request.
pub open spec fn apply_backend(h: ManagerHandle, watt_max: i32) -> ManagerHandle {
    ManagerHandle {
        state: EnergyState {
            pmax: resolve_limit(h.pmax, watt_max * 1000) as i32,
            ..h.state
        },
        ..h
    }
}

/// The manager after recording a contractual subscription.
pub open spec fn apply_subscription(h: ManagerHandle, watt_max: i32, volts: i32) -> ManagerHandle {
    ManagerHandle {
        state: EnergyState {
            subscription_max: (watt_max * 1000) as i32,
            tension: (volts * 1000) as i32,
            ..h.state
        },
        ..h
    }
}

/// The state after evaluating one snapshot: the observed aggregate of the
/// snapshot's category is stored, limits are untouched.
pub open spec fn eval_state(s: EnergyState, d: MeterDataSet) -> EnergyState {
    match d.tag {
        MeterTagSet::Current => EnergyState { current: d.total, ..s },
        MeterTagSet::Tension => EnergyState { tension: d.total, ..s },
        MeterTagSet::Power => EnergyState { power: d.total, ..s },
        MeterTagSet::Energy => EnergyState { session: d.total, ..s },
        MeterTagSet::OverCurrent => s,
        MeterTagSet::Unset => s,
    }
}

/// The notification evaluating one snapshot emits, if any: per-phase
/// current or voltage above the effective limit, aggregate power above the
/// subscription ceiling, and a hardware over-current trip unconditionally.
pub open spec fn eval_notice(s: EnergyState, d: MeterDataSet) -> Option<OverLimit> {
    match d.tag {
        MeterTagSet::Current => if d.l1 > s.imax || d.l2 > s.imax || d.l3 > s.imax {
            Some(OverLimit { tag: MeterTagSet::Current, value: s.imax })
        } else {
            None
        },
        MeterTagSet::Tension => if d.l1 > s.umax || d.l2 > s.umax || d.l3 > s.umax {
            Some(OverLimit { tag: MeterTagSet::Tension, value: s.umax })
        } else {
            None
        },
        MeterTagSet::Power => if d.total > s.subscription_max {
            Some(OverLimit { tag: MeterTagSet::Power, value: s.subscription_max })
        } else {
            None
        },
        MeterTagSet::Energy => None,
        MeterTagSet::OverCurrent => Some(
            OverLimit { tag: MeterTagSet::OverCurrent, value: s.subscription_max },
        ),
        MeterTagSet::Unset => None,
    }
}

/// The live phase count a snapshot shows: one when the aggregate equals the
/// first phase, otherwise one more for each further phase carrying current.
pub open spec fn detected_phases(d: MeterDataSet) -> int {
    if d.total == d.l1 {
        1
    } else {
        1 + (if d.l2 != 0 {
            1int
        } else {
            0int
        }) + (if d.l3 != 0 {
            1int
        } else {
            0int
        })
    }
}

/// Division as the machine performs it on signed operands, for a positive
/// divisor: the quotient rounded toward zero.
pub open spec fn div_toward_zero(a: int, b: int) -> int {
    if a >= 0 {
        a / b
    } else {
        -((-a) / b)
    }
}

/// The power still available before the 20% safety margin of the effective
/// backend limit is reached, in milliwatts.
pub open spec fn remaining_power(s: EnergyState, d: MeterDataSet) -> int {
    (s.pmax * 80) / 100 - d.total
}

/// The headroom in whole amps a snapshot leaves for the controllable load.
pub open spec fn avail_current(s: EnergyState, d: MeterDataSet) -> int {
    div_toward_zero(
        div_toward_zero(remaining_power(s, d), s.tension as int),
        detected_phases(d),
    )
}

impl ManagerHandle {
    /// The manager's invariant: effective limits are positive and never
    /// above their hardware ceilings.
    pub open spec fn wf(self) -> bool {
        &&& 0 < self.state.imax <= self.imax
        &&& 0 < self.state.pmax <= self.pmax
        &&& 0 < self.state.umax
    }

    /// Build the single manager for the process, from the hardware ceilings
    /// in whole amps, watts and volts; every effective limit starts at its
    /// ceiling.
    pub fn new(imax: i32, pmax: i32, umax: i32, phase: i32) -> (r: Self)
        requires
            0 < imax,
            imax * 1000 <= i32::MAX,
            0 < pmax,
            pmax * 1000 <= i32::MAX,
            0 < umax,
            umax * 1000 <= i32::MAX,
        ensures
            r.imax == imax * 1000,
            r.pmax == pmax * 1000,
            r.phase == phase,
            r.state == (EnergyState {
                imax: (imax * 1000) as i32,
                pmax: (pmax * 1000) as i32,
                umax: (umax * 1000) as i32,
                subscription_max: 0,
                tension: 0,
                current: 0,
                power: 0,
                session: 0,
                timestamp: 0,
            }),
            r.wf(),
    {
        let imax = imax * 1000;
        let pmax = pmax * 1000;
        let umax = umax * 1000;
        ManagerHandle {
            state: EnergyState::default(imax, pmax, umax),
            imax,
            pmax,
            phase,
        }
    }

    /// Borrow the current state for a read under the caller's guard.
    pub fn get_state(&self) -> (r: &EnergyState)
        ensures
            *r == self.state,
    {
        &self.state
    }

    /// Stamp the state with the given snapshot time and return a copy.
    pub fn clone_state(&mut self, timestamp: u64) -> (r: EnergyState)
        ensures
            *final(self) == (ManagerHandle {
                state: (EnergyState { timestamp, ..old(self).state }),
                ..*old(self)
            }),
            r == final(self).state,
    {
        self.state.timestamp = timestamp;
        self.state
    }

    /// The resolved effective configuration, scaled back to whole amps and
    /// watts.
    pub fn get_config(&self) -> (r: EngyConfSet)
        requires
            self.wf(),
        ensures
            r.imax == self.state.imax / 1000,
            r.pmax == self.state.pmax / 1000,
    {
        EngyConfSet { imax: self.state.imax / 1000, pmax: self.state.pmax / 1000 }
    }

    /// Request a new effective cable limit, in whole amps: granted when
    /// strictly between zero and the hardware ceiling, otherwise the limit
    /// resets to the ceiling.
    pub fn set_imax_cable(&mut self, amp_max: i32)
        requires
            old(self).wf(),
        ensures
            *final(self) == apply_cable(*old(self), amp_max),
            final(self).wf(),
    {
        let scaled: i64 = (amp_max as i64) * 1000;
        if 0 < scaled && scaled < (self.imax as i64) {
            self.state.imax = scaled as i32;
        } else {
            self.state.imax = self.imax;
        }
    }

    /// Request a new effective backend limit, in whole watts: granted when
    /// strictly between zero and the hardware ceiling, otherwise the limit
    /// resets to the ceiling.
    pub fn set_power_backend(&mut self, watt_max: i32)
        requires
            old(self).wf(),
        ensures
            *final(self) == apply_backend(*old(self), watt_max),
            final(self).wf(),
    {
        let scaled: i64 = (watt_max as i64) * 1000;
        if 0 < scaled && scaled < (self.pmax as i64) {
            self.state.pmax = scaled as i32;
        } else {
            self.state.pmax = self.pmax;
        }
    }

    /// Record the contractual subscription: its power ceiling in whole
    /// watts and the declared line voltage in whole volts.
    pub fn set_power_subscription(&mut self, watt_max: i32, volts: i32)
        requires
            i32::MIN <= watt_max * 1000 <= i32::MAX,
            i32::MIN <= volts * 1000 <= i32::MAX,
        ensures
            *final(self) == apply_subscription(*old(self), watt_max, volts),
    {
        self.state.subscription_max = watt_max * 1000;
        self.state.tension = volts * 1000;
    }

    /// Build the over-limit notification for the transport to broadcast.
    pub fn notify_over_power(&self, tag: MeterTagSet, over_power: i32) -> (r: OverLimit)
        ensures
            r == (OverLimit { tag, value: over_power }),
    {
        OverLimit { tag, value: over_power }
    }

    /// Evaluate one snapshot: store its aggregate in the state and decide
    /// the notification, exactly as [`eval_state`] and [`eval_notice`] say.
    /// Unknown categories are ignored.
    pub fn check_over_subscription(&mut self, data_new: &MeterDataSet) -> (r: Option<OverLimit>)
        ensures
            *final(self) == (ManagerHandle {
                state: eval_state(old(self).state, *data_new),
                ..*old(self)
            }),
            r == eval_notice(old(self).state, *data_new),
    {
        match data_new.tag {
            MeterTagSet::Current => {
                self.state.current = data_new.total;
                if data_new.l1 > self.state.imax || data_new.l2 > self.state.imax
                    || data_new.l3 > self.state.imax {
                    Some(self.notify_over_power(data_new.tag, self.state.imax))
                } else {
                    None
                }
            }
            MeterTagSet::Tension => {
                let umax = self.state.umax;
                self.state.tension = data_new.total;
                if data_new.l1 > umax || data_new.l2 > umax || data_new.l3 > umax {
                    Some(self.notify_over_power(data_new.tag, umax))
                } else {
                    None
                }
            }
            MeterTagSet::Power => {
                self.state.power = data_new.total;
                if data_new.total > self.state.subscription_max {
                    Some(self.notify_over_power(data_new.tag, self.state.subscription_max))
                } else {
                    None
                }
            }
            MeterTagSet::Energy => {
                self.state.session = data_new.total;
                None
            }
            MeterTagSet::OverCurrent => {
                Some(self.notify_over_power(data_new.tag, self.state.subscription_max))
            }
            MeterTagSet::Unset => None,
        }
    }

    /// The headroom a snapshot leaves: at most 80% of the effective backend
    /// limit is handed out, what remains over the observed draw is divided
    /// by the line voltage and the live phase count. Returns the headroom
    /// in whole amps beside the effective cable limit in whole amps; fails
    /// when no positive line voltage is known, or when the headroom falls
    /// outside the fixed-point range.
    pub fn check_available_current(&self, data: &MeterDataSet) -> (r: Result<(i32, i32), EnergyError>)
        requires
            self.wf(),
        ensures
            self.state.tension <= 0 ==> r == Err::<(i32, i32), EnergyError>(
                EnergyError::InvalidTension,
            ),
            self.state.tension > 0 && !(i32::MIN <= avail_current(self.state, *data)
                <= i32::MAX) ==> r == Err::<(i32, i32), EnergyError>(EnergyError::OutOfRange),
            self.state.tension > 0 && i32::MIN <= avail_current(self.state, *data) <= i32::MAX
                ==> r == Ok::<(i32, i32), EnergyError>(
                (
                    avail_current(self.state, *data) as i32,
                    (self.state.imax / 1000) as i32,
                ),
            ),
    {
        let tension = self.state.tension;
        if tension <= 0 {
            return Err(EnergyError::InvalidTension);
        }
        let phases: i64 = if data.total == data.l1 {
            1
        } else {
            let mut p: i64 = 1;
            if data.l2 != 0 {
                p = p + 1;
            }
            if data.l3 != 0 {
                p = p + 1;
            }
            p
        };
        let remaining: i64 = (self.state.pmax as i64) * 80 / 100 - (data.total as i64);
        let iavail: i64 = remaining / (tension as i64) / phases;
        if iavail < (i32::MIN as i64) || iavail > (i32::MAX as i64) {
            return Err(EnergyError::OutOfRange);
        }
        Ok((iavail as i32, self.state.imax / 1000))
    }

    /// Feed a telemetry frame into a snapshot and, when the aggregate slot
    /// accepted a reading, evaluate it against the limits. The notification
    /// to broadcast, if any, is returned; the state is untouched when the
    /// frame was incomplete or rejected.
    pub fn ingest(&mut self, data: &mut MeterDataSet, values: &Vec<i32>) -> (r: Result<
        Option<OverLimit>,
        EnergyError,
    >)
        requires
            values@.len() > 0 ==> i32::MIN <= values@[0] - old(data).start <= i32::MAX,
        ensures
            *final(data) == updated_prefix(
                *old(data),
                values@,
                if values@.len() <= 4 { values@.len() as int } else { 4 },
            ),
            values@.len() > 4 ==> r == Err::<Option<OverLimit>, EnergyError>(
                EnergyError::InvalidPhase,
            ) && *final(self) == *old(self),
            values@.len() <= 4 && final(data).updated ==> *final(self) == (ManagerHandle {
                state: eval_state(old(self).state, *final(data)),
                ..*old(self)
            }) && r == Ok::<Option<OverLimit>, EnergyError>(
                eval_notice(old(self).state, *final(data)),
            ),
            values@.len() <= 4 && !final(data).updated ==> *final(self) == *old(self) && r
                == Ok::<Option<OverLimit>, EnergyError>(None),
    {
        match data.update_all(values) {
            Err(e) => {
                return Err(e);
            }
            Ok(_) => {}
        }
        if data.updated {
            Ok(self.check_over_subscription(data))
        } else {
            Ok(None)
        }
    }

    /// Feed a single labelled reading into a snapshot and, while the
    /// aggregate slot holds an accepted reading, evaluate the snapshot
    /// against the limits, exactly as a whole frame would be.
    pub fn ingest_reading(&mut self, data: &mut MeterDataSet, phase: usize, value: i32) -> (r:
        Result<Option<OverLimit>, EnergyError>)
        requires
            phase == 0 ==> i32::MIN <= value - old(data).start <= i32::MAX,
        ensures
            *final(data) == crate::meter::updated_set(*old(data), phase as int, value),
            phase > 3 ==> r == Err::<Option<OverLimit>, EnergyError>(EnergyError::InvalidPhase)
                && *final(self) == *old(self),
            phase <= 3 && final(data).updated ==> *final(self) == (ManagerHandle {
                state: eval_state(old(self).state, *final(data)),
                ..*old(self)
            }) && r == Ok::<Option<OverLimit>, EnergyError>(
                eval_notice(old(self).state, *final(data)),
            ),
            phase <= 3 && !final(data).updated ==> *final(self) == *old(self) && r == Ok::<
                Option<OverLimit>,
                EnergyError,
            >(None),
    {
        match data.update(phase, value) {
            Err(e) => {
                return Err(e);
            }
            Ok(_) => {}
        }
        if data.updated {
            Ok(self.check_over_subscription(data))
        } else {
            Ok(None)
        }
    }

    /// Feed a telemetry frame into the available-current snapshot and, when
    /// the aggregate slot accepted a reading, compute the headroom. The
    /// returned amps are to broadcast exactly when the headroom is the
    /// tighter constraint, below the effective cable limit.
    pub fn ingest_available(&self, data: &mut MeterDataSet, values: &Vec<i32>) -> (r: Result<
        Option<i32>,
        EnergyError,
    >)
        requires
            self.wf(),
            values@.len() > 0 ==> i32::MIN <= values@[0] - old(data).start <= i32::MAX,
        ensures
            *final(data) == updated_prefix(
                *old(data),
                values@,
                if values@.len() <= 4 { values@.len() as int } else { 4 },
            ),
            values@.len() > 4 ==> r == Err::<Option<i32>, EnergyError>(EnergyError::InvalidPhase),
            values@.len() <= 4 && !final(data).updated ==> r == Ok::<Option<i32>, EnergyError>(
                None,
            ),
            values@.len() <= 4 && final(data).updated && self.state.tension <= 0 ==> r == Err::<
                Option<i32>,
                EnergyError,
            >(EnergyError::InvalidTension),
            values@.len() <= 4 && final(data).updated && self.state.tension > 0 && !(i32::MIN
                <= avail_current(self.state, *final(data)) <= i32::MAX) ==> r == Err::<
                Option<i32>,
                EnergyError,
            >(EnergyError::OutOfRange),
            values@.len() <= 4 && final(data).updated && self.state.tension > 0 && i32::MIN
                <= avail_current(self.state, *final(data)) <= i32::MAX ==> r == Ok::<
                Option<i32>,
                EnergyError,
            >(
                if avail_current(self.state, *final(data)) < self.state.imax / 1000 {
                    Some(avail_current(self.state, *final(data)) as i32)
                } else {
                    None
                },
            ),
    {
        match data.update_all(values) {
            Err(e) => {
                return Err(e);
            }
            Ok(_) => {}
        }
        if !data.updated {
            return Ok(None);
        }
        match self.check_available_current(data) {
            Err(e) => Err(e),
            Ok((iavail, imax_amps)) => {
                if iavail < imax_amps {
                    Ok(Some(iavail))
                } else {
                    Ok(None)
                }
            }
        }
    }
}

/// One configuration call, for stating laws about whole call sequences.
#[derive(Clone, Copy, Debug, PartialEq, Eq, Structural)]
pub enum ConfigOp {
    Cable(i32),
    Backend(i32),
}

/// The manager after one configuration call.
pub open spec fn apply_op(h: ManagerHandle, op: ConfigOp) -> ManagerHandle {
    match op {
        ConfigOp::Cable(a) => apply_cable(h, a),
        ConfigOp::Backend(w) => apply_backend(h, w),
    }
}

/// The manager after a sequence of configuration calls, first to last.
pub open spec fn apply_ops(h: ManagerHandle, ops: Seq<ConfigOp>) -> ManagerHandle
    decreases ops.len(),
{
    if ops.len() == 0 {
        h
    } else {
        apply_op(apply_ops(h, ops.drop_last()), ops.last())
    }
}

/// The most recent cable request in a sequence of configuration calls.
pub open spec fn last_cable(ops: Seq<ConfigOp>) -> Option<i32>
    decreases ops.len(),
{
    if ops.len() == 0 {
        None
    } else {
        match ops.last() {
            ConfigOp::Cable(a) => Some(a),
            ConfigOp::Backend(_) => last_cable(ops.drop_last()),
        }
    }
}

/// The most recent backend request in a sequence of configuration calls.
pub open spec fn last_backend(ops: Seq<ConfigOp>) -> Option<i32>
    decreases ops.len(),
{
    if ops.len() == 0 {
        None
    } else {
        match ops.last() {
            ConfigOp::Backend(w) => Some(w),
            ConfigOp::Cable(_) => last_backend(ops.drop_last()),
        }
    }
}

/// Limit-resolution law: a cable request strictly between zero and the
/// ceiling becomes the effective limit; any other request resets the limit
/// to the ceiling. The backend limit resolves the same way.
pub proof fn lemma_limit_resolution(h: ManagerHandle, amp_max: i32)
    ensures
        0 < amp_max * 1000 < h.imax ==> apply_cable(h, amp_max).state.imax == amp_max * 1000,
        amp_max * 1000 <= 0 || amp_max * 1000 >= h.imax ==> apply_cable(h, amp_max).state.imax
            == h.imax,
        0 < amp_max * 1000 < h.pmax ==> apply_backend(h, amp_max).state.pmax == amp_max * 1000,
        amp_max * 1000 <= 0 || amp_max * 1000 >= h.pmax ==> apply_backend(h, amp_max).state.pmax
            == h.pmax,
{
}

/// An over-current trip always notifies: whatever the state and the
/// magnitude read, evaluation emits exactly one notification and stores
/// nothing.
pub proof fn lemma_over_current_always_notifies(s: EnergyState, d: MeterDataSet)
    requires
        d.tag == MeterTagSet::OverCurrent,
    ensures
        eval_notice(s, d) == Some(
            OverLimit { tag: MeterTagSet::OverCurrent, value: s.subscription_max },
        ),
        eval_state(s, d) == s,
{
}

/// No debounce across evaluations: re-evaluating the very same snapshot on
/// the state the first evaluation produced emits the very same
/// notification, so every call over the threshold notifies again.
pub proof fn lemma_notice_not_debounced(s: EnergyState, d: MeterDataSet)
    ensures
        eval_notice(eval_state(s, d), d) == eval_notice(s, d),
{
}

/// Configuration round-trip law: after any sequence of cable and backend
/// requests, the ceilings are untouched and each effective limit reflects
/// exactly the most recent request for its field, independent of how calls
/// for the two fields were interleaved.
pub proof fn lemma_config_round_trip(h: ManagerHandle, ops: Seq<ConfigOp>)
    ensures
        apply_ops(h, ops).imax == h.imax,
        apply_ops(h, ops).pmax == h.pmax,
        apply_ops(h, ops).state.imax as int == match last_cable(ops) {
            Some(a) => resolve_limit(h.imax, a * 1000),
            None => h.state.imax as int,
        },
        apply_ops(h, ops).state.pmax as int == match last_backend(ops) {
            Some(w) => resolve_limit(h.pmax, w * 1000),
            None => h.state.pmax as int,
        },
    decreases ops.len(),
{
    if ops.len() > 0 {
        lemma_config_round_trip(h, ops.drop_last());
    }
}

} // verus!
