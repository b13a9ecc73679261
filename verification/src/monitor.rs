//! The notification decision state machine.
//!
//! The monitor owns the last successful reading and the hysteresis flag for
//! the low-charge alert. Each tick it compares a fresh reading against the
//! stored one and decides which of the two notifications to emit: a
//! state-change notification whenever the charging state differs from the
//! last successful reading, and a low-charge notification the first time the
//! charge is observed at or below the critical threshold, suppressed until a
//! reading above the threshold re-arms it. A failed reading advances nothing.

use vstd::prelude::*;

verus! {

use crate::render::{
    spec_low_charge_notification, spec_state_change_notification, low_charge_notification,
    state_change_notification, NotificationRequest,
};
use crate::snapshot::{spec_is_low, BatterySnapshot, TickEvent, CRITICAL_CHARGE_PERMILLE};

/// The monitor's whole state between ticks: the last successful reading and
/// whether the current stretch at or below the critical threshold has
/// already been notified.
#[derive(Clone, Copy, Debug)]
pub struct MonitorState {
    /// The most recent successful reading; the comparison basis for the next
    /// successful tick.
    pub last: BatterySnapshot,
    /// True only while the most recent successful reading's charge is at or
    /// below the critical threshold and the alert for this stretch has fired.
    pub low_notified: bool,
}

/// What one tick decided to emit. The two notifications are independent:
/// both, one, or neither may be present.
pub struct TickNotifications {
    /// The state-change notification, when the charging state differs from
    /// the last successful reading.
    pub state_change: Option<NotificationRequest>,
    /// The low-charge notification, when the charge just crossed to at or
    /// below the critical threshold and the alert was armed.
    pub low_charge: Option<NotificationRequest>,
}

/// Whether a tick observing `new` emits a state-change notification.
pub open spec fn spec_state_change_fires(st: MonitorState, new: BatterySnapshot) -> bool {
    new.state != st.last.state
}

/// Whether a tick observing `new` emits a low-charge notification.
pub open spec fn spec_low_fires(st: MonitorState, new: BatterySnapshot) -> bool {
    spec_is_low(new.charge_permille) && !st.low_notified
}

/// The monitor state after one tick: a successful reading replaces the
/// stored one and re-derives the hysteresis flag; a failed reading changes
/// nothing.
pub open spec fn spec_next(st: MonitorState, ev: TickEvent) -> MonitorState {
    match ev {
        TickEvent::Read(new) => MonitorState {
            last: new,
            low_notified: spec_is_low(new.charge_permille),
        },
        TickEvent::ReadFailed => st,
    }
}

/// Whether a tick from state `st` on event `ev` emits a state-change
/// notification.
pub open spec fn spec_tick_fires_state_change(st: MonitorState, ev: TickEvent) -> bool {
    ev matches TickEvent::Read(new) && spec_state_change_fires(st, new)
}

/// Whether a tick from state `st` on event `ev` emits a low-charge
/// notification.
pub open spec fn spec_tick_fires_low(st: MonitorState, ev: TickEvent) -> bool {
    ev matches TickEvent::Read(new) && spec_low_fires(st, new)
}

impl MonitorState {
    /// Every reading the monitor stores is well formed.
    pub open spec fn wf(self) -> bool {
        self.last.wf()
    }

    /// The state seeded from the first successful reading. The hysteresis
    /// flag starts false whatever the first charge is: a device that starts
    /// at or below the threshold is notified on its first comparison-bearing
    /// tick, not treated as already notified.
    pub open spec fn spec_init(first: BatterySnapshot) -> MonitorState {
        MonitorState { last: first, low_notified: false }
    }

    /// Seeds the monitor from the first successful reading.
    pub fn init(first: BatterySnapshot) -> (st: MonitorState)
        requires
            first.wf(),
        ensures
            st == Self::spec_init(first),
            st.wf(),
    {
        MonitorState { last: first, low_notified: false }
    }

    /// Runs one tick of the decision algorithm on what the reader observed,
    /// advancing the state and returning the notifications to display.
    ///
    /// On a successful reading, the state-change notification is emitted
    /// exactly when the charging state differs from the last successful
    /// reading, and the low-charge notification exactly when the charge is
    /// at or below the critical threshold and the alert is armed; the
    /// reading then becomes the comparison basis and re-derives the
    /// hysteresis flag. On a failed reading nothing is emitted and nothing
    /// changes.
    pub fn tick(&mut self, event: TickEvent) -> (out: TickNotifications)
        requires
            old(self).wf(),
            event matches TickEvent::Read(new) ==> new.wf(),
        ensures
            *final(self) == spec_next(*old(self), event),
            final(self).wf(),
            match event {
                TickEvent::Read(new) => {
                    &&& (out.state_change is Some <==> spec_state_change_fires(*old(self), new))
                    &&& (out.state_change matches Some(r) ==> r@ == spec_state_change_notification(
                        new.state,
                        new.time_to_full_secs,
                    ))
                    &&& (out.low_charge is Some <==> spec_low_fires(*old(self), new))
                    &&& (out.low_charge matches Some(r) ==> r@ == spec_low_charge_notification(
                        new.charge_permille,
                    ))
                },
                TickEvent::ReadFailed => {
                    &&& out.state_change is None
                    &&& out.low_charge is None
                },
            },
    {
        match event {
            TickEvent::Read(new) => {
                let state_change = if new.state != self.last.state {
                    Some(state_change_notification(new.state, new.time_to_full_secs))
                } else {
                    None
                };
                let low_charge = if new.charge_permille <= CRITICAL_CHARGE_PERMILLE
                    && !self.low_notified {
                    Some(low_charge_notification(new.charge_permille))
                } else {
                    None
                };
                self.low_notified = new.charge_permille <= CRITICAL_CHARGE_PERMILLE;
                self.last = new;
                TickNotifications { state_change, low_charge }
            },
            TickEvent::ReadFailed => TickNotifications { state_change: None, low_charge: None },
        }
    }
}

} // verus!
