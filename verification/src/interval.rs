//! The interval trigger: one cancellable periodic task, or none.
//!
//! The manager owns the period of the one running periodic task. Each
//! selection retires the running task — by advancing an epoch that every
//! scheduled tick carries — before starting a new one, so timers never
//! overlap. A tick is delivered only if its epoch is still the current
//! one; a tick scheduled by an already retired task is dropped, which
//! makes cancellation take effect before any further tick fires.

use vstd::prelude::*;

use crate::command::ActionCommand;
use crate::command::autoplace_action;

verus! {

/// What the shell must schedule after a selection: a task that ticks
/// every `period_secs`, stamping each tick with `epoch`.
#[derive(Clone, Copy, Debug, PartialEq, Eq, Structural)]
pub struct TimerTask {
    pub period_secs: u64,
    pub epoch: u64,
}

/// The interval manager's state: the running task's period, if one
/// runs, and the epoch its ticks must carry to be delivered.
pub struct IntervalManager {
    pub period: Option<u64>,
    pub epoch: u64,
}

/// One selection, abstractly: the period becomes the chosen one — none
/// when "off" was chosen — and the epoch advances, retiring every tick
/// of the previous task.
pub open spec fn spec_select_interval(s: IntervalManager, period_secs: u64) -> IntervalManager {
    IntervalManager {
        period: if period_secs > 0 {
            Some(period_secs)
        } else {
            None
        },
        epoch: (s.epoch + 1) as u64,
    }
}

/// Whether a tick stamped with `tick_epoch` is delivered in state `s`.
pub open spec fn spec_tick_delivered(s: IntervalManager, tick_epoch: u64) -> bool {
    s.period is Some && tick_epoch == s.epoch
}

impl IntervalManager {
    /// A fresh manager with no running task.
    pub fn new() -> (m: IntervalManager)
        ensures
            m.period is None,
            m.epoch == 0,
    {
        IntervalManager { period: None, epoch: 0 }
    }

    /// Select a new period. The running task, if any, is retired; when
    /// the chosen period is positive, the returned task is what the
    /// shell must now schedule — at most one task exists at a time.
    pub fn select(&mut self, period_secs: u64) -> (task: Option<TimerTask>)
        requires
            old(self).epoch < u64::MAX,
        ensures
            *final(self) == spec_select_interval(*old(self), period_secs),
            period_secs > 0 ==> task == Some(
                TimerTask { period_secs, epoch: final(self).epoch },
            ),
            period_secs == 0 ==> task is None,
    {
        self.epoch = self.epoch + 1;
        if period_secs > 0 {
            self.period = Some(period_secs);
            Some(TimerTask { period_secs, epoch: self.epoch })
        } else {
            self.period = None;
            None
        }
    }

    /// A scheduled tick arrived: the command to send, or nothing when
    /// the tick belongs to a retired task or no task runs any more.
    pub fn on_tick(&self, tick_epoch: u64) -> (cmd: Option<ActionCommand>)
        ensures
            cmd is Some <==> spec_tick_delivered(*self, tick_epoch),
            cmd matches Some(c) ==> c.name@ == "windows/autoplace"@,
    {
        if self.period.is_some() && tick_epoch == self.epoch {
            Some(autoplace_action())
        } else {
            None
        }
    }
}

/// Turning the timer off delivers no further tick: whatever was
/// running, after selecting a positive period and then selecting "off",
/// no tick of any epoch is delivered — even one scheduled concurrently
/// with the second selection.
pub proof fn lemma_off_stops_ticks(s: IntervalManager, period_secs: u64, tick_epoch: u64)
    ensures
        !spec_tick_delivered(
            spec_select_interval(spec_select_interval(s, period_secs), 0),
            tick_epoch,
        ),
{
}

/// A tick of a retired task is never delivered: delivery requires the
/// tick's epoch to be exactly the current one.
pub proof fn lemma_stale_tick_dropped(s: IntervalManager, tick_epoch: u64)
    requires
        tick_epoch != s.epoch,
    ensures
        !spec_tick_delivered(s, tick_epoch),
{
}

} // verus!
