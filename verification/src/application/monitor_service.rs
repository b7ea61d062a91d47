use vstd::prelude::*;

use crate::domain::battery_alert::{
    alert_due,
    alert_for,
    notice_of,
    AlertService,
    AlertType,
    BatteryAlert,
    LevelReading,
};

verus! {

/// How many ticks may pass without a report: at one tick every 250 ms this
/// is one minute.
pub const REPORT_INTERVAL_TICKS: u32 = 240;

/// The periodic battery monitor.
pub struct BatteryMonitorService;

/// What the monitor remembers between ticks.
///
/// The measured quantities of the last recorded reading (level, temperature,
/// power) are kept by the caller, which decides whether they changed; the
/// monitor keeps the rest.
#[derive(Debug, Clone, Copy, PartialEq, Eq, Structural)]
pub struct MonitorState {
    /// Whether the charger was plugged in at the last recorded reading.
    pub last_plugged_state: Option<bool>,
    /// The alert that the last check called for, if any.
    pub last_alert_type: Option<AlertType>,
    /// How many ticks passed since the last report.
    pub ticks_since_last_report: u32,
}

/// What the caller does after a tick.
#[derive(Debug, Clone, Copy, PartialEq, Eq, Structural)]
pub enum MonitorAction {
    /// Nothing this tick.
    Wait,
    /// The reading changed: record its measured quantities, check it and
    /// report it.
    Refresh,
    /// Nothing changed but a report is due: check and report the reading.
    Report,
    /// A report is due but the reading failed: read the battery once more
    /// and hand the result to `MonitorState::on_recheck`.
    Recheck,
}

/// The alert remembered after a check of `reading`: the one it calls for.
pub open spec fn last_alert_after(reading: LevelReading) -> Option<AlertType> {
    alert_due(reading)
}

/// Whether a check of `reading` shows its alert: it does when the reading
/// calls for an alert other than the one remembered.
pub open spec fn shows_alert(reading: LevelReading, last_alert_type: Option<AlertType>) -> bool {
    alert_due(reading) is Some && alert_due(reading) != last_alert_type
}

/// The alert shown by a check of `reading`.
pub open spec fn shown_alert(reading: LevelReading, last_alert_type: Option<AlertType>) -> Option<
    (AlertType, Seq<char>),
> {
    if shows_alert(reading, last_alert_type) {
        alert_for(reading)
    } else {
        None
    }
}

/// Whether a successful reading counts as a change: the charger was plugged
/// or unplugged since the last recorded reading (or none was recorded), or
/// the caller saw a measured quantity change.
pub open spec fn reading_changed(
    s: MonitorState,
    is_plugged_in: bool,
    measurements_changed: bool,
) -> bool {
    s.last_plugged_state != Some(is_plugged_in) || measurements_changed
}

/// Whether the tick that follows `s` completes a report interval.
pub open spec fn report_due(s: MonitorState) -> bool {
    s.ticks_since_last_report + 1 >= REPORT_INTERVAL_TICKS
}

/// The state and action after a tick with a successful reading.
pub open spec fn status_step(
    s: MonitorState,
    is_plugged_in: bool,
    measurements_changed: bool,
) -> (MonitorState, MonitorAction) {
    if reading_changed(s, is_plugged_in, measurements_changed) {
        (
            MonitorState {
                last_plugged_state: Some(is_plugged_in),
                ticks_since_last_report: 0,
                ..s
            },
            MonitorAction::Refresh,
        )
    } else if report_due(s) {
        (MonitorState { ticks_since_last_report: 0, ..s }, MonitorAction::Report)
    } else {
        (
            MonitorState { ticks_since_last_report: (s.ticks_since_last_report + 1) as u32, ..s },
            MonitorAction::Wait,
        )
    }
}

/// The state and action after a tick whose reading failed.
pub open spec fn failure_step(s: MonitorState) -> (MonitorState, MonitorAction) {
    if report_due(s) {
        (MonitorState { ticks_since_last_report: 0, ..s }, MonitorAction::Recheck)
    } else {
        (
            MonitorState { ticks_since_last_report: (s.ticks_since_last_report + 1) as u32, ..s },
            MonitorAction::Wait,
        )
    }
}


/// One tick as the monitor sees it: a successful reading (whether the
/// charger is plugged in, and whether its measured quantities changed) or a
/// failed one.
#[derive(Debug, Clone, Copy, PartialEq, Eq, Structural)]
pub enum TickEvent {
    Status(bool, bool),
    Failure,
}

/// The state and action after a tick.
pub open spec fn tick_step(s: MonitorState, e: TickEvent) -> (MonitorState, MonitorAction) {
    match e {
        TickEvent::Status(is_plugged_in, measurements_changed) => status_step(
            s,
            is_plugged_in,
            measurements_changed,
        ),
        TickEvent::Failure => failure_step(s),
    }
}

/// Whether every tick of `events`, run from `s`, ends in `Wait`.
pub open spec fn all_wait(s: MonitorState, events: Seq<TickEvent>) -> bool
    decreases events.len(),
{
    if events.len() == 0 {
        true
    } else {
        let (next, action) = tick_step(s, events[0]);
        action == MonitorAction::Wait && all_wait(next, events.drop_first())
    }
}

proof fn lemma_quiet_ticks_count(s: MonitorState, events: Seq<TickEvent>)
    requires
        all_wait(s, events),
        events.len() > 0,
    ensures
        s.ticks_since_last_report + events.len() < REPORT_INTERVAL_TICKS,
    decreases events.len(),
{
    let (next, action) = tick_step(s, events[0]);
    if events.len() > 1 {
        lemma_quiet_ticks_count(next, events.drop_first());
    }
}

/// No run of `REPORT_INTERVAL_TICKS` ticks, from any state, passes without a
/// report: some tick among them refreshes, reports or rechecks.
pub proof fn lemma_report_at_least_every_interval(s: MonitorState, events: Seq<TickEvent>)
    requires
        all_wait(s, events),
    ensures
        events.len() < REPORT_INTERVAL_TICKS,
{
    if events.len() > 0 {
        lemma_quiet_ticks_count(s, events);
    }
}

/// The first successful reading after start is always reported as a change.
pub proof fn lemma_first_reading_refreshes(is_plugged_in: bool, measurements_changed: bool)
    ensures
        status_step(
            MonitorState {
                last_plugged_state: None,
                last_alert_type: None,
                ticks_since_last_report: REPORT_INTERVAL_TICKS,
            },
            is_plugged_in,
            measurements_changed,
        ).1 == MonitorAction::Refresh,
{
}

/// An alert is not shown twice in a row: once a check has called for an
/// alert, a following check that calls for the same alert shows nothing.
pub proof fn lemma_alert_not_repeated(
    first: LevelReading,
    second: LevelReading,
    last_alert_type: Option<AlertType>,
)
    requires
        alert_due(first) is Some,
        alert_due(second) == alert_due(first),
    ensures
        shown_alert(second, last_alert_after(first)) is None,
{
}

/// Once a check calls for no alert, the next alert called for is shown
/// again, in full.
pub proof fn lemma_alert_shown_after_clear(calm: LevelReading, next: LevelReading)
    requires
        alert_due(calm) is None,
        alert_due(next) is Some,
    ensures
        shown_alert(next, last_alert_after(calm)) == alert_for(next),
        shown_alert(next, last_alert_after(calm)) is Some,
{
}

/// A shown alert is always the one that the reading calls for.
pub proof fn lemma_shown_alert_is_due(reading: LevelReading, last_alert_type: Option<AlertType>)
    ensures
        shown_alert(reading, last_alert_type) is Some ==> shown_alert(reading, last_alert_type)
            == alert_for(reading),
{
}


/// A tick with a successful reading refreshes exactly when the plugged-in
/// flag differs from the recorded one (none recorded counts as different,
/// and plugging in and unplugging count alike) or a measured quantity moved.
/// A refresh records the flag and restarts the report interval; otherwise
/// the tick reports when the interval is over, and waits, counting one more
/// tick, when it is not. The remembered alert is never touched by a tick.
pub proof fn lemma_status_tick(s: MonitorState, is_plugged_in: bool, measurements_changed: bool)
    ensures
        ({
            let (next, action) = status_step(s, is_plugged_in, measurements_changed);
            &&& next.last_alert_type == s.last_alert_type
            &&& (action == MonitorAction::Refresh) <==> (measurements_changed || s.last_plugged_state
                is None || (s.last_plugged_state is Some && s.last_plugged_state->0
                != is_plugged_in))
            &&& action == MonitorAction::Refresh ==> next.last_plugged_state == Some(is_plugged_in)
                && next.ticks_since_last_report == 0
            &&& action != MonitorAction::Refresh ==> next.last_plugged_state
                == s.last_plugged_state
            &&& action != MonitorAction::Refresh && s.ticks_since_last_report + 1 >= 240
                ==> action == MonitorAction::Report && next.ticks_since_last_report == 0
            &&& action != MonitorAction::Refresh && s.ticks_since_last_report + 1 < 240
                ==> action == MonitorAction::Wait && next.ticks_since_last_report
                == s.ticks_since_last_report + 1
            &&& action != MonitorAction::Recheck
        }),
{
}

/// A tick whose reading failed never refreshes or reports, since there is
/// no reading: when the interval is over it asks for a second reading and
/// restarts the interval, and otherwise waits, counting one more tick. It
/// keeps the recorded plugged-in flag and the remembered alert.
pub proof fn lemma_failure_tick(s: MonitorState)
    ensures
        ({
            let (next, action) = failure_step(s);
            &&& next.last_alert_type == s.last_alert_type
            &&& next.last_plugged_state == s.last_plugged_state
            &&& s.ticks_since_last_report + 1 >= 240 ==> action == MonitorAction::Recheck
                && next.ticks_since_last_report == 0
            &&& s.ticks_since_last_report + 1 < 240 ==> action == MonitorAction::Wait
                && next.ticks_since_last_report == s.ticks_since_last_report + 1
        }),
{
}

/// A check shows an alert exactly when the reading calls for one and it is
/// not the one remembered; then it shows that alert in full. In particular
/// an alert of the other kind than the remembered one is shown at once.
pub proof fn lemma_check_shows_new_alerts(reading: LevelReading, last_alert_type: Option<AlertType>)
    ensures
        shown_alert(reading, last_alert_type) is Some <==> (alert_due(reading) is Some
            && alert_due(reading) != last_alert_type),
        alert_due(reading) is Some && alert_due(reading) != last_alert_type ==> shown_alert(
            reading,
            last_alert_type,
        ) == alert_for(reading) && alert_for(reading) is Some,
        last_alert_after(reading) == alert_due(reading),
{
}

impl BatteryMonitorService {
    /// Checks a reading against the alert rules and decides whether to show
    /// the alert: an alert is shown only when it differs from the one
    /// remembered. Returns the alert to remember and the alert to show.
    pub fn process_check_with_info(reading: &LevelReading, last_alert_type: Option<AlertType>) -> (res: (
        Option<AlertType>,
        Option<BatteryAlert>,
    ))
        ensures
            res.0 == last_alert_after(*reading),
            notice_of(res.1) == shown_alert(*reading, last_alert_type),
    {
        let current_alert = AlertService::check_for_alerts(reading);
        match current_alert {
            Some(alert) => {
                if Some(alert.alert_type) != last_alert_type {
                    let alert_type = alert.alert_type;
                    (Some(alert_type), Some(alert))
                } else {
                    (last_alert_type, None)
                }
            },
            None => (None, None),
        }
    }

    /// Checks the result of reading the battery: a reading is checked as by
    /// `process_check_with_info`; after a failed reading the remembered alert
    /// stays and nothing is shown.
    pub fn process_check(reading: Result<LevelReading, String>, last_alert_type: Option<AlertType>) -> (res: (
        Option<AlertType>,
        Option<BatteryAlert>,
    ))
        ensures
            match reading {
                Ok(r) => res.0 == last_alert_after(r) && notice_of(res.1) == shown_alert(
                    r,
                    last_alert_type,
                ),
                Err(_) => res.0 == last_alert_type && res.1 is None,
            },
    {
        match reading {
            Ok(r) => Self::process_check_with_info(&r, last_alert_type),
            Err(_) => (last_alert_type, None),
        }
    }
}

impl MonitorState {
    /// The state before the first tick: nothing recorded, no alert, and a
    /// report due at once.
    pub fn new() -> (s: Self)
        ensures
            s.last_plugged_state is None,
            s.last_alert_type is None,
            s.ticks_since_last_report == REPORT_INTERVAL_TICKS,
    {
        MonitorState {
            last_plugged_state: None,
            last_alert_type: None,
            ticks_since_last_report: REPORT_INTERVAL_TICKS,
        }
    }

    /// A tick with a successful reading. `measurements_changed` says whether
    /// the level, temperature or power moved since the last recorded reading.
    pub fn on_status(&mut self, is_plugged_in: bool, measurements_changed: bool) -> (action:
        MonitorAction)
        ensures
            (*final(self), action) == status_step(*old(self), is_plugged_in, measurements_changed),
    {
        let plugged_changed = match self.last_plugged_state {
            Some(plugged) => plugged != is_plugged_in,
            None => true,
        };
        if plugged_changed || measurements_changed {
            self.last_plugged_state = Some(is_plugged_in);
            self.ticks_since_last_report = 0;
            MonitorAction::Refresh
        } else if self.ticks_since_last_report >= REPORT_INTERVAL_TICKS - 1 {
            self.ticks_since_last_report = 0;
            MonitorAction::Report
        } else {
            self.ticks_since_last_report = self.ticks_since_last_report + 1;
            MonitorAction::Wait
        }
    }

    /// A tick whose reading failed.
    pub fn on_status_error(&mut self) -> (action: MonitorAction)
        ensures
            (*final(self), action) == failure_step(*old(self)),
    {
        if self.ticks_since_last_report >= REPORT_INTERVAL_TICKS - 1 {
            self.ticks_since_last_report = 0;
            MonitorAction::Recheck
        } else {
            self.ticks_since_last_report = self.ticks_since_last_report + 1;
            MonitorAction::Wait
        }
    }

    /// Checks a reading, as a `Refresh` or a `Report` asks, and remembers
    /// the alert that it calls for. Returns the alert to show.
    pub fn on_check(&mut self, reading: &LevelReading) -> (alert: Option<BatteryAlert>)
        ensures
            final(self).last_plugged_state == old(self).last_plugged_state,
            final(self).ticks_since_last_report == old(self).ticks_since_last_report,
            final(self).last_alert_type == last_alert_after(*reading),
            notice_of(alert) == shown_alert(*reading, old(self).last_alert_type),
    {
        let (last, alert) = BatteryMonitorService::process_check_with_info(
            reading,
            self.last_alert_type,
        );
        self.last_alert_type = last;
        alert
    }

    /// Checks the second reading that a `Recheck` asked for.
    pub fn on_recheck(&mut self, reading: Result<LevelReading, String>) -> (alert: Option<
        BatteryAlert,
    >)
        ensures
            final(self).last_plugged_state == old(self).last_plugged_state,
            final(self).ticks_since_last_report == old(self).ticks_since_last_report,
            match reading {
                Ok(r) => final(self).last_alert_type == last_alert_after(r) && notice_of(alert)
                    == shown_alert(r, old(self).last_alert_type),
                Err(_) => final(self).last_alert_type == old(self).last_alert_type && alert is None,
            },
    {
        let (last, alert) = BatteryMonitorService::process_check(reading, self.last_alert_type);
        self.last_alert_type = last;
        alert
    }
}

} // verus!
