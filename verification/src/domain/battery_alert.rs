use vstd::prelude::*;

use crate::domain::decimal::{decimal_string, decimal_text, lemma_decimal_text_reads_back, read_decimal};

verus! {

/// What the user is asked to do with the charger.
#[derive(Debug, Clone, Copy, PartialEq, Eq, Structural)]
pub enum AlertType {
    /// The level fell to the low threshold while running on battery.
    ConnectCharger,
    /// The level rose to the high threshold while on the charger.
    DisconnectCharger,
}

/// An alert shown to the user: its kind and the text of the message.
#[derive(Debug, Clone)]
pub struct BatteryAlert {
    pub alert_type: AlertType,
    pub message: String,
}

/// What the alert rules read of one battery reading.
///
/// The level itself is a measured number; the rules only need its whole
/// part (the level truncated toward zero, as `as i32` does) and where it
/// stands against the two configured thresholds.
#[derive(Debug, Clone, Copy, PartialEq, Eq, Structural)]
pub struct LevelReading {
    /// The level truncated toward zero to a whole percent.
    pub percent: i32,
    /// Whether the charger is plugged in.
    pub is_charging: bool,
    /// Whether the level is at or below the low threshold.
    pub at_or_below_low: bool,
    /// Whether the level is at or above the high threshold.
    pub at_or_above_high: bool,
}

/// The alert rules.
pub struct AlertService;

/// Which of the two configured thresholds an alert is about.
#[derive(Debug, Clone, Copy, PartialEq, Eq, Structural)]
pub enum ThresholdSide {
    /// The low threshold, below which the user is asked to plug in.
    Low,
    /// The high threshold, above which the user is asked to unplug.
    High,
}

/// The alert that a reading calls for, if any: plug in when the level is at
/// or below the low threshold on battery, unplug when it is at or above the
/// high threshold on the charger.
pub open spec fn alert_due(r: LevelReading) -> Option<AlertType> {
    if !r.is_charging && r.at_or_below_low {
        Some(AlertType::ConnectCharger)
    } else if r.is_charging && r.at_or_above_high {
        Some(AlertType::DisconnectCharger)
    } else {
        None
    }
}

/// The message shown for an alert at a given whole-percent level.
pub open spec fn alert_message(t: AlertType, percent: int) -> Seq<char> {
    match t {
        AlertType::ConnectCharger => "Batterie faible ("@ + decimal_text(percent)
            + "%). Branchez votre chargeur."@,
        AlertType::DisconnectCharger => "Batterie pleine ("@ + decimal_text(percent)
            + "%). Débranchez votre chargeur."@,
    }
}

/// An alert as the rules see it: its kind and its text.
pub open spec fn notice(a: BatteryAlert) -> (AlertType, Seq<char>) {
    (a.alert_type, a.message@)
}

/// The notice of an optional alert.
pub open spec fn notice_of(a: Option<BatteryAlert>) -> Option<(AlertType, Seq<char>)> {
    match a {
        Some(alert) => Some(notice(alert)),
        None => None,
    }
}

/// The full alert that a reading calls for.
pub open spec fn alert_for(r: LevelReading) -> Option<(AlertType, Seq<char>)> {
    match alert_due(r) {
        Some(t) => Some((t, alert_message(t, r.percent as int))),
        None => None,
    }
}


/// An alert asks to plug in only on battery with the level at or below the
/// low threshold, and to unplug only on the charger with the level at or
/// above the high threshold; every other reading calls for no alert.
pub proof fn lemma_alert_follows_charger(r: LevelReading)
    ensures
        alert_due(r) == Some(AlertType::ConnectCharger) <==> (!r.is_charging
            && r.at_or_below_low),
        alert_due(r) == Some(AlertType::DisconnectCharger) <==> (r.is_charging
            && r.at_or_above_high),
        alert_due(r) is None <==> ((r.is_charging || !r.at_or_below_low) && (!r.is_charging
            || !r.at_or_above_high)),
{
}


/// An alert's message is the fixed sentence of its kind with the reading's
/// whole level written in the middle: the text between the fixed parts reads
/// back, as a decimal number, as exactly the level.
pub proof fn lemma_alert_message_names_level(r: LevelReading)
    ensures
        alert_for(r) is Some <==> alert_due(r) is Some,
        forall|m: Seq<char>|
            alert_for(r) == Some((AlertType::ConnectCharger, m)) ==> exists|mid: Seq<char>|
                #[trigger] read_decimal(mid) == r.percent && m == "Batterie faible ("@ + mid
                    + "%). Branchez votre chargeur."@,
        forall|m: Seq<char>|
            alert_for(r) == Some((AlertType::DisconnectCharger, m)) ==> exists|mid: Seq<char>|
                #[trigger] read_decimal(mid) == r.percent && m == "Batterie pleine ("@ + mid
                    + "%). Débranchez votre chargeur."@,
{
    lemma_decimal_text_reads_back(r.percent as int);
    let mid = decimal_text(r.percent as int);
    assert(read_decimal(mid) == r.percent);
}

impl AlertType {
    /// The name under which the notification window is opened for this alert.
    pub fn notification_param(&self) -> (s: &'static str)
        ensures
            *self == AlertType::DisconnectCharger ==> s@ == "full"@,
            *self == AlertType::ConnectCharger ==> s@ == "low"@,
    {
        match self {
            AlertType::DisconnectCharger => "full",
            AlertType::ConnectCharger => "low",
        }
    }

    /// The threshold that the alert reports: the high one for unplugging,
    /// the low one for plugging in.
    pub fn threshold_side(&self) -> (side: ThresholdSide)
        ensures
            side == (match *self {
                AlertType::DisconnectCharger => ThresholdSide::High,
                AlertType::ConnectCharger => ThresholdSide::Low,
            }),
    {
        match self {
            AlertType::DisconnectCharger => ThresholdSide::High,
            AlertType::ConnectCharger => ThresholdSide::Low,
        }
    }
}

impl AlertService {
    /// Decides whether a reading calls for an alert, and builds it.
    pub fn check_for_alerts(reading: &LevelReading) -> (alert: Option<BatteryAlert>)
        ensures
            notice_of(alert) == alert_for(*reading),
    {
        if !reading.is_charging && reading.at_or_below_low {
            let mut message = String::from_str("Batterie faible (");
            let level = decimal_string(reading.percent);
            message.append(level.as_str());
            message.append("%). Branchez votre chargeur.");
            return Some(BatteryAlert { alert_type: AlertType::ConnectCharger, message });
        }
        if reading.is_charging && reading.at_or_above_high {
            let mut message = String::from_str("Batterie pleine (");
            let level = decimal_string(reading.percent);
            message.append(level.as_str());
            message.append("%). Débranchez votre chargeur.");
            return Some(BatteryAlert { alert_type: AlertType::DisconnectCharger, message });
        }
        None
    }
}

} // verus!
