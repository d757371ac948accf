use vstd::prelude::*;
use vstd::string::StringExecFns;

use crate::message::{decimal, push_decimal, Icon, NoticeView, Notification};
use crate::reading::{percent_of, CapacityTier, ChargeStatus};

verus! {

/// The text `head`, the charge as a whole percentage, then `tail`.
pub open spec fn with_percent(head: Seq<char>, charge: nat, tail: Seq<char>) -> Seq<char> {
    head + decimal(percent_of(charge)) + tail
}

/// The notification for a change of charging state, if that state has one.
pub open spec fn status_notice(status: ChargeStatus, charge: nat) -> Option<NoticeView> {
    match status {
        ChargeStatus::Charging => Some(
            ("Charger Connected"@, with_percent("Charging ("@, charge, "%)."@), Icon::Charging),
        ),
        ChargeStatus::Discharging => Some(
            ("Charger Disconnected"@, with_percent("Battery ("@, charge, "%)."@), Icon::Discharging),
        ),
        ChargeStatus::Full => Some(("Battery Full"@, "Battery is fully charged."@, Icon::Full)),
        ChargeStatus::Unknown => None,
    }
}

/// The notification for a change of capacity tier, if that tier has one.
/// A full tier says nothing when `full_announced`, that is when a "Battery
/// Full" notification for the charging state goes out in the same iteration.
pub open spec fn tier_notice(tier: CapacityTier, full_announced: bool, charge: nat) -> Option<
    NoticeView,
> {
    match tier {
        CapacityTier::Critical => Some(
            (
                "Critical Battery"@,
                with_percent("Battery level is at "@, charge, "%. Plug in immediately!"@),
                Icon::Critical,
            ),
        ),
        CapacityTier::Low => Some(
            (
                "Low Battery"@,
                with_percent("Battery level is at "@, charge, "%. Consider plugging in soon."@),
                Icon::Low,
            ),
        ),
        CapacityTier::Full => if full_announced {
            None
        } else {
            Some(("Battery Full"@, with_percent("Battery is at "@, charge, "%."@), Icon::Full))
        },
        CapacityTier::Normal => None,
    }
}

/// The view of an optional notification.
pub open spec fn opt_view(n: Option<Notification>) -> Option<NoticeView> {
    match n {
        Some(n) => Some(n@),
        None => None,
    }
}

fn text_with_percent(head: &str, charge: u32, tail: &str) -> (s: String)
    ensures
        s@ == with_percent(head@, charge as nat, tail@),
{
    let mut s = String::from_str(head);
    push_decimal(&mut s, crate::reading::display_percent(charge));
    s.append(tail);
    s
}

/// Builds the notification for a change of charging state.
pub fn status_notification(status: ChargeStatus, charge: u32) -> (n: Option<Notification>)
    ensures
        opt_view(n) == status_notice(status, charge as nat),
{
    match status {
        ChargeStatus::Charging => Some(
            Notification {
                title: String::from_str("Charger Connected"),
                body: text_with_percent("Charging (", charge, "%)."),
                icon: Icon::Charging,
            },
        ),
        ChargeStatus::Discharging => Some(
            Notification {
                title: String::from_str("Charger Disconnected"),
                body: text_with_percent("Battery (", charge, "%)."),
                icon: Icon::Discharging,
            },
        ),
        ChargeStatus::Full => Some(
            Notification {
                title: String::from_str("Battery Full"),
                body: String::from_str("Battery is fully charged."),
                icon: Icon::Full,
            },
        ),
        ChargeStatus::Unknown => None,
    }
}

/// Builds the notification for a change of capacity tier; `full_announced`
/// tells whether the charging state's "Battery Full" notification goes out
/// in the same iteration.
pub fn tier_notification(tier: CapacityTier, full_announced: bool, charge: u32) -> (n: Option<
    Notification,
>)
    ensures
        opt_view(n) == tier_notice(tier, full_announced, charge as nat),
{
    match tier {
        CapacityTier::Critical => Some(
            Notification {
                title: String::from_str("Critical Battery"),
                body: text_with_percent("Battery level is at ", charge, "%. Plug in immediately!"),
                icon: Icon::Critical,
            },
        ),
        CapacityTier::Low => Some(
            Notification {
                title: String::from_str("Low Battery"),
                body: text_with_percent(
                    "Battery level is at ",
                    charge,
                    "%. Consider plugging in soon.",
                ),
                icon: Icon::Low,
            },
        ),
        CapacityTier::Full => {
            if full_announced {
                None
            } else {
                Some(
                    Notification {
                        title: String::from_str("Battery Full"),
                        body: text_with_percent("Battery is at ", charge, "%."),
                        icon: Icon::Full,
                    },
                )
            }
        },
        CapacityTier::Normal => None,
    }
}

} // verus!
