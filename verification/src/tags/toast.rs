//! Root-level toast attributes: duration, launch argument, scenario, and
//! styled buttons.

use vstd::prelude::*;
use crate::dom::AttrName;
use crate::error::Error;
use crate::toast::root_attr_set;
use crate::toast::Toast;
use crate::xml::bool_literal;
use crate::xml::bool_str;

verus! {

/// How long the toast stays on screen.
#[derive(Debug, Clone, Copy, PartialEq, Eq, Structural, Hash)]
pub enum Duration {
    /// Seven seconds.
    Short,
    /// Twenty-five seconds.
    Long,
}

/// The attribute value of a duration.
pub open spec fn duration_str(d: Duration) -> Seq<char> {
    match d {
        Duration::Short => "short"@,
        Duration::Long => "long"@,
    }
}

/// The scenario a toast is used for, like an alarm or reminder.
#[derive(Debug, Clone, Copy, PartialEq, Eq, Structural, Hash)]
pub enum Scenarios {
    /// A reminder: displayed pre-expanded and kept on screen until
    /// dismissed. Silently ignored without a background-activated button.
    Reminder,
    /// An alarm: displayed pre-expanded, kept on screen, looping alarm
    /// audio by default.
    Alarm,
    /// An incoming call: displayed pre-expanded in the call format, kept on
    /// screen, looping ringtone audio by default.
    IncomingCall,
    /// An important notification that may break through focus assist.
    Urgent,
}

/// The attribute value of a scenario.
pub open spec fn scenario_str(s: Scenarios) -> Seq<char> {
    match s {
        Scenarios::Reminder => "reminder"@,
        Scenarios::Alarm => "alarm"@,
        Scenarios::IncomingCall => "incomingCall"@,
        Scenarios::Urgent => "urgent"@,
    }
}

impl Scenarios {
    /// The scenario's attribute value as a string.
    pub fn to_string(&self) -> (r: String)
        ensures
            r@ == scenario_str(*self),
    {
        match self {
            Scenarios::Reminder => String::from_str("reminder"),
            Scenarios::Alarm => String::from_str("alarm"),
            Scenarios::IncomingCall => String::from_str("incomingCall"),
            Scenarios::Urgent => String::from_str("urgent"),
        }
    }
}

impl Toast {
    /// Sets the duration of the toast notification on the root element.
    pub fn duration(&mut self, duration: Duration) -> (r: Result<(), Error>)
        requires
            old(self).wf(),
        ensures
            r is Ok,
            final(self).wf(),
            root_attr_set(*old(self), *final(self), AttrName::Duration, duration_str(duration)),
    {
        let v = match duration {
            Duration::Short => String::from_str("short"),
            Duration::Long => String::from_str("long"),
        };
        self.set_root_attr(AttrName::Duration, v);
        Ok(())
    }

    /// Sets the launch string handed to the application when the toast
    /// activates it; its format and meaning belong to the application.
    pub fn launch(&mut self, launch: &str) -> (r: Result<(), Error>)
        requires
            old(self).wf(),
        ensures
            r is Ok,
            final(self).wf(),
            root_attr_set(*old(self), *final(self), AttrName::Launch, launch@),
    {
        self.set_root_attr(AttrName::Launch, String::from_str(launch));
        Ok(())
    }

    /// Sets the scenario the toast is used for.
    pub fn scenario(&mut self, scenario: Scenarios) -> (r: Result<(), Error>)
        requires
            old(self).wf(),
        ensures
            r is Ok,
            final(self).wf(),
            root_attr_set(*old(self), *final(self), AttrName::Scenario, scenario_str(scenario)),
    {
        self.set_root_attr(AttrName::Scenario, scenario.to_string());
        Ok(())
    }

    /// Chooses whether styled buttons are used; the styling itself comes
    /// from each action's `hint-buttonStyle` attribute.
    pub fn styled_button(&mut self, styled_button: bool) -> (r: Result<(), Error>)
        requires
            old(self).wf(),
        ensures
            r is Ok,
            final(self).wf(),
            root_attr_set(
                *old(self),
                *final(self),
                AttrName::UseButtonStyle,
                bool_str(styled_button),
            ),
    {
        self.set_root_attr(AttrName::UseButtonStyle, String::from_str(bool_literal(styled_button)));
        Ok(())
    }
}

} // verus!
