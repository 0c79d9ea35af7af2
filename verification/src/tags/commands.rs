//! The `commands` tag: system-defined alarm and incoming-call commands.

use vstd::prelude::*;
use crate::dom::AttrName;
use crate::dom::Element;
use crate::dom::Tag;
use crate::error::Error;
use crate::toast::lemma_wf_after_root_push;
use crate::toast::root_appended;
use crate::toast::Toast;

verus! {

/// The commands available in the incoming-call scenario.
#[derive(Debug, Clone, Copy, PartialEq, Eq, Structural, Hash)]
pub enum CallCommands {
    Video,
    Voice,
    Decline,
}

/// The commands available in the alarm scenario.
#[derive(Debug, Clone, Copy, PartialEq, Eq, Structural, Hash)]
pub enum AlarmCommands {
    Snooze,
    Dismiss,
}

/// A command scenario together with its one command.
#[derive(Debug, Clone, Copy, PartialEq, Eq, Structural, Hash)]
pub enum Senario {
    Alarm(AlarmCommands),
    IncomingCall(CallCommands),
}

/// The `scenario` attribute value of a command scenario.
pub open spec fn senario_str(s: Senario) -> Seq<char> {
    match s {
        Senario::Alarm(_) => "alarm"@,
        Senario::IncomingCall(_) => "incomingCall"@,
    }
}

/// The `id` attribute value of the one command of a scenario.
pub open spec fn command_id_str(s: Senario) -> Seq<char> {
    match s {
        Senario::Alarm(AlarmCommands::Snooze) => "snooze"@,
        Senario::Alarm(AlarmCommands::Dismiss) => "dismiss"@,
        Senario::IncomingCall(CallCommands::Video) => "video"@,
        Senario::IncomingCall(CallCommands::Voice) => "voice"@,
        Senario::IncomingCall(CallCommands::Decline) => "decline"@,
    }
}

/// The element `add_command` appends: a `commands` element carrying the
/// scenario, with one `command` child carrying the command id and the
/// argument string.
pub open spec fn commands_element_rep(el: Element, s: Senario, arguments: Seq<char>) -> bool {
    &&& el.tag == Tag::Commands
    &&& el.text@.len() == 0
    &&& el.attrs@.len() == 1
    &&& el.attrs@[0].name == AttrName::Scenario && el.attrs@[0].value@ == senario_str(s)
    &&& el.children@.len() == 1
    &&& el.children@[0].tag == Tag::Command
    &&& el.children@[0].text@.len() == 0
    &&& el.children@[0].children@.len() == 0
    &&& el.children@[0].attrs@.len() == 2
    &&& el.children@[0].attrs@[0].name == AttrName::Id && el.children@[0].attrs@[0].value@
        == command_id_str(s)
    &&& el.children@[0].attrs@[1].name == AttrName::Arguments && el.children@[0].attrs@[1].value@
        == arguments
}

impl Toast {
    /// Appends a `commands` element for the given scenario, holding one
    /// `command` child with the scenario's command id and the argument
    /// string handed back to the application.
    pub fn add_command(&mut self, scenario: Senario, arguments: String) -> (r: Result<(), Error>)
        requires
            old(self).wf(),
        ensures
            r is Ok,
            final(self).wf(),
            root_appended(*old(self), *final(self), final(self).doc.root.children@.last()),
            commands_element_rep(final(self).doc.root.children@.last(), scenario, arguments@),
    {
        let mut commands = Element::new(Tag::Commands);
        let scenario_value = match scenario {
            Senario::Alarm(_) => String::from_str("alarm"),
            Senario::IncomingCall(_) => String::from_str("incomingCall"),
        };
        commands.set_attribute(AttrName::Scenario, scenario_value);
        let id_value = match scenario {
            Senario::Alarm(AlarmCommands::Snooze) => String::from_str("snooze"),
            Senario::Alarm(AlarmCommands::Dismiss) => String::from_str("dismiss"),
            Senario::IncomingCall(CallCommands::Video) => String::from_str("video"),
            Senario::IncomingCall(CallCommands::Voice) => String::from_str("voice"),
            Senario::IncomingCall(CallCommands::Decline) => String::from_str("decline"),
        };
        let mut command = Element::new(Tag::Command);
        command.set_attribute(AttrName::Id, id_value);
        proof {
            crate::dom::lemma_attr_search(command.attrs@, AttrName::Arguments);
        }
        command.set_attribute(AttrName::Arguments, arguments);
        commands.append_child(command);
        let ghost elg = commands;
        let ghost pre = *self;
        self.push_root_child(commands);
        proof {
            lemma_wf_after_root_push(pre, *self, elg);
        }
        Ok(())
    }
}

} // verus!
