//! The `audio` tag: the sound a toast plays, at most once per toast.

use vstd::prelude::*;
use crate::dom::AttrName;
use crate::dom::Element;
use crate::dom::Tag;
use crate::error::Error;
use crate::toast::lemma_wf_after_root_push;
use crate::toast::Toast;
use crate::utils::into_raw::ToXML;

verus! {

/// The closed set of platform notification sounds.
#[derive(Debug, Clone, Copy, PartialEq, Eq, Structural, Hash)]
pub enum Notification {
    Default,
    IM,
    Mail,
    Reminder,
    SMS,
    LoopingAlarm,
    LoopingAlarm2,
    LoopingAlarm3,
    LoopingAlarm4,
    LoopingAlarm5,
    LoopingAlarm6,
    LoopingAlarm7,
    LoopingAlarm8,
    LoopingAlarm9,
    LoopingAlarm10,
    LoopingCall,
    LoopingCall2,
    LoopingCall3,
    LoopingCall4,
    LoopingCall5,
    LoopingCall6,
    LoopingCall7,
    LoopingCall8,
    LoopingCall9,
    LoopingCall10,
}

/// The fixed sound-event URI of each platform sound.
pub open spec fn notification_str(n: Notification) -> Seq<char> {
    match n {
        Notification::Default => "ms-winsoundevent:Notification.Default"@,
        Notification::IM => "ms-winsoundevent:Notification.IM"@,
        Notification::Mail => "ms-winsoundevent:Notification.Mail"@,
        Notification::Reminder => "ms-winsoundevent:Notification.Reminder"@,
        Notification::SMS => "ms-winsoundevent:Notification.SMS"@,
        Notification::LoopingAlarm => "ms-winsoundevent:Notification.Looping.Alarm"@,
        Notification::LoopingAlarm2 => "ms-winsoundevent:Notification.Looping.Alarm2"@,
        Notification::LoopingAlarm3 => "ms-winsoundevent:Notification.Looping.Alarm3"@,
        Notification::LoopingAlarm4 => "ms-winsoundevent:Notification.Looping.Alarm4"@,
        Notification::LoopingAlarm5 => "ms-winsoundevent:Notification.Looping.Alarm5"@,
        Notification::LoopingAlarm6 => "ms-winsoundevent:Notification.Looping.Alarm6"@,
        Notification::LoopingAlarm7 => "ms-winsoundevent:Notification.Looping.Alarm7"@,
        Notification::LoopingAlarm8 => "ms-winsoundevent:Notification.Looping.Alarm8"@,
        Notification::LoopingAlarm9 => "ms-winsoundevent:Notification.Looping.Alarm9"@,
        Notification::LoopingAlarm10 => "ms-winsoundevent:Notification.Looping.Alarm10"@,
        Notification::LoopingCall => "ms-winsoundevent:Notification.Looping.Call"@,
        Notification::LoopingCall2 => "ms-winsoundevent:Notification.Looping.Call2"@,
        Notification::LoopingCall3 => "ms-winsoundevent:Notification.Looping.Call3"@,
        Notification::LoopingCall4 => "ms-winsoundevent:Notification.Looping.Call4"@,
        Notification::LoopingCall5 => "ms-winsoundevent:Notification.Looping.Call5"@,
        Notification::LoopingCall6 => "ms-winsoundevent:Notification.Looping.Call6"@,
        Notification::LoopingCall7 => "ms-winsoundevent:Notification.Looping.Call7"@,
        Notification::LoopingCall8 => "ms-winsoundevent:Notification.Looping.Call8"@,
        Notification::LoopingCall9 => "ms-winsoundevent:Notification.Looping.Call9"@,
        Notification::LoopingCall10 => "ms-winsoundevent:Notification.Looping.Call10"@,
    }
}

impl Notification {
    /// The sound's sound-event URI as a string.
    pub fn to_string(&self) -> (r: String)
        ensures
            r@ == notification_str(*self),
    {
        match self {
            Notification::Default => String::from_str("ms-winsoundevent:Notification.Default"),
            Notification::IM => String::from_str("ms-winsoundevent:Notification.IM"),
            Notification::Mail => String::from_str("ms-winsoundevent:Notification.Mail"),
            Notification::Reminder => String::from_str("ms-winsoundevent:Notification.Reminder"),
            Notification::SMS => String::from_str("ms-winsoundevent:Notification.SMS"),
            Notification::LoopingAlarm => String::from_str(
                "ms-winsoundevent:Notification.Looping.Alarm",
            ),
            Notification::LoopingAlarm2 => String::from_str(
                "ms-winsoundevent:Notification.Looping.Alarm2",
            ),
            Notification::LoopingAlarm3 => String::from_str(
                "ms-winsoundevent:Notification.Looping.Alarm3",
            ),
            Notification::LoopingAlarm4 => String::from_str(
                "ms-winsoundevent:Notification.Looping.Alarm4",
            ),
            Notification::LoopingAlarm5 => String::from_str(
                "ms-winsoundevent:Notification.Looping.Alarm5",
            ),
            Notification::LoopingAlarm6 => String::from_str(
                "ms-winsoundevent:Notification.Looping.Alarm6",
            ),
            Notification::LoopingAlarm7 => String::from_str(
                "ms-winsoundevent:Notification.Looping.Alarm7",
            ),
            Notification::LoopingAlarm8 => String::from_str(
                "ms-winsoundevent:Notification.Looping.Alarm8",
            ),
            Notification::LoopingAlarm9 => String::from_str(
                "ms-winsoundevent:Notification.Looping.Alarm9",
            ),
            Notification::LoopingAlarm10 => String::from_str(
                "ms-winsoundevent:Notification.Looping.Alarm10",
            ),
            Notification::LoopingCall => String::from_str(
                "ms-winsoundevent:Notification.Looping.Call",
            ),
            Notification::LoopingCall2 => String::from_str(
                "ms-winsoundevent:Notification.Looping.Call2",
            ),
            Notification::LoopingCall3 => String::from_str(
                "ms-winsoundevent:Notification.Looping.Call3",
            ),
            Notification::LoopingCall4 => String::from_str(
                "ms-winsoundevent:Notification.Looping.Call4",
            ),
            Notification::LoopingCall5 => String::from_str(
                "ms-winsoundevent:Notification.Looping.Call5",
            ),
            Notification::LoopingCall6 => String::from_str(
                "ms-winsoundevent:Notification.Looping.Call6",
            ),
            Notification::LoopingCall7 => String::from_str(
                "ms-winsoundevent:Notification.Looping.Call7",
            ),
            Notification::LoopingCall8 => String::from_str(
                "ms-winsoundevent:Notification.Looping.Call8",
            ),
            Notification::LoopingCall9 => String::from_str(
                "ms-winsoundevent:Notification.Looping.Call9",
            ),
            Notification::LoopingCall10 => String::from_str(
                "ms-winsoundevent:Notification.Looping.Call10",
            ),
        }
    }
}

/// An audio configuration: a platform sound, and whether it loops or is
/// muted.
#[derive(Debug, Clone, Copy, PartialEq, Eq, Structural, Hash)]
pub struct Audio {
    /// Repeat the sound as long as the toast is shown; the root's duration
    /// must then also be set.
    pub loop_: bool,
    /// Mute the sound.
    pub silent: bool,
    /// The platform sound to play in place of the default one.
    pub src: Notification,
}

impl Audio {
    /// The given sound, played once, not muted.
    pub fn new(src: Notification) -> (a: Audio)
        ensures
            !a.loop_,
            !a.silent,
            a.src == src,
    {
        Audio { loop_: false, silent: false, src }
    }

    /// Repeats the sound as long as the toast is shown.
    pub fn loop_(self) -> (a: Audio)
        ensures
            a == (Audio { loop_: true, ..self }),
    {
        Audio { loop_: true, ..self }
    }

    /// Mutes the sound.
    pub fn silent(self) -> (a: Audio)
        ensures
            a == (Audio { silent: true, ..self }),
    {
        Audio { silent: true, ..self }
    }
}

/// The element an audio configuration converts to: the sound URI always,
/// and `loop="true"` / `silent="true"` only when set — never a `"false"`.
pub open spec fn audio_element_rep(el: Element, a: Audio) -> bool {
    let n_l: int = if a.loop_ {
        1
    } else {
        0
    };
    let n_s: int = if a.silent {
        1
    } else {
        0
    };
    &&& el.tag == Tag::Audio
    &&& el.text@.len() == 0
    &&& el.children@.len() == 0
    &&& el.attrs@.len() == 1 + n_l + n_s
    &&& el.attrs@[0].name == AttrName::Src && el.attrs@[0].value@ == notification_str(a.src)
    &&& a.loop_ ==> el.attrs@[1].name == AttrName::Loop && el.attrs@[1].value@ == "true"@
    &&& a.silent ==> el.attrs@[1 + n_l].name == AttrName::Silent && el.attrs@[1 + n_l].value@
        == "true"@
}

impl ToXML for Audio {
    /// Every audio configuration converts.
    open spec fn valid(&self) -> bool {
        true
    }

    open spec fn element_rep(&self, el: Element) -> bool {
        audio_element_rep(el, *self)
    }

    /// Builds the `audio` element.
    fn into_element(self) -> (r: Result<Element, Error>) {
        let mut el = Element::new(Tag::Audio);
        el.set_attribute(AttrName::Src, self.src.to_string());
        if self.loop_ {
            proof {
                crate::dom::lemma_attr_search(el.attrs@, AttrName::Loop);
            }
            el.set_attribute(AttrName::Loop, String::from_str("true"));
        }
        if self.silent {
            proof {
                crate::dom::lemma_attr_search(el.attrs@, AttrName::Silent);
            }
            el.set_attribute(AttrName::Silent, String::from_str("true"));
        }
        Ok(el)
    }
}

impl Toast {
    /// Appends the audio element to the toast root. Audio is permitted at
    /// most once per toast: a second attempt is rejected and changes
    /// nothing.
    pub fn add_audio(&mut self, audio: Audio) -> (r: Result<(), Error>)
        requires
            old(self).wf(),
        ensures
            final(self).wf(),
            old(self).has_audio ==> (r matches Err(e) && e == Error::AlreadyHasAudio
                && *final(self) == *old(self)),
            !old(self).has_audio ==> r is Ok
                && final(self).doc.root.tag == old(self).doc.root.tag
                && final(self).doc.root.attrs == old(self).doc.root.attrs
                && final(self).doc.root.text == old(self).doc.root.text
                && final(self).doc.root.children@ == old(self).doc.root.children@.push(
                final(self).doc.root.children@.last(),
            ) && audio_element_rep(final(self).doc.root.children@.last(), audio)
                && final(self).has_audio && final(self).app_id == old(self).app_id,
    {
        if self.has_audio {
            return Err(Error::AlreadyHasAudio);
        }
        let el = match audio.into_element() {
            Ok(el) => el,
            Err(e) => {
                return Err(e);
            },
        };
        let ghost elg = el;
        let ghost pre = *self;
        self.push_root_child(el);
        proof {
            lemma_wf_after_root_push(pre, *self, elg);
        }
        self.has_audio = true;
        Ok(())
    }
}

} // verus!
