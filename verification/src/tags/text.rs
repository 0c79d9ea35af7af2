//! The `text` tag: a line of body text in the toast's binding.

use vstd::prelude::*;
use crate::decimal::dec_str;
use crate::decimal::i32_to_string;
use crate::dom::AttrName;
use crate::dom::Element;
use crate::dom::Tag;
use crate::error::reserved_id_error;
use crate::error::Error;
use crate::toast::binding_appended;
use crate::toast::lemma_wf_after_binding_push;
use crate::toast::Toast;
use crate::utils::into_raw::ToXML;

verus! {

/// A text element configuration: content, an optional numeric id, the
/// bottom-of-toast attribution placement, and the incoming-call centering
/// hint.
#[derive(Debug, Clone)]
pub struct Text {
    /// The text position in the template this text is intended for; id `0`
    /// is reserved for the title.
    pub id: Option<i32>,
    /// The text to display.
    pub text: String,
    /// Display this text at the bottom of the notification, with the app's
    /// identity or the timestamp; only one such text is shown at a time.
    pub bottem_text: bool,
    /// Center the text for incoming-call notifications; ignored elsewhere.
    pub hint_call_scenario_center_align: bool,
}

impl Text {
    /// A text element with the given content and nothing else configured.
    pub fn new(text: &str) -> (t: Text)
        ensures
            t.id is None,
            t.text@ == text@,
            !t.bottem_text,
            !t.hint_call_scenario_center_align,
    {
        Text {
            id: None,
            text: String::from_str(text),
            bottem_text: false,
            hint_call_scenario_center_align: false,
        }
    }

    /// Sets the id of the text element.
    pub fn id(self, id: i32) -> (t: Text)
        ensures
            t == (Text { id: Some(id), ..self }),
    {
        Text { id: Some(id), ..self }
    }

    /// Marks this text for display at the bottom of the notification.
    pub fn bottem_text(self) -> (t: Text)
        ensures
            t == (Text { bottem_text: true, ..self }),
    {
        Text { bottem_text: true, ..self }
    }

    /// Centers the text for incoming-call notifications.
    pub fn hint_call_scenario_center_align(self) -> (t: Text)
        ensures
            t == (Text { hint_call_scenario_center_align: true, ..self }),
    {
        Text { hint_call_scenario_center_align: true, ..self }
    }
}

/// The element a text configuration converts to: its content as inner text,
/// and one attribute per configured field, in the fixed order id,
/// `placement="attribution"`, `hint-callScenarioCenterAlign="true"`.
pub open spec fn text_element_rep(el: Element, t: Text) -> bool {
    let n_id: int = if t.id is Some {
        1
    } else {
        0
    };
    let n_b: int = if t.bottem_text {
        1
    } else {
        0
    };
    let n_h: int = if t.hint_call_scenario_center_align {
        1
    } else {
        0
    };
    &&& el.tag == Tag::Text
    &&& el.text@ == t.text@
    &&& el.children@.len() == 0
    &&& el.attrs@.len() == n_id + n_b + n_h
    &&& t.id matches Some(i) ==> el.attrs@[0].name == AttrName::Id && el.attrs@[0].value@
        == dec_str(i as int)
    &&& t.bottem_text ==> el.attrs@[n_id].name == AttrName::Placement && el.attrs@[n_id].value@
        == "attribution"@
    &&& t.hint_call_scenario_center_align ==> el.attrs@[n_id + n_b].name
        == AttrName::HintCallScenarioCenterAlign && el.attrs@[n_id + n_b].value@ == "true"@
}

impl ToXML for Text {
    /// Any id but the reserved `0` converts.
    open spec fn valid(&self) -> bool {
        self.id != Some(0i32)
    }

    open spec fn element_rep(&self, el: Element) -> bool {
        text_element_rep(el, *self)
    }

    /// Builds the `text` element; a configured id of `0` is rejected with
    /// the reserved-id error, whatever the other fields hold.
    fn into_element(self) -> (r: Result<Element, Error>) {
        if let Some(i) = self.id {
            if i == 0 {
                return Err(reserved_id_error());
            }
        }
        let mut el = Element::new(Tag::Text);
        el.set_inner_text(self.text);
        if let Some(i) = self.id {
            proof {
                crate::dom::lemma_attr_search(el.attrs@, AttrName::Id);
            }
            el.set_attribute(AttrName::Id, i32_to_string(i));
        }
        if self.bottem_text {
            proof {
                crate::dom::lemma_attr_search(el.attrs@, AttrName::Placement);
            }
            el.set_attribute(AttrName::Placement, String::from_str("attribution"));
        }
        if self.hint_call_scenario_center_align {
            proof {
                crate::dom::lemma_attr_search(el.attrs@, AttrName::HintCallScenarioCenterAlign);
            }
            el.set_attribute(AttrName::HintCallScenarioCenterAlign, String::from_str("true"));
        }
        Ok(el)
    }
}

impl Toast {
    /// Appends the configured text element under the binding. An id of `0`
    /// is rejected with the reserved-id error; ids are otherwise not checked
    /// against existing elements here (unlike [`Toast::text`], this never
    /// overwrites).
    pub fn add_text(&mut self, text: Text) -> (r: Result<(), Error>)
        requires
            old(self).wf(),
        ensures
            final(self).wf(),
            r is Ok <==> text.valid(),
            r is Ok ==> binding_appended(
                *old(self),
                *final(self),
                final(self).binding_elem().children@.last(),
            ) && text_element_rep(final(self).binding_elem().children@.last(), text),
            r matches Err(e) ==> crate::error::is_reserved_id_error(e) && *final(self) == *old(
                self,
            ),
    {
        let el = match text.into_element() {
            Ok(el) => el,
            Err(e) => {
                return Err(e);
            },
        };
        let ghost elg = el;
        let ghost pre = *self;
        self.push_binding_child(el);
        proof {
            lemma_wf_after_binding_push(pre, *self, elg);
        }
        Ok(())
    }
}

} // verus!
