//! The `progress` tag: a progress bar in the toast's binding.

use vstd::prelude::*;
use crate::dom::AttrName;
use crate::dom::Element;
use crate::dom::Tag;
use crate::error::Error;
use crate::toast::binding_appended;
use crate::toast::lemma_wf_after_binding_push;
use crate::toast::Toast;
use crate::utils::into_raw::ToXML;

verus! {

/// The value of the progress bar: either the decimal rendering of a number
/// between 0 and 1, or an indeterminate loading animation.
#[derive(Debug, Clone, PartialEq, Eq)]
pub enum Value {
    /// The decimal rendering of a number between 0.0 and 1.0, as the
    /// caller formatted it (for instance `"0.42"`).
    Floating(String),
    /// A loading animation in place of a filled fraction.
    Indeterminate,
}

/// The attribute value a progress value serializes to: the decimal string
/// itself, or the literal `indeterminate`.
pub open spec fn value_str(v: Value) -> Seq<char> {
    match v {
        Value::Floating(s) => s@,
        Value::Indeterminate => "indeterminate"@,
    }
}

/// A progress-bar configuration: a status line always, a value always, and
/// the optional title and override of the percentage string.
#[derive(Debug, Clone, PartialEq, Eq)]
pub struct Progress {
    /// An optional title above the bar.
    pub title: Option<String>,
    /// The status displayed underneath the bar, like "Downloading...".
    pub status: String,
    /// The value of the progress bar.
    pub value: Value,
    /// Displayed instead of the default percentage string.
    pub value_string_override: Option<String>,
}

impl Progress {
    /// A progress bar with the given status and value.
    pub fn new(status: &str, value: Value) -> (p: Progress)
        ensures
            p.title is None,
            p.status@ == status@,
            p.value == value,
            p.value_string_override is None,
    {
        Progress {
            title: None,
            status: String::from_str(status),
            value,
            value_string_override: None,
        }
    }

    /// Sets the optional title.
    pub fn title(self, title: &str) -> (p: Progress)
        ensures
            p.title matches Some(t) && t@ == title@,
            p.status == self.status,
            p.value == self.value,
            p.value_string_override == self.value_string_override,
    {
        Progress { title: Some(String::from_str(title)), ..self }
    }

    /// Replaces the default percentage string.
    pub fn value_string_override(self, value_string_override: &str) -> (p: Progress)
        ensures
            p.value_string_override matches Some(v) && v@ == value_string_override@,
            p.status == self.status,
            p.value == self.value,
            p.title == self.title,
    {
        Progress { value_string_override: Some(String::from_str(value_string_override)), ..self }
    }
}

/// The element a progress bar converts to: the optional title first, then
/// `status`, then `value` — the decimal string, or `indeterminate` — and
/// the optional override of the percentage string.
pub open spec fn progress_element_rep(el: Element, p: Progress) -> bool {
    let n_t: int = if p.title is Some {
        1
    } else {
        0
    };
    let n_o: int = if p.value_string_override is Some {
        1
    } else {
        0
    };
    &&& el.tag == Tag::Progress
    &&& el.text@.len() == 0
    &&& el.children@.len() == 0
    &&& el.attrs@.len() == 2 + n_t + n_o
    &&& p.title matches Some(t) ==> el.attrs@[0].name == AttrName::Title && el.attrs@[0].value@
        == t@
    &&& el.attrs@[n_t].name == AttrName::Status && el.attrs@[n_t].value@ == p.status@
    &&& el.attrs@[n_t + 1].name == AttrName::Value && el.attrs@[n_t + 1].value@ == value_str(
        p.value,
    )
    &&& p.value_string_override matches Some(v) ==> el.attrs@[n_t + 2].name
        == AttrName::ValueStringOverride && el.attrs@[n_t + 2].value@ == v@
}

impl ToXML for Progress {
    /// Every progress configuration converts.
    open spec fn valid(&self) -> bool {
        true
    }

    open spec fn element_rep(&self, el: Element) -> bool {
        progress_element_rep(el, *self)
    }

    /// Builds the `progress` element.
    fn into_element(self) -> (r: Result<Element, Error>) {
        let mut el = Element::new(Tag::Progress);
        if let Some(t) = self.title {
            el.set_attribute(AttrName::Title, t);
        }
        proof {
            crate::dom::lemma_attr_search(el.attrs@, AttrName::Status);
        }
        el.set_attribute(AttrName::Status, self.status);
        proof {
            crate::dom::lemma_attr_search(el.attrs@, AttrName::Value);
        }
        match self.value {
            Value::Floating(s) => {
                el.set_attribute(AttrName::Value, s);
            },
            Value::Indeterminate => {
                el.set_attribute(AttrName::Value, String::from_str("indeterminate"));
            },
        }
        if let Some(v) = self.value_string_override {
            proof {
                crate::dom::lemma_attr_search(el.attrs@, AttrName::ValueStringOverride);
            }
            el.set_attribute(AttrName::ValueStringOverride, v);
        }
        Ok(el)
    }
}

impl Toast {
    /// Appends the configured progress element under the binding.
    pub fn add_progress(&mut self, progress: Progress) -> (r: Result<(), Error>)
        requires
            old(self).wf(),
        ensures
            r is Ok,
            final(self).wf(),
            binding_appended(
                *old(self),
                *final(self),
                final(self).binding_elem().children@.last(),
            ),
            progress_element_rep(final(self).binding_elem().children@.last(), progress),
    {
        let ghost pg = progress;
        let el = match progress.into_element() {
            Ok(el) => el,
            Err(e) => {
                return Err(e);
            },
        };
        let ghost elg = el;
        let ghost pre = *self;
        self.push_binding_child(el);
        proof {
            lemma_wf_after_binding_push(pre, *self, elg);
        }
        Ok(())
    }
}

} // verus!
