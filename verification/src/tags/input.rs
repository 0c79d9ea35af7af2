//! The `input` tag: a text box or a selection list in the toast's actions.

use vstd::prelude::*;
use crate::dom::AttrName;
use crate::dom::Element;
use crate::dom::Tag;
use crate::error::Error;
use crate::toast::actions_appended;
use crate::toast::lemma_wf_after_actions_push;
use crate::toast::Toast;
use crate::utils::into_raw::ToXML;

verus! {

/// One choice of a selection input.
#[derive(Debug, Clone, PartialEq, Eq)]
pub struct Selection {
    /// The id associated with the selection.
    pub id: String,
    /// The text displayed for the selection.
    pub content: String,
}

impl Selection {
    /// A selection choice with the given id and display text.
    pub fn new(id: &str, content: &str) -> (s: Selection)
        ensures
            s.id@ == id@,
            s.content@ == content@,
    {
        Selection { id: String::from_str(id), content: String::from_str(content) }
    }
}

/// The two kinds of input element.
#[derive(Debug, Clone)]
pub enum InputType {
    Text,
    Selection(Vec<Selection>),
}

/// An input configuration: a free-text box, or a list of selections.
#[derive(Debug, Clone)]
pub enum Input {
    Text {
        /// The id associated with the input.
        id: String,
        /// Text displayed as a label for the input.
        title: Option<String>,
        /// The placeholder displayed in the empty text box.
        place_holder_content: Option<String>,
    },
    Selection {
        /// The id associated with the input.
        id: String,
        /// Text displayed as a label for the input.
        title: Option<String>,
        /// The id of the selection chosen by default.
        default_selection: Option<String>,
        /// The selections the user can choose from.
        selections: Vec<Selection>,
    },
}

impl Input {
    /// A free-text input with the given id and optional placeholder.
    pub fn new_text(id: &str, place_holder_content: Option<&str>) -> (i: Input)
        ensures
            i matches Input::Text { id: iid, title, place_holder_content: phc } && iid@ == id@
                && title is None && (match place_holder_content {
                Some(p) => phc matches Some(q) && q@ == p@,
                None => phc is None,
            }),
    {
        Input::Text {
            id: String::from_str(id),
            title: None,
            place_holder_content: match place_holder_content {
                Some(p) => Some(String::from_str(p)),
                None => None,
            },
        }
    }

    /// A selection input with the given id, choices, and optional default.
    pub fn new_selection(
        id: &str,
        selections: Vec<Selection>,
        default_selection: Option<&str>,
    ) -> (i: Input)
        ensures
            i matches Input::Selection {
                id: iid,
                title,
                default_selection: ds,
                selections: sels,
            } && iid@ == id@ && title is None && sels == selections && (
            match default_selection {
                Some(d) => ds matches Some(e) && e@ == d@,
                None => ds is None,
            }),
    {
        Input::Selection {
            id: String::from_str(id),
            title: None,
            default_selection: match default_selection {
                Some(d) => Some(String::from_str(d)),
                None => None,
            },
            selections,
        }
    }

    /// Sets the label displayed for the input.
    pub fn title(self, title: &str) -> (i: Input)
        ensures
            match self {
                Input::Text { id, place_holder_content, .. } => i matches Input::Text {
                    id: iid,
                    title: t,
                    place_holder_content: phc,
                } && iid == id && phc == place_holder_content && (t matches Some(s) && s@
                    == title@),
                Input::Selection { id, default_selection, selections, .. } => i
                    matches Input::Selection {
                    id: iid,
                    title: t,
                    default_selection: ds,
                    selections: sels,
                } && iid == id && ds == default_selection && sels == selections && (t
                    matches Some(s) && s@ == title@),
            },
    {
        match self {
            Input::Text { id, place_holder_content, .. } => Input::Text {
                id,
                title: Some(String::from_str(title)),
                place_holder_content,
            },
            Input::Selection { id, default_selection, selections, .. } => Input::Selection {
                id,
                title: Some(String::from_str(title)),
                default_selection,
                selections,
            },
        }
    }
}

/// The `selection` child element of one choice.
pub open spec fn selection_element_rep(el: Element, s: Selection) -> bool {
    &&& el.tag == Tag::Selection
    &&& el.text@.len() == 0
    &&& el.children@.len() == 0
    &&& el.attrs@.len() == 2
    &&& el.attrs@[0].name == AttrName::Id && el.attrs@[0].value@ == s.id@
    &&& el.attrs@[1].name == AttrName::Content && el.attrs@[1].value@ == s.content@
}

/// The element an input converts to. A text input carries `id`,
/// `type="text"`, and the optional title and placeholder. A selection input
/// carries `id`, `type="selection"`, the optional title and default, and
/// one `selection` child per choice, in order.
pub open spec fn input_element_rep(el: Element, i: Input) -> bool {
    match i {
        Input::Text { id, title, place_holder_content } => {
            let n_t: int = if title is Some {
                1
            } else {
                0
            };
            let n_p: int = if place_holder_content is Some {
                1
            } else {
                0
            };
            &&& el.tag == Tag::Input
            &&& el.text@.len() == 0
            &&& el.children@.len() == 0
            &&& el.attrs@.len() == 2 + n_t + n_p
            &&& el.attrs@[0].name == AttrName::Id && el.attrs@[0].value@ == id@
            &&& el.attrs@[1].name == AttrName::Type && el.attrs@[1].value@ == "text"@
            &&& title matches Some(t) ==> el.attrs@[2].name == AttrName::Title && el.attrs@[2].value@ == t@
            &&& place_holder_content matches Some(p) ==> el.attrs@[2 + n_t].name
                == AttrName::PlaceHolderContent && el.attrs@[2 + n_t].value@ == p@
        },
        Input::Selection { id, title, default_selection, selections } => {
            let n_t: int = if title is Some {
                1
            } else {
                0
            };
            let n_d: int = if default_selection is Some {
                1
            } else {
                0
            };
            &&& el.tag == Tag::Input
            &&& el.text@.len() == 0
            &&& el.attrs@.len() == 2 + n_t + n_d
            &&& el.attrs@[0].name == AttrName::Id && el.attrs@[0].value@ == id@
            &&& el.attrs@[1].name == AttrName::Type && el.attrs@[1].value@ == "selection"@
            &&& title matches Some(t) ==> el.attrs@[2].name == AttrName::Title && el.attrs@[2].value@ == t@
            &&& default_selection matches Some(d) ==> el.attrs@[2 + n_t].name
                == AttrName::DefaultInput && el.attrs@[2 + n_t].value@ == d@
            &&& el.children@.len() == selections@.len()
            &&& forall|k: int|
                0 <= k < selections@.len() ==> selection_element_rep(
                    #[trigger] el.children@[k],
                    selections@[k],
                )
        },
    }
}

impl ToXML for Input {
    /// Every input configuration converts.
    open spec fn valid(&self) -> bool {
        true
    }

    open spec fn element_rep(&self, el: Element) -> bool {
        input_element_rep(el, *self)
    }

    /// Builds the `input` element, with one `selection` child per choice
    /// for the selection variant.
    fn into_element(self) -> (r: Result<Element, Error>) {
        match self {
            Input::Text { id, title, place_holder_content } => {
                let mut el = Element::new(Tag::Input);
                el.set_attribute(AttrName::Id, id);
                proof {
                    crate::dom::lemma_attr_search(el.attrs@, AttrName::Type);
                }
                el.set_attribute(AttrName::Type, String::from_str("text"));
                if let Some(t) = title {
                    proof {
                        crate::dom::lemma_attr_search(el.attrs@, AttrName::Title);
                    }
                    el.set_attribute(AttrName::Title, t);
                }
                if let Some(p) = place_holder_content {
                    proof {
                        crate::dom::lemma_attr_search(el.attrs@, AttrName::PlaceHolderContent);
                    }
                    el.set_attribute(AttrName::PlaceHolderContent, p);
                }
                Ok(el)
            },
            Input::Selection { id, title, default_selection, selections } => {
                let mut el = Element::new(Tag::Input);
                el.set_attribute(AttrName::Id, id);
                proof {
                    crate::dom::lemma_attr_search(el.attrs@, AttrName::Type);
                }
                el.set_attribute(AttrName::Type, String::from_str("selection"));
                if let Some(t) = title {
                    proof {
                        crate::dom::lemma_attr_search(el.attrs@, AttrName::Title);
                    }
                    el.set_attribute(AttrName::Title, t);
                }
                if let Some(d) = default_selection {
                    proof {
                        crate::dom::lemma_attr_search(el.attrs@, AttrName::DefaultInput);
                    }
                    el.set_attribute(AttrName::DefaultInput, d);
                }
                let n: usize = selections.len();
                let mut j: usize = 0;
                let ghost el_before = el;
                while j < n
                    invariant
                        j <= n,
                        n == selections@.len(),
                        el.tag == el_before.tag,
                        el.attrs == el_before.attrs,
                        el.text == el_before.text,
                        el.children@.len() == j,
                        forall|k: int|
                            0 <= k < j ==> selection_element_rep(
                                #[trigger] el.children@[k],
                                selections@[k],
                            ),
                    decreases n - j,
                {
                    let s = &selections[j];
                    let mut sel = Element::new(Tag::Selection);
                    sel.set_attribute(AttrName::Id, s.id.clone());
                    proof {
                        crate::dom::lemma_attr_search(sel.attrs@, AttrName::Content);
                    }
                    sel.set_attribute(AttrName::Content, s.content.clone());
                    el.append_child(sel);
                    j += 1;
                }
                Ok(el)
            },
        }
    }
}

impl Toast {
    /// Appends the configured input element to the toast's `actions` root.
    pub fn add_input(&mut self, input: Input) -> (r: Result<(), Error>)
        requires
            old(self).wf(),
        ensures
            r is Ok,
            final(self).wf(),
            actions_appended(
                *old(self),
                *final(self),
                final(self).actions_elem().children@.last(),
            ),
            input_element_rep(final(self).actions_elem().children@.last(), input),
    {
        let ghost ig = input;
        let el = match input.into_element() {
            Ok(el) => el,
            Err(e) => {
                return Err(e);
            },
        };
        let ghost elg = el;
        let ghost pre = *self;
        self.push_actions_child(el);
        proof {
            lemma_wf_after_actions_push(pre, *self, elg);
        }
        Ok(())
    }
}

} // verus!
