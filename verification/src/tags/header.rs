//! The `header` tag: a category header grouping notifications in the
//! action center.

use vstd::prelude::*;
use crate::dom::AttrName;
use crate::dom::Element;
use crate::dom::Tag;
use crate::error::Error;
use crate::toast::lemma_wf_after_root_push;
use crate::toast::root_appended;
use crate::toast::Toast;

verus! {

/// How the header activates the application when clicked.
#[derive(Debug, Clone, Copy, PartialEq, Eq, Structural, Hash)]
pub enum ActivationType {
    /// The foreground app is launched.
    Forground,
    /// A different app is launched through protocol activation.
    Protocol,
}

impl Default for ActivationType {
    /// Foreground activation is the default.
    fn default() -> (r: Self)
        ensures
            r == ActivationType::Forground,
    {
        ActivationType::Forground
    }
}

/// The attribute value of a header activation type.
pub open spec fn header_activation_str(a: ActivationType) -> Seq<char> {
    match a {
        ActivationType::Forground => "foreground"@,
        ActivationType::Protocol => "protocol"@,
    }
}

impl ActivationType {
    /// The activation type's attribute value as a string.
    pub fn to_string(&self) -> (r: String)
        ensures
            r@ == header_activation_str(*self),
    {
        match self {
            ActivationType::Forground => String::from_str("foreground"),
            ActivationType::Protocol => String::from_str("protocol"),
        }
    }
}

/// A header configuration: id, title, argument string, and the optional
/// activation type.
#[derive(Debug, Clone)]
pub struct Header {
    /// Notifications with the same header id share one header in the
    /// action center.
    pub id: String,
    /// The title shown for the header.
    pub title: String,
    /// App-defined arguments returned to the app when the header is
    /// clicked; never empty on the wire.
    pub arguments: String,
    /// How the header activates the app when clicked.
    pub activation_type: Option<ActivationType>,
}

impl Header {
    /// A header with the given id, title and arguments.
    pub fn new(id: &str, title: &str, arguments: &str) -> (h: Header)
        ensures
            h.id@ == id@,
            h.title@ == title@,
            h.arguments@ == arguments@,
            h.activation_type is None,
    {
        Header {
            id: String::from_str(id),
            title: String::from_str(title),
            arguments: String::from_str(arguments),
            activation_type: None,
        }
    }

    /// Chooses the activation type used when the header is clicked.
    pub fn activation_type(self, activation_type: ActivationType) -> (h: Header)
        ensures
            h == (Header { activation_type: Some(activation_type), ..self }),
    {
        Header { activation_type: Some(activation_type), ..self }
    }
}

/// The element a header converts to: id, title and arguments always, then
/// the activation type when configured.
pub open spec fn header_element_rep(el: Element, h: Header) -> bool {
    &&& el.tag == Tag::Header
    &&& el.text@.len() == 0
    &&& el.children@.len() == 0
    &&& el.attrs@.len() == 3 + (if h.activation_type is Some {
        1int
    } else {
        0int
    })
    &&& el.attrs@[0].name == AttrName::Id && el.attrs@[0].value@ == h.id@
    &&& el.attrs@[1].name == AttrName::Title && el.attrs@[1].value@ == h.title@
    &&& el.attrs@[2].name == AttrName::Arguments && el.attrs@[2].value@ == h.arguments@
    &&& h.activation_type matches Some(at) ==> el.attrs@[3].name == AttrName::ActivationType
        && el.attrs@[3].value@ == header_activation_str(at)
}

impl Toast {
    /// Appends a header element to the toast root.
    pub fn add_header(&mut self, header: Header) -> (r: Result<(), Error>)
        requires
            old(self).wf(),
        ensures
            r is Ok,
            final(self).wf(),
            root_appended(*old(self), *final(self), final(self).doc.root.children@.last()),
            header_element_rep(final(self).doc.root.children@.last(), header),
    {
        let mut el = Element::new(Tag::Header);
        el.set_attribute(AttrName::Id, header.id);
        proof {
            crate::dom::lemma_attr_search(el.attrs@, AttrName::Title);
        }
        el.set_attribute(AttrName::Title, header.title);
        proof {
            crate::dom::lemma_attr_search(el.attrs@, AttrName::Arguments);
        }
        el.set_attribute(AttrName::Arguments, header.arguments);
        if let Some(at) = header.activation_type {
            proof {
                crate::dom::lemma_attr_search(el.attrs@, AttrName::ActivationType);
            }
            el.set_attribute(AttrName::ActivationType, at.to_string());
        }
        let ghost elg = el;
        let ghost pre = *self;
        self.push_root_child(el);
        proof {
            lemma_wf_after_root_push(pre, *self, elg);
        }
        Ok(())
    }
}

} // verus!
