//! The document substrate: an ordered tree of named elements with attributes
//! and text content.
//!
//! The toast markup dialect is closed, so element names and attribute names
//! are enumerations rather than free strings; attribute values and inner text
//! are strings. A document holds exactly one root element.

use vstd::prelude::*;

verus! {

/// The name of an element in the toast markup dialect.
#[derive(Clone, Copy, PartialEq, Eq, Structural, Debug, Hash)]
pub enum Tag {
    Toast,
    Visual,
    Binding,
    Actions,
    Text,
    Image,
    Progress,
    Group,
    Subgroup,
    Input,
    Selection,
    Action,
    Audio,
    Header,
    Commands,
    Command,
}

/// The name of an attribute in the toast markup dialect.
#[derive(Clone, Copy, PartialEq, Eq, Structural, Debug, Hash)]
pub enum AttrName {
    Id,
    Template,
    Placement,
    HintCallScenarioCenterAlign,
    AddImageQuery,
    Alt,
    Src,
    HintCrop,
    Content,
    Arguments,
    ActivationType,
    ImageUri,
    HintInputId,
    HintButtonStyle,
    HintTooltip,
    Type,
    Title,
    PlaceHolderContent,
    DefaultInput,
    Loop,
    Silent,
    Status,
    Value,
    ValueStringOverride,
    Duration,
    Launch,
    Scenario,
    UseButtonStyle,
    BaseUri,
    Fallback,
}

/// One attribute: a name and its string value.
#[derive(Debug, Clone)]
pub struct Attr {
    pub name: AttrName,
    pub value: String,
}

/// One element of the document tree: a tag, its attributes in insertion
/// order with unique names, its inner text, and its child elements in
/// insertion order.
#[derive(Debug)]
pub struct Element {
    pub tag: Tag,
    pub attrs: Vec<Attr>,
    pub text: String,
    pub children: Vec<Element>,
}

/// A document: an ordered tree with exactly one root element.
#[derive(Debug)]
pub struct Document {
    pub root: Element,
}

/// Whether some attribute in the list carries the given name.
pub open spec fn has_attr_name(attrs: Seq<Attr>, name: AttrName) -> bool
    decreases attrs.len(),
{
    if attrs.len() == 0 {
        false
    } else {
        attrs[0].name == name || has_attr_name(attrs.drop_first(), name)
    }
}

/// The position of the first attribute with the given name.
pub open spec fn first_attr_index(attrs: Seq<Attr>, name: AttrName) -> int
    decreases attrs.len(),
{
    if attrs.len() == 0 {
        0
    } else if attrs[0].name == name {
        0
    } else {
        1 + first_attr_index(attrs.drop_first(), name)
    }
}

/// The value of the first attribute with the given name, if any.
pub open spec fn attr_lookup(attrs: Seq<Attr>, name: AttrName) -> Option<Seq<char>>
    decreases attrs.len(),
{
    if attrs.len() == 0 {
        None
    } else if attrs[0].name == name {
        Some(attrs[0].value@)
    } else {
        attr_lookup(attrs.drop_first(), name)
    }
}

/// How `has_attr_name`, `first_attr_index` and `attr_lookup` relate to the
/// entries of the list.
pub proof fn lemma_attr_search(attrs: Seq<Attr>, name: AttrName)
    ensures
        has_attr_name(attrs, name) <==> exists|i: int|
            0 <= i < attrs.len() && attrs[i].name == name,
        has_attr_name(attrs, name) ==> {
            let k = first_attr_index(attrs, name);
            &&& 0 <= k < attrs.len()
            &&& attrs[k].name == name
            &&& forall|j: int| 0 <= j < k ==> attrs[j].name != name
            &&& attr_lookup(attrs, name) == Some(attrs[k].value@)
        },
        !has_attr_name(attrs, name) ==> attr_lookup(attrs, name) is None,
    decreases attrs.len(),
{
    if attrs.len() > 0 {
        lemma_attr_search(attrs.drop_first(), name);
        assert(forall|i: int|
            1 <= i < attrs.len() ==> attrs.drop_first()[i - 1] == attrs[i]);
        if !(attrs[0].name == name) && has_attr_name(attrs.drop_first(), name) {
            let k0 = first_attr_index(attrs.drop_first(), name);
            assert(attrs[k0 + 1] == attrs.drop_first()[k0]);
        }
    }
}

/// The attribute list after an upsert: the first attribute with the given
/// name is overwritten, or a new attribute is appended when none carries it.
pub open spec fn attr_upsert(attrs: Seq<Attr>, name: AttrName, value: String) -> Seq<Attr> {
    if has_attr_name(attrs, name) {
        attrs.update(first_attr_index(attrs, name), Attr { name, value })
    } else {
        attrs.push(Attr { name, value })
    }
}

/// Upserting never removes names and sets the given one to the given value.
pub proof fn lemma_attr_upsert_lookup(attrs: Seq<Attr>, name: AttrName, value: String, other: AttrName)
    ensures
        attr_lookup(attr_upsert(attrs, name, value), name) == Some(value@),
        other != name ==> attr_lookup(attr_upsert(attrs, name, value), other)
            == attr_lookup(attrs, other),
    decreases attrs.len(),
{
    lemma_attr_search(attrs, name);
    if attrs.len() == 0 {
        reveal_with_fuel(attr_lookup, 2);
        reveal_with_fuel(has_attr_name, 2);
        assert(attr_upsert(attrs, name, value) =~= seq![Attr { name, value }]);
    } else {
        if attrs[0].name == name {
            assert(attr_upsert(attrs, name, value)[0] == Attr { name, value });
            assert(attr_upsert(attrs, name, value).drop_first() =~= attrs.drop_first());
        } else {
            lemma_attr_upsert_lookup(attrs.drop_first(), name, value, other);
            assert(attr_upsert(attrs, name, value)[0] == attrs[0]);
            assert(attr_upsert(attrs, name, value).drop_first()
                =~= attr_upsert(attrs.drop_first(), name, value));
        }
    }
}

impl Element {
    /// A fresh, parentless element with the given tag and no attributes,
    /// text, or children.
    pub fn new(tag: Tag) -> (e: Element)
        ensures
            e.tag == tag,
            e.attrs@ == Seq::<Attr>::empty(),
            e.text@ == Seq::<char>::empty(),
            e.children@ == Seq::<Element>::empty(),
    {
        Element { tag, attrs: Vec::new(), text: String::new(), children: Vec::new() }
    }

    /// Upserts one attribute: the last write to a name wins, and a name not
    /// yet present is appended.
    pub fn set_attribute(&mut self, name: AttrName, value: String)
        ensures
            final(self).tag == old(self).tag,
            final(self).text == old(self).text,
            final(self).children == old(self).children,
            final(self).attrs@ == attr_upsert(old(self).attrs@, name, value),
    {
        proof {
            lemma_attr_search(self.attrs@, name);
        }
        let n: usize = self.attrs.len();
        let mut i: usize = 0;
        while i < n
            invariant
                i <= n,
                n == self.attrs.len(),
                forall|j: int| 0 <= j < i ==> self.attrs@[j].name != name,
                *self == *old(self),
            decreases n - i,
        {
            if self.attrs[i].name == name {
                let entry = &mut self.attrs[i];
                entry.value = value;
                proof {
                    let a0 = old(self).attrs@;
                    lemma_attr_search(a0, name);
                    assert(a0[i as int].name == name);
                    assert(has_attr_name(a0, name));
                    let k = first_attr_index(a0, name);
                    assert(a0[k].name == name);
                    assert(k == i as int);
                    assert(self.attrs@ =~= a0.update(i as int, Attr { name, value }));
                }
                return ;
            }
            i += 1;
        }
        self.attrs.push(Attr { name, value });
    }

    /// Replaces the inner text content.
    pub fn set_inner_text(&mut self, text: String)
        ensures
            final(self).tag == old(self).tag,
            final(self).attrs == old(self).attrs,
            final(self).children == old(self).children,
            final(self).text == text,
    {
        self.text = text;
    }

    /// Appends a fresh child element to the ordered child list.
    pub fn append_child(&mut self, child: Element)
        ensures
            final(self).tag == old(self).tag,
            final(self).attrs == old(self).attrs,
            final(self).text == old(self).text,
            final(self).children@ == old(self).children@.push(child),
    {
        self.children.push(child);
    }
}

} // verus!
