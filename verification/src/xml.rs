//! Deterministic text rendering of the document tree as markup.
//!
//! Every element renders as an open tag carrying its attributes in insertion
//! order, its inner text, its children in order, and a matching close tag.

use vstd::prelude::*;
use vstd::string::StringExecFns;
use crate::dom::Attr;
use crate::dom::AttrName;
use crate::dom::Document;
use crate::dom::Element;
use crate::dom::Tag;

verus! {

/// The markup name of an element tag.
pub open spec fn tag_str(t: Tag) -> Seq<char> {
    match t {
        Tag::Toast => "toast"@,
        Tag::Visual => "visual"@,
        Tag::Binding => "binding"@,
        Tag::Actions => "actions"@,
        Tag::Text => "text"@,
        Tag::Image => "image"@,
        Tag::Progress => "progress"@,
        Tag::Group => "group"@,
        Tag::Subgroup => "subgroup"@,
        Tag::Input => "input"@,
        Tag::Selection => "selection"@,
        Tag::Action => "action"@,
        Tag::Audio => "audio"@,
        Tag::Header => "header"@,
        Tag::Commands => "commands"@,
        Tag::Command => "command"@,
    }
}

/// The markup name of an element tag.
pub fn tag_name(t: Tag) -> (s: &'static str)
    ensures
        s@ == tag_str(t),
{
    match t {
        Tag::Toast => "toast",
        Tag::Visual => "visual",
        Tag::Binding => "binding",
        Tag::Actions => "actions",
        Tag::Text => "text",
        Tag::Image => "image",
        Tag::Progress => "progress",
        Tag::Group => "group",
        Tag::Subgroup => "subgroup",
        Tag::Input => "input",
        Tag::Selection => "selection",
        Tag::Action => "action",
        Tag::Audio => "audio",
        Tag::Header => "header",
        Tag::Commands => "commands",
        Tag::Command => "command",
    }
}

/// The markup name of an attribute.
pub open spec fn attr_name_str(n: AttrName) -> Seq<char> {
    match n {
        AttrName::Id => "id"@,
        AttrName::Template => "template"@,
        AttrName::Placement => "placement"@,
        AttrName::HintCallScenarioCenterAlign => "hint-callScenarioCenterAlign"@,
        AttrName::AddImageQuery => "addImageQuery"@,
        AttrName::Alt => "alt"@,
        AttrName::Src => "src"@,
        AttrName::HintCrop => "hint-crop"@,
        AttrName::Content => "content"@,
        AttrName::Arguments => "arguments"@,
        AttrName::ActivationType => "activationType"@,
        AttrName::ImageUri => "imageUri"@,
        AttrName::HintInputId => "hint-inputId"@,
        AttrName::HintButtonStyle => "hint-buttonStyle"@,
        AttrName::HintTooltip => "hint-tooltip"@,
        AttrName::Type => "type"@,
        AttrName::Title => "title"@,
        AttrName::PlaceHolderContent => "placeHolderContent"@,
        AttrName::DefaultInput => "defaultInput"@,
        AttrName::Loop => "loop"@,
        AttrName::Silent => "silent"@,
        AttrName::Status => "status"@,
        AttrName::Value => "value"@,
        AttrName::ValueStringOverride => "valueStringOverride"@,
        AttrName::Duration => "duration"@,
        AttrName::Launch => "launch"@,
        AttrName::Scenario => "scenario"@,
        AttrName::UseButtonStyle => "useButtonStyle"@,
        AttrName::BaseUri => "baseUri"@,
        AttrName::Fallback => "fallback"@,
    }
}

/// The markup name of an attribute.
pub fn attr_name_text(n: AttrName) -> (s: &'static str)
    ensures
        s@ == attr_name_str(n),
{
    match n {
        AttrName::Id => "id",
        AttrName::Template => "template",
        AttrName::Placement => "placement",
        AttrName::HintCallScenarioCenterAlign => "hint-callScenarioCenterAlign",
        AttrName::AddImageQuery => "addImageQuery",
        AttrName::Alt => "alt",
        AttrName::Src => "src",
        AttrName::HintCrop => "hint-crop",
        AttrName::Content => "content",
        AttrName::Arguments => "arguments",
        AttrName::ActivationType => "activationType",
        AttrName::ImageUri => "imageUri",
        AttrName::HintInputId => "hint-inputId",
        AttrName::HintButtonStyle => "hint-buttonStyle",
        AttrName::HintTooltip => "hint-tooltip",
        AttrName::Type => "type",
        AttrName::Title => "title",
        AttrName::PlaceHolderContent => "placeHolderContent",
        AttrName::DefaultInput => "defaultInput",
        AttrName::Loop => "loop",
        AttrName::Silent => "silent",
        AttrName::Status => "status",
        AttrName::Value => "value",
        AttrName::ValueStringOverride => "valueStringOverride",
        AttrName::Duration => "duration",
        AttrName::Launch => "launch",
        AttrName::Scenario => "scenario",
        AttrName::UseButtonStyle => "useButtonStyle",
        AttrName::BaseUri => "baseUri",
        AttrName::Fallback => "fallback",
    }
}

/// The rendering of the literal strings `"true"` and `"false"`.
pub open spec fn bool_str(b: bool) -> Seq<char> {
    if b {
        "true"@
    } else {
        "false"@
    }
}

/// The literal strings `"true"` and `"false"`.
pub fn bool_literal(b: bool) -> (s: &'static str)
    ensures
        s@ == bool_str(b),
{
    if b {
        "true"
    } else {
        "false"
    }
}

/// The rendering of one attribute: ` name="value"`.
pub open spec fn ser_attr(a: Attr) -> Seq<char> {
    " "@ + attr_name_str(a.name) + "=\""@ + a.value@ + "\""@
}

/// The rendering of an attribute list, in order.
pub open spec fn ser_attrs(attrs: Seq<Attr>) -> Seq<char>
    decreases attrs.len(),
{
    if attrs.len() == 0 {
        Seq::<char>::empty()
    } else {
        ser_attrs(attrs.drop_last()) + ser_attr(attrs.last())
    }
}

/// The rendering of one element: open tag with attributes, inner text,
/// children in order, close tag.
pub open spec fn ser_elem(e: Element) -> Seq<char>
    decreases e,
{
    "<"@ + tag_str(e.tag) + ser_attrs(e.attrs@) + ">"@ + e.text@ + ser_children(e.children@)
        + "</"@ + tag_str(e.tag) + ">"@
}

/// The rendering of a child list, in order.
pub open spec fn ser_children(cs: Seq<Element>) -> Seq<char>
    decreases cs,
{
    if cs.len() == 0 {
        Seq::<char>::empty()
    } else {
        ser_children(cs.drop_last()) + ser_elem(cs.last())
    }
}

/// Extending an attribute list by one entry extends its rendering.
proof fn lemma_ser_attrs_step(attrs: Seq<Attr>, i: int)
    requires
        0 <= i < attrs.len(),
    ensures
        ser_attrs(attrs.subrange(0, i + 1)) == ser_attrs(attrs.subrange(0, i)) + ser_attr(
            attrs[i],
        ),
{
    assert(attrs.subrange(0, i + 1).drop_last() =~= attrs.subrange(0, i));
    assert(attrs.subrange(0, i + 1).last() == attrs[i]);
}

/// Extending a child list by one element extends its rendering.
proof fn lemma_ser_children_step(cs: Seq<Element>, i: int)
    requires
        0 <= i < cs.len(),
    ensures
        ser_children(cs.subrange(0, i + 1)) == ser_children(cs.subrange(0, i)) + ser_elem(cs[i]),
{
    assert(cs.subrange(0, i + 1).drop_last() =~= cs.subrange(0, i));
    assert(cs.subrange(0, i + 1).last() == cs[i]);
}

impl Element {
    /// Appends this element's rendering to the given output string.
    pub fn serialize_into(&self, out: &mut String)
        ensures
            final(out)@ == old(out)@ + ser_elem(*self),
        decreases *self,
    {
        out.append("<");
        out.append(tag_name(self.tag));
        let ghost base: Seq<char> = out@;
        let n: usize = self.attrs.len();
        let mut i: usize = 0;
        proof {
            assert(out@ == base + ser_attrs(self.attrs@.subrange(0, 0)));
        }
        while i < n
            invariant
                i <= n,
                n == self.attrs.len(),
                out@ == base + ser_attrs(self.attrs@.subrange(0, i as int)),
            decreases n - i,
        {
            let a = &self.attrs[i];
            out.append(" ");
            out.append(attr_name_text(a.name));
            out.append("=\"");
            out.append(a.value.as_str());
            out.append("\"");
            proof {
                lemma_ser_attrs_step(self.attrs@, i as int);
                assert(out@ =~= base + ser_attrs(self.attrs@.subrange(0, i + 1)));
            }
            i += 1;
        }
        proof {
            assert(self.attrs@.subrange(0, n as int) =~= self.attrs@);
        }
        out.append(">");
        out.append(self.text.as_str());
        let ghost base2: Seq<char> = out@;
        let m: usize = self.children.len();
        let mut j: usize = 0;
        proof {
            assert(out@ == base2 + ser_children(self.children@.subrange(0, 0)));
        }
        while j < m
            invariant
                j <= m,
                m == self.children.len(),
                out@ == base2 + ser_children(self.children@.subrange(0, j as int)),
            decreases m - j,
        {
            proof {
                assert(decreases_to!(*self => self.children@[j as int]));
            }
            self.children[j].serialize_into(out);
            proof {
                lemma_ser_children_step(self.children@, j as int);
                assert(out@ =~= base2 + ser_children(self.children@.subrange(0, j + 1)));
            }
            j += 1;
        }
        proof {
            assert(self.children@.subrange(0, m as int) =~= self.children@);
        }
        out.append("</");
        out.append(tag_name(self.tag));
        out.append(">");
        proof {
            assert(out@ =~= old(out)@ + ser_elem(*self));
        }
    }

    /// This element's rendering as a string.
    pub fn to_xml(&self) -> (s: String)
        ensures
            s@ == ser_elem(*self),
    {
        let mut out = String::new();
        self.serialize_into(&mut out);
        out
    }
}

impl Document {
    /// The deterministic text rendering of the whole tree.
    pub fn serialize(&self) -> (s: String)
        ensures
            s@ == ser_elem(self.root),
    {
        self.root.to_xml()
    }
}

} // verus!
