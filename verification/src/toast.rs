//! The toast document controller.
//!
//! A [`Toast`] owns one document seeded with the fixed skeleton
//! `toast > visual > binding(template="ToastGeneric") > text(id=0)` plus an
//! empty `actions` root, and an application-identity string. Tag operations
//! mutate the document in place under the structural invariants: the reserved
//! title id, the singleton `visual`/`binding`/`actions` nodes, and the lazily
//! created, at-most-one `group` container.

use vstd::prelude::*;
use crate::decimal::dec_str;
use crate::decimal::i32_to_string;
use crate::dom::attr_upsert;
use crate::dom::AttrName;
use crate::dom::Document;
use crate::dom::Element;
use crate::dom::Tag;
use crate::error::is_reserved_id_error;
use crate::error::reserved_id_error;
use crate::error::Error;
use crate::error::XmlErr;
use crate::lookup::count_id;
use crate::lookup::count_id_capped;
use crate::lookup::count_tag;
use crate::lookup::set_text_first;
use crate::lookup::text_set_rel;
use crate::lookup::text_set_seq_rel;
use crate::xml::ser_elem;

verus! {

/// A placeholder application identity for callers without a registered
/// AppUserModelID; notifications sent under it misreport their origin.
pub const POWERSHELL_APP_ID: &'static str =
    "{1AC14E77-02E7-4E5D-B744-2EB1AE5198B7}\\WindowsPowerShell\\v1.0\\powershell.exe";

/// The toast document controller: one document, one identity string, and the
/// rule that audio may be added at most once.
#[derive(Debug)]
pub struct Toast {
    pub doc: Document,
    pub has_audio: bool,
    pub app_id: String,
}

/// The structural invariant of a toast document tree.
pub open spec fn wf_root(r: Element) -> bool {
    let visual = r.children@[0];
    let binding = visual.children@[0];
    &&& r.tag == Tag::Toast
    &&& r.children@.len() >= 2
    &&& visual.tag == Tag::Visual
    &&& r.children@[1].tag == Tag::Actions
    &&& forall|i: int|
        2 <= i < r.children@.len() ==> ((#[trigger] r.children@[i].tag) == Tag::Audio
            || r.children@[i].tag == Tag::Header || r.children@[i].tag == Tag::Commands)
    &&& visual.children@.len() == 1
    &&& binding.tag == Tag::Binding
    &&& binding.children@.len() >= 1
    &&& binding.children@[0].tag == Tag::Text
    &&& forall|i: int|
        1 <= i < binding.children@.len() ==> ((#[trigger] binding.children@[i].tag) == Tag::Text
            || binding.children@[i].tag == Tag::Image || binding.children@[i].tag == Tag::Progress
            || binding.children@[i].tag == Tag::Group)
    &&& count_tag(binding.children@, Tag::Group) <= 1
}

impl Toast {
    /// The structural invariant every operation preserves.
    pub open spec fn wf(self) -> bool {
        wf_root(self.doc.root)
    }

    /// The `visual` element.
    pub open spec fn visual_elem(self) -> Element {
        self.doc.root.children@[0]
    }

    /// The `binding` element.
    pub open spec fn binding_elem(self) -> Element {
        self.doc.root.children@[0].children@[0]
    }

    /// The `actions` element.
    pub open spec fn actions_elem(self) -> Element {
        self.doc.root.children@[1]
    }

    /// The reserved title element, `text` with id `0`.
    pub open spec fn title_elem(self) -> Element {
        self.binding_elem().children@[0]
    }
}

/// Both toasts agree outside the root's child list, whose only change is the
/// update of one position.
pub open spec fn root_updated(pre: Toast, post: Toast, i: int) -> bool {
    &&& post.doc.root.tag == pre.doc.root.tag
    &&& post.doc.root.attrs == pre.doc.root.attrs
    &&& post.doc.root.text == pre.doc.root.text
    &&& post.doc.root.children@ == pre.doc.root.children@.update(i, post.doc.root.children@[i])
    &&& post.has_audio == pre.has_audio
    &&& post.app_id == pre.app_id
}

/// Both toasts agree except that one element was appended to the binding's
/// child list.
pub open spec fn binding_appended(pre: Toast, post: Toast, el: Element) -> bool {
    &&& root_updated(pre, post, 0)
    &&& post.visual_elem().tag == pre.visual_elem().tag
    &&& post.visual_elem().attrs == pre.visual_elem().attrs
    &&& post.visual_elem().text == pre.visual_elem().text
    &&& post.visual_elem().children@ == pre.visual_elem().children@.update(
        0,
        post.binding_elem(),
    )
    &&& post.binding_elem().tag == pre.binding_elem().tag
    &&& post.binding_elem().attrs == pre.binding_elem().attrs
    &&& post.binding_elem().text == pre.binding_elem().text
    &&& post.binding_elem().children@ == pre.binding_elem().children@.push(el)
}

/// Both toasts agree except that one element was appended to the `actions`
/// child list.
pub open spec fn actions_appended(pre: Toast, post: Toast, el: Element) -> bool {
    &&& root_updated(pre, post, 1)
    &&& post.actions_elem().tag == pre.actions_elem().tag
    &&& post.actions_elem().attrs == pre.actions_elem().attrs
    &&& post.actions_elem().text == pre.actions_elem().text
    &&& post.actions_elem().children@ == pre.actions_elem().children@.push(el)
}

/// Both toasts agree except that one element was appended to the root's
/// child list.
pub open spec fn root_appended(pre: Toast, post: Toast, el: Element) -> bool {
    &&& post.doc.root.tag == pre.doc.root.tag
    &&& post.doc.root.attrs == pre.doc.root.attrs
    &&& post.doc.root.text == pre.doc.root.text
    &&& post.doc.root.children@ == pre.doc.root.children@.push(el)
    &&& post.has_audio == pre.has_audio
    &&& post.app_id == pre.app_id
}

/// Both toasts agree except that one attribute of the root element was
/// upserted to the given value.
pub open spec fn root_attr_set(pre: Toast, post: Toast, name: AttrName, v: Seq<char>) -> bool {
    &&& post.doc.root.tag == pre.doc.root.tag
    &&& post.doc.root.text == pre.doc.root.text
    &&& post.doc.root.children@ == pre.doc.root.children@
    &&& exists|s: String|
        s@ == v && post.doc.root.attrs@ == attr_upsert(pre.doc.root.attrs@, name, s)
    &&& post.has_audio == pre.has_audio
    &&& post.app_id == pre.app_id
}

/// Both toasts agree except that one attribute of the `visual` element was
/// upserted to the given value.
pub open spec fn visual_attr_set(pre: Toast, post: Toast, name: AttrName, v: Seq<char>) -> bool {
    &&& root_updated(pre, post, 0)
    &&& post.visual_elem().tag == pre.visual_elem().tag
    &&& post.visual_elem().text == pre.visual_elem().text
    &&& post.visual_elem().children@ == pre.visual_elem().children@
    &&& exists|s: String|
        s@ == v && post.visual_elem().attrs@ == attr_upsert(pre.visual_elem().attrs@, name, s)
}

/// Both toasts agree except that one attribute of the `binding` element was
/// upserted to the given value.
pub open spec fn binding_attr_set(pre: Toast, post: Toast, name: AttrName, v: Seq<char>) -> bool {
    &&& root_updated(pre, post, 0)
    &&& post.visual_elem().tag == pre.visual_elem().tag
    &&& post.visual_elem().attrs == pre.visual_elem().attrs
    &&& post.visual_elem().text == pre.visual_elem().text
    &&& post.visual_elem().children@ == pre.visual_elem().children@.update(
        0,
        post.binding_elem(),
    )
    &&& post.binding_elem().tag == pre.binding_elem().tag
    &&& post.binding_elem().text == pre.binding_elem().text
    &&& post.binding_elem().children@ == pre.binding_elem().children@
    &&& exists|s: String|
        s@ == v && post.binding_elem().attrs@ == attr_upsert(pre.binding_elem().attrs@, name, s)
}

/// Both toasts agree except that the reserved title element's inner text was
/// replaced by the given content.
pub open spec fn title_set(pre: Toast, post: Toast, v: Seq<char>) -> bool {
    &&& root_updated(pre, post, 0)
    &&& post.visual_elem().tag == pre.visual_elem().tag
    &&& post.visual_elem().attrs == pre.visual_elem().attrs
    &&& post.visual_elem().text == pre.visual_elem().text
    &&& post.visual_elem().children@ == pre.visual_elem().children@.update(
        0,
        post.binding_elem(),
    )
    &&& post.binding_elem().tag == pre.binding_elem().tag
    &&& post.binding_elem().attrs == pre.binding_elem().attrs
    &&& post.binding_elem().text == pre.binding_elem().text
    &&& post.binding_elem().children@ == pre.binding_elem().children@.update(
        0,
        post.title_elem(),
    )
    &&& post.title_elem().tag == pre.title_elem().tag
    &&& post.title_elem().attrs == pre.title_elem().attrs
    &&& post.title_elem().children@ == pre.title_elem().children@
    &&& post.title_elem().text@ == v
}

/// Both toasts agree except that the inner text of the first element (in
/// document order) carrying the id was replaced.
pub open spec fn text_set_doc(pre: Toast, post: Toast, id: Seq<char>, t: Seq<char>) -> bool {
    &&& text_set_rel(pre.doc.root, post.doc.root, id, t)
    &&& post.has_audio == pre.has_audio
    &&& post.app_id == pre.app_id
}

/// A plain `text` element as the upsert's append branch creates it: content,
/// one id attribute, and for the bottom-text variant `placement="attribution"`.
pub open spec fn plain_text_rep(el: Element, content: Seq<char>, id: Seq<char>, bottom: bool) -> bool {
    &&& el.tag == Tag::Text
    &&& el.text@ == content
    &&& el.children@.len() == 0
    &&& el.attrs@.len() == (if bottom {
        2int
    } else {
        1int
    })
    &&& el.attrs@[0].name == AttrName::Id
    &&& el.attrs@[0].value@ == id
    &&& bottom ==> el.attrs@[1].name == AttrName::Placement && el.attrs@[1].value@
        == "attribution"@
}

impl Toast {
    /// Creates a toast with the minimal fixed skeleton: a root, its `visual`
    /// holding the one `binding` with the reserved title text, an empty
    /// `actions` root, and the placeholder application identity.
    pub fn new() -> (r: Result<Toast, Error>)
        ensures
            r matches Ok(t) && t.wf() && t.is_fresh(),
    {
        let mut title = Element::new(Tag::Text);
        title.set_attribute(AttrName::Id, String::from_str("0"));
        let mut binding = Element::new(Tag::Binding);
        binding.set_attribute(AttrName::Template, String::from_str("ToastGeneric"));
        binding.append_child(title);
        let mut visual = Element::new(Tag::Visual);
        visual.set_attribute(AttrName::Id, String::from_str("visual"));
        visual.append_child(binding);
        let actions = Element::new(Tag::Actions);
        let mut root = Element::new(Tag::Toast);
        root.append_child(visual);
        root.append_child(actions);
        let t = Toast {
            doc: Document { root },
            has_audio: false,
            app_id: String::from_str(POWERSHELL_APP_ID),
        };
        proof {
            assert(count_tag(t.binding_elem().children@, Tag::Group) <= 1) by {
                crate::lookup::lemma_tag_search(t.binding_elem().children@, Tag::Group);
            }
        }
        Ok(t)
    }

    /// The freshly constructed state: the skeleton and nothing else.
    pub open spec fn is_fresh(self) -> bool {
        &&& self.doc.root.tag == Tag::Toast
        &&& self.doc.root.attrs@.len() == 0
        &&& self.doc.root.text@.len() == 0
        &&& self.doc.root.children@.len() == 2
        &&& self.visual_elem().tag == Tag::Visual
        &&& self.visual_elem().attrs@.len() == 1
        &&& self.visual_elem().attrs@[0].name == AttrName::Id
        &&& self.visual_elem().attrs@[0].value@ == "visual"@
        &&& self.visual_elem().text@.len() == 0
        &&& self.visual_elem().children@.len() == 1
        &&& self.binding_elem().tag == Tag::Binding
        &&& self.binding_elem().attrs@.len() == 1
        &&& self.binding_elem().attrs@[0].name == AttrName::Template
        &&& self.binding_elem().attrs@[0].value@ == "ToastGeneric"@
        &&& self.binding_elem().text@.len() == 0
        &&& self.binding_elem().children@.len() == 1
        &&& self.title_elem().tag == Tag::Text
        &&& self.title_elem().attrs@.len() == 1
        &&& self.title_elem().attrs@[0].name == AttrName::Id
        &&& self.title_elem().attrs@[0].value@ == "0"@
        &&& self.title_elem().text@.len() == 0
        &&& self.title_elem().children@.len() == 0
        &&& self.actions_elem().tag == Tag::Actions
        &&& self.actions_elem().attrs@.len() == 0
        &&& self.actions_elem().text@.len() == 0
        &&& self.actions_elem().children@.len() == 0
        &&& self.has_audio == false
        &&& self.app_id@ == POWERSHELL_APP_ID@
    }

    /// Appends a child to the binding element.
    pub(crate) fn push_binding_child(&mut self, el: Element)
        requires
            old(self).wf(),
        ensures
            binding_appended(*old(self), *final(self), el),
    {
        let visual = &mut self.doc.root.children[0];
        let binding = &mut visual.children[0];
        binding.children.push(el);
    }

    /// Appends a child to the `actions` element.
    pub(crate) fn push_actions_child(&mut self, el: Element)
        requires
            old(self).wf(),
        ensures
            actions_appended(*old(self), *final(self), el),
    {
        let actions = &mut self.doc.root.children[1];
        actions.children.push(el);
    }

    /// Appends a child to the root element.
    pub(crate) fn push_root_child(&mut self, el: Element)
        requires
            old(self).wf(),
        ensures
            root_appended(*old(self), *final(self), el),
    {
        self.doc.root.children.push(el);
    }

    /// Upserts an attribute of the root element.
    pub(crate) fn set_root_attr(&mut self, name: AttrName, value: String)
        ensures
            root_attr_set(*old(self), *final(self), name, value@),
    {
        self.doc.root.set_attribute(name, value);
    }

    /// Upserts an attribute of the `visual` element.
    pub(crate) fn set_visual_attr(&mut self, name: AttrName, value: String)
        requires
            old(self).wf(),
        ensures
            visual_attr_set(*old(self), *final(self), name, value@),
    {
        let visual = &mut self.doc.root.children[0];
        visual.set_attribute(name, value);
    }

    /// Upserts an attribute of the `binding` element.
    pub(crate) fn set_binding_attr(&mut self, name: AttrName, value: String)
        requires
            old(self).wf(),
        ensures
            binding_attr_set(*old(self), *final(self), name, value@),
    {
        let visual = &mut self.doc.root.children[0];
        let binding = &mut visual.children[0];
        binding.set_attribute(name, value);
    }

    /// Overwrites the inner text of the reserved title element.
    pub fn title(&mut self, title: &str) -> (r: Result<(), Error>)
        requires
            old(self).wf(),
        ensures
            r is Ok,
            final(self).wf(),
            title_set(*old(self), *final(self), title@),
    {
        let visual = &mut self.doc.root.children[0];
        let binding = &mut visual.children[0];
        let t = &mut binding.children[0];
        t.text = String::from_str(title);
        proof {
            lemma_count_tag_congruent(
                old(self).binding_elem().children@,
                self.binding_elem().children@,
                Tag::Group,
            );
        }
        Ok(())
    }

    /// Overwrites the stored application identity used at submission.
    pub fn app_id(&mut self, app_id: &str) -> (r: Result<(), Error>)
        ensures
            r is Ok,
            final(self).doc == old(self).doc,
            final(self).has_audio == old(self).has_audio,
            final(self).app_id@ == app_id@,
    {
        self.app_id = String::from_str(app_id);
        Ok(())
    }

    /// The document rendered as markup.
    pub fn into_raw(&self) -> (r: Result<String, Error>)
        ensures
            r matches Ok(s) && s@ == ser_elem(self.doc.root),
    {
        Ok(self.doc.root.to_xml())
    }

    /// Sets the text of the element carrying the given id, appending a new
    /// `text` element under the binding when the id is not present. Id `0`
    /// is reserved for the title and rejected; an id carried by several
    /// elements is ambiguous and rejected.
    pub fn text(&mut self, text: &str, id: i32) -> (r: Result<(), Error>)
        requires
            old(self).wf(),
        ensures
            final(self).wf(),
            id == 0 ==> (r matches Err(e) && is_reserved_id_error(e) && *final(self) == *old(
                self,
            )),
            id != 0 && count_id(old(self).doc.root, dec_str(id as int)) == 0 ==> r is Ok
                && binding_appended(
                *old(self),
                *final(self),
                final(self).binding_elem().children@.last(),
            ) && plain_text_rep(
                final(self).binding_elem().children@.last(),
                text@,
                dec_str(id as int),
                false,
            ),
            id != 0 && count_id(old(self).doc.root, dec_str(id as int)) == 1 ==> r is Ok
                && text_set_doc(*old(self), *final(self), dec_str(id as int), text@),
            id != 0 && count_id(old(self).doc.root, dec_str(id as int)) >= 2 ==> (r matches Err(
                e,
            ) && e == Error::XmlErr(XmlErr::Ambiguous) && *final(self) == *old(self)),
    {
        self.text_inner(text, id, false)
    }

    /// Like [`Toast::text`], but a newly created element is marked
    /// `placement="attribution"` so it renders at the bottom of the toast.
    pub fn bottom_text(&mut self, text: &str, id: i32) -> (r: Result<(), Error>)
        requires
            old(self).wf(),
        ensures
            final(self).wf(),
            id == 0 ==> (r matches Err(e) && is_reserved_id_error(e) && *final(self) == *old(
                self,
            )),
            id != 0 && count_id(old(self).doc.root, dec_str(id as int)) == 0 ==> r is Ok
                && binding_appended(
                *old(self),
                *final(self),
                final(self).binding_elem().children@.last(),
            ) && plain_text_rep(
                final(self).binding_elem().children@.last(),
                text@,
                dec_str(id as int),
                true,
            ),
            id != 0 && count_id(old(self).doc.root, dec_str(id as int)) == 1 ==> r is Ok
                && text_set_doc(*old(self), *final(self), dec_str(id as int), text@),
            id != 0 && count_id(old(self).doc.root, dec_str(id as int)) >= 2 ==> (r matches Err(
                e,
            ) && e == Error::XmlErr(XmlErr::Ambiguous) && *final(self) == *old(self)),
    {
        self.text_inner(text, id, true)
    }

    /// The shared body of [`Toast::text`] and [`Toast::bottom_text`].
    fn text_inner(&mut self, text: &str, id: i32, bottom: bool) -> (r: Result<(), Error>)
        requires
            old(self).wf(),
        ensures
            final(self).wf(),
            id == 0 ==> (r matches Err(e) && is_reserved_id_error(e) && *final(self) == *old(
                self,
            )),
            id != 0 && count_id(old(self).doc.root, dec_str(id as int)) == 0 ==> r is Ok
                && binding_appended(
                *old(self),
                *final(self),
                final(self).binding_elem().children@.last(),
            ) && plain_text_rep(
                final(self).binding_elem().children@.last(),
                text@,
                dec_str(id as int),
                bottom,
            ),
            id != 0 && count_id(old(self).doc.root, dec_str(id as int)) == 1 ==> r is Ok
                && text_set_doc(*old(self), *final(self), dec_str(id as int), text@),
            id != 0 && count_id(old(self).doc.root, dec_str(id as int)) >= 2 ==> (r matches Err(
                e,
            ) && e == Error::XmlErr(XmlErr::Ambiguous) && *final(self) == *old(self)),
    {
        if id == 0 {
            return Err(reserved_id_error());
        }
        let ids = i32_to_string(id);
        let c = count_id_capped(&self.doc.root, &ids);
        if c == 0 {
            let mut el = Element::new(Tag::Text);
            el.set_inner_text(String::from_str(text));
            el.set_attribute(AttrName::Id, ids);
            if bottom {
                proof {
                    crate::dom::lemma_attr_search(el.attrs@, AttrName::Placement);
                }
                el.set_attribute(AttrName::Placement, String::from_str("attribution"));
            }
            let ghost elg = el;
            let ghost pre = *self;
            self.push_binding_child(el);
            proof {
                lemma_wf_after_binding_push(pre, *self, elg);
                assert(self.binding_elem().children@.last() == elg);
            }
            Ok(())
        } else if c == 1 {
            let txt = String::from_str(text);
            set_text_first(&mut self.doc.root, &ids, &txt);
            proof {
                lemma_text_set_preserves_wf(old(self).doc.root, self.doc.root, ids@, txt@);
            }
            Ok(())
        } else {
            Err(Error::XmlErr(XmlErr::Ambiguous))
        }
    }
}

/// Pushing a non-`group` visual child, or a first `group`, preserves the
/// structural invariant.
pub proof fn lemma_wf_after_binding_push(pre: Toast, post: Toast, el: Element)
    requires
        pre.wf(),
        binding_appended(pre, post, el),
        el.tag == Tag::Text || el.tag == Tag::Image || el.tag == Tag::Progress || (el.tag
            == Tag::Group && count_tag(pre.binding_elem().children@, Tag::Group) == 0),
    ensures
        post.wf(),
{
    crate::lookup::lemma_count_tag_snoc(pre.binding_elem().children@, el, Tag::Group);
}

/// Pushing an `audio`, `header` or `commands` element onto the root
/// preserves the structural invariant.
pub proof fn lemma_wf_after_root_push(pre: Toast, post: Toast, el: Element)
    requires
        pre.wf(),
        root_appended(pre, post, el),
        el.tag == Tag::Audio || el.tag == Tag::Header || el.tag == Tag::Commands,
    ensures
        post.wf(),
{
}

/// Pushing any element onto `actions` preserves the structural invariant.
pub proof fn lemma_wf_after_actions_push(pre: Toast, post: Toast, el: Element)
    requires
        pre.wf(),
        actions_appended(pre, post, el),
    ensures
        post.wf(),
{
}

/// The upsert relation changes positions one at a time.
proof fn lemma_text_set_seq_pointwise(xs: Seq<Element>, ys: Seq<Element>, id: Seq<char>, t: Seq<char>)
    requires
        text_set_seq_rel(xs, ys, id, t),
    ensures
        ys.len() == xs.len(),
        forall|i: int|
            0 <= i < xs.len() ==> ((#[trigger] ys[i]) == xs[i] || text_set_rel(
                xs[i],
                ys[i],
                id,
                t,
            )),
    decreases xs.len(),
{
    if xs.len() > 0 {
        if count_id(xs[0], id) >= 1 {
            assert(forall|i: int| 1 <= i < xs.len() ==> ys[i] == ys.drop_first()[i - 1]);
            assert(forall|i: int| 1 <= i < xs.len() ==> xs[i] == xs.drop_first()[i - 1]);
        } else {
            lemma_text_set_seq_pointwise(xs.drop_first(), ys.drop_first(), id, t);
            assert(forall|i: int| 1 <= i < xs.len() ==> ys[i] == ys.drop_first()[i - 1]);
            assert(forall|i: int| 1 <= i < xs.len() ==> xs[i] == xs.drop_first()[i - 1]);
        }
    }
}

/// The upsert relation keeps every element's tag.
proof fn lemma_text_set_keeps_tags(xs: Seq<Element>, ys: Seq<Element>, id: Seq<char>, t: Seq<char>)
    requires
        text_set_seq_rel(xs, ys, id, t),
    ensures
        ys.len() == xs.len(),
        forall|i: int| 0 <= i < xs.len() ==> (#[trigger] ys[i]).tag == xs[i].tag,
{
    lemma_text_set_seq_pointwise(xs, ys, id, t);
}

/// Counting a tag depends only on the elements' tags.
pub(crate) proof fn lemma_count_tag_congruent(xs: Seq<Element>, ys: Seq<Element>, t: Tag)
    requires
        ys.len() == xs.len(),
        forall|i: int| 0 <= i < xs.len() ==> (#[trigger] ys[i]).tag == xs[i].tag,
    ensures
        count_tag(ys, t) == count_tag(xs, t),
    decreases xs.len(),
{
    if xs.len() > 0 {
        assert(forall|i: int| 0 <= i < xs.len() - 1 ==> xs.drop_first()[i] == xs[i + 1]);
        assert(forall|i: int| 0 <= i < ys.len() - 1 ==> ys.drop_first()[i] == ys[i + 1]);
        lemma_count_tag_congruent(xs.drop_first(), ys.drop_first(), t);
    }
}

/// The element the upsert relation picks keeps its tag, attributes and
/// child-list length; only text content changes anywhere in the tree.
proof fn lemma_text_set_shell(a: Element, b: Element, id: Seq<char>, t: Seq<char>)
    requires
        text_set_rel(a, b, id, t),
    ensures
        b.tag == a.tag,
        b.attrs == a.attrs,
        b.children@.len() == a.children@.len(),
        forall|i: int|
            0 <= i < a.children@.len() ==> ((#[trigger] b.children@[i]) == a.children@[i]
                || text_set_rel(a.children@[i], b.children@[i], id, t)),
{
    if crate::lookup::has_id(a, id) {
    } else {
        lemma_text_set_seq_pointwise(a.children@, b.children@, id, t);
    }
}

/// The upsert keeps the whole structural invariant: it changes inner text
/// only, never a tag, an attribute, or a child list's shape.
pub proof fn lemma_text_set_preserves_wf(a: Element, b: Element, id: Seq<char>, t: Seq<char>)
    requires
        wf_root(a),
        text_set_rel(a, b, id, t),
    ensures
        wf_root(b),
{
    lemma_text_set_shell(a, b, id, t);
    let av = a.children@[0];
    let bv = b.children@[0];
    if bv == av {
        assert(wf_root(b));
    } else {
        lemma_text_set_shell(av, bv, id, t);
        let ab = av.children@[0];
        let bb = bv.children@[0];
        if bb == ab {
        } else {
            lemma_text_set_shell(ab, bb, id, t);
            assert forall|i: int|
                0 <= i < ab.children@.len() implies (#[trigger] bb.children@[i]).tag
                == ab.children@[i].tag by {
                if bb.children@[i] == ab.children@[i] {
                } else {
                    lemma_text_set_shell(ab.children@[i], bb.children@[i], id, t);
                }
            }
            lemma_count_tag_congruent(ab.children@, bb.children@, Tag::Group);
        }
    }
}

} // verus!
