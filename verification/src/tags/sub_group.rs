//! Sub-groups: vertical columns of text and image elements, collected under
//! the binding's single, lazily created `group` element.

use vstd::prelude::*;
use crate::dom::Element;
use crate::dom::Tag;
use crate::error::reserved_id_error;
use crate::error::Error;
use crate::error::XmlErr;
use crate::lookup::count_tag;
use crate::lookup::find_unique_child;
use crate::lookup::first_tag_index;
use crate::tags::image::image_element_rep;
use crate::tags::image::Image;
use crate::tags::text::text_element_rep;
use crate::tags::text::Text;
use crate::toast::binding_appended;
use crate::toast::lemma_wf_after_binding_push;
use crate::toast::root_updated;
use crate::toast::Toast;
use crate::utils::into_raw::ToXML;

verus! {

/// One member of a sub-group column.
#[derive(Debug, Clone)]
pub enum Child {
    Text(Text),
    Image(Image),
}

/// Whether a member converts: a text member must not carry the reserved id.
pub open spec fn child_valid(c: Child) -> bool {
    match c {
        Child::Text(t) => t.id != Some(0i32),
        Child::Image(_) => true,
    }
}

/// The element a member converts to.
pub open spec fn child_element_rep(el: Element, c: Child) -> bool {
    match c {
        Child::Text(t) => text_element_rep(el, t),
        Child::Image(im) => image_element_rep(el, im),
    }
}

/// A `subgroup` element holding the members' elements in the order given.
pub open spec fn subgroup_rep(el: Element, cs: Seq<Child>) -> bool {
    &&& el.tag == Tag::Subgroup
    &&& el.attrs@.len() == 0
    &&& el.text@.len() == 0
    &&& el.children@.len() == cs.len()
    &&& forall|k: int| 0 <= k < cs.len() ==> child_element_rep(#[trigger] el.children@[k], cs[k])
}

/// A fresh `group` element holding exactly one subgroup.
pub open spec fn group_with_one(el: Element, cs: Seq<Child>) -> bool {
    &&& el.tag == Tag::Group
    &&& el.attrs@.len() == 0
    &&& el.text@.len() == 0
    &&& el.children@.len() == 1
    &&& subgroup_rep(el.children@[0], cs)
}

/// Both toasts agree except that one subgroup was appended to the existing
/// `group` element's children.
pub open spec fn group_extended(pre: Toast, post: Toast) -> bool {
    let gi = first_tag_index(pre.binding_elem().children@, Tag::Group);
    let g0 = pre.binding_elem().children@[gi];
    let g1 = post.binding_elem().children@[gi];
    &&& root_updated(pre, post, 0)
    &&& post.visual_elem().tag == pre.visual_elem().tag
    &&& post.visual_elem().attrs == pre.visual_elem().attrs
    &&& post.visual_elem().text == pre.visual_elem().text
    &&& post.visual_elem().children@ == pre.visual_elem().children@.update(
        0,
        post.binding_elem(),
    )
    &&& post.binding_elem().tag == pre.binding_elem().tag
    &&& post.binding_elem().attrs == pre.binding_elem().attrs
    &&& post.binding_elem().text == pre.binding_elem().text
    &&& post.binding_elem().children@ == pre.binding_elem().children@.update(gi, g1)
    &&& g1.tag == g0.tag
    &&& g1.attrs == g0.attrs
    &&& g1.text == g0.text
    &&& g1.children@ == g0.children@.push(g1.children@.last())
}

/// The subgroup that `group_extended` appended.
pub open spec fn appended_subgroup(pre: Toast, post: Toast) -> Element {
    let gi = first_tag_index(pre.binding_elem().children@, Tag::Group);
    post.binding_elem().children@[gi].children@.last()
}

impl Toast {
    /// Appends a child to the existing `group` element at the given
    /// position of the binding's child list.
    pub(crate) fn push_group_child(&mut self, gi: usize, el: Element)
        requires
            old(self).wf(),
            gi as int == first_tag_index(old(self).binding_elem().children@, Tag::Group),
            (gi as int) < old(self).binding_elem().children@.len(),
            old(self).binding_elem().children@[gi as int].tag == Tag::Group,
        ensures
            group_extended(*old(self), *final(self)),
            appended_subgroup(*old(self), *final(self)) == el,
    {
        let visual = &mut self.doc.root.children[0];
        let binding = &mut visual.children[0];
        let g = &mut binding.children[gi];
        g.children.push(el);
    }

    /// Creates one `subgroup` element holding the given members' elements
    /// in order, and appends it to the binding's single `group` element —
    /// created now if this is the first sub-group, reused afterwards. A
    /// text member carrying the reserved id `0` is rejected before any
    /// mutation.
    pub fn add_sub_group(&mut self, children: Vec<Child>) -> (r: Result<(), Error>)
        requires
            old(self).wf(),
        ensures
            final(self).wf(),
            r is Ok <==> (forall|k: int| 0 <= k < children@.len() ==> child_valid(children@[k])),
            r matches Err(e) ==> crate::error::is_reserved_id_error(e) && *final(self) == *old(
                self,
            ),
            r is Ok && count_tag(old(self).binding_elem().children@, Tag::Group) == 0 ==> (
            binding_appended(
                *old(self),
                *final(self),
                final(self).binding_elem().children@.last(),
            ) && group_with_one(final(self).binding_elem().children@.last(), children@)),
            r is Ok && count_tag(old(self).binding_elem().children@, Tag::Group) == 1 ==> (
            group_extended(*old(self), *final(self)) && subgroup_rep(
                appended_subgroup(*old(self), *final(self)),
                children@,
            )),
    {
        let n: usize = children.len();
        let mut v: usize = 0;
        while v < n
            invariant
                v <= n,
                n == children@.len(),
                *self == *old(self),
                old(self).wf(),
                forall|k: int| 0 <= k < v ==> child_valid(children@[k]),
            decreases n - v,
        {
            match &children[v] {
                Child::Text(t) => {
                    if let Some(i) = t.id {
                        if i == 0 {
                            return Err(reserved_id_error());
                        }
                    }
                },
                Child::Image(_) => {},
            }
            v += 1;
        }
        let ghost cs0 = children@;
        let mut rest = children;
        let mut elems: Vec<Element> = Vec::new();
        while rest.len() > 0
            invariant
                cs0.len() == elems@.len() + rest@.len(),
                rest@ == cs0.skip(elems@.len() as int),
                forall|k: int| 0 <= k < cs0.len() ==> child_valid(cs0[k]),
                forall|k: int|
                    0 <= k < elems@.len() ==> child_element_rep(#[trigger] elems@[k], cs0[k]),
            decreases rest.len(),
        {
            let ghost built = elems@.len() as int;
            proof {
                assert(rest@[0] == cs0[built]);
            }
            let c = rest.remove(0);
            let el = match c {
                Child::Text(t) => match t.into_element() {
                    Ok(e) => e,
                    Err(e) => {
                        return Err(e);
                    },
                },
                Child::Image(im) => match im.into_element() {
                    Ok(e) => e,
                    Err(e) => {
                        return Err(e);
                    },
                },
            };
            elems.push(el);
            proof {
                assert(rest@ =~= cs0.skip(built + 1));
            }
        }
        let sub_group = Element {
            tag: Tag::Subgroup,
            attrs: Vec::new(),
            text: String::new(),
            children: elems,
        };
        let ghost sgg = sub_group;
        let found = find_unique_child(&self.doc.root.children[0].children[0], Tag::Group);
        match found {
            Ok(gi) => {
                let ghost pre = *self;
                self.push_group_child(gi, sub_group);
                proof {
                    lemma_wf_after_group_extend(pre, *self);
                }
                Ok(())
            },
            Err(XmlErr::NotFound) => {
                let mut group_children: Vec<Element> = Vec::new();
                group_children.push(sub_group);
                let group = Element {
                    tag: Tag::Group,
                    attrs: Vec::new(),
                    text: String::new(),
                    children: group_children,
                };
                let ghost gg = group;
                let ghost pre = *self;
                self.push_binding_child(group);
                proof {
                    lemma_wf_after_binding_push(pre, *self, gg);
                }
                Ok(())
            },
            Err(_) => {
                proof {
                    assert(false);
                }
                Err(Error::XmlErr(XmlErr::Ambiguous))
            },
        }
    }
}

/// Appending a subgroup to the existing group preserves the structural
/// invariant: no tag changes and the group count stays one.
proof fn lemma_wf_after_group_extend(pre: Toast, post: Toast)
    requires
        pre.wf(),
        count_tag(pre.binding_elem().children@, Tag::Group) == 1,
        group_extended(pre, post),
    ensures
        post.wf(),
{
    let xs = pre.binding_elem().children@;
    let ys = post.binding_elem().children@;
    crate::lookup::lemma_tag_search(xs, Tag::Group);
    assert(ys.len() == xs.len());
    assert(forall|i: int| 0 <= i < xs.len() ==> (#[trigger] ys[i]).tag == xs[i].tag);
    crate::toast::lemma_count_tag_congruent(xs, ys, Tag::Group);
}

} // verus!
