//! Cross-operation guarantees of the toast controller, stated and proved
//! over the contracts of the operations they relate.

use vstd::prelude::*;
use crate::dom::attr_lookup;
use crate::dom::lemma_attr_search;
use crate::dom::AttrName;
use crate::dom::Element;
use crate::dom::Tag;
use crate::tags::image::crop_str;
use crate::tags::image::image_element_rep;
use crate::tags::image::Crop;
use crate::tags::image::Image;
use crate::tags::progress::progress_element_rep;
use crate::tags::progress::value_str;
use crate::tags::progress::Progress;
use crate::tags::progress::Value;
use crate::lookup::count_id;
use crate::lookup::count_id_seq;
use crate::lookup::count_tag;
use crate::lookup::first_tag_index;
use crate::lookup::has_id;
use crate::lookup::lemma_count_id_seq_at;
use crate::lookup::lemma_count_id_seq_snoc;
use crate::lookup::lemma_count_tag_snoc;
use crate::lookup::lemma_tag_search;
use crate::lookup::text_set_rel;
use crate::lookup::text_set_seq_rel;
use crate::tags::sub_group::appended_subgroup;
use crate::tags::sub_group::group_extended;
use crate::tags::sub_group::group_with_one;
use crate::tags::sub_group::subgroup_rep;
use crate::tags::sub_group::Child;
use crate::toast::binding_appended;
use crate::toast::plain_text_rep;
use crate::toast::text_set_doc;
use crate::toast::Toast;

verus! {

/// Replacing inner text changes no count of id matches, for any id.
proof fn lemma_text_set_count(a: Element, b: Element, id: Seq<char>, t: Seq<char>, id2: Seq<char>)
    requires
        text_set_rel(a, b, id, t),
    ensures
        count_id(b, id2) == count_id(a, id2),
    decreases a,
{
    if has_id(a, id) {
        assert(b.attrs == a.attrs);
        assert(b.children@ == a.children@);
    } else {
        lemma_text_set_count_seq(a.children@, b.children@, id, t, id2);
    }
}

/// Replacing inner text changes no count of id matches across a forest.
proof fn lemma_text_set_count_seq(
    xs: Seq<Element>,
    ys: Seq<Element>,
    id: Seq<char>,
    t: Seq<char>,
    id2: Seq<char>,
)
    requires
        text_set_seq_rel(xs, ys, id, t),
    ensures
        count_id_seq(ys, id2) == count_id_seq(xs, id2),
    decreases xs,
{
    if xs.len() > 0 {
        if count_id(xs[0], id) >= 1 {
            lemma_text_set_count(xs[0], ys[0], id, t, id2);
            assert(ys.drop_first() =~= xs.drop_first());
        } else {
            lemma_text_set_count_seq(xs.drop_first(), ys.drop_first(), id, t, id2);
        }
    }
}

/// When every tree but the last counts zero matches, the upsert relation
/// leaves all of them unchanged and resolves in the last.
proof fn lemma_seq_rel_last(xs: Seq<Element>, ys: Seq<Element>, id: Seq<char>, t: Seq<char>)
    requires
        text_set_seq_rel(xs, ys, id, t),
        xs.len() >= 1,
        forall|i: int| 0 <= i < xs.len() - 1 ==> count_id(#[trigger] xs[i], id) == 0,
        count_id(xs.last(), id) >= 1,
    ensures
        ys.len() == xs.len(),
        forall|i: int| 0 <= i < xs.len() - 1 ==> ys[i] == xs[i],
        text_set_rel(xs.last(), ys.last(), id, t),
    decreases xs.len(),
{
    if xs.len() == 1 {
    } else {
        assert(count_id(xs[0], id) == 0);
        assert(forall|i: int|
            0 <= i < xs.drop_first().len() ==> xs.drop_first()[i] == xs[i + 1]);
        assert(xs.drop_first().last() == xs.last());
        lemma_seq_rel_last(xs.drop_first(), ys.drop_first(), id, t);
        assert(ys.drop_first().last() == ys.last());
        assert forall|i: int| 0 <= i < xs.len() - 1 implies ys[i] == xs[i] by {
            if i > 0 {
                assert(ys.drop_first()[i - 1] == ys[i]);
                assert(xs.drop_first()[i - 1] == xs[i]);
            }
        }
    }
}

/// Setting a text by id and then setting the same id again leaves exactly
/// one element carrying that id, holding the second content: an upsert,
/// never a duplicate. `pre` is any well-formed toast without the id; `mid`
/// is its state after the first set appended its element (the contract of
/// `Toast::text` and `Toast::bottom_text` for an absent id); `post` is the
/// state after the second set replaced the text (their contract for an id
/// carried by exactly one element).
pub proof fn lemma_text_upsert_twice(
    pre: Toast,
    mid: Toast,
    post: Toast,
    c1: Seq<char>,
    c2: Seq<char>,
    ids: Seq<char>,
    bottom: bool,
)
    requires
        pre.wf(),
        count_id(pre.doc.root, ids) == 0,
        binding_appended(pre, mid, mid.binding_elem().children@.last()),
        plain_text_rep(mid.binding_elem().children@.last(), c1, ids, bottom),
        text_set_doc(mid, post, ids, c2),
    ensures
        count_id(mid.doc.root, ids) == 1,
        count_id(post.doc.root, ids) == 1,
        post.binding_elem().children@.len() == mid.binding_elem().children@.len(),
        plain_text_rep(post.binding_elem().children@.last(), c2, ids, bottom),
{
    let el = mid.binding_elem().children@.last();
    assert(has_id(el, ids));
    assert(count_id_seq(el.children@, ids) == 0);
    assert(count_id(el, ids) == 1);

    // decompose the zero count of the pre state
    let rc = pre.doc.root.children@;
    assert(count_id_seq(rc, ids) == 0);
    assert(count_id(pre.visual_elem(), ids) == 0) by {
        lemma_count_id_seq_at(rc, 0, ids);
    }
    let vc = pre.visual_elem().children@;
    assert(count_id_seq(vc, ids) == 0);
    assert(count_id(pre.binding_elem(), ids) == 0) by {
        lemma_count_id_seq_at(vc, 0, ids);
    }
    let bc = pre.binding_elem().children@;
    assert(count_id_seq(bc, ids) == 0);
    assert(forall|i: int| 0 <= i < bc.len() ==> count_id(#[trigger] bc[i], ids) == 0) by {
        assert forall|i: int| 0 <= i < bc.len() implies count_id(#[trigger] bc[i], ids) == 0 by {
            lemma_count_id_seq_at(bc, i, ids);
        }
    }

    // counts of the mid state
    let mbc = mid.binding_elem().children@;
    assert(mbc == bc.push(el));
    lemma_count_id_seq_snoc(bc, el, ids);
    assert(count_id_seq(mbc, ids) == 1);
    assert(!has_id(mid.binding_elem(), ids));
    assert(count_id(mid.binding_elem(), ids) == 1);
    let mvc = mid.visual_elem().children@;
    assert(mvc =~= vc.update(0, mid.binding_elem()));
    assert(mvc.len() == 1 && mvc[0] == mid.binding_elem());
    assert(count_id_seq(mvc, ids) == count_id(mid.binding_elem(), ids) + count_id_seq(
        mvc.drop_first(),
        ids,
    ));
    assert(mvc.drop_first() =~= Seq::<Element>::empty());
    assert(count_id_seq(Seq::<Element>::empty(), ids) == 0);
    assert(!has_id(mid.visual_elem(), ids));
    assert(count_id(mid.visual_elem(), ids) == 1);
    let mrc = mid.doc.root.children@;
    assert(mrc == rc.update(0, mid.visual_elem()));
    lemma_count_id_seq_update(rc, 0, mid.visual_elem(), ids);
    assert(count_id_seq(mrc, ids) == 1);
    assert(!has_id(mid.doc.root, ids));
    assert(count_id(mid.doc.root, ids) == 1);

    // the upsert keeps every count
    lemma_text_set_count(mid.doc.root, post.doc.root, ids, c2, ids);

    // and resolves in the appended element
    assert(text_set_seq_rel(mrc, post.doc.root.children@, ids, c2));
    let prc = post.doc.root.children@;
    assert(count_id(mrc[0], ids) >= 1);
    assert(text_set_rel(mid.visual_elem(), prc[0], ids, c2));
    assert(post.visual_elem() == prc[0]);
    assert(!has_id(mid.visual_elem(), ids));
    assert(text_set_seq_rel(mvc, post.visual_elem().children@, ids, c2));
    let pvc = post.visual_elem().children@;
    assert(count_id(mvc[0], ids) >= 1);
    assert(text_set_rel(mid.binding_elem(), pvc[0], ids, c2));
    assert(post.binding_elem() == pvc[0]);
    assert(text_set_seq_rel(mbc, post.binding_elem().children@, ids, c2));
    let pbc = post.binding_elem().children@;
    assert(forall|i: int| 0 <= i < mbc.len() - 1 ==> count_id(#[trigger] mbc[i], ids) == 0);
    lemma_seq_rel_last(mbc, pbc, ids, c2);
    assert(text_set_rel(el, pbc.last(), ids, c2));
    assert(has_id(el, ids));
    assert(pbc.last().attrs == el.attrs);
    assert(pbc.last().text@ == c2);
}

/// Counting over a forest with one position replaced.
proof fn lemma_count_id_seq_update(cs: Seq<Element>, i: int, y: Element, id: Seq<char>)
    requires
        0 <= i < cs.len(),
    ensures
        count_id_seq(cs.update(i, y), id) == count_id_seq(cs, id) - count_id(cs[i], id)
            + count_id(y, id),
    decreases cs.len(),
{
    if i == 0 {
        assert(cs.update(0, y)[0] == y);
        assert(cs.update(0, y).drop_first() =~= cs.drop_first());
    } else {
        lemma_count_id_seq_update(cs.drop_first(), i - 1, y, id);
        assert(cs.update(i, y)[0] == cs[0]);
        assert(cs.update(i, y).drop_first() =~= cs.drop_first().update(i - 1, y));
    }
}

/// Adding a sub-group twice produces exactly one `group` element holding
/// two `subgroup` children, each with its own members in call order. `pre`
/// is any well-formed toast without a group; `mid` is its state after the
/// first addition created the group (the contract of `Toast::add_sub_group`
/// without a group present); `post` is the state after the second addition
/// extended it (the same contract with the group present).
pub proof fn lemma_sub_group_twice(
    pre: Toast,
    mid: Toast,
    post: Toast,
    cs1: Seq<Child>,
    cs2: Seq<Child>,
)
    requires
        pre.wf(),
        count_tag(pre.binding_elem().children@, Tag::Group) == 0,
        binding_appended(pre, mid, mid.binding_elem().children@.last()),
        group_with_one(mid.binding_elem().children@.last(), cs1),
        group_extended(mid, post),
        subgroup_rep(appended_subgroup(mid, post), cs2),
    ensures
        count_tag(mid.binding_elem().children@, Tag::Group) == 1,
        count_tag(post.binding_elem().children@, Tag::Group) == 1,
        ({
            let gi = first_tag_index(mid.binding_elem().children@, Tag::Group);
            let g = post.binding_elem().children@[gi];
            &&& g.tag == Tag::Group
            &&& g.children@.len() == 2
            &&& subgroup_rep(g.children@[0], cs1)
            &&& subgroup_rep(g.children@[1], cs2)
        }),
{
    let bc = pre.binding_elem().children@;
    let g1 = mid.binding_elem().children@.last();
    let mbc = mid.binding_elem().children@;
    assert(mbc == bc.push(g1));
    lemma_count_tag_snoc(bc, g1, Tag::Group);
    assert(count_tag(mbc, Tag::Group) == 1);

    // the first group stands where it was appended
    lemma_tag_search(bc, Tag::Group);
    assert(forall|i: int| 0 <= i < bc.len() ==> (#[trigger] bc[i]).tag != Tag::Group);
    lemma_tag_search(mbc, Tag::Group);
    let gi = first_tag_index(mbc, Tag::Group);
    assert(mbc[gi].tag == Tag::Group);
    assert(gi == mbc.len() - 1);

    // the second addition pushed one subgroup onto that group
    let pbc = post.binding_elem().children@;
    assert(pbc == mbc.update(gi, pbc[gi]));
    let g2 = pbc[gi];
    assert(g2.tag == g1.tag);
    assert(g2.children@ == g1.children@.push(g2.children@.last()));
    assert(g2.children@.len() == 2);
    assert(g2.children@[0] == g1.children@[0]);
    assert(g2.children@[1] == appended_subgroup(mid, post));

    // and the group count stayed one
    assert(forall|i: int| 0 <= i < mbc.len() ==> (#[trigger] pbc[i]).tag == mbc[i].tag);
    crate::toast::lemma_count_tag_congruent(mbc, pbc, Tag::Group);
}

/// An image element always carries a `hint-crop` attribute: the empty
/// string for an uncropped image, `circle` for a circle crop — whatever the
/// other fields hold.
pub proof fn lemma_image_hint_crop(el: Element, im: Image)
    requires
        image_element_rep(el, im),
    ensures
        attr_lookup(el.attrs@, AttrName::HintCrop) == Some(crop_str(im.hint_crop)),
        im.hint_crop == Crop::Square ==> attr_lookup(el.attrs@, AttrName::HintCrop) == Some(""@),
        im.hint_crop == Crop::Circle ==> attr_lookup(el.attrs@, AttrName::HintCrop) == Some(
            "circle"@,
        ),
{
    lemma_attr_search(el.attrs@, AttrName::HintCrop);
}

/// A progress element always carries a `value` attribute: the decimal
/// string the caller gave, or the literal `indeterminate` — whatever the
/// other fields hold.
pub proof fn lemma_progress_value(el: Element, p: Progress)
    requires
        progress_element_rep(el, p),
    ensures
        attr_lookup(el.attrs@, AttrName::Value) == Some(value_str(p.value)),
        p.value == Value::Indeterminate ==> attr_lookup(el.attrs@, AttrName::Value) == Some(
            "indeterminate"@,
        ),
{
    lemma_attr_search(el.attrs@, AttrName::Value);
}

} // verus!
