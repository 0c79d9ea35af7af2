//! Lookups over the document tree, and the text upsert they support.
//!
//! Two lookups exist: by `id` attribute value anywhere in the tree, and by a
//! fixed absolute path of tag names. Both fail when zero or more than one
//! node matches; neither ever yields a default node.

use vstd::prelude::*;
use crate::dom::attr_lookup;
use crate::dom::lemma_attr_search;
use crate::dom::AttrName;
use crate::dom::Document;
use crate::dom::Element;
use crate::dom::Tag;
use crate::error::XmlErr;

verus! {

/// The value of an element's `id` attribute, if any.
pub open spec fn elem_id(e: Element) -> Option<Seq<char>> {
    attr_lookup(e.attrs@, AttrName::Id)
}

/// Whether an element carries the given `id` attribute value.
pub open spec fn has_id(e: Element, id: Seq<char>) -> bool {
    elem_id(e) == Some(id)
}

/// How many elements of the subtree rooted at `e` carry the given id.
pub open spec fn count_id(e: Element, id: Seq<char>) -> nat
    decreases e,
{
    (if has_id(e, id) {
        1nat
    } else {
        0nat
    }) + count_id_seq(e.children@, id)
}

/// How many elements of the forest `cs` carry the given id.
pub open spec fn count_id_seq(cs: Seq<Element>, id: Seq<char>) -> nat
    decreases cs,
{
    if cs.len() == 0 {
        0nat
    } else {
        count_id(cs[0], id) + count_id_seq(cs.drop_first(), id)
    }
}

/// Counting over a forest extended by one tree.
pub proof fn lemma_count_id_seq_snoc(cs: Seq<Element>, x: Element, id: Seq<char>)
    ensures
        count_id_seq(cs.push(x), id) == count_id_seq(cs, id) + count_id(x, id),
    decreases cs.len(),
{
    if cs.len() == 0 {
        assert(cs.push(x)[0] == x);
        assert(cs.push(x).drop_first() =~= Seq::<Element>::empty());
        assert(count_id_seq(Seq::<Element>::empty(), id) == 0);
    } else {
        lemma_count_id_seq_snoc(cs.drop_first(), x, id);
        assert(cs.push(x)[0] == cs[0]);
        assert(cs.push(x).drop_first() =~= cs.drop_first().push(x));
    }
}

/// A forest counts at least as many matches as any one of its trees.
pub proof fn lemma_count_id_seq_at(cs: Seq<Element>, j: int, id: Seq<char>)
    requires
        0 <= j < cs.len(),
    ensures
        count_id_seq(cs, id) >= count_id(cs[j], id),
    decreases cs.len(),
{
    if j > 0 {
        lemma_count_id_seq_at(cs.drop_first(), j - 1, id);
        assert(cs.drop_first()[j - 1] == cs[j]);
    }
}

/// Whether an element carries the given id, read from its attribute list.
pub fn elem_has_id(e: &Element, id: &String) -> (r: bool)
    ensures
        r == has_id(*e, id@),
{
    proof {
        lemma_attr_search(e.attrs@, AttrName::Id);
    }
    let n: usize = e.attrs.len();
    let mut j: usize = 0;
    while j < n
        invariant
            j <= n,
            n == e.attrs.len(),
            forall|k: int| 0 <= k < j ==> e.attrs@[k].name != AttrName::Id,
        decreases n - j,
    {
        if e.attrs[j].name == AttrName::Id {
            let r = e.attrs[j].value.eq(id);
            proof {
                lemma_attr_search(e.attrs@, AttrName::Id);
                assert(crate::dom::first_attr_index(e.attrs@, AttrName::Id) == j as int);
            }
            return r;
        }
        j += 1;
    }
    proof {
        lemma_attr_search(e.attrs@, AttrName::Id);
    }
    false
}

/// `min(count, 2)`: all a caller needs to know of a match count.
pub open spec fn capped2(n: nat) -> nat {
    if n >= 2 {
        2nat
    } else {
        n
    }
}

/// Counts the elements of the subtree that carry the id, capped at two.
pub fn count_id_capped(e: &Element, id: &String) -> (n: u8)
    ensures
        n as nat == capped2(count_id(*e, id@)),
    decreases *e,
{
    let own: u8 = if elem_has_id(e, id) {
        1
    } else {
        0
    };
    let k: usize = e.children.len();
    let mut i: usize = 0;
    let mut n: u8 = own;
    while i < k
        invariant
            i <= k,
            k == e.children.len(),
            own as nat == if has_id(*e, id@) {
                1nat
            } else {
                0nat
            },
            n as nat == capped2(
                (own as nat) + count_id_seq(e.children@.subrange(0, i as int), id@),
            ),
        decreases k - i,
    {
        proof {
            assert(decreases_to!(*e => e.children@[i as int]));
        }
        let c = count_id_capped(&e.children[i], id);
        n = if n > 2 - c {
            2
        } else {
            n + c
        };
        proof {
            assert(e.children@.subrange(0, i + 1) =~= e.children@.subrange(0, i as int).push(
                e.children@[i as int],
            ));
            lemma_count_id_seq_snoc(e.children@.subrange(0, i as int), e.children@[i as int], id@);
        }
        i += 1;
    }
    proof {
        assert(e.children@.subrange(0, k as int) =~= e.children@);
    }
    n
}

/// Relates an element to its state after the first element (in document
/// order) carrying the id had its inner text replaced by `t`.
pub open spec fn text_set_rel(a: Element, b: Element, id: Seq<char>, t: Seq<char>) -> bool
    decreases a,
{
    if has_id(a, id) {
        &&& b.tag == a.tag
        &&& b.attrs == a.attrs
        &&& b.children@ == a.children@
        &&& b.text@ == t
    } else {
        &&& b.tag == a.tag
        &&& b.attrs == a.attrs
        &&& b.text == a.text
        &&& text_set_seq_rel(a.children@, b.children@, id, t)
    }
}

/// Relates a forest to its state after the upsert hit its first match.
pub open spec fn text_set_seq_rel(xs: Seq<Element>, ys: Seq<Element>, id: Seq<char>, t: Seq<char>) -> bool
    decreases xs,
{
    &&& ys.len() == xs.len()
    &&& if xs.len() == 0 {
        true
    } else if count_id(xs[0], id) >= 1 {
        text_set_rel(xs[0], ys[0], id, t) && ys.drop_first() == xs.drop_first()
    } else {
        ys[0] == xs[0] && text_set_seq_rel(xs.drop_first(), ys.drop_first(), id, t)
    }
}

/// A forest whose change is confined to position `i`, with no match before
/// it, is in the upsert relation.
proof fn lemma_text_set_seq_rel_point(
    xs: Seq<Element>,
    ys: Seq<Element>,
    i: int,
    id: Seq<char>,
    t: Seq<char>,
)
    requires
        0 <= i < xs.len(),
        ys.len() == xs.len(),
        forall|j: int| 0 <= j < i ==> count_id(#[trigger] xs[j], id) == 0,
        forall|j: int| 0 <= j < xs.len() && j != i ==> ys[j] == xs[j],
        count_id(xs[i], id) >= 1,
        text_set_rel(xs[i], ys[i], id, t),
    ensures
        text_set_seq_rel(xs, ys, id, t),
    decreases i,
{
    if i == 0 {
        assert(ys.drop_first() =~= xs.drop_first());
    } else {
        assert(ys[0] == xs[0]);
        assert(count_id(xs[0], id) == 0);
        lemma_text_set_seq_rel_point(xs.drop_first(), ys.drop_first(), i - 1, id, t);
    }
}

/// Replaces the inner text of the first element (in document order) that
/// carries the id; everything else in the tree stays what it was.
pub fn set_text_first(e: &mut Element, id: &String, t: &String)
    requires
        count_id(*old(e), id@) >= 1,
    ensures
        text_set_rel(*old(e), *final(e), id@, t@),
    decreases *old(e),
{
    if elem_has_id(e, id) {
        e.text = t.clone();
        return ;
    }
    let n: usize = e.children.len();
    let mut i: usize = 0;
    while i < n
        invariant
            i <= n,
            n == e.children@.len(),
            *e == *old(e),
            !has_id(*old(e), id@),
            count_id(*old(e), id@) >= 1,
            forall|j: int| 0 <= j < i ==> count_id(#[trigger] old(e).children@[j], id@) == 0,
        decreases n - i,
    {
        let c = count_id_capped(&e.children[i], id);
        if c >= 1 {
            proof {
                assert(decreases_to!(*old(e) => old(e).children@[i as int]));
            }
            set_text_first(&mut e.children[i], id, t);
            proof {
                let xs = old(e).children@;
                let ys = e.children@;
                assert(ys =~= xs.update(i as int, ys[i as int]));
                lemma_text_set_seq_rel_point(xs, ys, i as int, id@, t@);
            }
            return ;
        }
        i += 1;
    }
    proof {
        lemma_count_id_seq_prefix_all(old(e).children@, id@);
        assert(false);
    }
}

/// A forest all of whose trees count zero matches counts zero matches.
proof fn lemma_count_id_seq_prefix_all(cs: Seq<Element>, id: Seq<char>)
    requires
        forall|j: int| 0 <= j < cs.len() ==> count_id(#[trigger] cs[j], id) == 0,
    ensures
        count_id_seq(cs, id) == 0,
    decreases cs.len(),
{
    if cs.len() > 0 {
        assert(forall|j: int|
            0 <= j < cs.drop_first().len() ==> cs.drop_first()[j] == cs[j + 1]);
        lemma_count_id_seq_prefix_all(cs.drop_first(), id);
    }
}

/// The first element of the subtree, in document order, carrying the id.
pub open spec fn first_with_id(e: Element, id: Seq<char>) -> Element
    recommends
        count_id(e, id) >= 1,
    decreases e,
{
    if has_id(e, id) {
        e
    } else {
        first_with_id_seq(e.children@, id)
    }
}

/// The first tree of the forest containing a match, resolved to its match.
pub open spec fn first_with_id_seq(cs: Seq<Element>, id: Seq<char>) -> Element
    recommends
        count_id_seq(cs, id) >= 1,
    decreases cs,
{
    if cs.len() == 0 {
        vstd::pervasive::arbitrary::<Element>()
    } else if count_id(cs[0], id) >= 1 {
        first_with_id(cs[0], id)
    } else {
        first_with_id_seq(cs.drop_first(), id)
    }
}

/// Finds the first element of the subtree carrying the id.
pub fn find_first_id<'a>(e: &'a Element, id: &String) -> (r: Option<&'a Element>)
    ensures
        r is Some <==> count_id(*e, id@) >= 1,
        r matches Some(f) ==> *f == first_with_id(*e, id@),
    decreases *e,
{
    if elem_has_id(e, id) {
        return Some(e);
    }
    let n: usize = e.children.len();
    let mut i: usize = 0;
    while i < n
        invariant
            i <= n,
            n == e.children@.len(),
            !has_id(*e, id@),
            forall|j: int| 0 <= j < i ==> count_id(#[trigger] e.children@[j], id@) == 0,
        decreases n - i,
    {
        proof {
            assert(decreases_to!(*e => e.children@[i as int]));
        }
        let found = find_first_id(&e.children[i], id);
        if let Some(f) = found {
            proof {
                lemma_count_id_seq_at(e.children@, i as int, id@);
                lemma_first_with_id_seq_point(e.children@, i as int, id@);
            }
            return Some(f);
        }
        i += 1;
    }
    proof {
        lemma_count_id_seq_prefix_all(e.children@, id@);
    }
    None
}

/// The first match of a forest lies in its first tree with a match.
proof fn lemma_first_with_id_seq_point(cs: Seq<Element>, i: int, id: Seq<char>)
    requires
        0 <= i < cs.len(),
        forall|j: int| 0 <= j < i ==> count_id(#[trigger] cs[j], id) == 0,
        count_id(cs[i], id) >= 1,
    ensures
        first_with_id_seq(cs, id) == first_with_id(cs[i], id),
        count_id_seq(cs, id) >= 1,
    decreases i,
{
    if i == 0 {
    } else {
        assert(cs.drop_first()[i - 1] == cs[i]);
        assert(forall|j: int|
            0 <= j < i - 1 ==> cs.drop_first()[j] == cs[j + 1]);
        lemma_first_with_id_seq_point(cs.drop_first(), i - 1, id);
    }
}

/// How many elements of the forest carry the given tag.
pub open spec fn count_tag(cs: Seq<Element>, t: Tag) -> nat
    decreases cs,
{
    if cs.len() == 0 {
        0nat
    } else {
        (if cs[0].tag == t {
            1nat
        } else {
            0nat
        }) + count_tag(cs.drop_first(), t)
    }
}

/// The position of the first element of the forest carrying the given tag.
pub open spec fn first_tag_index(cs: Seq<Element>, t: Tag) -> int
    decreases cs,
{
    if cs.len() == 0 {
        0
    } else if cs[0].tag == t {
        0
    } else {
        1 + first_tag_index(cs.drop_first(), t)
    }
}

/// How `count_tag` and `first_tag_index` relate to the forest's entries.
pub proof fn lemma_tag_search(cs: Seq<Element>, t: Tag)
    ensures
        count_tag(cs, t) >= 1 <==> exists|i: int| 0 <= i < cs.len() && cs[i].tag == t,
        count_tag(cs, t) >= 1 ==> {
            let k = first_tag_index(cs, t);
            &&& 0 <= k < cs.len()
            &&& cs[k].tag == t
            &&& forall|j: int| 0 <= j < k ==> cs[j].tag != t
        },
        count_tag(cs, t) == 1 ==> forall|j: int|
            0 <= j < cs.len() && j != first_tag_index(cs, t) ==> cs[j].tag != t,
    decreases cs.len(),
{
    if cs.len() > 0 {
        lemma_tag_search(cs.drop_first(), t);
        assert(forall|i: int| 1 <= i < cs.len() ==> cs.drop_first()[i - 1] == cs[i]);
        if cs[0].tag != t && count_tag(cs.drop_first(), t) >= 1 {
            let k0 = first_tag_index(cs.drop_first(), t);
            assert(cs[k0 + 1] == cs.drop_first()[k0]);
        }
    }
}

/// Counting tags over a forest extended by one tree.
pub proof fn lemma_count_tag_snoc(cs: Seq<Element>, x: Element, t: Tag)
    ensures
        count_tag(cs.push(x), t) == count_tag(cs, t) + (if x.tag == t {
            1nat
        } else {
            0nat
        }),
    decreases cs.len(),
{
    if cs.len() == 0 {
        assert(cs.push(x)[0] == x);
        assert(cs.push(x).drop_first() =~= Seq::<Element>::empty());
        assert(count_tag(Seq::<Element>::empty(), t) == 0);
    } else {
        lemma_count_tag_snoc(cs.drop_first(), x, t);
        assert(cs.push(x)[0] == cs[0]);
        assert(cs.push(x).drop_first() =~= cs.drop_first().push(x));
    }
}

/// Finds the position of the unique child with the given tag; zero matches
/// and several matches each fail with the corresponding lookup error.
pub fn find_unique_child(e: &Element, t: Tag) -> (r: Result<usize, XmlErr>)
    ensures
        r matches Ok(i) ==> count_tag(e.children@, t) == 1 && i as int == first_tag_index(
            e.children@,
            t,
        ) && (i as int) < e.children@.len() && e.children@[i as int].tag == t,
        r matches Err(x) ==> (x == XmlErr::NotFound && count_tag(e.children@, t) == 0) || (
        x == XmlErr::Ambiguous && count_tag(e.children@, t) >= 2),
{
    let n: usize = e.children.len();
    let mut j: usize = 0;
    let mut cnt: u8 = 0;
    let mut first: usize = 0;
    while j < n
        invariant
            j <= n,
            n == e.children@.len(),
            cnt as nat == capped2(count_tag(e.children@.subrange(0, j as int), t)),
            cnt >= 1 ==> (first as int) < j as int && e.children@[first as int].tag == t
                && (forall|m: int| 0 <= m < first as int ==> e.children@[m].tag != t),
        decreases n - j,
    {
        if e.children[j].tag == t {
            if cnt == 0 {
                proof {
                    lemma_tag_search(e.children@.subrange(0, j as int), t);
                    assert forall|m: int| 0 <= m < j as int implies e.children@[m].tag != t by {
                        assert(e.children@.subrange(0, j as int)[m] == e.children@[m]);
                    }
                }
                first = j;
            }
            if cnt < 2 {
                cnt = cnt + 1;
            }
        }
        proof {
            assert(e.children@.subrange(0, j + 1) =~= e.children@.subrange(0, j as int).push(
                e.children@[j as int],
            ));
            lemma_count_tag_snoc(e.children@.subrange(0, j as int), e.children@[j as int], t);
        }
        j += 1;
    }
    proof {
        assert(e.children@.subrange(0, n as int) =~= e.children@);
        lemma_tag_search(e.children@, t);
    }
    if cnt == 0 {
        Err(XmlErr::NotFound)
    } else if cnt >= 2 {
        Err(XmlErr::Ambiguous)
    } else {
        Ok(first)
    }
}

/// Whether an absolute path of tag names resolves to a unique node, taking
/// one step at each segment from `k` on.
pub open spec fn resolves_from(e: Element, path: Seq<Tag>, k: int) -> bool
    decreases path.len() - k,
{
    if k >= path.len() {
        true
    } else {
        count_tag(e.children@, path[k]) == 1 && resolves_from(
            e.children@[first_tag_index(e.children@, path[k])],
            path,
            k + 1,
        )
    }
}

/// The unique node an absolute path resolves to, from segment `k` on.
pub open spec fn resolve_from(e: Element, path: Seq<Tag>, k: int) -> Element
    recommends
        resolves_from(e, path, k),
    decreases path.len() - k,
{
    if k >= path.len() {
        e
    } else {
        resolve_from(e.children@[first_tag_index(e.children@, path[k])], path, k + 1)
    }
}

/// Which lookup error a failing path reports: the kind of the first failing
/// segment.
pub open spec fn path_err_from(e: Element, path: Seq<Tag>, k: int) -> XmlErr
    recommends
        !resolves_from(e, path, k),
    decreases path.len() - k,
{
    if k >= path.len() {
        XmlErr::NotFound
    } else if count_tag(e.children@, path[k]) == 0 {
        XmlErr::NotFound
    } else if count_tag(e.children@, path[k]) >= 2 {
        XmlErr::Ambiguous
    } else {
        path_err_from(e.children@[first_tag_index(e.children@, path[k])], path, k + 1)
    }
}

impl Document {
    /// Resolves a simple absolute path of tag names to the unique matching
    /// element. The path must name the root first; a segment with zero
    /// matches or with several matches fails with the corresponding lookup
    /// error, and no default element is ever returned.
    pub fn select_single_node<'a>(&'a self, path: &[Tag]) -> (r: Result<&'a Element, XmlErr>)
        ensures
            r is Ok <==> path@.len() >= 1 && path@[0] == self.root.tag && resolves_from(
                self.root,
                path@,
                1,
            ),
            r matches Ok(f) ==> *f == resolve_from(self.root, path@, 1),
            r matches Err(x) ==> if path@.len() == 0 || path@[0] != self.root.tag {
                x == XmlErr::NotFound
            } else {
                x == path_err_from(self.root, path@, 1)
            },
    {
        if path.len() == 0 {
            return Err(XmlErr::NotFound);
        }
        if !(path[0] == self.root.tag) {
            return Err(XmlErr::NotFound);
        }
        let mut cur: &Element = &self.root;
        let mut k: usize = 1;
        while k < path.len()
            invariant
                1 <= k <= path@.len(),
                path@[0] == self.root.tag,
                resolves_from(self.root, path@, 1) <==> resolves_from(*cur, path@, k as int),
                resolves_from(*cur, path@, k as int) ==> resolve_from(self.root, path@, 1)
                    == resolve_from(*cur, path@, k as int),
                !resolves_from(*cur, path@, k as int) ==> path_err_from(self.root, path@, 1)
                    == path_err_from(*cur, path@, k as int),
            decreases path@.len() - k,
        {
            match find_unique_child(cur, path[k]) {
                Ok(i) => {
                    cur = &cur.children[i];
                    k = k + 1;
                },
                Err(x) => {
                    return Err(x);
                },
            }
        }
        Ok(cur)
    }
}

impl Document {
    /// Finds the unique element of the document whose `id` attribute equals
    /// the given value. Zero matches and several matches each fail with the
    /// corresponding lookup error; no default element is ever returned.
    pub fn get_element_by_id<'a>(&'a self, id: &str) -> (r: Result<&'a Element, XmlErr>)
        ensures
            r is Ok <==> count_id(self.root, id@) == 1,
            r matches Ok(f) ==> *f == first_with_id(self.root, id@),
            r matches Err(x) ==> (x == XmlErr::NotFound && count_id(self.root, id@) == 0) || (
            x == XmlErr::Ambiguous && count_id(self.root, id@) >= 2),
    {
        let ids = String::from_str(id);
        let n = count_id_capped(&self.root, &ids);
        if n == 0 {
            Err(XmlErr::NotFound)
        } else if n >= 2 {
            Err(XmlErr::Ambiguous)
        } else {
            match find_first_id(&self.root, &ids) {
                Some(f) => Ok(f),
                None => Err(XmlErr::NotFound),
            }
        }
    }
}

} // verus!
