//! Collections of metadata items and their cursor protocol.
use crate::node::{same_value, Node, NodeValue};
use vstd::prelude::*;

verus! {

/// A finite sequence of items produced by a registry query, with an ownership flag.
///
/// An owned collection (`borrowed == false`) must be released by its holder; a
/// borrowed one belongs to a parent and must not be.
pub struct Collection<T> {
    items: Vec<T>,
    borrowed: bool,
}

/// A collection of value nodes.
pub type Nodes = Collection<Node>;

impl<T> View for Collection<T> {
    type V = Seq<T>;

    closed spec fn view(&self) -> Seq<T> {
        self.items@
    }
}

/// Whether a node with the same value as `v` stands in `s`.
pub open spec fn holds_value(s: Seq<Node>, v: Node) -> bool {
    exists|i: int| 0 <= i < s.len() && same_value(#[trigger] s[i].value, v.value)
}

impl<T> Collection<T> {
    /// Whether the holder of the collection must release it.
    pub closed spec fn is_borrowed(&self) -> bool {
        self.borrowed
    }

    /// An owned collection of the given items.
    pub fn new(items: Vec<T>) -> (r: Collection<T>)
        ensures
            r@ == items@,
            !r.is_borrowed(),
    {
        Collection { items, borrowed: false }
    }

    /// A collection of the given items that belongs to a parent.
    pub fn new_borrowed(items: Vec<T>) -> (r: Collection<T>)
        ensures
            r@ == items@,
            r.is_borrowed(),
    {
        Collection { items, borrowed: true }
    }

    /// True when the holder of this collection must release it.
    pub fn needs_release(&self) -> (r: bool)
        ensures
            r == !self.is_borrowed(),
    {
        !self.borrowed
    }

    /// The number of items.
    pub fn count(&self) -> (r: usize)
        ensures
            r == self@.len(),
    {
        self.items.len()
    }

    /// The number of items (same as `count`).
    pub fn size(&self) -> (r: usize)
        ensures
            r == self@.len(),
    {
        self.count()
    }

    /// The cursor at the first item.
    pub fn begin(&self) -> (c: usize)
        ensures
            c == 0,
    {
        0
    }

    /// Whether the cursor is past the last item.
    pub fn is_end(&self, c: usize) -> (r: bool)
        ensures
            r == (c >= self@.len()),
    {
        c >= self.items.len()
    }

    /// The cursor after `c`. Not to be called once `is_end(c)` holds.
    pub fn next(&self, c: usize) -> (r: usize)
        requires
            c < self@.len(),
        ensures
            r == c + 1,
    {
        let n = self.items.len();
        assert(c < n);
        c + 1
    }

    /// The item under the cursor. Not to be called once `is_end(c)` holds.
    pub fn get(&self, c: usize) -> (r: &T)
        requires
            c < self@.len(),
        ensures
            *r == self@[c as int],
    {
        &self.items[c]
    }

    /// A forward walk over the items, starting at the first.
    pub fn iter<'a>(&'a self) -> (r: Walk<&'a Collection<T>>)
        ensures
            r.wf(),
            r.remaining() == self@.map_values(|t: T| &t),
    {
        Walk::new(self)
    }
}

impl Collection<Node> {
    /// Whether a node with the same value as `value` is in the collection.
    pub fn contains(&self, value: &Node) -> (r: bool)
        ensures
            r == holds_value(self@, *value),
    {
        Self::contains_in(&self.items, value)
    }

    /// A new owned collection holding the nodes of `self`, in order, followed by
    /// each node of `other` whose value is not already there.
    pub fn merge(&self, other: &Nodes) -> (r: Nodes)
        ensures
            !r.is_borrowed(),
            r@.len() >= self@.len(),
            forall|i: int| 0 <= i < self@.len() ==> (#[trigger] r@[i]).value == self@[i].value,
            forall|v: Node| holds_value(r@, v) <==> (holds_value(self@, v) || holds_value(other@, v)),
    {
        let mut out: Vec<Node> = Vec::new();
        let mut i: usize = 0;
        while i < self.items.len()
            invariant
                i <= self@.len(),
                self@ == self.items@,
                out@.len() == i,
                forall|j: int| 0 <= j < i ==> (#[trigger] out@[j]).value == self@[j].value,
            decreases self@.len() - i,
        {
            out.push(self.items[i].duplicate());
            i = i + 1;
        }
        proof {
            assert forall|v: Node| holds_value(out@, v) <==> (holds_value(self@, v) || holds_value(other@.take(0), v)) by {
                if holds_value(out@, v) {
                    let w = choose|w: int| 0 <= w < out@.len() && same_value(#[trigger] out@[w].value, v.value);
                    assert(self@[w].value == out@[w].value);
                }
                if holds_value(self@, v) {
                    let w = choose|w: int| 0 <= w < self@.len() && same_value(#[trigger] self@[w].value, v.value);
                    assert(out@[w].value == self@[w].value);
                }
            }
        }
        let mut k: usize = 0;
        while k < other.items.len()
            invariant
                k <= other@.len(),
                other@ == other.items@,
                out@.len() >= self@.len(),
                forall|j: int| 0 <= j < self@.len() ==> (#[trigger] out@[j]).value == self@[j].value,
                forall|v: Node| holds_value(out@, v) <==> (holds_value(self@, v) || holds_value(other@.take(k as int), v)),
            decreases other@.len() - k,
        {
            let ghost before = out@;
            let found = Collection::<Node>::contains_in(&out, &other.items[k]);
            if !found {
                out.push(other.items[k].duplicate());
            }
            proof {
                assert(other@.take(k + 1) =~= other@.take(k as int).push(other@[k as int]));
                assert forall|v: Node| holds_value(out@, v) <==> (holds_value(self@, v) || holds_value(other@.take(k + 1), v)) by {
                    let t = other@.take(k as int);
                    let t1 = other@.take(k + 1);
                    if holds_value(t1, v) {
                        let w = choose|w: int| 0 <= w < t1.len() && same_value(#[trigger] t1[w].value, v.value);
                        if w < k {
                            assert(t[w] == t1[w]);
                        } else {
                            lemma_same_value_symmetric(other@[k as int].value, v.value);
                            if found {
                                let z = choose|z: int| 0 <= z < before.len() && same_value(#[trigger] before[z].value, other@[k as int].value);
                                lemma_same_value_chain(before[z].value, other@[k as int].value, v.value);
                                assert(out@[z] == before[z]);
                            } else {
                                assert(out@[before.len() as int].value == other@[k as int].value);
                            }
                        }
                    }
                    if holds_value(t, v) {
                        let w = choose|w: int| 0 <= w < t.len() && same_value(#[trigger] t[w].value, v.value);
                        assert(t1[w] == t[w]);
                    }
                    if holds_value(out@, v) && !found {
                        let w = choose|w: int| 0 <= w < out@.len() && same_value(#[trigger] out@[w].value, v.value);
                        if w < before.len() {
                            assert(out@[w] == before[w]);
                        } else {
                            assert(t1[k as int] == other@[k as int]);
                        }
                    }
                    if found {
                        assert(out@ == before);
                    }
                    if holds_value(before, v) {
                        let w = choose|w: int| 0 <= w < before.len() && same_value(#[trigger] before[w].value, v.value);
                        assert(out@[w] == before[w]);
                    }
                }
            }
            k = k + 1;
        }
        proof {
            assert(other@.take(other@.len() as int) =~= other@);
        }
        Collection { items: out, borrowed: false }
    }

    fn contains_in(items: &Vec<Node>, value: &Node) -> (r: bool)
        ensures
            r == holds_value(items@, *value),
    {
        let mut i: usize = 0;
        while i < items.len()
            invariant
                i <= items@.len(),
                forall|j: int| 0 <= j < i ==> !same_value(#[trigger] items@[j].value, value.value),
            decreases items@.len() - i,
        {
            if items[i].value.same(&value.value) {
                return true;
            }
            i = i + 1;
        }
        false
    }
}

proof fn lemma_same_value_symmetric(a: NodeValue, b: NodeValue)
    ensures
        same_value(a, b) == same_value(b, a),
{
}

proof fn lemma_same_value_chain(a: NodeValue, b: NodeValue, c: NodeValue)
    requires
        same_value(a, b),
        same_value(b, c),
    ensures
        same_value(a, c),
{
}

/// The cursor protocol of a sequence of items: `begin`, `is_end`, `next`
/// and `get`. `next` and `get` must not be called on a cursor at the end.
pub trait CursorSource {
    type Item;
    type Pos;

    /// The items, in order.
    spec fn items(&self) -> Seq<Self::Item>;

    /// The position of the item under cursor `p`; the number of items past the end.
    spec fn index_of(&self, p: Self::Pos) -> int;

    /// The cursor at the first item.
    fn begin(&self) -> (p: Self::Pos)
        ensures
            self.index_of(p) == 0;

    /// Whether `p` is past the last item.
    fn is_end(&self, p: &Self::Pos) -> (r: bool)
        requires
            0 <= self.index_of(*p) <= self.items().len(),
        ensures
            r == (self.index_of(*p) == self.items().len());

    /// The cursor after `p`.
    fn next(&self, p: &Self::Pos) -> (q: Self::Pos)
        requires
            0 <= self.index_of(*p) < self.items().len(),
        ensures
            self.index_of(q) == self.index_of(*p) + 1;

    /// The item under `p`.
    fn get(&self, p: &Self::Pos) -> (r: Self::Item)
        requires
            0 <= self.index_of(*p) < self.items().len(),
        ensures
            r == self.items()[self.index_of(*p)];
}

impl<'a, T> CursorSource for &'a Collection<T> {
    type Item = &'a T;
    type Pos = usize;

    closed spec fn items(&self) -> Seq<&'a T> {
        (**self)@.map_values(|t: T| &t)
    }

    closed spec fn index_of(&self, p: usize) -> int {
        p as int
    }

    fn begin(&self) -> (p: usize) {
        (**self).begin()
    }

    fn is_end(&self, p: &usize) -> (r: bool) {
        (**self).is_end(*p)
    }

    fn next(&self, p: &usize) -> (q: usize) {
        (**self).next(*p)
    }

    fn get(&self, p: &usize) -> (r: &'a T) {
        let c: &'a Collection<T> = *self;
        c.get(*p)
    }
}

/// A forward, finite walk over any source of the cursor protocol. Once the end
/// is reached the source is not stepped again.
pub struct Walk<C: CursorSource> {
    source: C,
    pos: C::Pos,
    ended: bool,
}

impl<C: CursorSource> Walk<C> {
    /// The items that the walk has yet to yield, in order.
    pub closed spec fn remaining(&self) -> Seq<C::Item> {
        if self.ended {
            Seq::empty()
        } else {
            self.source.items().skip(self.source.index_of(self.pos))
        }
    }

    /// The walk's invariant: its cursor is within the source or past its end.
    pub closed spec fn wf(&self) -> bool {
        self.ended || 0 <= self.source.index_of(self.pos) <= self.source.items().len()
    }

    /// A walk from the first item of `source`.
    pub fn new(source: C) -> (r: Walk<C>)
        ensures
            r.wf(),
            r.remaining() == source.items(),
    {
        let pos = source.begin();
        let r = Walk { source, pos, ended: false };
        assert(r.source.items().skip(0) =~= r.source.items());
        r
    }

    /// The next item, or `None` once every item has been yielded.
    pub fn next(&mut self) -> (r: Option<C::Item>)
        requires
            old(self).wf(),
        ensures
            final(self).wf(),
            old(self).remaining().len() == 0 ==> r is None && final(self).remaining().len() == 0,
            old(self).remaining().len() > 0 ==> r == Some(old(self).remaining()[0])
                && final(self).remaining() == old(self).remaining().drop_first(),
    {
        if self.ended {
            return None;
        }
        if self.source.is_end(&self.pos) {
            self.ended = true;
            return None;
        }
        let item = self.source.get(&self.pos);
        let ghost old_pos = self.source.index_of(self.pos);
        assert(old(self).remaining()[0] == self.source.items()[old_pos]);
        let pos = self.source.next(&self.pos);
        self.pos = pos;
        assert(self.source.items().skip(old_pos + 1) =~= old(self).remaining().drop_first());
        Some(item)
    }
}

/// An empty source yields nothing: a walk that starts at its first item has no
/// item to yield, so its first step gives `None`.
pub proof fn lemma_empty_yields_nothing<C: CursorSource>(source: C, w: &Walk<C>)
    requires
        source.items().len() == 0,
        w.remaining() == source.items(),
    ensures
        w.remaining().len() == 0,
{
}

} // verus!
