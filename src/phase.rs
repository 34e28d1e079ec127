//! Render phases: the per-view lists of draw items and the order each kind of
//! phase draws them in.
use vstd::prelude::*;

verus! {

broadcast use vstd::seq_lib::group_to_multiset_ensures;

/// The passes a voxel entity can be drawn in.
#[derive(Clone, Copy, Debug, PartialEq, Eq, Structural)]
pub enum PhaseKind {
    /// Opaque geometry; the wireframe overlay is drawn here too.
    Opaque,
    AlphaMask,
    Transparent,
}

/// One draw of one entity in one view's phase.
#[derive(Clone, Copy, Debug, PartialEq, Eq, Structural)]
pub struct PhaseItem {
    pub entity: u64,
    pub pipeline: u64,
    pub draw_function: u64,
    /// How far the entity lies along the view direction; larger is farther.
    pub distance: i128,
}

/// The sort key of an item in a phase of the given kind: phases draw in
/// ascending key order, so opaque and alpha-mask phases go front to back and
/// the transparent phase back to front.
pub open spec fn sort_key(kind: PhaseKind, item: PhaseItem) -> int {
    match kind {
        PhaseKind::Transparent => -item.distance,
        _ => item.distance as int,
    }
}

/// `a` must be drawn after `b` in a phase of the given kind.
pub open spec fn draws_after(kind: PhaseKind, a: PhaseItem, b: PhaseItem) -> bool {
    sort_key(kind, a) > sort_key(kind, b)
}

/// The items are in the order a phase of the given kind draws them.
pub open spec fn in_draw_order(kind: PhaseKind, items: Seq<PhaseItem>) -> bool {
    forall|i: int, j: int|
        0 <= i < j < items.len() ==> sort_key(kind, #[trigger] items[i]) <= sort_key(
            kind,
            #[trigger] items[j],
        )
}

/// `x` placed into `items`: after the last item that need not be drawn after it.
pub open spec fn insert_in_order(kind: PhaseKind, items: Seq<PhaseItem>, x: PhaseItem) -> Seq<
    PhaseItem,
>
    decreases items.len(),
{
    if items.len() == 0 || !draws_after(kind, items.last(), x) {
        items.push(x)
    } else {
        insert_in_order(kind, items.drop_last(), x).push(items.last())
    }
}

/// The items in draw order; items with equal keys keep their queueing order.
pub open spec fn sorted_items(kind: PhaseKind, items: Seq<PhaseItem>) -> Seq<PhaseItem>
    decreases items.len(),
{
    if items.len() == 0 {
        items
    } else {
        insert_in_order(kind, sorted_items(kind, items.drop_last()), items.last())
    }
}

proof fn lemma_insert_bounded(kind: PhaseKind, items: Seq<PhaseItem>, x: PhaseItem, bound: int)
    requires
        forall|i: int| 0 <= i < items.len() ==> sort_key(kind, #[trigger] items[i]) <= bound,
        sort_key(kind, x) <= bound,
    ensures
        forall|i: int|
            0 <= i < insert_in_order(kind, items, x).len() ==> sort_key(
                kind,
                #[trigger] insert_in_order(kind, items, x)[i],
            ) <= bound,
    decreases items.len(),
{
    if items.len() > 0 && draws_after(kind, items.last(), x) {
        let rest = items.drop_last();
        assert forall|i: int| 0 <= i < rest.len() implies sort_key(kind, #[trigger] rest[i])
            <= bound by {
            assert(rest[i] == items[i]);
        }
        lemma_insert_bounded(kind, rest, x, bound);
        let mid = insert_in_order(kind, rest, x);
        let r = mid.push(items.last());
        assert forall|i: int| 0 <= i < r.len() implies sort_key(kind, #[trigger] r[i])
            <= bound by {
            if i < mid.len() {
                assert(r[i] == mid[i]);
            } else {
                assert(r[i] == items[items.len() - 1]);
            }
        }
    } else {
        let r = items.push(x);
        assert forall|i: int| 0 <= i < r.len() implies sort_key(kind, #[trigger] r[i])
            <= bound by {
            if i < items.len() {
                assert(r[i] == items[i]);
            }
        }
    }
}

proof fn lemma_insert_in_order(kind: PhaseKind, items: Seq<PhaseItem>, x: PhaseItem)
    requires
        in_draw_order(kind, items),
    ensures
        in_draw_order(kind, insert_in_order(kind, items, x)),
        insert_in_order(kind, items, x).to_multiset() == items.to_multiset().insert(x),
        insert_in_order(kind, items, x).len() == items.len() + 1,
    decreases items.len(),
{
    if items.len() == 0 || !draws_after(kind, items.last(), x) {
        let r = items.push(x);
        assert forall|i: int, j: int| 0 <= i < j < r.len() implies sort_key(
            kind,
            #[trigger] r[i],
        ) <= sort_key(kind, #[trigger] r[j]) by {
            if j == items.len() {
                if i < items.len() - 1 {
                    assert(sort_key(kind, items[i]) <= sort_key(kind, items[items.len() - 1]));
                }
            }
        }
    } else {
        let rest = items.drop_last();
        let top = items.last();
        assert(in_draw_order(kind, rest)) by {
            assert forall|i: int, j: int| 0 <= i < j < rest.len() implies sort_key(
                kind,
                #[trigger] rest[i],
            ) <= sort_key(kind, #[trigger] rest[j]) by {
                assert(rest[i] == items[i] && rest[j] == items[j]);
            }
        }
        lemma_insert_in_order(kind, rest, x);
        let mid = insert_in_order(kind, rest, x);
        assert forall|i: int| 0 <= i < rest.len() implies sort_key(kind, #[trigger] rest[i])
            <= sort_key(kind, top) by {
            assert(rest[i] == items[i]);
            assert(items[items.len() - 1] == top);
        }
        lemma_insert_bounded(kind, rest, x, sort_key(kind, top));
        let r = mid.push(top);
        assert forall|i: int, j: int| 0 <= i < j < r.len() implies sort_key(
            kind,
            #[trigger] r[i],
        ) <= sort_key(kind, #[trigger] r[j]) by {
            if j == mid.len() {
                assert(r[i] == mid[i]);
            } else {
                assert(r[i] == mid[i] && r[j] == mid[j]);
            }
        }
        assert(items =~= rest.push(top));
    }
}

/// Sorting a phase puts its items in the phase's draw order and keeps exactly
/// the items it had.
pub proof fn lemma_sorted_items(kind: PhaseKind, items: Seq<PhaseItem>)
    ensures
        in_draw_order(kind, sorted_items(kind, items)),
        sorted_items(kind, items).to_multiset() == items.to_multiset(),
        sorted_items(kind, items).len() == items.len(),
    decreases items.len(),
{
    if items.len() > 0 {
        let rest = items.drop_last();
        lemma_sorted_items(kind, rest);
        lemma_insert_in_order(kind, sorted_items(kind, rest), items.last());
        assert(items =~= rest.push(items.last()));
    }
}

/// A phase of one view for one frame.
pub struct RenderPhase {
    pub kind: PhaseKind,
    pub items: Vec<PhaseItem>,
}

impl RenderPhase {
    /// An empty phase of the given kind.
    pub fn new(kind: PhaseKind) -> (r: RenderPhase)
        ensures
            r.kind == kind,
            r.items@ == Seq::<PhaseItem>::empty(),
    {
        RenderPhase { kind, items: Vec::new() }
    }

    /// Appends a draw item; its place in the drawing comes from `sort`.
    pub fn add(&mut self, item: PhaseItem)
        ensures
            final(self).kind == old(self).kind,
            final(self).items@ == old(self).items@.push(item),
    {
        self.items.push(item);
    }

    /// Puts the items in the order the phase draws them: ascending distance
    /// for opaque and alpha-mask phases, descending for the transparent phase.
    /// Items at equal distance keep their order.
    pub fn sort(&mut self)
        ensures
            final(self).kind == old(self).kind,
            final(self).items@ == sorted_items(old(self).kind, old(self).items@),
            in_draw_order(old(self).kind, final(self).items@),
            final(self).items@.to_multiset() == old(self).items@.to_multiset(),
    {
        let ghost orig = self.items@;
        let kind = self.kind;
        let n = self.items.len();
        let mut i: usize = 0;
        while i < n
            invariant
                n == orig.len(),
                self.kind == kind,
                self.items@.len() == n,
                i <= n,
                self.items@ == sorted_items(kind, orig.subrange(0, i as int)) + orig.subrange(
                    i as int,
                    n as int,
                ),
            decreases n - i,
        {
            let ghost s = sorted_items(kind, orig.subrange(0, i as int));
            let ghost x = orig[i as int];
            proof {
                lemma_sorted_items(kind, orig.subrange(0, i as int));
                assert(self.items@[i as int] == x);
            }
            let mut j: usize = i;
            proof {
                assert(s.subrange(0, i as int) =~= s);
                assert(s.subrange(i as int, i as int) =~= Seq::<PhaseItem>::empty());
                assert(orig.subrange(i as int, n as int) =~= seq![x] + orig.subrange(
                    i + 1,
                    n as int,
                ));
                assert(self.items@ =~= s.subrange(0, j as int) + seq![x] + s.subrange(
                    j as int,
                    i as int,
                ) + orig.subrange(i + 1, n as int));
                assert(insert_in_order(kind, s, x) =~= insert_in_order(
                    kind,
                    s.subrange(0, j as int),
                    x,
                ) + s.subrange(j as int, i as int));
            }
            while j > 0 && item_draws_after(kind, &self.items[j - 1], &self.items[j])
                invariant
                    n == orig.len(),
                    self.kind == kind,
                    i < n,
                    j <= i,
                    s.len() == i,
                    self.items@ == s.subrange(0, j as int) + seq![x] + s.subrange(
                        j as int,
                        i as int,
                    ) + orig.subrange(i + 1, n as int),
                    insert_in_order(kind, s, x) == insert_in_order(
                        kind,
                        s.subrange(0, j as int),
                        x,
                    ) + s.subrange(j as int, i as int),
                decreases j,
            {
                let a = self.items[j - 1];
                let b = self.items[j];
                proof {
                    let pre = s.subrange(0, j as int);
                    assert(a == s[j - 1]);
                    assert(b == x);
                    assert(pre.drop_last() =~= s.subrange(0, j - 1));
                    assert(pre.last() == s[j - 1]);
                    assert(s.subrange(j - 1, i as int) =~= seq![s[j - 1]] + s.subrange(
                        j as int,
                        i as int,
                    ));
                }
                self.items.set(j - 1, b);
                self.items.set(j, a);
                j = j - 1;
                proof {
                    assert(self.items@ =~= s.subrange(0, j as int) + seq![x] + s.subrange(
                        j as int,
                        i as int,
                    ) + orig.subrange(i + 1, n as int));
                    assert(insert_in_order(kind, s, x) =~= insert_in_order(
                        kind,
                        s.subrange(0, j as int),
                        x,
                    ) + s.subrange(j as int, i as int));
                }
            }
            proof {
                let pre = s.subrange(0, j as int);
                if j > 0 {
                    assert(self.items@[j - 1] == s[j - 1]);
                    assert(self.items@[j as int] == x);
                    assert(pre.last() == s[j - 1]);
                }
                assert(insert_in_order(kind, pre, x) == pre.push(x));
                let next = orig.subrange(0, i + 1);
                assert(next.drop_last() =~= orig.subrange(0, i as int));
                assert(next.last() == x);
                assert(sorted_items(kind, next) == insert_in_order(kind, s, x));
                assert(self.items@ =~= sorted_items(kind, next) + orig.subrange(
                    i + 1,
                    n as int,
                ));
            }
            i = i + 1;
        }
        proof {
            assert(orig.subrange(0, n as int) =~= orig);
            assert(self.items@ =~= sorted_items(kind, orig));
            lemma_sorted_items(kind, orig);
        }
    }
}

/// Whether `a` must be drawn after `b` in a phase of the given kind.
fn item_draws_after(kind: PhaseKind, a: &PhaseItem, b: &PhaseItem) -> (r: bool)
    ensures
        r == draws_after(kind, *a, *b),
{
    match kind {
        PhaseKind::Transparent => a.distance < b.distance,
        _ => a.distance > b.distance,
    }
}

} // verus!
