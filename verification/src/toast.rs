//! The shared toast stack: at most three toasts, newest last, each dismissed
//! after a few seconds.

use vstd::prelude::*;

verus! {

/// Severity of a toast.
#[derive(Clone, Copy, Debug, PartialEq, Eq, Structural)]
pub enum ToastLevel {
    Info,
    Warn,
    Error,
}

impl ToastLevel {
    pub open spec fn variant_spec(self) -> Seq<char> {
        match self {
            ToastLevel::Info => "default"@,
            ToastLevel::Warn => "warning"@,
            ToastLevel::Error => "destructive"@,
        }
    }

    pub open spec fn class_spec(self) -> Seq<char> {
        match self {
            ToastLevel::Info => "toast-item--info"@,
            ToastLevel::Warn => "toast-item--warn"@,
            ToastLevel::Error => "toast-item--error"@,
        }
    }

    /// Toast variant of the level.
    pub fn variant(self) -> (r: &'static str)
        ensures
            r@ == self.variant_spec(),
    {
        match self {
            ToastLevel::Info => "default",
            ToastLevel::Warn => "warning",
            ToastLevel::Error => "destructive",
        }
    }

    /// CSS class of the level.
    pub fn class(self) -> (r: &'static str)
        ensures
            r@ == self.class_spec(),
    {
        match self {
            ToastLevel::Info => "toast-item--info",
            ToastLevel::Warn => "toast-item--warn",
            ToastLevel::Error => "toast-item--error",
        }
    }
}

/// Most toasts shown at once.
pub const MAX_TOASTS: usize = 3;

/// How long a toast stays, in milliseconds.
pub const TOAST_DURATION_MS: i32 = 4000;

/// Toast payload: plain text or a snapshot delta summary.
#[derive(Clone, Debug)]
pub enum ToastBody {
    Text(String),
    /// `+added ~modified -removed`.
    Snapshot { added: usize, modified: usize, removed: usize },
}

/// One toast.
#[derive(Clone, Debug)]
pub struct ToastItem {
    pub id: u64,
    pub level: ToastLevel,
    pub body: ToastBody,
}

/// The toast stack, oldest first.
pub struct ToastStack {
    pub items: Vec<ToastItem>,
    pub next_id: u64,
}

/// `s` without its oldest items beyond the last `MAX_TOASTS`.
pub open spec fn keep_newest(s: Seq<ToastItem>) -> Seq<ToastItem> {
    if s.len() > MAX_TOASTS {
        s.skip(s.len() - MAX_TOASTS)
    } else {
        s
    }
}

impl ToastStack {
    /// No toasts; ids start at 1.
    pub fn new() -> (r: Self)
        ensures
            r.items@.len() == 0,
            r.next_id == 1,
    {
        ToastStack { items: Vec::new(), next_id: 1 }
    }

    /// Adds a toast on top, dropping the oldest beyond three. Returns its id,
    /// which the shell dismisses after [`TOAST_DURATION_MS`].
    pub fn push(&mut self, level: ToastLevel, body: ToastBody) -> (id: u64)
        ensures
            id == old(self).next_id,
            final(self).next_id == (if old(self).next_id == u64::MAX { 0 } else { (old(self).next_id + 1) as u64 }),
            final(self).items@ == keep_newest(old(self).items@.push(ToastItem { id, level, body })),
    {
        let id = self.next_id;
        self.next_id = if self.next_id == u64::MAX { 0 } else { self.next_id + 1 };
        let mut v: Vec<ToastItem> = Vec::new();
        std::mem::swap(&mut v, &mut self.items);
        v.push(ToastItem { id, level, body });
        let ghost full = v@;
        assert(full.skip(0) =~= full);
        while v.len() > MAX_TOASTS
            invariant
                full.len() >= v@.len(),
                v@ == full.skip(full.len() - v@.len()),
                full.len() > MAX_TOASTS ==> v@.len() >= MAX_TOASTS,
                full.len() <= MAX_TOASTS ==> v@.len() == full.len(),
            decreases v@.len(),
        {
            let ghost before = v@;
            v.remove(0);
            assert(v@ =~= full.skip(full.len() - v@.len()));
        }
        self.items = v;
        id
    }

    /// The timer of toast `id` ran out.
    pub fn dismiss(&mut self, id: u64)
        ensures
            final(self).items@ == without_id(old(self).items@, id),
            final(self).next_id == old(self).next_id,
    {
        let mut kept: Vec<ToastItem> = Vec::new();
        let mut rest: Vec<ToastItem> = Vec::new();
        std::mem::swap(&mut rest, &mut self.items);
        let ghost all = rest@;
        while rest.len() > 0
            invariant
                rest@.len() <= all.len(),
                rest@ == all.skip(all.len() - rest@.len()),
                kept@ == all.take(all.len() - rest@.len()).filter(|t: ToastItem| t.id != id),
            decreases rest@.len(),
        {
            let ghost i = all.len() - rest@.len();
            proof {
                reveal_with_fuel(Seq::<_>::filter, 1);
                assert(all.take(i + 1).drop_last() =~= all.take(i));
                assert(all.skip(i)[0] == all[i]);
            }
            let x = rest.remove(0);
            proof {
                assert(rest@ =~= all.skip(i + 1));
                assert(all.take(i + 1).last() == x);
            }
            if x.id != id {
                kept.push(x);
            }
        }
        assert(all.take(all.len() as int) =~= all);
        self.items = kept;
    }

    /// An info toast.
    pub fn info(&mut self, msg: String) -> (id: u64)
        ensures
            id == old(self).next_id,
            final(self).items@ == keep_newest(old(self).items@.push(ToastItem { id, level: ToastLevel::Info, body: ToastBody::Text(msg) })),
    {
        self.push(ToastLevel::Info, ToastBody::Text(msg))
    }

    /// A warning toast.
    pub fn warn(&mut self, msg: String) -> (id: u64)
        ensures
            id == old(self).next_id,
            final(self).items@ == keep_newest(old(self).items@.push(ToastItem { id, level: ToastLevel::Warn, body: ToastBody::Text(msg) })),
    {
        self.push(ToastLevel::Warn, ToastBody::Text(msg))
    }

    /// An error toast.
    pub fn error(&mut self, msg: String) -> (id: u64)
        ensures
            id == old(self).next_id,
            final(self).items@ == keep_newest(old(self).items@.push(ToastItem { id, level: ToastLevel::Error, body: ToastBody::Text(msg) })),
    {
        self.push(ToastLevel::Error, ToastBody::Text(msg))
    }

    /// The snapshot summary toast.
    pub fn snapshot_done(&mut self, added: usize, modified: usize, removed: usize) -> (id: u64)
        ensures
            id == old(self).next_id,
            final(self).items@ == keep_newest(old(self).items@.push(ToastItem {
                id,
                level: ToastLevel::Info,
                body: ToastBody::Snapshot { added, modified, removed },
            })),
    {
        self.push(ToastLevel::Info, ToastBody::Snapshot { added, modified, removed })
    }
}

/// The stack never holds more than three toasts, and the newest is on top.
pub proof fn law_stack_bounded(s: Seq<ToastItem>, item: ToastItem)
    requires
        s.len() <= MAX_TOASTS,
    ensures
        keep_newest(s.push(item)).len() <= MAX_TOASTS,
        keep_newest(s.push(item)).last() == item,
{
}

/// The stack with every toast of this id taken out, the rest in order.
pub open spec fn without_id(s: Seq<ToastItem>, id: u64) -> Seq<ToastItem> {
    s.filter(|t: ToastItem| t.id != id)
}

/// Dismissing a toast removes every toast with that id and keeps the others
/// in order: a dismissed id is never shown again.
pub proof fn law_dismiss_removes(s: Seq<ToastItem>, id: u64)
    ensures
        forall|i: int| 0 <= i < without_id(s, id).len() ==> (#[trigger] without_id(s, id)[i]).id != id,
        forall|t: ToastItem| #[trigger] s.contains(t) && t.id != id ==> without_id(s, id).contains(t),
{
    let f = |t: ToastItem| t.id != id;
    assert forall|i: int| 0 <= i < s.filter(f).len() implies (#[trigger] s.filter(f)[i]).id != id by {
        s.lemma_filter_pred(f, i);
    }
    assert forall|t: ToastItem| #[trigger] s.contains(t) && t.id != id implies s.filter(f).contains(t) by {
        let k = choose|k: int| 0 <= k < s.len() && s[k] == t;
        s.lemma_filter_contains(f, k);
    }
}

/// Toast ids rise from bottom to top and stay below `next`, the id the
/// next toast gets.
pub open spec fn ids_rising_below(s: Seq<ToastItem>, next: u64) -> bool {
    &&& forall|i: int, j: int| 0 <= i < j < s.len() ==> (#[trigger] s[i]).id < (#[trigger] s[j]).id
    &&& forall|i: int| 0 <= i < s.len() ==> (#[trigger] s[i]).id < next
}

proof fn lemma_without_id_step(s: Seq<ToastItem>, id: u64)
    requires
        s.len() > 0,
    ensures
        without_id(s, id) == (if s.last().id != id {
            without_id(s.drop_last(), id).push(s.last())
        } else {
            without_id(s.drop_last(), id)
        }),
{
    reveal_with_fuel(Seq::<_>::filter, 1);
}

proof fn lemma_without_absent_id(s: Seq<ToastItem>, id: u64)
    requires
        forall|i: int| 0 <= i < s.len() ==> (#[trigger] s[i]).id != id,
    ensures
        without_id(s, id) == s,
    decreases s.len(),
{
    if s.len() == 0 {
        reveal_with_fuel(Seq::<_>::filter, 1);
        assert(without_id(s, id) =~= s);
    } else {
        lemma_without_absent_id(s.drop_last(), id);
        lemma_without_id_step(s, id);
        assert(s.drop_last().push(s.last()) =~= s);
    }
}

proof fn lemma_without_id_rising(s: Seq<ToastItem>, id: u64, next: u64)
    requires
        ids_rising_below(s, next),
    ensures
        ids_rising_below(without_id(s, id), next),
        forall|t: ToastItem| without_id(s, id).contains(t) ==> s.contains(t),
    decreases s.len(),
{
    if s.len() == 0 {
        reveal_with_fuel(Seq::<_>::filter, 1);
    } else {
        let d = s.drop_last();
        assert(ids_rising_below(d, next));
        lemma_without_id_rising(d, id, next);
        lemma_without_id_step(s, id);
        let w = without_id(d, id);
        if s.last().id != id {
            assert forall|k: int| 0 <= k < w.len() implies (#[trigger] w[k]).id < s.last().id by {
                assert(w.contains(w[k]));
                assert(d.contains(w[k]));
                let m = choose|m: int| 0 <= m < d.len() && d[m] == w[k];
                assert(s[m] == d[m]);
            }
            assert forall|t: ToastItem| w.push(s.last()).contains(t) implies s.contains(t) by {
                if t != s.last() {
                    let m = choose|m: int| 0 <= m < w.push(s.last()).len() && w.push(s.last())[m] == t;
                    assert(w.contains(t));
                    assert(d.contains(t));
                    let q = choose|q: int| 0 <= q < d.len() && d[q] == t;
                    assert(s[q] == t);
                } else {
                    assert(s[s.len() - 1] == t);
                }
            }
        } else {
            assert forall|t: ToastItem| w.contains(t) implies s.contains(t) by {
                assert(d.contains(t));
                let q = choose|q: int| 0 <= q < d.len() && d[q] == t;
                assert(s[q] == t);
            }
        }
    }
}

/// The toast timer keeps the stack in order: a push while ids have not
/// wrapped gives its toast an id above all others and moves `next` past it,
/// and a dismissal keeps the rest in order.
pub proof fn law_toast_ids_stay_rising(s: Seq<ToastItem>, next: u64, item: ToastItem, id: u64)
    requires
        ids_rising_below(s, next),
        next < u64::MAX,
        item.id == next,
    ensures
        ids_rising_below(keep_newest(s.push(item)), (next + 1) as u64),
        ids_rising_below(without_id(s, id), next),
{
    let p = s.push(item);
    assert(ids_rising_below(p, (next + 1) as u64));
    if p.len() > MAX_TOASTS {
        let q = p.skip(p.len() - MAX_TOASTS);
        assert forall|i: int, j: int| 0 <= i < j < q.len() implies (#[trigger] q[i]).id < (#[trigger] q[j]).id by {
            assert(q[i] == p[i + p.len() - MAX_TOASTS]);
            assert(q[j] == p[j + p.len() - MAX_TOASTS]);
        }
        assert forall|i: int| 0 <= i < q.len() implies (#[trigger] q[i]).id < next + 1 by {
            assert(q[i] == p[i + p.len() - MAX_TOASTS]);
        }
    }
    lemma_without_id_rising(s, id, next);
}

/// When a toast's timer runs out ([`TOAST_DURATION_MS`] after its push), the
/// dismissal removes that toast and no other: in a stack with rising ids,
/// dismissing the id of row `k` leaves the stack without row `k`, the rest in
/// order.
pub proof fn law_expiry_removes_only_its_toast(s: Seq<ToastItem>, next: u64, k: int)
    requires
        ids_rising_below(s, next),
        0 <= k < s.len(),
    ensures
        without_id(s, s[k].id) == s.remove(k),
    decreases s.len(),
{
    let id = s[k].id;
    let d = s.drop_last();
    assert(ids_rising_below(d, next));
    lemma_without_id_step(s, id);
    if k == s.len() - 1 {
        assert forall|i: int| 0 <= i < d.len() implies (#[trigger] d[i]).id != id by {
            assert(s[i] == d[i]);
        }
        lemma_without_absent_id(d, id);
        assert(s.remove(k) =~= d);
    } else {
        law_expiry_removes_only_its_toast(d, next, k);
        assert(d[k] == s[k]);
        assert(s.last().id != id);
        assert(d.remove(k).push(s.last()) =~= s.remove(k));
    }
}

} // verus!
