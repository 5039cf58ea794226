//! The lifecycle manager: a stack of created GPU objects, pushed in creation
//! order, whose teardown plan is the exact reverse of that order.
//!
//! Mid-level GPU object destruction is unordered-unsafe: destroying a device
//! before its swapchain, or a surface before its instance, is undefined
//! behaviour at the driver level. The manager therefore admits creations
//! only in the one dependency-respecting order and derives the teardown
//! sequence from the recorded log, so destruction order can never be written
//! down independently and drift.

use vstd::prelude::*;
use vstd::multiset::Multiset;
use vstd::seq_lib::lemma_multiset_commutative;

verus! {

/// The destroyable object classes of the bootstrap, in dependency order.
/// (Swapchain images are driver-owned and never destroyed individually;
/// command buffers are freed implicitly with their pool.)
#[derive(Clone, Copy, Debug, PartialEq, Eq, PartialOrd, Ord, Structural)]
pub enum ResourceKind {
    Instance,
    Diagnostics,
    Surface,
    Device,
    Swapchain,
    ImageView,
    CommandPool,
    RenderPass,
    Framebuffer,
}

/// One created GPU object: its class and its driver handle.
#[derive(Clone, Copy, Debug, PartialEq, Eq, PartialOrd, Ord, Structural)]
pub struct Resource {
    pub kind: ResourceKind,
    pub handle: u64,
}

/// Position of a resource class in the single linear creation order.
pub open spec fn rank(k: ResourceKind) -> int {
    match k {
        ResourceKind::Instance => 0,
        ResourceKind::Diagnostics => 1,
        ResourceKind::Surface => 2,
        ResourceKind::Device => 3,
        ResourceKind::Swapchain => 4,
        ResourceKind::ImageView => 5,
        ResourceKind::CommandPool => 6,
        ResourceKind::RenderPass => 7,
        ResourceKind::Framebuffer => 8,
    }
}

/// Classes of which a bootstrap creates many objects; every other class is
/// created at most once.
pub open spec fn is_collection_kind(k: ResourceKind) -> bool {
    k is ImageView || k is Framebuffer
}

/// Each class sits at its own position in the creation order.
pub proof fn lemma_rank_injective()
    ensures
        forall|a: ResourceKind, b: ResourceKind| rank(a) == rank(b) ==> a == b,
{
}

/// The log respects the creation order: ranks never decrease.
pub open spec fn ordered(s: Seq<Resource>) -> bool {
    forall|i: int, j: int| 0 <= i < j < s.len() ==> rank(s[i].kind) <= rank(s[j].kind)
}

/// No single-object class occurs twice in the log.
pub open spec fn singletons_unique(s: Seq<Resource>) -> bool {
    forall|i: int, j: int|
        0 <= i < j < s.len() && s[i].kind == s[j].kind ==> is_collection_kind(s[i].kind)
}

/// A well-formed creation log: dependency-ordered, with every single-object
/// class created at most once.
pub open spec fn wf_creation_log(s: Seq<Resource>) -> bool {
    ordered(s) && singletons_unique(s)
}

/// Whether one more object of class `k` may be recorded after log `s`: the
/// log is empty, or `k` comes no earlier in the creation order than the last
/// entry, and repeats only a collection class.
pub open spec fn can_push(s: Seq<Resource>, k: ResourceKind) -> bool {
    s.len() == 0 || (rank(s.last().kind) <= rank(k) && (s.last().kind == k
        ==> is_collection_kind(k)))
}

/// Exec mirror of [`rank`].
fn rank_of(k: &ResourceKind) -> (r: u32)
    ensures
        r as int == rank(*k),
{
    match k {
        ResourceKind::Instance => 0,
        ResourceKind::Diagnostics => 1,
        ResourceKind::Surface => 2,
        ResourceKind::Device => 3,
        ResourceKind::Swapchain => 4,
        ResourceKind::ImageView => 5,
        ResourceKind::CommandPool => 6,
        ResourceKind::RenderPass => 7,
        ResourceKind::Framebuffer => 8,
    }
}

/// Exec mirror of [`is_collection_kind`].
fn is_collection(k: &ResourceKind) -> (b: bool)
    ensures
        b == is_collection_kind(*k),
{
    match k {
        ResourceKind::ImageView => true,
        ResourceKind::Framebuffer => true,
        _ => false,
    }
}

/// The lifecycle manager. It owns the creation log; the host records each
/// object right after the driver call that created it, and tears down by
/// destroying exactly the sequence [`Lifecycle::teardown`] hands back.
pub struct Lifecycle {
    created: Vec<Resource>,
}

impl Lifecycle {
    /// The creation log, oldest first.
    pub closed spec fn log(self) -> Seq<Resource> {
        self.created@
    }

    /// The manager's invariant: the log is a well-formed creation log.
    pub open spec fn wf(self) -> bool {
        wf_creation_log(self.log())
    }

    /// An empty manager: nothing created yet.
    pub fn new() -> (lm: Lifecycle)
        ensures
            lm.log() == Seq::<Resource>::empty(),
            lm.wf(),
    {
        Lifecycle { created: Vec::new() }
    }

    /// How many objects have been recorded.
    pub fn created_count(&self) -> (n: usize)
        ensures
            n == self.log().len(),
    {
        self.created.len()
    }

    /// A copy of the creation log, oldest first.
    pub fn created_log(&self) -> (v: Vec<Resource>)
        ensures
            v@ == self.log(),
    {
        let mut v: Vec<Resource> = Vec::new();
        let n = self.created.len();
        let mut i: usize = 0;
        while i < n
            invariant
                n == self.created@.len(),
                0 <= i <= n,
                v@ == self.created@.take(i as int),
            decreases n - i,
        {
            v.push(self.created[i]);
            proof {
                assert(self.created@.take(i + 1) =~= self.created@.take(i as int).push(
                    self.created@[i as int],
                ));
            }
            i += 1;
        }
        proof {
            assert(self.created@.take(n as int) =~= self.created@);
        }
        v
    }

    /// Whether an object of class `kind` may be recorded next without
    /// breaking the creation order.
    pub fn can_record(&self, kind: &ResourceKind) -> (ok: bool)
        ensures
            ok == can_push(self.log(), *kind),
    {
        let n = self.created.len();
        if n == 0 {
            true
        } else {
            let last = &self.created[n - 1];
            rank_of(&last.kind) <= rank_of(kind) && (!(last.kind == *kind) || is_collection(kind))
        }
    }

    /// Records one created object at the top of the log. The caller settles
    /// [`Lifecycle::can_record`] first; the order admitted there keeps the
    /// whole log well-formed.
    pub fn record(&mut self, r: Resource)
        requires
            old(self).wf(),
            can_push(old(self).log(), r.kind),
        ensures
            final(self).log() == old(self).log().push(r),
            final(self).wf(),
    {
        proof {
            lemma_push_preserves_wf(self.created@, r);
        }
        self.created.push(r);
    }

    /// Empties the manager and returns the teardown plan: the created
    /// objects in the exact reverse of creation order. The log is cleared
    /// before the plan is handed out, so a second teardown finds nothing to
    /// destroy twice.
    pub fn teardown(&mut self) -> (plan: Vec<Resource>)
        ensures
            plan@ == old(self).log().reverse(),
            final(self).log() == Seq::<Resource>::empty(),
            final(self).wf(),
    {
        let ghost orig = self.created@;
        let mut plan: Vec<Resource> = Vec::new();
        while self.created.len() > 0
            invariant
                self.created@.len() <= orig.len(),
                self.created@ == orig.take(self.created@.len() as int),
                plan@ == orig.skip(self.created@.len() as int).reverse(),
            decreases self.created.len(),
        {
            let ghost len0 = self.created@.len() as int;
            let r = self.created.pop().unwrap();
            plan.push(r);
            proof {
                assert(orig.take(len0).drop_last() =~= orig.take(len0 - 1));
                assert(orig.skip(len0).reverse().push(orig[len0 - 1]) =~= orig.skip(
                    len0 - 1,
                ).reverse());
            }
        }
        proof {
            assert(orig.skip(0).reverse() =~= orig.reverse());
            assert(self.created@ =~= Seq::<Resource>::empty());
        }
        plan
    }
}

/// Pushing an object admitted by [`can_push`] keeps a creation log
/// well-formed.
pub proof fn lemma_push_preserves_wf(s: Seq<Resource>, r: Resource)
    requires
        wf_creation_log(s),
        can_push(s, r.kind),
    ensures
        wf_creation_log(s.push(r)),
{
    let t = s.push(r);
    let n = s.len() as int;
    assert forall|i: int, j: int| 0 <= i < j < t.len() implies rank(t[i].kind) <= rank(
        t[j].kind,
    ) by {
        if j < n {
            assert(rank(s[i].kind) <= rank(s[j].kind));
        } else {
            // j == n: t[j] == r, and the last log entry bounds every earlier one.
            if i < n - 1 {
                assert(rank(s[i].kind) <= rank(s[n - 1].kind));
            }
        }
    }
    assert forall|i: int, j: int|
        0 <= i < j < t.len() && t[i].kind == t[j].kind implies is_collection_kind(
        t[i].kind,
    ) by {
        if j < n {
            assert(singletons_unique(s));
            assert(s[i].kind == s[j].kind);
        } else if !is_collection_kind(t[i].kind) {
            // t[i].kind == r.kind with i < n: the ranks force the last entry
            // to share that kind, and can_push then demands a collection kind.
            assert(rank(s[i].kind) <= rank(s[n - 1].kind));
            assert(rank(s[n - 1].kind) <= rank(r.kind));
            lemma_rank_injective();
            assert(s[n - 1].kind == r.kind);
        }
    }
}

/// Law: for a well-formed creation log, the teardown plan (the reverse of
/// the log) destroys dependents first — along the plan, ranks never
/// increase, so no object is destroyed before an object that depends on it.
pub proof fn lemma_teardown_respects_dependencies(s: Seq<Resource>)
    requires
        wf_creation_log(s),
    ensures
        forall|i: int, j: int|
            0 <= i < j < s.reverse().len() ==> rank(s.reverse()[i].kind) >= rank(
                s.reverse()[j].kind,
            ),
{
    assert forall|i: int, j: int| 0 <= i < j < s.reverse().len() implies rank(
        s.reverse()[i].kind,
    ) >= rank(s.reverse()[j].kind) by {
        let n = s.len() as int;
        assert(s.reverse()[i] == s[n - 1 - i]);
        assert(s.reverse()[j] == s[n - 1 - j]);
        assert(rank(s[n - 1 - j].kind) <= rank(s[n - 1 - i].kind));
    }
}

/// Law: a full teardown releases exactly the objects that were created —
/// the multiset of destroyed resources equals the multiset of created ones,
/// so create and destroy calls match one to one per object and per class,
/// with no leaked handle.
pub proof fn lemma_teardown_destroys_all(s: Seq<Resource>)
    ensures
        s.reverse().to_multiset() == s.to_multiset(),
    decreases s.len(),
{
    broadcast use vstd::seq_lib::group_to_multiset_ensures;

    if s.len() == 0 {
        assert(s.reverse() =~= s);
    } else {
        let rest = s.drop_last();
        let last = s.last();
        lemma_teardown_destroys_all(rest);
        assert(s.reverse() =~= seq![last] + rest.reverse());
        lemma_multiset_commutative(seq![last], rest.reverse());
        assert(seq![last] =~= Seq::<Resource>::empty().push(last));
        assert(seq![last].to_multiset() =~= Multiset::<Resource>::empty().insert(last));
        assert(s =~= rest.push(last));
        assert(s.to_multiset() =~= rest.to_multiset().insert(last));
        assert(Multiset::<Resource>::empty().insert(last).add(rest.to_multiset())
            =~= rest.to_multiset().insert(last));
    }
}

} // verus!
