use vstd::prelude::*;

verus! {

/// `i` holds the closest hit: a hit no farther than any other, and
/// strictly closer than every hit before it.
pub open spec fn is_first_closest(hits: Seq<Option<u64>>, i: int) -> bool {
    &&& 0 <= i < hits.len()
    &&& hits[i] is Some
    &&& forall|j: int|
        0 <= j < hits.len() && #[trigger] hits[j] is Some ==> hits[i]->0 <= hits[j]->0
    &&& forall|j: int| 0 <= j < i && #[trigger] hits[j] is Some ==> hits[i]->0 < hits[j]->0
}

/// Whether no subgizmo reported a hit.
pub open spec fn no_hit(hits: Seq<Option<u64>>) -> bool {
    forall|j: int| 0 <= j < hits.len() ==> #[trigger] hits[j] is None
}

/// Picks the subgizmo with the closest hit.
///
/// `hits[i]` is the hit distance that subgizmo `i` reported along the
/// pointer ray, as a key whose order is the order of distances, or `None`
/// when the ray misses it. Of several equally close hits the first one in
/// collection order wins.
pub fn pick_closest(hits: &Vec<Option<u64>>) -> (r: Option<usize>)
    ensures
        r is None <==> no_hit(hits@),
        r matches Some(i) ==> is_first_closest(hits@, i as int),
{
    let mut best: Option<usize> = None;
    let mut i: usize = 0;
    while i < hits.len()
        invariant
            0 <= i <= hits.len(),
            best is None <==> no_hit(hits@.subrange(0, i as int)),
            best matches Some(b) ==> is_first_closest(hits@.subrange(0, i as int), b as int),
        decreases hits.len() - i,
    {
        let ghost prefix = hits@.subrange(0, i as int);
        let ghost next = hits@.subrange(0, i + 1);
        if let Some(d) = hits[i] {
            let better = match best {
                None => true,
                Some(b) => d < hits[b].unwrap(),
            };
            if better {
                best = Some(i);
            }
        }
        proof {
            assert forall|j: int| 0 <= j < i implies next[j] == prefix[j] by {}
            assert(next[i as int] == hits@[i as int]);
            if best is None {
                assert forall|j: int| 0 <= j < next.len() implies #[trigger] next[j] is None by {
                    if j < i {
                        assert(prefix[j] is None);
                    }
                }
            } else {
                let j = if hits@[i as int] is Some { i as int } else { choose|j: int| 0 <= j < i && #[trigger] prefix[j] is Some };
                if hits@[i as int] is None {
                    assert(!no_hit(prefix));
                }
                assert(next[j] is Some);
            }
        }
        i = i + 1;
    }
    proof {
        assert(hits@.subrange(0, hits@.len() as int) =~= hits@);
    }
    best
}

/// Of two hits, the strictly closer one is never passed over for the farther one.
pub proof fn lemma_pick_prefers_closer(hits: Seq<Option<u64>>, i: int, j: int, k: int)
    requires
        0 <= i < hits.len(),
        0 <= j < hits.len(),
        hits[i] matches Some(a) && hits[j] matches Some(b) && a < b,
        is_first_closest(hits, k),
    ensures
        k != j,
{
    assert(hits[k]->0 <= hits[i]->0);
}

/// The pick is a function of the hits: equally close hits give one answer.
pub proof fn lemma_pick_unique(hits: Seq<Option<u64>>, i: int, k: int)
    requires
        is_first_closest(hits, i),
        is_first_closest(hits, k),
    ensures
        i == k,
{
    if i < k {
        assert(hits[i] is Some);
        assert(hits[k]->0 < hits[i]->0);
    } else if k < i {
        assert(hits[k] is Some);
        assert(hits[i]->0 < hits[k]->0);
    }
}

/// The pick as a mathematical function of the hits.
pub open spec fn spec_pick(hits: Seq<Option<u64>>) -> Option<int> {
    if no_hit(hits) {
        None
    } else {
        Some(choose|i: int| is_first_closest(hits, i))
    }
}

/// Whether the pointer is over a subgizmo, and whether it is being dragged.
#[derive(Debug, Clone, Copy, PartialEq, Eq, Structural)]
pub struct SubGizmoStatus {
    pub focused: bool,
    pub active: bool,
}

/// What the host does after a frame's decisions.
#[derive(Debug, Clone, Copy, PartialEq, Eq, Structural)]
pub struct FrameStep {
    /// The subgizmo to drive with the pointer ray this frame, if any.
    pub drive: Option<usize>,
    /// Whether a drag started this frame: the targets and the gizmo's own
    /// transform are to be kept as the baseline of the gesture.
    pub started: bool,
}

/// The pick and drag state of a subgizmo collection: which subgizmo, if
/// any, holds the current drag, and the focus and active flag of each.
#[derive(Debug, Clone, PartialEq, Eq)]
pub struct InteractionState {
    active: Option<usize>,
    status: Vec<SubGizmoStatus>,
}

/// The flags with every focus cleared.
pub open spec fn unfocused(status: Seq<SubGizmoStatus>) -> Seq<SubGizmoStatus> {
    status.map_values(|s: SubGizmoStatus| SubGizmoStatus { focused: false, active: s.active })
}

/// The state after the picking step of a frame, and whether a drag started.
pub open spec fn after_pick(
    active: Option<usize>,
    status: Seq<SubGizmoStatus>,
    hits: Seq<Option<u64>>,
    drag_started: bool,
) -> (Option<usize>, Seq<SubGizmoStatus>, bool) {
    let cleared = unfocused(status);
    if active is Some {
        (active, cleared, false)
    } else {
        match spec_pick(hits) {
            Some(i) => (
                if drag_started {
                    Some(i as usize)
                } else {
                    None
                },
                cleared.update(i, SubGizmoStatus { focused: true, active: cleared[i].active }),
                drag_started,
            ),
            None => (None, cleared, false),
        }
    }
}

/// One frame of the interaction: the new active subgizmo, the new flags,
/// and what the host is to do.
///
/// With no drag in progress the closest hit is focused, and becomes the
/// active subgizmo when a drag starts. While the drag goes on the active
/// subgizmo is active, focused and driven; when it stops, the gesture ends.
pub open spec fn after_frame(
    active: Option<usize>,
    status: Seq<SubGizmoStatus>,
    hits: Seq<Option<u64>>,
    drag_started: bool,
    dragging: bool,
) -> (Option<usize>, Seq<SubGizmoStatus>, FrameStep) {
    let (a, s, started) = after_pick(active, status, hits, drag_started);
    match a {
        Some(i) => if dragging {
            (
                Some(i),
                s.update(i as int, SubGizmoStatus { focused: true, active: true }),
                FrameStep { drive: Some(i), started },
            )
        } else {
            (
                None,
                s.update(i as int, SubGizmoStatus { focused: false, active: false }),
                FrameStep { drive: None, started },
            )
        },
        None => (None, s, FrameStep { drive: None, started }),
    }
}

/// Exactly the subgizmo holding the drag, if any, is flagged active.
pub open spec fn state_wf(active: Option<usize>, status: Seq<SubGizmoStatus>) -> bool {
    &&& active matches Some(a) ==> a < status.len() && status[a as int].active
    &&& forall|i: int|
        0 <= i < status.len() && #[trigger] status[i].active ==> active is Some && active->0 == i
}

impl InteractionState {
    pub closed spec fn spec_active(&self) -> Option<usize> {
        self.active
    }

    pub closed spec fn spec_status(&self) -> Seq<SubGizmoStatus> {
        self.status@
    }

    pub open spec fn wf(&self) -> bool {
        state_wf(self.spec_active(), self.spec_status())
    }

    /// A state for `n` subgizmos, none focused and no drag in progress.
    pub fn new(n: usize) -> (r: InteractionState)
        ensures
            r.wf(),
            r.spec_active() is None,
            r.spec_status() == Seq::new(n as nat, |i: int| SubGizmoStatus { focused: false, active: false }),
    {
        let mut status: Vec<SubGizmoStatus> = Vec::new();
        let mut i: usize = 0;
        while i < n
            invariant
                i <= n,
                status@ == Seq::new(i as nat, |k: int| SubGizmoStatus { focused: false, active: false }),
            decreases n - i,
        {
            status.push(SubGizmoStatus { focused: false, active: false });
            i = i + 1;
            proof {
                assert(status@ =~= Seq::new(i as nat, |k: int| SubGizmoStatus { focused: false, active: false }));
            }
        }
        InteractionState { active: None, status }
    }

    /// Number of subgizmos tracked.
    pub fn len(&self) -> (r: usize)
        ensures
            r == self.spec_status().len(),
    {
        self.status.len()
    }

    /// The subgizmo that holds the current drag, if any.
    pub fn active(&self) -> (r: Option<usize>)
        ensures
            r == self.spec_active(),
    {
        self.active
    }

    /// Whether a drag gesture is in progress.
    pub fn is_dragging(&self) -> (r: bool)
        ensures
            r == self.spec_active() is Some,
    {
        self.active.is_some()
    }

    /// The flags of subgizmo `i`.
    pub fn status(&self, i: usize) -> (r: SubGizmoStatus)
        requires
            i < self.spec_status().len(),
        ensures
            r == self.spec_status()[i as int],
    {
        self.status[i]
    }

    /// Whether any subgizmo is focused.
    pub fn any_focused(&self) -> (r: bool)
        ensures
            r == exists|i: int| 0 <= i < self.spec_status().len() && #[trigger] self.spec_status()[i].focused,
    {
        let mut i: usize = 0;
        while i < self.status.len()
            invariant
                i <= self.status@.len(),
                forall|k: int| 0 <= k < i ==> !(#[trigger] self.status@[k]).focused,
            decreases self.status@.len() - i,
        {
            if self.status[i].focused {
                assert(self.spec_status()[i as int].focused);
                return true;
            }
            i = i + 1;
        }
        false
    }

    /// Whether subgizmo `i` contributes draw geometry: all do while no drag
    /// is in progress, only the active one during a drag.
    pub fn is_drawn(&self, i: usize) -> (r: bool)
        requires
            self.wf(),
            i < self.spec_status().len(),
        ensures
            r == (self.spec_active() is None || self.spec_active() == Some(i)),
    {
        self.active.is_none() || self.status[i].active
    }

    fn clear_focus(&mut self)
        ensures
            final(self).active == old(self).active,
            final(self).status@ == unfocused(old(self).status@),
    {
        let mut i: usize = 0;
        let ghost start = self.status@;
        while i < self.status.len()
            invariant
                self.active == old(self).active,
                start == old(self).status@,
                i <= self.status@.len(),
                self.status@.len() == start.len(),
                forall|k: int| 0 <= k < i ==> #[trigger] self.status@[k] == (SubGizmoStatus { focused: false, active: start[k].active }),
                forall|k: int| i <= k < self.status@.len() ==> #[trigger] self.status@[k] == start[k],
            decreases self.status@.len() - i,
        {
            let active = self.status[i].active;
            self.status.set(i, SubGizmoStatus { focused: false, active });
            i = i + 1;
        }
        proof {
            assert(self.status@ =~= unfocused(start));
        }
    }

    /// Runs the decisions of one frame.
    ///
    /// `hits` holds, for each subgizmo, the key of its hit distance along
    /// the pointer ray (see `pick_closest`).
    pub fn frame(&mut self, hits: &Vec<Option<u64>>, drag_started: bool, dragging: bool) -> (r:
        FrameStep)
        requires
            old(self).wf(),
            hits@.len() == old(self).spec_status().len(),
        ensures
            final(self).wf(),
            final(self).spec_status().len() == old(self).spec_status().len(),
            (final(self).spec_active(), final(self).spec_status(), r) == after_frame(
                old(self).spec_active(),
                old(self).spec_status(),
                hits@,
                drag_started,
                dragging,
            ),
    {
        self.clear_focus();
        let mut started = false;
        if self.active.is_none() {
            let picked = pick_closest(hits);
            if let Some(i) = picked {
                proof {
                    lemma_pick_unique(hits@, i as int, choose|k: int| is_first_closest(hits@, k));
                }
                let a = self.status[i].active;
                self.status.set(i, SubGizmoStatus { focused: true, active: a });
                // Starting a drag on the focused subgizmo makes it the active one.
                if drag_started {
                    self.active = Some(i);
                    started = true;
                }
            }
        }
        assert((self.active, self.status@, started) == after_pick(
            old(self).active,
            old(self).status@,
            hits@,
            drag_started,
        ));
        let mut drive: Option<usize> = None;
        if let Some(a) = self.active {
            if dragging {
                self.status.set(a, SubGizmoStatus { focused: true, active: true });
                drive = Some(a);
            } else {
                self.status.set(a, SubGizmoStatus { focused: false, active: false });
                self.active = None;
            }
        }
        proof {
            lemma_frame_keeps_wf(old(self).active, old(self).status@, hits@, drag_started, dragging);
        }
        FrameStep { drive, started }
    }
}

/// At most one subgizmo is active at any time.
pub proof fn lemma_single_active(active: Option<usize>, status: Seq<SubGizmoStatus>, i: int, j: int)
    requires
        state_wf(active, status),
        0 <= i < status.len(),
        0 <= j < status.len(),
        status[i].active,
        status[j].active,
    ensures
        i == j,
{
}

/// Every frame keeps the state well formed, so across any sequence of
/// frames at most one subgizmo is active.
pub proof fn lemma_frame_keeps_wf(
    active: Option<usize>,
    status: Seq<SubGizmoStatus>,
    hits: Seq<Option<u64>>,
    drag_started: bool,
    dragging: bool,
)
    requires
        state_wf(active, status),
        hits.len() == status.len(),
    ensures
        ({
            let (a, s, _) = after_frame(active, status, hits, drag_started, dragging);
            state_wf(a, s) && s.len() == status.len()
        }),
{
    let cleared = unfocused(status);
    assert forall|i: int| 0 <= i < status.len() implies #[trigger] cleared[i].active
        == status[i].active && !cleared[i].focused by {}
    if !no_hit(hits) {
        let j = choose|j: int| 0 <= j < hits.len() && !(#[trigger] hits[j] is None);
        lemma_first_closest_exists(hits, j);
    }
    assert(after_pick(active, status, hits, drag_started).1.len() == status.len());
}

proof fn lemma_first_closest_exists(hits: Seq<Option<u64>>, j: int)
    requires
        0 <= j < hits.len(),
        hits[j] is Some,
    ensures
        exists|k: int| is_first_closest(hits, k),
    decreases hits.len(),
{
    let n = hits.len() - 1;
    let init = hits.subrange(0, n);
    if j == n && no_hit(init) {
        assert forall|m: int| 0 <= m < n implies #[trigger] hits[m] is None by {
            assert(init[m] == hits[m]);
        }
        assert(is_first_closest(hits, n));
    } else {
        let jj = if j < n { j } else { choose|m: int| 0 <= m < init.len() && !(#[trigger] init[m] is None) };
        assert(init[jj] is Some);
        lemma_first_closest_exists(init, jj);
        let k = choose|k: int| is_first_closest(init, k);
        assert(init[k] == hits[k]);
        if hits[n] is Some && hits[n]->0 < hits[k]->0 {
            assert(is_first_closest(hits, n)) by {
                assert forall|m: int| 0 <= m < n && #[trigger] hits[m] is Some implies hits[n]->0 < hits[m]->0 by {
                    assert(init[m] == hits[m]);
                }
            }
        } else {
            assert(is_first_closest(hits, k)) by {
                assert forall|m: int| 0 <= m < hits.len() && #[trigger] hits[m] is Some implies hits[k]->0 <= hits[m]->0 by {
                    if m < n {
                        assert(init[m] == hits[m]);
                    }
                }
                assert forall|m: int| 0 <= m < k && #[trigger] hits[m] is Some implies hits[k]->0 < hits[m]->0 by {
                    assert(init[m] == hits[m]);
                }
            }
        }
    }
}

/// A frame without dragging drives no subgizmo, so no target moves, and
/// leaves no drag in progress.
pub proof fn lemma_idle_frame(
    active: Option<usize>,
    status: Seq<SubGizmoStatus>,
    hits: Seq<Option<u64>>,
    drag_started: bool,
)
    requires
        state_wf(active, status),
        hits.len() == status.len(),
    ensures
        ({
            let (a, s, r) = after_frame(active, status, hits, drag_started, false);
            r.drive is None && a is None
        }),
{
}

/// With no drag in progress, repeating a frame without dragging and with
/// the same pointer input changes nothing more: the state after it is a
/// fixed point of that frame.
pub proof fn lemma_idle_frame_repeats(
    status: Seq<SubGizmoStatus>,
    hits: Seq<Option<u64>>,
    drag_started: bool,
)
    requires
        state_wf(None, status),
        hits.len() == status.len(),
    ensures
        ({
            let (a1, s1, r1) = after_frame(None, status, hits, drag_started, false);
            after_frame(a1, s1, hits, drag_started, false) == (a1, s1, r1)
        }),
{
    let (a1, s1, r1) = after_frame(None, status, hits, drag_started, false);
    let (_, p1, _) = after_pick(None, status, hits, drag_started);
    if !no_hit(hits) {
        let j = choose|j: int| 0 <= j < hits.len() && !(#[trigger] hits[j] is None);
        lemma_first_closest_exists(hits, j);
    }
    let cleared = unfocused(status);
    assert forall|i: int| 0 <= i < status.len() implies #[trigger] cleared[i] == (SubGizmoStatus {
        focused: false,
        active: false,
    }) by {}
    assert(p1.len() == status.len());
    assert(s1.len() == status.len());
    assert forall|i: int| 0 <= i < status.len() implies !(#[trigger] s1[i]).active by {}
    let c1 = unfocused(s1);
    assert forall|i: int| 0 <= i < status.len() implies #[trigger] c1[i] == cleared[i] by {}
    assert(c1 =~= cleared);
}

} // verus!
