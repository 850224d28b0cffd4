use vstd::prelude::*;

verus! {

/// Draw lists of a gizmo: one position and one color per vertex, and
/// triangle indices into the vertices.
///
/// `V` is the vertex position and `C` the vertex color; the host picks
/// their representation.
#[derive(Debug, Clone)]
pub struct GizmoDrawData<V, C> {
    /// Vertices in viewport space.
    pub vertices: Vec<V>,
    /// Linear RGBA colors.
    pub colors: Vec<C>,
    /// Indices to the vertex data.
    pub indices: Vec<u32>,
}

/// `indices` with `offset` added to each.
pub open spec fn rebased(indices: Seq<u32>, offset: int) -> Seq<u32> {
    indices.map_values(|i: u32| (i + offset) as u32)
}

impl<V, C> GizmoDrawData<V, C> {
    /// One color per vertex, and every index names a vertex.
    pub open spec fn wf(&self) -> bool {
        &&& self.colors@.len() == self.vertices@.len()
        &&& forall|k: int|
            0 <= k < self.indices@.len() ==> (#[trigger] self.indices@[k]) < self.vertices@.len()
    }

    /// Empty draw lists.
    pub fn new() -> (r: Self)
        ensures
            r.vertices@.len() == 0,
            r.colors@.len() == 0,
            r.indices@.len() == 0,
            r.wf(),
    {
        GizmoDrawData { vertices: Vec::new(), colors: Vec::new(), indices: Vec::new() }
    }

    /// Appends `rhs` after these lists; its indices are shifted by the
    /// number of vertices already here, so they keep naming its own vertices.
    pub fn add_assign(&mut self, rhs: Self)
        requires
            old(self).vertices@.len() <= u32::MAX,
            forall|k: int|
                0 <= k < rhs.indices@.len() ==> old(self).vertices@.len() + (
                #[trigger] rhs.indices@[k]) <= u32::MAX,
        ensures
            final(self).vertices@ == old(self).vertices@ + rhs.vertices@,
            final(self).colors@ == old(self).colors@ + rhs.colors@,
            final(self).indices@ == old(self).indices@ + rebased(
                rhs.indices@,
                old(self).vertices@.len() as int,
            ),
    {
        let index_offset = self.vertices.len() as u32;
        let mut rhs = rhs;
        let ghost rhs_vertices = rhs.vertices@;
        let ghost rhs_colors = rhs.colors@;
        self.vertices.append(&mut rhs.vertices);
        self.colors.append(&mut rhs.colors);
        let ghost start = self.indices@;
        let mut k: usize = 0;
        while k < rhs.indices.len()
            invariant
                k <= rhs.indices@.len(),
                index_offset == old(self).vertices@.len(),
                start == old(self).indices@,
                self.vertices@ == old(self).vertices@ + rhs_vertices,
                self.colors@ == old(self).colors@ + rhs_colors,
                forall|j: int|
                    0 <= j < rhs.indices@.len() ==> index_offset + (#[trigger] rhs.indices@[j])
                        <= u32::MAX,
                self.indices@ == start + rebased(rhs.indices@.subrange(0, k as int), index_offset as int),
            decreases rhs.indices@.len() - k,
        {
            let idx = rhs.indices[k];
            self.indices.push(index_offset + idx);
            k = k + 1;
            proof {
                assert(rebased(rhs.indices@.subrange(0, k as int), index_offset as int) =~= rebased(
                    rhs.indices@.subrange(0, k - 1),
                    index_offset as int,
                ).push((idx + index_offset) as u32));
            }
        }
        proof {
            assert(rhs.indices@.subrange(0, k as int) =~= rhs.indices@);
        }
    }

    /// These lists followed by `rhs`, as `add_assign` appends them.
    pub fn add(self, rhs: Self) -> (r: Self)
        requires
            self.vertices@.len() <= u32::MAX,
            forall|k: int|
                0 <= k < rhs.indices@.len() ==> self.vertices@.len() + (#[trigger] rhs.indices@[k])
                    <= u32::MAX,
        ensures
            r.vertices@ == self.vertices@ + rhs.vertices@,
            r.colors@ == self.colors@ + rhs.colors@,
            r.indices@ == self.indices@ + rebased(rhs.indices@, self.vertices@.len() as int),
    {
        let mut r = self;
        r.add_assign(rhs);
        r
    }
}

/// Merging two well-formed draw lists gives well-formed lists: every
/// index of the result names a vertex of the merged vertex list.
pub proof fn lemma_merge_wf<V, C>(
    a: GizmoDrawData<V, C>,
    b: GizmoDrawData<V, C>,
    merged: GizmoDrawData<V, C>,
)
    requires
        a.wf(),
        b.wf(),
        merged.vertices@ == a.vertices@ + b.vertices@,
        merged.colors@ == a.colors@ + b.colors@,
        merged.indices@ == a.indices@ + rebased(b.indices@, a.vertices@.len() as int),
        a.vertices@.len() + b.vertices@.len() <= u32::MAX + 1,
    ensures
        merged.wf(),
{
    let n = a.indices@.len();
    let shifted = rebased(b.indices@, a.vertices@.len() as int);
    assert forall|k: int| 0 <= k < merged.indices@.len() implies (#[trigger] merged.indices@[k])
        < merged.vertices@.len() by {
        if k >= n {
            assert(merged.indices@[k] == shifted[k - n]);
            assert(b.indices@[k - n] < b.vertices@.len());
        }
    }
}

} // verus!
