use vstd::prelude::*;

verus! {

/// The six indices of a quad's two clockwise triangles over its four vertices
/// (top left, top right, bottom left, bottom right): (bottom left, top left,
/// bottom right) and (top left, top right, bottom right).
pub fn quad_indices() -> (r: Vec<u16>)
    ensures
        r@ == seq![2u16, 0u16, 3u16, 0u16, 1u16, 3u16],
{
    let r = vec![2, 0, 3, 0, 1, 3];
    assert(r@ =~= seq![2u16, 0u16, 3u16, 0u16, 1u16, 3u16]);
    r
}

/// A primitive's triangle indices, with the number of vertices it has.
pub type PrimitiveIndices = (Vec<u16>, u16);

/// The number of vertices of all the primitives together.
pub open spec fn total_vertices(ps: Seq<PrimitiveIndices>) -> int
    decreases ps.len(),
{
    if ps.len() == 0 {
        0
    } else {
        total_vertices(ps.drop_last()) + ps.last().1
    }
}

/// The indices of a primitive, moved past the vertices of the primitives before it.
pub open spec fn shifted(indices: Seq<u16>, offset: int) -> Seq<u16> {
    indices.map_values(|i: u16| (i + offset) as u16)
}

/// The indices of all the primitives drawn as one mesh: each primitive's
/// indices follow those before it, shifted by the vertices before it.
pub open spec fn spec_merge(ps: Seq<PrimitiveIndices>) -> Seq<u16>
    decreases ps.len(),
{
    if ps.len() == 0 {
        Seq::empty()
    } else {
        spec_merge(ps.drop_last()) + shifted(ps.last().0@, total_vertices(ps.drop_last()))
    }
}

/// The shifted indices all fit in 16 bits.
pub open spec fn merge_fits(ps: Seq<PrimitiveIndices>) -> bool {
    &&& total_vertices(ps) <= u16::MAX
    &&& forall|k: int, j: int|
        0 <= k < ps.len() && 0 <= j < ps[k].0@.len() ==> total_vertices(ps.take(k)) + #[trigger] ps[k].0@[j]
            <= u16::MAX
}

proof fn lemma_total_vertices_monotone(ps: Seq<PrimitiveIndices>, k: int)
    requires
        0 <= k <= ps.len(),
    ensures
        0 <= total_vertices(ps.take(k)) <= total_vertices(ps),
    decreases ps.len() - k,
{
    if k == ps.len() {
        assert(ps.take(k) =~= ps);
        lemma_total_vertices_nonneg(ps);
    } else {
        lemma_total_vertices_monotone(ps, k + 1);
        assert(ps.take(k + 1).drop_last() =~= ps.take(k));
        assert(total_vertices(ps.take(k + 1)) == total_vertices(ps.take(k)) + ps.take(k + 1).last().1);
        lemma_total_vertices_nonneg(ps.take(k));
    }
}

proof fn lemma_total_vertices_nonneg(ps: Seq<PrimitiveIndices>)
    ensures
        total_vertices(ps) >= 0,
    decreases ps.len(),
{
    if ps.len() > 0 {
        lemma_total_vertices_nonneg(ps.drop_last());
    }
}

/// The number of indices of all the primitives together.
pub open spec fn total_indices(ps: Seq<PrimitiveIndices>) -> int
    decreases ps.len(),
{
    if ps.len() == 0 {
        0
    } else {
        total_indices(ps.drop_last()) + ps.last().0@.len()
    }
}

/// Every index of every primitive names one of that primitive's own vertices.
pub open spec fn indices_name_own_vertices(ps: Seq<PrimitiveIndices>) -> bool {
    forall|k: int, j: int| 0 <= k < ps.len() && 0 <= j < ps[k].0@.len() ==> #[trigger] ps[k].0@[j] < ps[k].1
}

/// Every primitive is drawn as whole triangles: three indices each.
pub open spec fn whole_triangles(ps: Seq<PrimitiveIndices>) -> bool {
    forall|k: int| 0 <= k < ps.len() ==> #[trigger] ps[k].0@.len() % 3 == 0
}

proof fn lemma_merge_len(ps: Seq<PrimitiveIndices>)
    ensures
        spec_merge(ps).len() == total_indices(ps),
    decreases ps.len(),
{
    if ps.len() > 0 {
        lemma_merge_len(ps.drop_last());
    }
}

proof fn lemma_whole_triangles(ps: Seq<PrimitiveIndices>)
    requires
        whole_triangles(ps),
    ensures
        total_indices(ps) % 3 == 0,
    decreases ps.len(),
{
    if ps.len() > 0 {
        let init = ps.drop_last();
        assert forall|k: int| 0 <= k < init.len() implies #[trigger] init[k].0@.len() % 3 == 0 by {
            assert(init[k] == ps[k]);
        }
        lemma_whole_triangles(init);
        assert(ps.last().0@.len() % 3 == 0) by {
            assert(ps[ps.len() - 1] == ps.last());
        }
    }
}

/// The indices of all the primitives drawn as one mesh, each primitive's
/// indices shifted past the vertices of the primitives before it. The mesh has
/// as many indices as its primitives together; when each primitive's indices
/// name its own vertices, every index names a vertex of the mesh; and when each
/// primitive is drawn as whole triangles, so is the mesh.
pub fn merge_indices(primitives: &Vec<PrimitiveIndices>) -> (r: Vec<u16>)
    requires
        merge_fits(primitives@),
    ensures
        r@ == spec_merge(primitives@),
        r@.len() == total_indices(primitives@),
        indices_name_own_vertices(primitives@) ==> forall|i: int|
            0 <= i < r@.len() ==> #[trigger] r@[i] < total_vertices(primitives@),
        whole_triangles(primitives@) ==> r@.len() % 3 == 0,
{
    let mut indices: Vec<u16> = Vec::new();
    let mut offset: u16 = 0;
    let mut k: usize = 0;
    while k < primitives.len()
        invariant
            merge_fits(primitives@),
            k <= primitives@.len(),
            offset == total_vertices(primitives@.take(k as int)),
            indices@ == spec_merge(primitives@.take(k as int)),
        decreases primitives@.len() - k,
    {
        let prim = &primitives[k];
        let ghost before = indices@;
        let ghost ps = primitives@;
        proof {
            lemma_total_vertices_monotone(ps, k + 1);
            assert(ps.take(k + 1).drop_last() =~= ps.take(k as int));
            assert(ps.take(k + 1).last() == ps[k as int]);
        }
        let mut j: usize = 0;
        while j < prim.0.len()
            invariant
                merge_fits(primitives@),
                ps == primitives@,
                k < ps.len(),
                *prim == ps[k as int],
                offset == total_vertices(ps.take(k as int)),
                j <= prim.0@.len(),
                indices@ == before + shifted(prim.0@.take(j as int), offset as int),
            decreases prim.0@.len() - j,
        {
            let idx = prim.0[j];
            assert(total_vertices(ps.take(k as int)) + ps[k as int].0@[j as int] <= u16::MAX);
            indices.push(idx + offset);
            assert(shifted(prim.0@.take(j + 1), offset as int) =~= shifted(prim.0@.take(j as int), offset as int).push(
                (idx + offset) as u16,
            ));
            j = j + 1;
        }
        assert(prim.0@.take(prim.0@.len() as int) =~= prim.0@);
        offset = offset + prim.1;
        k = k + 1;
    }
    assert(primitives@.take(primitives@.len() as int) =~= primitives@);
    proof {
        lemma_merge_len(primitives@);
        if indices_name_own_vertices(primitives@) {
            lemma_merged_indices_in_range(primitives@);
        }
        if whole_triangles(primitives@) {
            lemma_whole_triangles(primitives@);
        }
    }
    indices
}

/// Merging keeps every index inside the merged vertex list: if each
/// primitive's indices point at its own vertices, the merged indices point at
/// the vertices of the whole mesh.
pub proof fn lemma_merged_indices_in_range(ps: Seq<PrimitiveIndices>)
    requires
        merge_fits(ps),
        forall|k: int, j: int| 0 <= k < ps.len() && 0 <= j < ps[k].0@.len() ==> #[trigger] ps[k].0@[j] < ps[k].1,
    ensures
        forall|i: int| 0 <= i < spec_merge(ps).len() ==> #[trigger] spec_merge(ps)[i] < total_vertices(ps),
    decreases ps.len(),
{
    if ps.len() > 0 {
        let init = ps.drop_last();
        assert forall|k: int, j: int| 0 <= k < init.len() && 0 <= j < init[k].0@.len()
            implies total_vertices(init.take(k)) + #[trigger] init[k].0@[j] <= u16::MAX by {
            assert(init.take(k) =~= ps.take(k));
            assert(init[k] == ps[k]);
        }
        assert(init.take(init.len() as int) =~= init);
        lemma_total_vertices_monotone(ps, init.len() as int);
        assert(ps.take(init.len() as int) =~= init);
        lemma_merged_indices_in_range(init);
        let last = ps.last();
        let off = total_vertices(init);
        lemma_total_vertices_nonneg(init);
        assert forall|i: int| 0 <= i < spec_merge(ps).len() implies #[trigger] spec_merge(ps)[i] < total_vertices(ps) by {
            let m = spec_merge(init);
            if i >= m.len() {
                let j = i - m.len();
                assert(last.0@[j] < last.1) by {
                    assert(ps[ps.len() - 1] == last);
                }
                assert(off + last.0@[j] <= u16::MAX) by {
                    assert(ps[ps.len() - 1] == last);
                }
                assert(spec_merge(ps)[i] == shifted(last.0@, off)[j]);
            } else {
                assert(spec_merge(ps)[i] == m[i]);
            }
        }
    }
}

/// Every primitive is a quad: the six quad indices over four vertices.
pub open spec fn all_quads(ps: Seq<PrimitiveIndices>) -> bool {
    forall|k: int| 0 <= k < ps.len() ==> #[trigger] ps[k].0@ == seq![2u16, 0u16, 3u16, 0u16, 1u16, 3u16] && ps[k].1
        == 4
}

proof fn lemma_quad_totals(ps: Seq<PrimitiveIndices>)
    requires
        all_quads(ps),
    ensures
        total_vertices(ps) == 4 * ps.len(),
        total_indices(ps) == 6 * ps.len(),
    decreases ps.len(),
{
    if ps.len() > 0 {
        let init = ps.drop_last();
        assert forall|k: int| 0 <= k < init.len() implies #[trigger] init[k].0@ == seq![
            2u16,
            0u16,
            3u16,
            0u16,
            1u16,
            3u16,
        ] && init[k].1 == 4 by {
            assert(init[k] == ps[k]);
            assert(ps[k].0@ == seq![2u16, 0u16, 3u16, 0u16, 1u16, 3u16]);
        }
        lemma_quad_totals(init);
        assert(ps[ps.len() - 1] == ps.last());
        assert(ps[ps.len() - 1].0@ == seq![2u16, 0u16, 3u16, 0u16, 1u16, 3u16]);
    }
}

/// A mesh of `n` quads has `4 n` vertices and `6 n` indices, two whole
/// triangles per quad, and every one of its indices names one of its vertices.
pub proof fn lemma_quad_mesh(ps: Seq<PrimitiveIndices>)
    requires
        all_quads(ps),
        4 * ps.len() <= u16::MAX,
    ensures
        merge_fits(ps),
        total_vertices(ps) == 4 * ps.len(),
        spec_merge(ps).len() == 6 * ps.len(),
        forall|i: int| 0 <= i < spec_merge(ps).len() ==> #[trigger] spec_merge(ps)[i] < 4 * ps.len(),
{
    lemma_quad_totals(ps);
    lemma_merge_len(ps);
    assert forall|k: int, j: int|
        0 <= k < ps.len() && 0 <= j < ps[k].0@.len() implies total_vertices(ps.take(k)) + #[trigger] ps[k].0@[j]
        <= u16::MAX by {
        let t = ps.take(k);
        assert forall|m: int| 0 <= m < t.len() implies #[trigger] t[m].0@ == seq![
            2u16,
            0u16,
            3u16,
            0u16,
            1u16,
            3u16,
        ] && t[m].1 == 4 by {
            assert(t[m] == ps[m]);
            assert(ps[m].0@ == seq![2u16, 0u16, 3u16, 0u16, 1u16, 3u16]);
        }
        lemma_quad_totals(t);
        assert(ps[k].0@ == seq![2u16, 0u16, 3u16, 0u16, 1u16, 3u16]);
        assert(ps[k].0@[j] <= 3);
    }
    assert forall|k: int, j: int| 0 <= k < ps.len() && 0 <= j < ps[k].0@.len() implies #[trigger] ps[k].0@[j]
        < ps[k].1 by {
        assert(ps[k].0@ == seq![2u16, 0u16, 3u16, 0u16, 1u16, 3u16]);
    }
    lemma_merged_indices_in_range(ps);
}

} // verus!
