//! Packing of a layer's contours into parallel coordinate, point-type and
//! contour-boundary arrays.
use vstd::prelude::*;
use crate::model::{Node, NodeType, Number, Path, path_wf, paths_wf};
use crate::view::{ContourInfo, PackedPath};

verus! {

/// `1` for an off-curve node, `0` for every kind of on-curve node.
pub open spec fn point_type_code(t: NodeType) -> i32 {
    if t == NodeType::OffCurve {
        1
    } else {
        0
    }
}

/// The nodes of all contours, one contour after the other.
pub open spec fn all_nodes(paths: Seq<Path>) -> Seq<Node>
    decreases paths.len(),
{
    if paths.len() == 0 {
        Seq::empty()
    } else {
        all_nodes(paths.drop_last()) + paths.last().nodes@
    }
}

/// `x0, y0, x1, y1, ...` for the given nodes.
pub open spec fn coords_of(nodes: Seq<Node>) -> Seq<Number> {
    Seq::new(2 * nodes.len(), |i: int| if i % 2 == 0 { nodes[i / 2].x } else { nodes[i / 2].y })
}

pub open spec fn types_of(nodes: Seq<Node>) -> Seq<i32> {
    nodes.map_values(|n: Node| point_type_code(n.nodetype))
}

/// One entry per contour: the index of its last point and its closed flag.
pub open spec fn contours_of(paths: Seq<Path>) -> Seq<ContourInfo> {
    Seq::new(
        paths.len(),
        |i: int|
            ContourInfo {
                end_point: (all_nodes(paths.take(i + 1)).len() - 1) as usize,
                is_closed: paths[i].closed,
            },
    )
}

/// `r` is the packing of `paths`.
pub open spec fn packs(r: PackedPath, paths: Seq<Path>) -> bool {
    &&& r.coordinates@ == coords_of(all_nodes(paths))
    &&& r.point_types@ == types_of(all_nodes(paths))
    &&& r.contour_info@ == contours_of(paths)
    &&& 2 * all_nodes(paths).len() <= usize::MAX
}

proof fn lemma_all_nodes_step(paths: Seq<Path>, i: int)
    requires
        0 <= i < paths.len(),
    ensures
        all_nodes(paths.take(i + 1)) == all_nodes(paths.take(i)) + paths[i].nodes@,
{
    assert(paths.take(i + 1).drop_last() =~= paths.take(i));
}

proof fn lemma_all_nodes_grow(paths: Seq<Path>, i: int)
    requires
        0 <= i < paths.len(),
        paths_wf(paths),
    ensures
        all_nodes(paths.take(i + 1)).len() >= all_nodes(paths.take(i)).len() + 1,
{
    lemma_all_nodes_step(paths, i);
    assert(path_wf(paths[i]));
}

/// Flattens a layer's contours, in order, into one packed path.
pub fn pack_paths(paths: &Vec<Path>) -> (r: PackedPath)
    requires
        paths_wf(paths@),
    ensures
        packs(r, paths@),
{
    let mut coordinates: Vec<Number> = Vec::new();
    let mut point_types: Vec<i32> = Vec::new();
    let mut contour_info: Vec<ContourInfo> = Vec::new();
    let n = paths.len();
    let mut i: usize = 0;
    while i < n
        invariant
            n == paths@.len(),
            0 <= i <= n,
            paths_wf(paths@),
            coordinates@ == coords_of(all_nodes(paths@.take(i as int))),
            point_types@ == types_of(all_nodes(paths@.take(i as int))),
            contour_info@ == contours_of(paths@.take(i as int)),
            2 * all_nodes(paths@.take(i as int)).len() <= usize::MAX,
        decreases n - i,
    {
        let path = &paths[i];
        let ghost base = all_nodes(paths@.take(i as int));
        let m = path.nodes.len();
        let mut j: usize = 0;
        while j < m
            invariant
                m == path.nodes@.len(),
                0 <= j <= m,
                coordinates@ == coords_of(base + path.nodes@.take(j as int)),
                point_types@ == types_of(base + path.nodes@.take(j as int)),
            decreases m - j,
        {
            let node = path.nodes[j];
            let ghost before = base + path.nodes@.take(j as int);
            let ghost after = base + path.nodes@.take(j as int + 1);
            assert(after =~= before.push(node));
            coordinates.push(node.x);
            coordinates.push(node.y);
            let code: i32 = match node.nodetype {
                NodeType::OffCurve => 1,
                _ => 0,
            };
            point_types.push(code);
            assert(coordinates@ =~= coords_of(after));
            assert(point_types@ =~= types_of(after));
            j = j + 1;
        }
        proof {
            assert(path.nodes@.take(m as int) =~= path.nodes@);
            lemma_all_nodes_step(paths@, i as int);
            lemma_all_nodes_grow(paths@, i as int);
            assert(paths@.take(i as int + 1).take(i as int + 1) =~= paths@.take(i as int + 1));
        }
        let end_point = coordinates.len() / 2 - 1;
        contour_info.push(ContourInfo { end_point, is_closed: path.closed });
        proof {
            let prev = paths@.take(i as int);
            let next = paths@.take(i as int + 1);
            assert forall|k: int| 0 <= k < i implies #[trigger] next.take(k + 1) =~= prev.take(k + 1) by {}
            assert(contour_info@ =~= contours_of(next));
        }
        i = i + 1;
    }
    assert(paths@.take(n as int) =~= paths@);
    PackedPath { coordinates, point_types, contour_info }
}

proof fn lemma_all_nodes_prefix(paths: Seq<Path>, k: int)
    requires
        0 <= k <= paths.len(),
    ensures
        all_nodes(paths.take(k)).len() <= all_nodes(paths).len(),
    decreases paths.len() - k,
{
    if k < paths.len() {
        lemma_all_nodes_step(paths, k);
        lemma_all_nodes_prefix(paths, k + 1);
    } else {
        assert(paths.take(k) =~= paths);
    }
}

/// Packing `P` points in `C` contours gives `2P` coordinates, `P` point types
/// and `C` contour entries, and the last contour ends at point `P - 1`.
pub proof fn lemma_packed_lengths(paths: Seq<Path>, r: PackedPath)
    requires
        paths_wf(paths),
        packs(r, paths),
    ensures
        r.coordinates@.len() == 2 * all_nodes(paths).len(),
        r.point_types@.len() == all_nodes(paths).len(),
        r.contour_info@.len() == paths.len(),
        paths.len() > 0 ==> r.contour_info@.last().end_point == all_nodes(paths).len() - 1,
{
    if paths.len() > 0 {
        let c = paths.len() - 1;
        lemma_all_nodes_grow(paths, c);
        assert(paths.take(c + 1) =~= paths);
    }
}

/// The contours' end points strictly increase.
pub proof fn lemma_contour_ends_increase(paths: Seq<Path>, r: PackedPath, i: int)
    requires
        paths_wf(paths),
        packs(r, paths),
        0 <= i,
        i + 1 < paths.len(),
    ensures
        r.contour_info@[i].end_point < r.contour_info@[i + 1].end_point,
{
    lemma_all_nodes_grow(paths, i);
    lemma_all_nodes_grow(paths, i + 1);
    lemma_all_nodes_prefix(paths, i + 2);
}

/// Each contour entry carries the closed flag of its contour.
pub proof fn lemma_closed_flags(paths: Seq<Path>, r: PackedPath, i: int)
    requires
        packs(r, paths),
        0 <= i < paths.len(),
    ensures
        r.contour_info@[i].is_closed == paths[i].closed,
{
}

} // verus!
