//! Static mesh topology for the six polyhedron kinds: how many vertices
//! each mesh has, and the triangle index list that forms its faces. The
//! tables are fixed data, built once at renderer construction and never
//! mutated; vertex positions and colors are plain floating-point data and
//! live with the GPU code outside this library.

use vstd::prelude::*;

use crate::die::DieKind;

verus! {

/// The number of vertices of the static mesh for the given kind.
/// The ten-sided mesh is a tetrahedron stand-in, so it shares the
/// four-sided counts.
pub open spec fn vertex_count(kind: DieKind) -> nat {
    match kind {
        DieKind::Four => 4,
        DieKind::Six => 8,
        DieKind::Eight => 6,
        DieKind::Ten => 4,
        DieKind::Twelve => 20,
        DieKind::Twenty => 12,
    }
}

/// The number of triangles of the static mesh for the given kind: one per
/// face of the tetrahedron and octahedron, two per square face of the
/// cube, three per pentagonal face of the dodecahedron, one per face of
/// the icosahedron, and the tetrahedron stand-in for the ten-sided die.
pub open spec fn triangle_count(kind: DieKind) -> nat {
    match kind {
        DieKind::Four => 4,
        DieKind::Six => 12,
        DieKind::Eight => 8,
        DieKind::Ten => 4,
        DieKind::Twelve => 36,
        DieKind::Twenty => 20,
    }
}

/// Tetrahedron: each triangle is a face.
pub open spec fn four_index_table() -> Seq<u16> {
    seq![
        0, 1, 2,
        0, 2, 3,
        0, 1, 3,
        1, 2, 3,
    ]
}

/// Cube: two triangles per square face.
pub open spec fn six_index_table() -> Seq<u16> {
    seq![
        0, 1, 2,
        2, 3, 0,
        4, 5, 6,
        6, 7, 4,
        0, 4, 7,
        7, 3, 0,
        1, 5, 6,
        6, 2, 1,
        3, 2, 6,
        6, 7, 3,
        0, 1, 5,
        5, 4, 0,
    ]
}

/// Octahedron: each triangle is a face.
pub open spec fn eight_index_table() -> Seq<u16> {
    seq![
        0, 2, 4,
        0, 2, 5,
        0, 3, 4,
        0, 3, 5,
        1, 2, 4,
        1, 2, 5,
        1, 3, 4,
        1, 3, 5,
    ]
}

/// Ten-sided stand-in: the tetrahedron topology.
pub open spec fn ten_index_table() -> Seq<u16> {
    seq![
        0, 1, 2,
        0, 2, 3,
        0, 1, 3,
        1, 2, 3,
    ]
}

/// Dodecahedron: three triangles per pentagonal face. Note that this
/// table names vertex 20 while the mesh has vertices 0 through 19 only,
/// so it fails `mesh_well_formed`; see `lemma_mesh_bounds`.
pub open spec fn twelve_index_table() -> Seq<u16> {
    seq![
        0, 1, 9,
        0, 1, 14,
        0, 14, 13,
        0, 13, 3,
        0, 3, 19,
        0, 19, 18,
        0, 17, 2,
        0, 2, 10,
        0, 10, 9,
        8, 7, 20,
        8, 7, 11,
        8, 11, 12,
        8, 12, 6,
        8, 6, 15,
        8, 15, 16,
        8, 16, 5,
        8, 5, 18,
        8, 18, 20,
        20, 18, 4,
        20, 4, 14,
        20, 14, 7,
        11, 7, 14,
        11, 14, 13,
        11, 13, 3,
        11, 3, 19,
        11, 19, 6,
        11, 6, 12,
        15, 6, 19,
        15, 19, 17,
        15, 17, 2,
        15, 2, 10,
        15, 10, 5,
        15, 5, 16,
        5, 10, 9,
        5, 9, 4,
        5, 4, 18,
    ]
}

/// Icosahedron: each triangle is a face.
pub open spec fn twenty_index_table() -> Seq<u16> {
    seq![
        0, 1, 10,
        0, 10, 6,
        0, 6, 4,
        0, 4, 8,
        0, 8, 1,
        1, 8, 5,
        1, 5, 7,
        1, 7, 10,
        2, 3, 9,
        2, 9, 4,
        2, 4, 6,
        2, 6, 11,
        2, 11, 3,
        3, 9, 5,
        3, 5, 7,
        3, 7, 11,
        4, 8, 9,
        5, 8, 9,
        6, 10, 11,
        7, 10, 11,
    ]
}

/// The triangle index list of the static mesh for the given kind.
pub open spec fn index_table(kind: DieKind) -> Seq<u16> {
    match kind {
        DieKind::Four => four_index_table(),
        DieKind::Six => six_index_table(),
        DieKind::Eight => eight_index_table(),
        DieKind::Ten => ten_index_table(),
        DieKind::Twelve => twelve_index_table(),
        DieKind::Twenty => twenty_index_table(),
    }
}

/// A mesh is well formed when every index of its triangle list names one
/// of its vertices.
pub open spec fn mesh_well_formed(kind: DieKind) -> bool {
    forall|i: int|
        0 <= i < index_table(kind).len() ==> (index_table(kind)[i] as nat) < vertex_count(kind)
}

/// The number of vertices of the static mesh for the given kind.
pub fn mesh_vertex_count(kind: DieKind) -> (n: u16)
    ensures
        n == vertex_count(kind),
{
    match kind {
        DieKind::Four => 4,
        DieKind::Six => 8,
        DieKind::Eight => 6,
        DieKind::Ten => 4,
        DieKind::Twelve => 20,
        DieKind::Twenty => 12,
    }
}

/// The triangle index list of the static mesh for the given kind, three
/// entries per triangle.
pub fn indices(kind: DieKind) -> (v: Vec<u16>)
    ensures
        v@ =~= index_table(kind),
        v@.len() == 3 * triangle_count(kind),
{
    match kind {
        DieKind::Four | DieKind::Ten => {
            vec![
                0, 1, 2,
                0, 2, 3,
                0, 1, 3,
                1, 2, 3,
            ]
        },
        DieKind::Six => {
            vec![
                0, 1, 2,
                2, 3, 0,
                4, 5, 6,
                6, 7, 4,
                0, 4, 7,
                7, 3, 0,
                1, 5, 6,
                6, 2, 1,
                3, 2, 6,
                6, 7, 3,
                0, 1, 5,
                5, 4, 0,
            ]
        },
        DieKind::Eight => {
            vec![
                0, 2, 4,
                0, 2, 5,
                0, 3, 4,
                0, 3, 5,
                1, 2, 4,
                1, 2, 5,
                1, 3, 4,
                1, 3, 5,
            ]
        },
        DieKind::Twelve => {
            vec![
                0, 1, 9,
                0, 1, 14,
                0, 14, 13,
                0, 13, 3,
                0, 3, 19,
                0, 19, 18,
                0, 17, 2,
                0, 2, 10,
                0, 10, 9,
                8, 7, 20,
                8, 7, 11,
                8, 11, 12,
                8, 12, 6,
                8, 6, 15,
                8, 15, 16,
                8, 16, 5,
                8, 5, 18,
                8, 18, 20,
                20, 18, 4,
                20, 4, 14,
                20, 14, 7,
                11, 7, 14,
                11, 14, 13,
                11, 13, 3,
                11, 3, 19,
                11, 19, 6,
                11, 6, 12,
                15, 6, 19,
                15, 19, 17,
                15, 17, 2,
                15, 2, 10,
                15, 10, 5,
                15, 5, 16,
                5, 10, 9,
                5, 9, 4,
                5, 4, 18,
            ]
        },
        DieKind::Twenty => {
            vec![
                0, 1, 10,
                0, 10, 6,
                0, 6, 4,
                0, 4, 8,
                0, 8, 1,
                1, 8, 5,
                1, 5, 7,
                1, 7, 10,
                2, 3, 9,
                2, 9, 4,
                2, 4, 6,
                2, 6, 11,
                2, 11, 3,
                3, 9, 5,
                3, 5, 7,
                3, 7, 11,
                4, 8, 9,
                5, 8, 9,
                6, 10, 11,
                7, 10, 11,
            ]
        },
    }
}

/// Checks at run time that every index of the kind's triangle list names
/// one of the mesh's vertices.
pub fn check_mesh(kind: DieKind) -> (ok: bool)
    ensures
        ok == mesh_well_formed(kind),
{
    let table = indices(kind);
    let limit = mesh_vertex_count(kind);
    let mut i: usize = 0;
    while i < table.len()
        invariant
            i <= table@.len(),
            table@ =~= index_table(kind),
            limit == vertex_count(kind),
            forall|j: int| 0 <= j < i ==> (table@[j] as nat) < vertex_count(kind),
        decreases table@.len() - i,
    {
        if table[i] >= limit {
            return false;
        }
        i += 1;
    }
    true
}

/// Every mesh but the dodecahedron's is well formed; the dodecahedron's
/// triangle list names vertex 20, one past its last vertex.
pub proof fn lemma_mesh_bounds()
    ensures
        mesh_well_formed(DieKind::Four),
        mesh_well_formed(DieKind::Six),
        mesh_well_formed(DieKind::Eight),
        mesh_well_formed(DieKind::Ten),
        !mesh_well_formed(DieKind::Twelve),
        mesh_well_formed(DieKind::Twenty),
{
    assert(index_table(DieKind::Twelve)[29] == 20);
    assert(vertex_count(DieKind::Twelve) == 20);
}

} // verus!
