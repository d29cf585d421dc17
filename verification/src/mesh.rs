//! The section mesher: from a local section to the quads of the solid blocks
//! and the quads of the water.

use vstd::prelude::*;
use crate::chunk::{Biome, BlockKind, BlockState, LocalSection};
use crate::position::ChunkSectionPos;

verus! {

/// A face of a block, by the direction it looks in.
#[derive(Debug, Clone, Copy, PartialEq, Eq, Structural)]
pub enum Face {
    /// Toward smaller y.
    Down,
    /// Toward larger y.
    Up,
    /// Toward smaller z.
    North,
    /// Toward larger z.
    South,
    /// Toward smaller x.
    West,
    /// Toward larger x.
    East,
}

/// Number of the three neighbours of a vertex that darken it fully.
pub const AO_MAX: u8 = 3;

/// One vertex of a mesh, in whole numbers: where it lies and what it shows.
/// `x`, `y` and `z` count blocks from the section's low corner, from 0 to 16.
/// `ao` counts the solid blocks among the three neighbours of the vertex
/// beyond the face; the light of the vertex falls with it, and `ao` over
/// `AO_MAX` is the share that is lost. `corner` says which corner of its
/// face the vertex is, which picks the corner of the texture.
#[derive(Debug, Clone, Copy, PartialEq, Eq, Structural)]
pub struct BlockVertex {
    pub x: u8,
    pub y: u8,
    pub z: u8,
    pub ao: u8,
    pub corner: u8,
    pub face: Face,
    pub state: BlockState,
    pub biome: Biome,
}

/// The vertices and the triangles of one mesh of a section.
pub struct MeshData {
    pub vertices: Vec<BlockVertex>,
    pub indices: Vec<u32>,
    pub section_pos: ChunkSectionPos,
}

/// The meshes of a section: the solid blocks, and the water.
pub struct MeshResult {
    pub blocks: MeshData,
    pub water: MeshData,
}

/// The six indices of the two triangles of a quad whose first vertex has
/// the index `start`.
pub open spec fn quad_indices(start: u32) -> Seq<u32> {
    seq![
        start,
        (start + 1) as u32,
        (start + 2) as u32,
        start,
        (start + 2) as u32,
        (start + 3) as u32,
    ]
}

/// The indices of the triangles of `quads` quads whose vertices follow one
/// another from index 0.
pub open spec fn mesh_indices(quads: nat) -> Seq<u32>
    decreases quads,
{
    if quads == 0 {
        Seq::empty()
    } else {
        mesh_indices((quads - 1) as nat) + quad_indices((4 * (quads - 1)) as u32)
    }
}

impl Face {
    /// The faces in the order in which a block's faces are meshed.
    pub open spec fn spec_from_index(index: int) -> Face {
        if index == 0 {
            Face::Down
        } else if index == 1 {
            Face::Up
        } else if index == 2 {
            Face::North
        } else if index == 3 {
            Face::South
        } else if index == 4 {
            Face::West
        } else {
            Face::East
        }
    }

    /// The step from a block to its neighbour beyond the face.
    pub open spec fn spec_normal(self) -> (int, int, int) {
        match self {
            Face::Down => (0, -1, 0),
            Face::Up => (0, 1, 0),
            Face::North => (0, 0, -1),
            Face::South => (0, 0, 1),
            Face::West => (-1, 0, 0),
            Face::East => (1, 0, 0),
        }
    }

    /// The first of the two directions along the face.
    pub open spec fn spec_along_u(self) -> (int, int, int) {
        match self {
            Face::Down | Face::Up | Face::North | Face::South => (1, 0, 0),
            Face::West | Face::East => (0, 0, 1),
        }
    }

    /// The second of the two directions along the face.
    pub open spec fn spec_along_v(self) -> (int, int, int) {
        match self {
            Face::Down | Face::Up => (0, 0, 1),
            Face::North | Face::South | Face::West | Face::East => (0, 1, 0),
        }
    }

    pub fn from_index(index: usize) -> (face: Face)
        requires
            index < 6,
        ensures
            face == Self::spec_from_index(index as int),
    {
        if index == 0 {
            Face::Down
        } else if index == 1 {
            Face::Up
        } else if index == 2 {
            Face::North
        } else if index == 3 {
            Face::South
        } else if index == 4 {
            Face::West
        } else {
            Face::East
        }
    }

    pub fn normal(self) -> (step: (i32, i32, i32))
        ensures
            step.0 == self.spec_normal().0,
            step.1 == self.spec_normal().1,
            step.2 == self.spec_normal().2,
    {
        match self {
            Face::Down => (0, -1, 0),
            Face::Up => (0, 1, 0),
            Face::North => (0, 0, -1),
            Face::South => (0, 0, 1),
            Face::West => (-1, 0, 0),
            Face::East => (1, 0, 0),
        }
    }

    fn along_u(self) -> (step: (i32, i32, i32))
        ensures
            step.0 == self.spec_along_u().0,
            step.1 == self.spec_along_u().1,
            step.2 == self.spec_along_u().2,
    {
        match self {
            Face::Down | Face::Up | Face::North | Face::South => (1, 0, 0),
            Face::West | Face::East => (0, 0, 1),
        }
    }

    fn along_v(self) -> (step: (i32, i32, i32))
        ensures
            step.0 == self.spec_along_v().0,
            step.1 == self.spec_along_v().1,
            step.2 == self.spec_along_v().2,
    {
        match self {
            Face::Down | Face::Up => (0, 0, 1),
            Face::North | Face::South | Face::West | Face::East => (0, 1, 0),
        }
    }
}

/// Whether a corner of a face lies on the far side of the face along the
/// face's first direction: the corners go round the face, from the low
/// corner along the first direction.
pub open spec fn corner_u(corner: int) -> bool {
    corner == 1 || corner == 2
}

/// Whether a corner of a face lies on the far side of the face along the
/// face's second direction.
pub open spec fn corner_v(corner: int) -> bool {
    corner == 2 || corner == 3
}

/// A step taken on the far side, none on the near side.
pub open spec fn pick(far: bool, step: int) -> int {
    if far {
        step
    } else {
        0
    }
}

/// A step taken forward on the far side, backward on the near side.
pub open spec fn toward(far: bool, step: int) -> int {
    if far {
        step
    } else {
        -step
    }
}

/// The kind of the block at a place of a local section; a place that the
/// world does not hold counts as air.
pub open spec fn kind_at(section: LocalSection, x: int, y: int, z: int) -> BlockKind {
    match section.spec_block(x, y, z) {
        Some(state) => state.kind,
        None => BlockKind::Air,
    }
}

/// Whether a face of the block at a place of a local section is drawn. A
/// face of a solid block is drawn unless the neighbour beyond it is solid.
/// The upper face of water is drawn unless there is water above; its other
/// faces are drawn where the neighbour is air.
pub open spec fn face_visible(section: LocalSection, x: int, y: int, z: int, face: Face) -> bool {
    let n = face.spec_normal();
    let there = kind_at(section, x + n.0, y + n.1, z + n.2);
    match kind_at(section, x, y, z) {
        BlockKind::Air => false,
        BlockKind::Solid => there != BlockKind::Solid,
        BlockKind::Water => if face == Face::Up {
            there != BlockKind::Water
        } else {
            there == BlockKind::Air
        },
    }
}

/// 1 for a solid block at a place of a local section, 0 for anything else.
pub open spec fn solid_at(section: LocalSection, x: int, y: int, z: int) -> int {
    if kind_at(section, x, y, z) == BlockKind::Solid {
        1
    } else {
        0
    }
}

/// Number of solid blocks among the three neighbours of a corner of a face
/// that lie beyond the face: the two that share an edge with the corner's
/// block and the one between them.
pub open spec fn vertex_ao(
    section: LocalSection,
    x: int,
    y: int,
    z: int,
    face: Face,
    corner: int,
) -> int {
    let n = face.spec_normal();
    let u = face.spec_along_u();
    let v = face.spec_along_v();
    let fu = corner_u(corner);
    let fv = corner_v(corner);
    let bx = x + n.0;
    let by = y + n.1;
    let bz = z + n.2;
    solid_at(section, bx + toward(fu, u.0), by + toward(fu, u.1), bz + toward(fu, u.2)) + solid_at(
        section,
        bx + toward(fv, v.0),
        by + toward(fv, v.1),
        bz + toward(fv, v.2),
    ) + solid_at(
        section,
        bx + toward(fu, u.0) + toward(fv, v.0),
        by + toward(fu, u.1) + toward(fv, v.1),
        bz + toward(fu, u.2) + toward(fv, v.2),
    )
}

/// A corner of a face of the block at `(x, y, z)` of a local section, where
/// the section's own blocks are those from 1 to 16.
pub open spec fn face_vertex(
    section: LocalSection,
    x: int,
    y: int,
    z: int,
    face: Face,
    corner: int,
) -> BlockVertex {
    let n = face.spec_normal();
    let u = face.spec_along_u();
    let v = face.spec_along_v();
    let fu = corner_u(corner);
    let fv = corner_v(corner);
    BlockVertex {
        x: (x - 1 + pick(n.0 > 0, 1) + pick(fu, u.0) + pick(fv, v.0)) as u8,
        y: (y - 1 + pick(n.1 > 0, 1) + pick(fu, u.1) + pick(fv, v.1)) as u8,
        z: (z - 1 + pick(n.2 > 0, 1) + pick(fu, u.2) + pick(fv, v.2)) as u8,
        ao: vertex_ao(section, x, y, z, face, corner) as u8,
        corner: corner as u8,
        face,
        state: section.spec_block(x, y, z).unwrap(),
        biome: section.spec_biome((x - 1) / 4, (y - 1) / 4, (z - 1) / 4),
    }
}

/// The four corners of a face, round the face.
pub open spec fn face_quad(section: LocalSection, x: int, y: int, z: int, face: Face) -> Seq<
    BlockVertex,
> {
    seq![
        face_vertex(section, x, y, z, face, 0),
        face_vertex(section, x, y, z, face, 1),
        face_vertex(section, x, y, z, face, 2),
        face_vertex(section, x, y, z, face, 3),
    ]
}

/// The vertices of the first `faces` faces of a block that are drawn, if
/// the block is of the given kind: nothing for a block of another kind.
pub open spec fn cell_vertices(
    section: LocalSection,
    x: int,
    y: int,
    z: int,
    kind: BlockKind,
    faces: nat,
) -> Seq<BlockVertex>
    decreases faces,
{
    if faces == 0 || kind_at(section, x, y, z) != kind {
        Seq::empty()
    } else {
        let face = Face::spec_from_index(faces - 1);
        let before = cell_vertices(section, x, y, z, kind, (faces - 1) as nat);
        if face_visible(section, x, y, z, face) {
            before + face_quad(section, x, y, z, face)
        } else {
            before
        }
    }
}

/// The place of the `n`-th block of a section in the order of meshing, in
/// the local section: layer after layer upward, in a layer along x, in a row
/// along z.
pub open spec fn cell_place(n: int) -> (int, int, int) {
    ((n / 16) % 16 + 1, n / 256 + 1, n % 16 + 1)
}

/// The vertices of the mesh of the blocks of one kind among the first
/// `cells` blocks of a section.
pub open spec fn section_vertices(section: LocalSection, kind: BlockKind, cells: nat) -> Seq<
    BlockVertex,
>
    decreases cells,
{
    if cells == 0 {
        Seq::empty()
    } else {
        let at = cell_place(cells - 1);
        section_vertices(section, kind, (cells - 1) as nat) + cell_vertices(
            section,
            at.0,
            at.1,
            at.2,
            kind,
            6,
        )
    }
}

/// Says whether the vertices of a mesh come in quads and its indices spell
/// out the two triangles of every quad.
pub open spec fn is_quad_mesh(vertices: Seq<BlockVertex>, indices: Seq<u32>) -> bool {
    &&& vertices.len() % 4 == 0
    &&& indices == mesh_indices((vertices.len() / 4) as nat)
}

/// Collects the quads of the two meshes of a section.
pub struct MeshBuilder<'a> {
    section: &'a LocalSection,
    block_vertices: Vec<BlockVertex>,
    block_indices: Vec<u32>,
    water_vertices: Vec<BlockVertex>,
    water_indices: Vec<u32>,
}

/// Most vertices that a mesh can hold: their indices are 32 bits wide.
pub const MAX_VERTICES: usize = 0xffff_fff0;

impl<'a> MeshBuilder<'a> {
    pub closed spec fn section(&self) -> &'a LocalSection {
        self.section
    }

    pub closed spec fn block_vertices(&self) -> Seq<BlockVertex> {
        self.block_vertices@
    }

    pub closed spec fn block_indices(&self) -> Seq<u32> {
        self.block_indices@
    }

    pub closed spec fn water_vertices(&self) -> Seq<BlockVertex> {
        self.water_vertices@
    }

    pub closed spec fn water_indices(&self) -> Seq<u32> {
        self.water_indices@
    }

    /// The vertices of each mesh come in quads, and the indices spell out
    /// the triangles of the quads.
    pub open spec fn wf(&self) -> bool {
        &&& is_quad_mesh(self.block_vertices(), self.block_indices())
        &&& is_quad_mesh(self.water_vertices(), self.water_indices())
    }

    pub fn new(section: &'a LocalSection) -> (builder: MeshBuilder<'a>)
        ensures
            builder.wf(),
            builder.section() == section,
            builder.block_vertices() == Seq::<BlockVertex>::empty(),
            builder.water_vertices() == Seq::<BlockVertex>::empty(),
    {
        MeshBuilder {
            section,
            block_vertices: Vec::new(),
            block_indices: Vec::new(),
            water_vertices: Vec::new(),
            water_indices: Vec::new(),
        }
    }

    /// Adds a quad to the mesh of the solid blocks.
    pub fn push_block_quad(&mut self, verts: [BlockVertex; 4])
        requires
            old(self).block_vertices().len() <= MAX_VERTICES,
        ensures
            final(self).section() == old(self).section(),
            final(self).block_vertices() == old(self).block_vertices() + verts@,
            final(self).block_indices() == old(self).block_indices() + quad_indices(
                old(self).block_vertices().len() as u32,
            ),
            final(self).water_vertices() == old(self).water_vertices(),
            final(self).water_indices() == old(self).water_indices(),
            old(self).wf() ==> final(self).wf(),
    {
        push_quad(&mut self.block_vertices, &mut self.block_indices, verts);
    }

    /// Adds a quad to the mesh of the water.
    pub fn push_water_quad(&mut self, verts: [BlockVertex; 4])
        requires
            old(self).water_vertices().len() <= MAX_VERTICES,
        ensures
            final(self).section() == old(self).section(),
            final(self).water_vertices() == old(self).water_vertices() + verts@,
            final(self).water_indices() == old(self).water_indices() + quad_indices(
                old(self).water_vertices().len() as u32,
            ),
            final(self).block_vertices() == old(self).block_vertices(),
            final(self).block_indices() == old(self).block_indices(),
            old(self).wf() ==> final(self).wf(),
    {
        push_quad(&mut self.water_vertices, &mut self.water_indices, verts);
    }

    /// Hands out the two meshes.
    pub fn finish(self) -> (result: MeshResult)
        ensures
            result.blocks.vertices@ == self.block_vertices(),
            result.blocks.indices@ == self.block_indices(),
            result.blocks.section_pos == self.section().spos,
            result.water.vertices@ == self.water_vertices(),
            result.water.indices@ == self.water_indices(),
            result.water.section_pos == self.section().spos,
    {
        MeshResult {
            blocks: MeshData {
                section_pos: self.section.spos,
                vertices: self.block_vertices,
                indices: self.block_indices,
            },
            water: MeshData {
                section_pos: self.section.spos,
                vertices: self.water_vertices,
                indices: self.water_indices,
            },
        }
    }
}

fn push_quad(vertices: &mut Vec<BlockVertex>, indices: &mut Vec<u32>, verts: [BlockVertex; 4])
    requires
        old(vertices).len() <= MAX_VERTICES,
    ensures
        final(vertices)@ == old(vertices)@ + verts@,
        final(indices)@ == old(indices)@ + quad_indices(old(vertices).len() as u32),
        is_quad_mesh(old(vertices)@, old(indices)@) ==> is_quad_mesh(
            final(vertices)@,
            final(indices)@,
        ),
{
    let start: u32 = vertices.len() as u32;
    vertices.push(verts[0]);
    vertices.push(verts[1]);
    vertices.push(verts[2]);
    vertices.push(verts[3]);
    indices.push(start);
    indices.push(start + 1);
    indices.push(start + 2);
    indices.push(start);
    indices.push(start + 2);
    indices.push(start + 3);
    proof {
        assert(vertices@ =~= old(vertices)@ + verts@);
        assert(indices@ =~= old(indices)@ + quad_indices(start));
        if is_quad_mesh(old(vertices)@, old(indices)@) {
            let quads = (old(vertices)@.len() / 4) as nat;
            assert(vertices@.len() / 4 == quads + 1);
            assert(4 * quads == start);
        }
    }
}

/// A block has at most six faces of four vertices.
pub proof fn lemma_cell_vertices_len(
    section: LocalSection,
    x: int,
    y: int,
    z: int,
    kind: BlockKind,
    faces: nat,
)
    ensures
        cell_vertices(section, x, y, z, kind, faces).len() <= 4 * faces,
        cell_vertices(section, x, y, z, kind, faces).len() % 4 == 0,
    decreases faces,
{
    if faces > 0 {
        lemma_cell_vertices_len(section, x, y, z, kind, (faces - 1) as nat);
    }
}

fn kind_of(section: &LocalSection, x: usize, y: usize, z: usize) -> (kind: BlockKind)
    requires
        section.wf(),
        x < 18,
        y < 18,
        z < 18,
    ensures
        kind == kind_at(*section, x as int, y as int, z as int),
{
    match section.block(x, y, z) {
        Some(state) => state.kind,
        None => BlockKind::Air,
    }
}

fn solid(section: &LocalSection, x: i32, y: i32, z: i32) -> (count: u8)
    requires
        section.wf(),
        0 <= x < 18,
        0 <= y < 18,
        0 <= z < 18,
    ensures
        count == solid_at(*section, x as int, y as int, z as int),
{
    if kind_of(section, x as usize, y as usize, z as usize) == BlockKind::Solid {
        1
    } else {
        0
    }
}

fn step_toward(far: bool, step: i32) -> (moved: i32)
    requires
        -1 <= step <= 1,
    ensures
        moved == toward(far, step as int),
{
    if far {
        step
    } else {
        -step
    }
}

fn step_pick(far: bool, step: i32) -> (moved: i32)
    ensures
        moved == pick(far, step as int),
{
    if far {
        step
    } else {
        0
    }
}

fn is_face_visible(section: &LocalSection, x: usize, y: usize, z: usize, face: Face) -> (visible:
    bool)
    requires
        section.wf(),
        1 <= x <= 16,
        1 <= y <= 16,
        1 <= z <= 16,
    ensures
        visible == face_visible(*section, x as int, y as int, z as int, face),
{
    let n = face.normal();
    let there = kind_of(
        section,
        (x as i32 + n.0) as usize,
        (y as i32 + n.1) as usize,
        (z as i32 + n.2) as usize,
    );
    match kind_of(section, x, y, z) {
        BlockKind::Air => false,
        BlockKind::Solid => there != BlockKind::Solid,
        BlockKind::Water => if face == Face::Up {
            there != BlockKind::Water
        } else {
            there == BlockKind::Air
        },
    }
}

fn make_vertex(
    section: &LocalSection,
    x: usize,
    y: usize,
    z: usize,
    state: BlockState,
    face: Face,
    corner: u8,
) -> (vertex: BlockVertex)
    requires
        section.wf(),
        1 <= x <= 16,
        1 <= y <= 16,
        1 <= z <= 16,
        corner < 4,
        section.spec_block(x as int, y as int, z as int) == Some(state),
    ensures
        vertex == face_vertex(*section, x as int, y as int, z as int, face, corner as int),
{
    let n = face.normal();
    let u = face.along_u();
    let v = face.along_v();
    let fu: bool = corner == 1 || corner == 2;
    let fv: bool = corner == 2 || corner == 3;
    let bx: i32 = x as i32 + n.0;
    let by: i32 = y as i32 + n.1;
    let bz: i32 = z as i32 + n.2;
    let ux: i32 = step_toward(fu, u.0);
    let uy: i32 = step_toward(fu, u.1);
    let uz: i32 = step_toward(fu, u.2);
    let vx: i32 = step_toward(fv, v.0);
    let vy: i32 = step_toward(fv, v.1);
    let vz: i32 = step_toward(fv, v.2);
    let ao: u8 = solid(section, bx + ux, by + uy, bz + uz) + solid(
        section,
        bx + vx,
        by + vy,
        bz + vz,
    ) + solid(section, bx + ux + vx, by + uy + vy, bz + uz + vz);
    let px: i32 = x as i32 - 1 + step_pick(n.0 > 0, 1) + step_pick(fu, u.0) + step_pick(fv, v.0);
    let py: i32 = y as i32 - 1 + step_pick(n.1 > 0, 1) + step_pick(fu, u.1) + step_pick(fv, v.1);
    let pz: i32 = z as i32 - 1 + step_pick(n.2 > 0, 1) + step_pick(fu, u.2) + step_pick(fv, v.2);
    BlockVertex {
        x: px as u8,
        y: py as u8,
        z: pz as u8,
        ao,
        corner,
        face,
        state,
        biome: section.biome((x - 1) / 4, (y - 1) / 4, (z - 1) / 4),
    }
}

/// Adds the faces of one block that are drawn to the mesh of its kind.
fn mesh_cell(builder: &mut MeshBuilder<'_>, x: usize, y: usize, z: usize, state: BlockState)
    requires
        old(builder).wf(),
        old(builder).section().wf(),
        1 <= x <= 16,
        1 <= y <= 16,
        1 <= z <= 16,
        state.kind != BlockKind::Air,
        old(builder).section().spec_block(x as int, y as int, z as int) == Some(state),
        old(builder).block_vertices().len() + 24 <= MAX_VERTICES,
        old(builder).water_vertices().len() + 24 <= MAX_VERTICES,
    ensures
        final(builder).wf(),
        final(builder).section() == old(builder).section(),
        final(builder).block_vertices() == old(builder).block_vertices() + cell_vertices(
            *old(builder).section(),
            x as int,
            y as int,
            z as int,
            BlockKind::Solid,
            6,
        ),
        final(builder).water_vertices() == old(builder).water_vertices() + cell_vertices(
            *old(builder).section(),
            x as int,
            y as int,
            z as int,
            BlockKind::Water,
            6,
        ),
{
    let section = builder.section;
    let water: bool = state.kind == BlockKind::Water;
    let mut f: usize = 0;
    proof {
        assert(builder.block_vertices() =~= old(builder).block_vertices() + cell_vertices(
            *section,
            x as int,
            y as int,
            z as int,
            BlockKind::Solid,
            0,
        ));
        assert(builder.water_vertices() =~= old(builder).water_vertices() + cell_vertices(
            *section,
            x as int,
            y as int,
            z as int,
            BlockKind::Water,
            0,
        ));
    }
    while f < 6
        invariant
            0 <= f <= 6,
            builder.wf(),
            section.wf(),
            builder.section() == section,
            old(builder).section() == section,
            1 <= x <= 16,
            1 <= y <= 16,
            1 <= z <= 16,
            state.kind != BlockKind::Air,
            water == (state.kind == BlockKind::Water),
            section.spec_block(x as int, y as int, z as int) == Some(state),
            old(builder).block_vertices().len() + 24 <= MAX_VERTICES,
            old(builder).water_vertices().len() + 24 <= MAX_VERTICES,
            builder.block_vertices() == old(builder).block_vertices() + cell_vertices(
                *section,
                x as int,
                y as int,
                z as int,
                BlockKind::Solid,
                f as nat,
            ),
            builder.water_vertices() == old(builder).water_vertices() + cell_vertices(
                *section,
                x as int,
                y as int,
                z as int,
                BlockKind::Water,
                f as nat,
            ),
        decreases 6 - f,
    {
        let face = Face::from_index(f);
        proof {
            lemma_cell_vertices_len(
                *section,
                x as int,
                y as int,
                z as int,
                BlockKind::Solid,
                f as nat,
            );
            lemma_cell_vertices_len(
                *section,
                x as int,
                y as int,
                z as int,
                BlockKind::Water,
                f as nat,
            );
        }
        if is_face_visible(section, x, y, z, face) {
            let quad = [
                make_vertex(section, x, y, z, state, face, 0),
                make_vertex(section, x, y, z, state, face, 1),
                make_vertex(section, x, y, z, state, face, 2),
                make_vertex(section, x, y, z, state, face, 3),
            ];
            assert(quad@ =~= face_quad(*section, x as int, y as int, z as int, face));
            if water {
                builder.push_water_quad(quad);
            } else {
                builder.push_block_quad(quad);
            }
        }
        proof {
            let solid_now = cell_vertices(
                *section,
                x as int,
                y as int,
                z as int,
                BlockKind::Solid,
                (f + 1) as nat,
            );
            let water_now = cell_vertices(
                *section,
                x as int,
                y as int,
                z as int,
                BlockKind::Water,
                (f + 1) as nat,
            );
            assert(builder.block_vertices() =~= old(builder).block_vertices() + solid_now);
            assert(builder.water_vertices() =~= old(builder).water_vertices() + water_now);
        }
        f = f + 1;
    }
}

/// Meshes a section: goes through its 16×16×16 blocks, passes over air,
/// and collects the faces of the solid blocks in one mesh and the faces of
/// the water in another. The same local section gives the same meshes.
pub fn mesh_section(section: &LocalSection) -> (result: MeshResult)
    requires
        section.wf(),
    ensures
        result.blocks.vertices@ == section_vertices(*section, BlockKind::Solid, 4096),
        result.water.vertices@ == section_vertices(*section, BlockKind::Water, 4096),
        is_quad_mesh(result.blocks.vertices@, result.blocks.indices@),
        is_quad_mesh(result.water.vertices@, result.water.indices@),
        result.blocks.section_pos == section.spos,
        result.water.section_pos == section.spos,
{
    let mut builder = MeshBuilder::new(section);
    let mut n: usize = 0;
    let mut x: usize = 0;
    let mut y: usize = 0;
    let mut z: usize = 0;
    while n < 4096
        invariant
            0 <= n <= 4096,
            x < 16,
            z < 16,
            y <= 16,
            n == (y * 16 + x) * 16 + z,
            section.wf(),
            builder.wf(),
            builder.section() == section,
            builder.block_vertices() == section_vertices(*section, BlockKind::Solid, n as nat),
            builder.water_vertices() == section_vertices(*section, BlockKind::Water, n as nat),
            builder.block_vertices().len() <= 24 * n,
            builder.water_vertices().len() <= 24 * n,
        decreases 4096 - n,
    {
        proof {
            assert(cell_place(n as int) == (x as int + 1, y as int + 1, z as int + 1));
            lemma_cell_vertices_len(
                *section,
                x as int + 1,
                y as int + 1,
                z as int + 1,
                BlockKind::Solid,
                6,
            );
            lemma_cell_vertices_len(
                *section,
                x as int + 1,
                y as int + 1,
                z as int + 1,
                BlockKind::Water,
                6,
            );
        }
        match section.block(x + 1, y + 1, z + 1) {
            Some(state) => {
                if !state.is_air() {
                    mesh_cell(&mut builder, x + 1, y + 1, z + 1, state);
                } else {
                    assert(builder.block_vertices() =~= builder.block_vertices() + cell_vertices(
                        *section,
                        x as int + 1,
                        y as int + 1,
                        z as int + 1,
                        BlockKind::Solid,
                        6,
                    ));
                    assert(builder.water_vertices() =~= builder.water_vertices() + cell_vertices(
                        *section,
                        x as int + 1,
                        y as int + 1,
                        z as int + 1,
                        BlockKind::Water,
                        6,
                    ));
                }
            },
            None => {
                assert(builder.block_vertices() =~= builder.block_vertices() + cell_vertices(
                    *section,
                    x as int + 1,
                    y as int + 1,
                    z as int + 1,
                    BlockKind::Solid,
                    6,
                ));
                assert(builder.water_vertices() =~= builder.water_vertices() + cell_vertices(
                    *section,
                    x as int + 1,
                    y as int + 1,
                    z as int + 1,
                    BlockKind::Water,
                    6,
                ));
            },
        }
        z = z + 1;
        if z == 16 {
            z = 0;
            x = x + 1;
            if x == 16 {
                x = 0;
                y = y + 1;
            }
        }
        n = n + 1;
    }
    builder.finish()
}

} // verus!
