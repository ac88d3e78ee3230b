//! Mesh assembly: vertices with colours and the triangles that index them,
//! and the layout of a flat checkerboard grid.
use vstd::prelude::*;
use vstd::arithmetic::div_mod::lemma_fundamental_div_mod_converse;

verus! {

/// Three vertex indices, in winding order.
pub type Triangle = (u16, u16, u16);

/// The number of distinct values a vertex index can take.
pub const INDEX_RANGE: usize = 65536;

/// A mesh under construction: vertices of type `P` with colours of type `C`,
/// and triangles over them.
pub struct MeshBuilder<P, C> {
    verts: Vec<P>,
    colors: Vec<C>,
    indices: Vec<Triangle>,
}

/// A finished mesh: drawn as consecutive triangles of its vertices when no
/// triangle was given, else through its triangles.
pub enum MeshData<P, C> {
    Plain { verts: Vec<P>, colors: Vec<C> },
    Indexed { verts: Vec<P>, colors: Vec<C>, indices: Vec<Triangle> },
}

impl<P, C> MeshBuilder<P, C> {
    pub closed spec fn vertices(&self) -> Seq<P> {
        self.verts@
    }

    pub closed spec fn vertex_colors(&self) -> Seq<C> {
        self.colors@
    }

    pub closed spec fn triangles(&self) -> Seq<Triangle> {
        self.indices@
    }

    pub fn new() -> (r: MeshBuilder<P, C>)
        ensures
            r.vertices() == Seq::<P>::empty(),
            r.vertex_colors() == Seq::<C>::empty(),
            r.triangles() == Seq::<Triangle>::empty(),
    {
        MeshBuilder { verts: Vec::new(), colors: Vec::new(), indices: Vec::new() }
    }

    /// Adds a vertex with its colour and returns its index.
    pub fn push(&mut self, vert: P, color: C) -> (r: u16)
        requires
            old(self).vertices().len() < INDEX_RANGE,
        ensures
            r == old(self).vertices().len(),
            final(self).vertices() == old(self).vertices().push(vert),
            final(self).vertex_colors() == old(self).vertex_colors().push(color),
            final(self).triangles() == old(self).triangles(),
    {
        let i = self.verts.len() as u16;
        self.verts.push(vert);
        self.colors.push(color);
        i
    }

    /// Adds a triangle.
    pub fn index(&mut self, t: Triangle)
        ensures
            final(self).vertices() == old(self).vertices(),
            final(self).vertex_colors() == old(self).vertex_colors(),
            final(self).triangles() == old(self).triangles().push(t),
    {
        self.indices.push(t);
    }

    /// The finished mesh: indexed exactly when a triangle was added.
    pub fn finish(self) -> (r: MeshData<P, C>)
        ensures
            match r {
                MeshData::Plain { verts, colors } => {
                    &&& self.triangles().len() == 0
                    &&& verts@ == self.vertices()
                    &&& colors@ == self.vertex_colors()
                },
                MeshData::Indexed { verts, colors, indices } => {
                    &&& self.triangles().len() > 0
                    &&& verts@ == self.vertices()
                    &&& colors@ == self.vertex_colors()
                    &&& indices@ == self.triangles()
                },
            },
    {
        if self.indices.len() == 0 {
            MeshData::Plain { verts: self.verts, colors: self.colors }
        } else {
            MeshData::Indexed { verts: self.verts, colors: self.colors, indices: self.indices }
        }
    }
}

/// Corner `v % 4` of cell `v / 4` of a grid `num_w` cells wide, cells
/// numbered row by row, as (column, row) of grid lines. The corners of a cell
/// go (x, y), (x, y + 1), (x + 1, y + 1), (x + 1, y).
pub open spec fn grid_corner(num_w: nat, v: int) -> (u32, u32) {
    let cell = v / 4;
    let x = cell % (num_w as int);
    let y = cell / (num_w as int);
    let (cx, cy) = if v % 4 == 0 {
        (x, y)
    } else if v % 4 == 1 {
        (x, y + 1)
    } else if v % 4 == 2 {
        (x + 1, y + 1)
    } else {
        (x + 1, y)
    };
    (cx as u32, cy as u32)
}

/// Whether vertex `v` of the grid takes the first colour: the cells alternate
/// like a checkerboard, the cell at (0, 0) taking the first.
pub open spec fn grid_first_color(num_w: nat, v: int) -> bool {
    let cell = v / 4;
    (cell % (num_w as int) + cell / (num_w as int)) % 2 == 0
}

/// Triangle `t` of the grid: each cell is split along the diagonal from its
/// first to its third corner.
pub open spec fn grid_triangle(t: int) -> Triangle {
    let base = 4 * (t / 2);
    if t % 2 == 0 {
        (base as u16, (base + 1) as u16, (base + 2) as u16)
    } else {
        ((base + 2) as u16, (base + 3) as u16, base as u16)
    }
}

proof fn lemma_grid_cell(num_w: int, x: int, y: int, j: int)
    requires
        0 <= x < num_w,
        0 <= y,
        0 <= j < 4,
    ensures
        (4 * (y * num_w + x) + j) / 4 == y * num_w + x,
        (4 * (y * num_w + x) + j) % 4 == j,
        (y * num_w + x) % num_w == x,
        (y * num_w + x) / num_w == y,
        (2 * (y * num_w + x) + j / 2) / 2 == y * num_w + x,
        (2 * (y * num_w + x) + j / 2) % 2 == j / 2,
{
    let k = y * num_w + x;
    lemma_fundamental_div_mod_converse(4 * k + j, 4, k, j);
    lemma_fundamental_div_mod_converse(k, num_w, y, x);
    lemma_fundamental_div_mod_converse(2 * k + j / 2, 2, k, j / 2);
}

/// The layout of a flat grid of `num_w` by `num_h` cells: four vertices and
/// two triangles per cell, row by row. Each vertex is the grid corner it
/// stands at and whether it takes the first colour.
pub fn plane_grid(num_w: u32, num_h: u32) -> (r: MeshBuilder<(u32, u32), bool>)
    requires
        4 * num_w * num_h <= INDEX_RANGE,
    ensures
        r.vertices().len() == 4 * num_w * num_h,
        r.vertex_colors().len() == r.vertices().len(),
        r.triangles().len() == 2 * num_w * num_h,
        forall|v: int|
            0 <= v < r.vertices().len() ==> r.vertices()[v] == grid_corner(num_w as nat, v)
                && r.vertex_colors()[v] == grid_first_color(num_w as nat, v),
        forall|t: int| 0 <= t < r.triangles().len() ==> r.triangles()[t] == grid_triangle(t),
{
    let mut mb: MeshBuilder<(u32, u32), bool> = MeshBuilder::new();
    let ghost nw = num_w as int;
    let mut y: u32 = 0;
    while y < num_h
        invariant
            4 * num_w * num_h <= INDEX_RANGE,
            nw == num_w,
            y <= num_h,
            mb.vertices().len() == 4 * (y * nw),
            mb.vertex_colors().len() == mb.vertices().len(),
            mb.triangles().len() == 2 * (y * nw),
            forall|v: int|
                0 <= v < mb.vertices().len() ==> mb.vertices()[v] == grid_corner(num_w as nat, v)
                    && mb.vertex_colors()[v] == grid_first_color(num_w as nat, v),
            forall|t: int| 0 <= t < mb.triangles().len() ==> mb.triangles()[t] == grid_triangle(t),
        decreases num_h - y,
    {
        let mut x: u32 = 0;
        while x < num_w
            invariant
                4 * num_w * num_h <= INDEX_RANGE,
                nw == num_w,
                y < num_h,
                x <= num_w,
                mb.vertices().len() == 4 * (y * nw + x),
                mb.vertex_colors().len() == mb.vertices().len(),
                mb.triangles().len() == 2 * (y * nw + x),
                forall|v: int|
                    0 <= v < mb.vertices().len() ==> mb.vertices()[v] == grid_corner(
                        num_w as nat,
                        v,
                    ) && mb.vertex_colors()[v] == grid_first_color(num_w as nat, v),
                forall|t: int|
                    0 <= t < mb.triangles().len() ==> mb.triangles()[t] == grid_triangle(t),
            decreases num_w - x,
        {
            let ghost k = y * nw + x;
            assert(num_w <= 16384 && num_h <= 16384) by (nonlinear_arith)
                requires
                    4 * num_w * num_h <= 65536,
                    0 <= x < num_w,
                    0 <= y < num_h,
            ;
            assert(4 * k + 4 <= 4 * num_w * num_h) by (nonlinear_arith)
                requires
                    k == y * nw + x,
                    nw == num_w,
                    x < num_w,
                    y < num_h,
            ;
            proof {
                lemma_grid_cell(nw, x as int, y as int, 0);
                lemma_grid_cell(nw, x as int, y as int, 1);
                lemma_grid_cell(nw, x as int, y as int, 2);
                lemma_grid_cell(nw, x as int, y as int, 3);
            }
            let first = (x + y) % 2 == 0;
            let i0 = mb.push((x, y), first);
            let i1 = mb.push((x, y + 1), first);
            let i2 = mb.push((x + 1, y + 1), first);
            let i3 = mb.push((x + 1, y), first);
            mb.index((i0, i1, i2));
            mb.index((i2, i3, i0));
            x = x + 1;
            assert(y * nw + x == k + 1);
        }
        y = y + 1;
        assert(y * nw == (y - 1) * nw + nw) by (nonlinear_arith);
    }
    assert(4 * (y * nw) == 4 * num_w * num_h && 2 * (y * nw) == 2 * num_w * num_h) by (
    nonlinear_arith)
        requires
            y == num_h,
            nw == num_w,
    ;
    mb
}

} // verus!
