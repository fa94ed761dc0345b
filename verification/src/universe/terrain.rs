//! Planet terrain as a quadtree per cube face: each node covers a square
//! tile of its face and is either a leaf with a mesh or split into four.
use vstd::prelude::*;

verus! {

/// The faces of the cube that is projected onto the planet's sphere.
#[derive(Clone, Copy, Debug, PartialEq, Eq, Structural)]
pub enum CubeFace {
    Right,
    Left,
    Top,
    Bottom,
    Front,
    Back,
}

/// The four quarters of a split node.
pub struct QuadChildren {
    pub top_left: QuadTreeNode,
    pub top_right: QuadTreeNode,
    pub bottom_left: QuadTreeNode,
    pub bottom_right: QuadTreeNode,
}

/// A tile of a cube face. At depth `d` the face is cut into `2^d` by `2^d`
/// tiles; `(tile_x, tile_y)` is the tile's column and row, so the tile
/// starts at `(tile_x, tile_y) / 2^d` and has side `1 / 2^d`. A leaf may
/// own the entity that holds its mesh.
pub struct QuadTreeNode {
    pub children: Option<Box<QuadChildren>>,
    pub entity: Option<u64>,
    pub face: CubeFace,
    pub depth: u8,
    pub tile_x: u32,
    pub tile_y: u32,
}

/// A node's own entity, as a sequence of zero or one.
pub open spec fn own_entity(e: Option<u64>) -> Seq<u64> {
    match e {
        Some(v) => seq![v],
        None => Seq::<u64>::empty(),
    }
}

/// Whether `child` is the quarter of `parent` at column offset `dx` and
/// row offset `dy`: same face, one level deeper, tile doubled plus offset,
/// a leaf with no mesh yet.
pub open spec fn is_fresh_quarter(child: QuadTreeNode, parent: QuadTreeNode, dx: int, dy: int) -> bool {
    &&& child.face == parent.face
    &&& child.depth == parent.depth + 1
    &&& child.tile_x == 2 * parent.tile_x + dx
    &&& child.tile_y == 2 * parent.tile_y + dy
    &&& child.children is None
    &&& child.entity is None
}

impl QuadTreeNode {
    /// The entities of the whole subtree: the node's own mesh, then each
    /// quarter's subtree in reading order.
    pub open spec fn subtree_entities(self) -> Seq<u64>
        decreases self,
    {
        match self.children {
            Some(c) => own_entity(self.entity) + c.top_left.subtree_entities() + c.top_right.subtree_entities()
                + c.bottom_left.subtree_entities() + c.bottom_right.subtree_entities(),
            None => own_entity(self.entity),
        }
    }

    /// A leaf tile with no mesh yet.
    pub fn new(face: CubeFace, depth: u8, tile_x: u32, tile_y: u32) -> (result: QuadTreeNode)
        ensures
            result.children is None,
            result.entity is None,
            result.face == face,
            result.depth == depth,
            result.tile_x == tile_x,
            result.tile_y == tile_y,
    {
        QuadTreeNode { children: None, entity: None, face, depth, tile_x, tile_y }
    }

    /// Splits a leaf into its four quarters (top-left, top-right,
    /// bottom-left, bottom-right); a node that is already split is left as
    /// it is. The node keeps its own entity.
    pub fn split(&mut self)
        requires
            old(self).children is None ==> old(self).depth < 255 && old(self).tile_x < 0x8000_0000
                && old(self).tile_y < 0x8000_0000,
        ensures
            final(self).entity == old(self).entity,
            final(self).face == old(self).face,
            final(self).depth == old(self).depth,
            final(self).tile_x == old(self).tile_x,
            final(self).tile_y == old(self).tile_y,
            old(self).children is Some ==> final(self).children == old(self).children,
            old(self).children is None ==> (final(self).children matches Some(c) && {
                &&& is_fresh_quarter(c.top_left, *old(self), 0, 0)
                &&& is_fresh_quarter(c.top_right, *old(self), 1, 0)
                &&& is_fresh_quarter(c.bottom_left, *old(self), 0, 1)
                &&& is_fresh_quarter(c.bottom_right, *old(self), 1, 1)
            }),
    {
        if self.children.is_some() {
            return;
        }
        let d = self.depth + 1;
        let x = 2 * self.tile_x;
        let y = 2 * self.tile_y;
        self.children = Some(
            Box::new(
                QuadChildren {
                    top_left: QuadTreeNode::new(self.face, d, x, y),
                    top_right: QuadTreeNode::new(self.face, d, x + 1, y),
                    bottom_left: QuadTreeNode::new(self.face, d, x, y + 1),
                    bottom_right: QuadTreeNode::new(self.face, d, x + 1, y + 1),
                },
            ),
        );
    }

    /// Takes the node's own entity and every entity below it, leaving a
    /// bare leaf; the entities are returned, in subtree order, for despawning.
    pub fn recursive_despawn(&mut self) -> (despawned: Vec<u64>)
        ensures
            despawned@ == old(self).subtree_entities(),
            final(self).children is None,
            final(self).entity is None,
            final(self).face == old(self).face,
            final(self).depth == old(self).depth,
            final(self).tile_x == old(self).tile_x,
            final(self).tile_y == old(self).tile_y,
        decreases *old(self),
    {
        let mut out: Vec<u64> = Vec::new();
        if let Some(e) = self.entity.take() {
            out.push(e);
        }
        assert(out@ =~= own_entity(old(self).entity));
        if let Some(children) = self.children.take() {
            let mut c = *children;
            let mut a = c.top_left.recursive_despawn();
            let mut b = c.top_right.recursive_despawn();
            let mut d = c.bottom_left.recursive_despawn();
            let mut f = c.bottom_right.recursive_despawn();
            out.append(&mut a);
            out.append(&mut b);
            out.append(&mut d);
            out.append(&mut f);
        }
        out
    }

    /// Merges a split node back into a leaf: every entity of the quarters'
    /// subtrees is returned, in order, for despawning; the node's own
    /// entity stays.
    pub fn merge(&mut self) -> (despawned: Vec<u64>)
        ensures
            final(self).children is None,
            final(self).entity == old(self).entity,
            final(self).face == old(self).face,
            final(self).depth == old(self).depth,
            final(self).tile_x == old(self).tile_x,
            final(self).tile_y == old(self).tile_y,
            despawned@ == (match old(self).children {
                Some(c) => c.top_left.subtree_entities() + c.top_right.subtree_entities()
                    + c.bottom_left.subtree_entities() + c.bottom_right.subtree_entities(),
                None => Seq::<u64>::empty(),
            }),
    {
        let mut out: Vec<u64> = Vec::new();
        if let Some(children) = self.children.take() {
            let mut c = *children;
            let mut a = c.top_left.recursive_despawn();
            let mut b = c.top_right.recursive_despawn();
            let mut d = c.bottom_left.recursive_despawn();
            let mut f = c.bottom_right.recursive_despawn();
            let ghost whole = a@ + b@ + d@ + f@;
            out.append(&mut a);
            out.append(&mut b);
            out.append(&mut d);
            out.append(&mut f);
            assert(out@ =~= whole);
        }
        out
    }
}

/// The six face roots of a planet's terrain, in the order Right, Left, Top,
/// Bottom, Front, Back, each a single leaf covering its whole face.
pub fn face_roots() -> (result: Vec<QuadTreeNode>)
    ensures
        result@.len() == 6,
        result@[0].face == CubeFace::Right,
        result@[1].face == CubeFace::Left,
        result@[2].face == CubeFace::Top,
        result@[3].face == CubeFace::Bottom,
        result@[4].face == CubeFace::Front,
        result@[5].face == CubeFace::Back,
        forall|i: int|
            0 <= i < 6 ==> (#[trigger] result@[i]).depth == 0 && result@[i].tile_x == 0 && result@[i].tile_y == 0
                && result@[i].children is None && result@[i].entity is None,
{
    let mut v: Vec<QuadTreeNode> = Vec::new();
    v.push(QuadTreeNode::new(CubeFace::Right, 0, 0, 0));
    v.push(QuadTreeNode::new(CubeFace::Left, 0, 0, 0));
    v.push(QuadTreeNode::new(CubeFace::Top, 0, 0, 0));
    v.push(QuadTreeNode::new(CubeFace::Bottom, 0, 0, 0));
    v.push(QuadTreeNode::new(CubeFace::Front, 0, 0, 0));
    v.push(QuadTreeNode::new(CubeFace::Back, 0, 0, 0));
    v
}


/// Splitting a leaf and merging it again despawns nothing: fresh quarters
/// own no entities.
pub proof fn lemma_split_then_merge_despawns_nothing(parent: QuadTreeNode, c: QuadChildren)
    requires
        is_fresh_quarter(c.top_left, parent, 0, 0),
        is_fresh_quarter(c.top_right, parent, 1, 0),
        is_fresh_quarter(c.bottom_left, parent, 0, 1),
        is_fresh_quarter(c.bottom_right, parent, 1, 1),
    ensures
        c.top_left.subtree_entities() + c.top_right.subtree_entities() + c.bottom_left.subtree_entities()
            + c.bottom_right.subtree_entities() == Seq::<u64>::empty(),
{
    assert(c.top_left.subtree_entities() =~= Seq::<u64>::empty());
    assert(c.top_right.subtree_entities() =~= Seq::<u64>::empty());
    assert(c.bottom_left.subtree_entities() =~= Seq::<u64>::empty());
    assert(c.bottom_right.subtree_entities() =~= Seq::<u64>::empty());
    assert(Seq::<u64>::empty() + Seq::<u64>::empty() + Seq::<u64>::empty() + Seq::<u64>::empty()
        =~= Seq::<u64>::empty());
}

/// The four quarters of a tile are exactly the tiles one level deeper that
/// lie inside it: a deeper tile lies inside the tile when halving its
/// column and row gives the tile's, and those are the four quarters.
pub proof fn lemma_quarters_cover_tile(x: int, y: int, tx: int, ty: int)
    requires
        0 <= x,
        0 <= y,
        0 <= tx,
        0 <= ty,
    ensures
        (tx / 2 == x && ty / 2 == y) <==> ((tx == 2 * x || tx == 2 * x + 1) && (ty == 2 * y || ty == 2 * y + 1)),
{
}

/// Mesh resolution of a terrain patch: quads per side.
pub const PATCH_RESOLUTION: u32 = 16;

/// The six vertex indices of the two triangles of quad `k` of a patch
/// grid with `res` quads per side (rows of `res + 1` vertices; quad `k` is
/// in row `k / res`, column `k % res`).
pub open spec fn quad_indices(res: int, k: int) -> Seq<int> {
    let i = k % res + (k / res) * (res + 1);
    seq![i, i + res + 1, i + 1, i + 1, i + res + 1, i + res + 2]
}

/// The index buffer of a terrain patch: two triangles per quad, quads in
/// row order. The resolution is at most 26754, the largest for which the
/// buffer's `6 * res * res` entries can be counted in 32 bits (every vertex
/// index, below `(res + 1)^2`, then fits in a `u32` as well).
pub fn patch_indices(res: u32) -> (result: Vec<u32>)
    requires
        0 < res <= 26754,
    ensures
        result@.len() == 6 * res * res,
        forall|k: int, j: int|
            0 <= k < res * res && 0 <= j < 6 ==> #[trigger] result@[6 * k + j] == quad_indices(res as int, k)[j],
{
    let mut out: Vec<u32> = Vec::new();
    assert(res * res <= 715776516) by (nonlinear_arith)
        requires
            0 < res <= 26754,
    ;
    let total: u32 = res * res;
    let mut k: u32 = 0;
    while k < total
        invariant
            0 < res <= 26754,
            total == res * res,
            k <= total,
            out@.len() == 6 * k,
            forall|kk: int, j: int|
                0 <= kk < k && 0 <= j < 6 ==> #[trigger] out@[6 * kk + j] == quad_indices(res as int, kk)[j],
        decreases total - k,
    {
        let y = k / res;
        let x = k % res;
        assert(y < res) by (nonlinear_arith)
            requires
                k < res * res,
                y == k / res,
                0 < res,
        {
            vstd::arithmetic::div_mod::lemma_multiply_divide_lt(k as int, res as int, res as int);
        }
        assert(x + y * (res + 1) + res + 2 <= 715830025) by (nonlinear_arith)
            requires
                x < res,
                y < res,
                res <= 26754,
        ;
        let i = x + y * (res + 1);
        let ghost before = out@;
        out.push(i);
        out.push(i + res + 1);
        out.push(i + 1);
        out.push(i + 1);
        out.push(i + res + 1);
        out.push(i + res + 2);
        assert forall|kk: int, j: int| 0 <= kk < k + 1 && 0 <= j < 6 implies #[trigger] out@[6 * kk + j]
            == quad_indices(res as int, kk)[j] by {
            if kk < k {
                assert(out@[6 * kk + j] == before[6 * kk + j]);
            }
        }
        k = k + 1;
    }
    assert(6 * total == 6 * res * res) by (nonlinear_arith)
        requires
            total == res * res,
    ;
    out
}

} // verus!
