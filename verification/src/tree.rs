//! The transform tree: hierarchical spatial nodes with cached local and
//! global transformation matrices under explicit invalidation.
//!
//! Nodes live in an arena ([`Tree`]) and refer to their parent by index; a
//! parent's index is always smaller than its child's, so parent chains are
//! finite by construction. A [`Node`]'s caches are plain fields: recomputing
//! a matrix takes exclusive access to the node, and mutating a node's fields
//! does NOT invalidate its caches — the caller must invalidate explicitly
//! before the next query, or the query returns the stale cached value. That
//! caching discipline is part of each method's contract.

use vstd::prelude::*;

use crate::Point;
use crate::Rotation;
use crate::linear::Matrix;
use crate::linear::Scalar;
use crate::linear::Vector;
use crate::linear::is_identity;
use crate::linear::lemma_mul_identity;
use crate::linear::mat_apply;
use crate::linear::mat_mul;
use crate::linear::mul_fits;

verus! {

/// The exact sine of `k` quarter turns.
pub open spec fn qsin(k: int) -> int {
    let m = k % 4;
    if m == 0 {
        0
    } else if m == 1 {
        1
    } else if m == 2 {
        0
    } else {
        -1
    }
}

/// The exact cosine of `k` quarter turns.
pub open spec fn qcos(k: int) -> int {
    let m = k % 4;
    if m == 0 {
        1
    } else if m == 1 {
        0
    } else if m == 2 {
        -1
    } else {
        0
    }
}

/// The sine and cosine of any angle of quarter turns form one of exactly
/// four pairs: one of the two is zero and the other is one or minus one.
pub proof fn lemma_qsin_qcos(k: int)
    ensures
        (qsin(k) == 0 && qcos(k) == 1) || (qsin(k) == 1 && qcos(k) == 0) || (qsin(k) == 0 && qcos(
            k,
        ) == -1) || (qsin(k) == -1 && qcos(k) == 0),
{
}

/// The matrix that translates by `p`: the identity with `p`'s coordinates
/// written into the fourth column.
pub open spec fn translation_matrix(p: Point) -> Matrix {
    Matrix {
        c0: Vector { x: 1i64, y: 0i64, z: 0i64, w: 0i64 },
        c1: Vector { x: 0i64, y: 1i64, z: 0i64, w: 0i64 },
        c2: Vector { x: 0i64, y: 0i64, z: 1i64, w: 0i64 },
        c3: Vector { x: p.x, y: p.y, z: p.z, w: 1i64 },
    }
}

/// The standard right-handed rotation by `k` quarter turns about the X axis.
pub open spec fn x_rotation_matrix(k: int) -> Matrix {
    Matrix {
        c0: Vector { x: 1i64, y: 0i64, z: 0i64, w: 0i64 },
        c1: Vector { x: 0i64, y: qcos(k) as i64, z: qsin(k) as i64, w: 0i64 },
        c2: Vector { x: 0i64, y: (-qsin(k)) as i64, z: qcos(k) as i64, w: 0i64 },
        c3: Vector { x: 0i64, y: 0i64, z: 0i64, w: 1i64 },
    }
}

/// The standard right-handed rotation by `k` quarter turns about the Y axis.
pub open spec fn y_rotation_matrix(k: int) -> Matrix {
    Matrix {
        c0: Vector { x: qcos(k) as i64, y: 0i64, z: (-qsin(k)) as i64, w: 0i64 },
        c1: Vector { x: 0i64, y: 1i64, z: 0i64, w: 0i64 },
        c2: Vector { x: qsin(k) as i64, y: 0i64, z: qcos(k) as i64, w: 0i64 },
        c3: Vector { x: 0i64, y: 0i64, z: 0i64, w: 1i64 },
    }
}

/// The standard right-handed rotation by `k` quarter turns about the Z axis.
pub open spec fn z_rotation_matrix(k: int) -> Matrix {
    Matrix {
        c0: Vector { x: qcos(k) as i64, y: qsin(k) as i64, z: 0i64, w: 0i64 },
        c1: Vector { x: (-qsin(k)) as i64, y: qcos(k) as i64, z: 0i64, w: 0i64 },
        c2: Vector { x: 0i64, y: 0i64, z: 1i64, w: 0i64 },
        c3: Vector { x: 0i64, y: 0i64, z: 0i64, w: 1i64 },
    }
}

/// The composite rotation matrix of `r`: the X, Y and Z axis rotations
/// composed so that under pre-multiplication the Z rotation is applied to a
/// vector first, then Y, then X.
pub open spec fn rotation_matrix_spec(r: Rotation) -> Matrix {
    mat_mul(
        mat_mul(x_rotation_matrix(r.x as int), y_rotation_matrix(r.y as int)),
        z_rotation_matrix(r.z as int),
    )
}

/// The matrix that scales uniformly by `f` while leaving the homogeneous
/// coordinate untouched.
pub open spec fn scale_matrix_spec(f: Scalar) -> Matrix {
    Matrix {
        c0: Vector { x: f, y: 0i64, z: 0i64, w: 0i64 },
        c1: Vector { x: 0i64, y: f, z: 0i64, w: 0i64 },
        c2: Vector { x: 0i64, y: 0i64, z: f, w: 0i64 },
        c3: Vector { x: 0i64, y: 0i64, z: 0i64, w: 1i64 },
    }
}

/// The local transformation matrix determined by a node's fields: the
/// product of the translation, rotation, and scale matrices, so that under
/// pre-multiplication a vector is scaled first, then rotated, then
/// translated.
pub open spec fn local_matrix_spec(position: Point, rotation: Rotation, scale: Scalar) -> Matrix {
    mat_mul(
        mat_mul(translation_matrix(position), rotation_matrix_spec(rotation)),
        scale_matrix_spec(scale),
    )
}

/// Whether `m` has the shape of a rotation block: every entry of the upper
/// left 3x3 block is minus one, zero or one, and the fourth row and fourth
/// column are those of the identity.
pub open spec fn rotation_shaped(m: Matrix) -> bool {
    &&& (m.c0.x == -1 || m.c0.x == 0 || m.c0.x == 1)
    &&& (m.c0.y == -1 || m.c0.y == 0 || m.c0.y == 1)
    &&& (m.c0.z == -1 || m.c0.z == 0 || m.c0.z == 1)
    &&& (m.c1.x == -1 || m.c1.x == 0 || m.c1.x == 1)
    &&& (m.c1.y == -1 || m.c1.y == 0 || m.c1.y == 1)
    &&& (m.c1.z == -1 || m.c1.z == 0 || m.c1.z == 1)
    &&& (m.c2.x == -1 || m.c2.x == 0 || m.c2.x == 1)
    &&& (m.c2.y == -1 || m.c2.y == 0 || m.c2.y == 1)
    &&& (m.c2.z == -1 || m.c2.z == 0 || m.c2.z == 1)
    &&& m.c0.w == 0
    &&& m.c1.w == 0
    &&& m.c2.w == 0
    &&& m.c3 == (Vector { x: 0i64, y: 0i64, z: 0i64, w: 1i64 })
}

/// An axis rotation matrix takes one of exactly four values, those of zero,
/// one, two and three quarter turns.
proof fn lemma_axis_matrix_cases(kx: int, ky: int, kz: int)
    ensures
        x_rotation_matrix(kx) == x_rotation_matrix(0) || x_rotation_matrix(kx)
            == x_rotation_matrix(1) || x_rotation_matrix(kx) == x_rotation_matrix(2)
            || x_rotation_matrix(kx) == x_rotation_matrix(3),
        y_rotation_matrix(ky) == y_rotation_matrix(0) || y_rotation_matrix(ky)
            == y_rotation_matrix(1) || y_rotation_matrix(ky) == y_rotation_matrix(2)
            || y_rotation_matrix(ky) == y_rotation_matrix(3),
        z_rotation_matrix(kz) == z_rotation_matrix(0) || z_rotation_matrix(kz)
            == z_rotation_matrix(1) || z_rotation_matrix(kz) == z_rotation_matrix(2)
            || z_rotation_matrix(kz) == z_rotation_matrix(3),
{
    lemma_qsin_qcos(kx);
    lemma_qsin_qcos(ky);
    lemma_qsin_qcos(kz);
}

/// The product of three axis rotation matrices, each drawn from its four
/// quarter-turn values, is rotation shaped.
#[verifier::rlimit(100)]
proof fn lemma_shaped_product(x: Matrix, y: Matrix, z: Matrix)
    by (nonlinear_arith)
    requires
        x == x_rotation_matrix(0) || x == x_rotation_matrix(1) || x == x_rotation_matrix(2) || x
            == x_rotation_matrix(3),
        y == y_rotation_matrix(0) || y == y_rotation_matrix(1) || y == y_rotation_matrix(2) || y
            == y_rotation_matrix(3),
        z == z_rotation_matrix(0) || z == z_rotation_matrix(1) || z == z_rotation_matrix(2) || z
            == z_rotation_matrix(3),
    ensures
        rotation_shaped(mat_mul(mat_mul(x, y), z)),
{
}

/// A composite rotation matrix is rotation shaped.
pub proof fn lemma_rotation_matrix_shaped(r: Rotation)
    ensures
        rotation_shaped(rotation_matrix_spec(r)),
{
    lemma_axis_matrix_cases(r.x as int, r.y as int, r.z as int);
    lemma_shaped_product(
        x_rotation_matrix(r.x as int),
        y_rotation_matrix(r.y as int),
        z_rotation_matrix(r.z as int),
    );
}

/// Multiplying a translation by a rotation-shaped matrix, and the result by
/// a scale matrix, never leaves the scalar range: every product is the
/// position, the scale, its negation, or zero.
#[verifier::rlimit(100)]
proof fn lemma_fits_from_shape(p: Point, r: Matrix, s: Scalar)
    by (nonlinear_arith)
    requires
        rotation_shaped(r),
        s != i64::MIN,
    ensures
        mul_fits(translation_matrix(p), r),
        mul_fits(mat_mul(translation_matrix(p), r), scale_matrix_spec(s)),
{
}

/// The three factors of a node's local matrix multiply without ever leaving
/// the scalar range, provided the scale is not the one scalar whose negation
/// the range cannot hold.
pub proof fn lemma_local_matrix_fits(position: Point, rotation: Rotation, scale: Scalar)
    requires
        scale != i64::MIN,
    ensures
        mul_fits(translation_matrix(position), rotation_matrix_spec(rotation)),
        mul_fits(
            mat_mul(translation_matrix(position), rotation_matrix_spec(rotation)),
            scale_matrix_spec(scale),
        ),
{
    lemma_rotation_matrix_shaped(rotation);
    lemma_fits_from_shape(position, rotation_matrix_spec(rotation), scale);
}

/// The ghost description of a [`Node`]: its fields as contracts see them.
pub struct NodeView {
    /// The index of the parent node within its tree, if the node has one.
    pub parent: Option<usize>,
    /// The position of the node relative to its parent.
    pub position: Point,
    /// The rotation of the node relative to the rotation of its parent.
    pub rotation: Rotation,
    /// The scale factor of the node's coordinates.
    pub scale: Scalar,
    /// The cached local transformation matrix, if one is cached.
    pub cache_local: Option<Matrix>,
    /// The cached global transformation matrix, if one is cached.
    pub cache_global: Option<Matrix>,
}

/// The local transformation matrix that a query on `n` returns: the cached
/// matrix when one is present — whether or not it is stale — and the matrix
/// recomputed from the node's fields otherwise.
pub open spec fn effective_local(n: NodeView) -> Matrix {
    match n.cache_local {
        Some(m) => m,
        None => local_matrix_spec(n.position, n.rotation, n.scale),
    }
}

/// The node `n` after a local matrix query: its local cache slot holds the
/// matrix the query returned, and everything else is unchanged.
pub open spec fn fill_local(n: NodeView) -> NodeView {
    NodeView { cache_local: Some(effective_local(n)), ..n }
}

/// Whether a local matrix query on `n` can run on the machine: either the
/// cache answers it, or the scale is not the one scalar whose negation the
/// scalar range cannot hold.
pub open spec fn local_ready(n: NodeView) -> bool {
    n.cache_local is Some || n.scale != i64::MIN
}

/// The exact sine and cosine of one angle.
struct SinCos {
    sin: Scalar,
    cos: Scalar,
}

impl SinCos {
    /// The sine and cosine of `quarter_turns` quarter turns.
    fn new(quarter_turns: i64) -> (sc: SinCos)
        ensures
            sc.sin == qsin(quarter_turns as int),
            sc.cos == qcos(quarter_turns as int),
    {
        let r: i64 = quarter_turns % 4;
        let m: i64 = if r < 0 {
            r + 4
        } else {
            r
        };
        if m == 0 {
            SinCos { sin: 0, cos: 1 }
        } else if m == 1 {
            SinCos { sin: 1, cos: 0 }
        } else if m == 2 {
            SinCos { sin: 0, cos: -1 }
        } else {
            SinCos { sin: -1, cos: 0 }
        }
    }
}

/// One spatial frame of reference relative to a parent frame.
///
/// A node holds its position, rotation and scale relative to its parent,
/// the index of that parent within the owning [`Tree`] (no parent makes the
/// node a root), and a two-slot cache for the local and global
/// transformation matrices.
///
/// Mutating a node through the `_mut` accessors does NOT invalidate the
/// caches: the caller must call [`invalidate_cache`](Self::invalidate_cache)
/// (or [`invalidate_global_cache`](Self::invalidate_global_cache) when only
/// an ancestor changed) before the next matrix query, or the query returns
/// the stale cached matrix.
#[derive(Clone, Copy, Debug)]
pub struct Node {
    parent: Option<usize>,
    position: Point,
    rotation: Rotation,
    scale: Scalar,
    cache_local: Option<Matrix>,
    cache_global: Option<Matrix>,
}

impl View for Node {
    type V = NodeView;

    closed spec fn view(&self) -> NodeView {
        NodeView {
            parent: self.parent,
            position: self.position,
            rotation: self.rotation,
            scale: self.scale,
            cache_local: self.cache_local,
            cache_global: self.cache_global,
        }
    }
}

/// The state of a freshly created node: a root at the origin, unrotated, at
/// unit scale, with both cache slots empty.
pub open spec fn default_node() -> NodeView {
    NodeView {
        parent: None,
        position: Point { x: 0, y: 0, z: 0 },
        rotation: Rotation { x: 0, y: 0, z: 0 },
        scale: 1,
        cache_local: None,
        cache_global: None,
    }
}

impl Default for Node {
    /// Creates a node in the default state.
    fn default() -> (n: Node)
        ensures
            n@ == default_node(),
    {
        Node {
            parent: None,
            position: Point { x: 0, y: 0, z: 0 },
            rotation: Rotation { x: 0, y: 0, z: 0 },
            scale: 1,
            cache_local: None,
            cache_global: None,
        }
    }
}

impl Node {
    /// The index of this node's parent within the owning tree, if any.
    pub fn parent(&self) -> (p: Option<usize>)
        ensures
            p == self@.parent,
    {
        self.parent
    }

    /// Mutable access to the parent index. Changing the parent does not
    /// invalidate the caches; that is the caller's responsibility.
    pub fn parent_mut(&mut self) -> (p: &mut Option<usize>)
        ensures
            *p == old(self)@.parent,
            final(self)@ == (NodeView { parent: *final(p), ..old(self)@ }),
    {
        &mut self.parent
    }

    /// The position of this node relative to its parent.
    pub fn position(&self) -> (p: Point)
        ensures
            p == self@.position,
    {
        self.position
    }

    /// Mutable access to the position. Changing the position does not
    /// invalidate the caches; that is the caller's responsibility.
    pub fn position_mut(&mut self) -> (p: &mut Point)
        ensures
            *p == old(self)@.position,
            final(self)@ == (NodeView { position: *final(p), ..old(self)@ }),
    {
        &mut self.position
    }

    /// The rotation of this node relative to the rotation of its parent.
    pub fn rotation(&self) -> (r: Rotation)
        ensures
            r == self@.rotation,
    {
        self.rotation
    }

    /// Mutable access to the rotation. Changing the rotation does not
    /// invalidate the caches; that is the caller's responsibility.
    pub fn rotation_mut(&mut self) -> (r: &mut Rotation)
        ensures
            *r == old(self)@.rotation,
            final(self)@ == (NodeView { rotation: *final(r), ..old(self)@ }),
    {
        &mut self.rotation
    }

    /// The scale factor of this node's coordinates.
    pub fn scale(&self) -> (s: Scalar)
        ensures
            s == self@.scale,
    {
        self.scale
    }

    /// Mutable access to the scale. Changing the scale does not invalidate
    /// the caches; that is the caller's responsibility.
    pub fn scale_mut(&mut self) -> (s: &mut Scalar)
        ensures
            *s == old(self)@.scale,
            final(self)@ == (NodeView { scale: *final(s), ..old(self)@ }),
    {
        &mut self.scale
    }

    /// Clears the cached global transformation matrix alone — appropriate
    /// when only an ancestor, not this node's own local transform, changed.
    pub fn invalidate_global_cache(&mut self)
        ensures
            final(self)@ == (NodeView { cache_global: None, ..old(self)@ }),
    {
        self.cache_global = None;
    }

    /// Clears both cached transformation matrices. Must be called after any
    /// change to position, rotation, scale, or parent reference.
    pub fn invalidate_cache(&mut self)
        ensures
            final(self)@ == (NodeView { cache_local: None, cache_global: None, ..old(self)@ }),
    {
        self.cache_local = None;
        self.cache_global = None;
    }

    /// The local transformation matrix for this node.
    ///
    /// This returns the cached matrix if one is present, without looking at
    /// the node's fields — a stale cache is returned as it stands. Otherwise
    /// the matrix is recomputed from position, rotation and scale, cached,
    /// and returned.
    pub fn local_transformation_matrix(&mut self) -> (m: Matrix)
        requires
            local_ready(old(self)@),
        ensures
            m == effective_local(old(self)@),
            final(self)@ == fill_local(old(self)@),
    {
        if let Some(cached) = self.cache_local {
            return cached;
        }
        let m = self.create_local_transformation_matrix();
        self.cache_local = Some(m);
        m
    }

    /// Creates a local transformation matrix for this node.
    ///
    /// This is the product of local position, rotation, and scale matrices:
    /// under pre-multiplication the true order of application is scale, then
    /// rotate, then translate.
    fn create_local_transformation_matrix(&self) -> (m: Matrix)
        requires
            self@.scale != i64::MIN,
        ensures
            m == local_matrix_spec(self@.position, self@.rotation, self@.scale),
    {
        proof {
            lemma_local_matrix_fits(self@.position, self@.rotation, self@.scale);
        }
        let p = self.create_local_position_matrix();
        let r = self.create_local_rotation_matrix();
        let s = self.create_local_scale_matrix();
        p.mul(&r).mul(&s)
    }

    /// Creates the translation matrix for the position of this node.
    ///
    /// This transform is applied third.
    fn create_local_position_matrix(&self) -> (m: Matrix)
        ensures
            m == translation_matrix(self@.position),
    {
        let mut m = Matrix::identity();
        m.set_column(3, Vector::new(self.position.x, self.position.y, self.position.z, 1));
        m
    }

    /// Creates the composite rotation matrix for the rotation of this node.
    ///
    /// This transform is applied second.
    fn create_local_rotation_matrix(&self) -> (m: Matrix)
        ensures
            m == rotation_matrix_spec(self@.rotation),
    {
        let x = self.create_local_x_rotation_matrix();
        let y = self.create_local_y_rotation_matrix();
        let z = self.create_local_z_rotation_matrix();
        proof {
            lemma_rotation_composition_fits(self@.rotation);
        }
        x.mul(&y).mul(&z)
    }

    /// Creates the rotation matrix for the X axis rotation of this node.
    fn create_local_x_rotation_matrix(&self) -> (m: Matrix)
        ensures
            m == x_rotation_matrix(self@.rotation.x as int),
    {
        proof {
            lemma_qsin_qcos(self@.rotation.x as int);
        }
        let SinCos { sin: s, cos: c } = SinCos::new(self.rotation.x);
        Matrix::new(1, 0, 0, 0, 0, c, -s, 0, 0, s, c, 0, 0, 0, 0, 1)
    }

    /// Creates the rotation matrix for the Y axis rotation of this node.
    fn create_local_y_rotation_matrix(&self) -> (m: Matrix)
        ensures
            m == y_rotation_matrix(self@.rotation.y as int),
    {
        proof {
            lemma_qsin_qcos(self@.rotation.y as int);
        }
        let SinCos { sin: s, cos: c } = SinCos::new(self.rotation.y);
        Matrix::new(c, 0, s, 0, 0, 1, 0, 0, -s, 0, c, 0, 0, 0, 0, 1)
    }

    /// Creates the rotation matrix for the Z axis rotation of this node.
    fn create_local_z_rotation_matrix(&self) -> (m: Matrix)
        ensures
            m == z_rotation_matrix(self@.rotation.z as int),
    {
        proof {
            lemma_qsin_qcos(self@.rotation.z as int);
        }
        let SinCos { sin: s, cos: c } = SinCos::new(self.rotation.z);
        Matrix::new(c, -s, 0, 0, s, c, 0, 0, 0, 0, 1, 0, 0, 0, 0, 1)
    }

    /// Creates the scale matrix for the uniform scale of this node.
    ///
    /// This transform is applied first.
    fn create_local_scale_matrix(&self) -> (m: Matrix)
        ensures
            m == scale_matrix_spec(self@.scale),
    {
        let f = self.scale;
        Matrix::new(f, 0, 0, 0, 0, f, 0, 0, 0, 0, f, 0, 0, 0, 0, 1)
    }
}

/// The three axis rotation matrices of a rotation multiply without leaving
/// the scalar range.
proof fn lemma_axis_products_fit(x: Matrix, y: Matrix, z: Matrix)
    by (nonlinear_arith)
    requires
        x == x_rotation_matrix(0) || x == x_rotation_matrix(1) || x == x_rotation_matrix(2) || x
            == x_rotation_matrix(3),
        y == y_rotation_matrix(0) || y == y_rotation_matrix(1) || y == y_rotation_matrix(2) || y
            == y_rotation_matrix(3),
        z == z_rotation_matrix(0) || z == z_rotation_matrix(1) || z == z_rotation_matrix(2) || z
            == z_rotation_matrix(3),
    ensures
        mul_fits(x, y),
        mul_fits(mat_mul(x, y), z),
{
}

/// Composing the axis rotation matrices of a rotation never leaves the
/// scalar range.
pub proof fn lemma_rotation_composition_fits(r: Rotation)
    ensures
        mul_fits(x_rotation_matrix(r.x as int), y_rotation_matrix(r.y as int)),
        mul_fits(
            mat_mul(x_rotation_matrix(r.x as int), y_rotation_matrix(r.y as int)),
            z_rotation_matrix(r.z as int),
        ),
{
    lemma_axis_matrix_cases(r.x as int, r.y as int, r.z as int);
    lemma_axis_products_fit(
        x_rotation_matrix(r.x as int),
        y_rotation_matrix(r.y as int),
        z_rotation_matrix(r.z as int),
    );
}

/// Whether the node at `i` names a parent that stands earlier in the arena.
pub open spec fn parent_before(ns: Seq<NodeView>, i: int) -> bool {
    match ns[i].parent {
        Some(p) => p < i,
        None => true,
    }
}

/// Whether every node's parent stands earlier in the arena than the node
/// itself, so that parent chains are finite and cycle-free.
pub open spec fn parents_before(ns: Seq<NodeView>) -> bool {
    forall|i: int| 0 <= i < ns.len() ==> #[trigger] parent_before(ns, i)
}

/// The global transformation matrix that a query on node `i` returns: the
/// cached matrix when one is present — whether or not it is stale — and
/// otherwise the node's local matrix composed, for a node with a parent,
/// with the parent's global matrix, walking the chain towards the root.
pub open spec fn effective_global(ns: Seq<NodeView>, i: int) -> Matrix
    decreases i,
{
    match ns[i].cache_global {
        Some(m) => m,
        None => match ns[i].parent {
            Some(p) => if 0 <= p < i {
                mat_mul(effective_local(ns[i]), effective_global(ns, p as int))
            } else {
                effective_local(ns[i])
            },
            None => effective_local(ns[i]),
        },
    }
}

/// Whether a global matrix query on node `i` can run on the machine: every
/// recomputed local matrix along the chain is ready, and every composition
/// along the chain fits the scalar range.
pub open spec fn global_ready(ns: Seq<NodeView>, i: int) -> bool
    decreases i,
{
    match ns[i].cache_global {
        Some(m) => true,
        None => {
            &&& local_ready(ns[i])
            &&& match ns[i].parent {
                Some(p) => if 0 <= p < i {
                    global_ready(ns, p as int) && mul_fits(
                        effective_local(ns[i]),
                        effective_global(ns, p as int),
                    )
                } else {
                    true
                },
                None => true,
            }
        },
    }
}

/// The arena after a global matrix query on node `i`: along the walked
/// chain, each node's local and global cache slots hold the matrices the
/// walk derived, and everything else is unchanged.
pub open spec fn fill_global(ns: Seq<NodeView>, i: int) -> Seq<NodeView>
    decreases i,
{
    match ns[i].cache_global {
        Some(m) => ns,
        None => {
            let ns1 = ns.update(i, fill_local(ns[i]));
            let ns2 = match ns[i].parent {
                Some(p) => if 0 <= p < i {
                    fill_global(ns1, p as int)
                } else {
                    ns1
                },
                None => ns1,
            };
            ns2.update(i, NodeView { cache_global: Some(effective_global(ns, i)), ..ns2[i] })
        },
    }
}

/// Whether two node descriptions agree on everything but the cache slots.
pub open spec fn same_fields(a: NodeView, b: NodeView) -> bool {
    &&& a.parent == b.parent
    &&& a.position == b.position
    &&& a.rotation == b.rotation
    &&& a.scale == b.scale
}

/// The value and the readiness of a global matrix query on node `i` depend
/// only on the nodes up to `i`.
proof fn lemma_global_frame(ns1: Seq<NodeView>, ns2: Seq<NodeView>, i: int)
    requires
        forall|j: int| 0 <= j <= i ==> ns1[j] == ns2[j],
        0 <= i,
    ensures
        effective_global(ns1, i) == effective_global(ns2, i),
        global_ready(ns1, i) == global_ready(ns2, i),
    decreases i,
{
    assert(ns1[i] == ns2[i]);
    match ns1[i].parent {
        Some(p) => {
            if 0 <= p < i {
                lemma_global_frame(ns1, ns2, p as int);
            }
        },
        None => {},
    }
}

/// A global matrix query changes no node's fields, fills the queried node's
/// global cache slot with the returned matrix, and leaves nodes off the
/// walked chain — in particular every node past `i` — untouched.
proof fn lemma_fill_global_shape(ns: Seq<NodeView>, i: int)
    requires
        0 <= i < ns.len(),
    ensures
        fill_global(ns, i).len() == ns.len(),
        forall|j: int| 0 <= j < ns.len() ==> same_fields(#[trigger] fill_global(ns, i)[j], ns[j]),
        forall|j: int| i < j < ns.len() ==> #[trigger] fill_global(ns, i)[j] == ns[j],
        fill_global(ns, i)[i].cache_global == Some(effective_global(ns, i)),
    decreases i,
{
    match ns[i].cache_global {
        Some(m) => {},
        None => {
            let ns1 = ns.update(i, fill_local(ns[i]));
            match ns[i].parent {
                Some(p) => {
                    if 0 <= p < i {
                        lemma_fill_global_shape(ns1, p as int);
                    }
                },
                None => {},
            }
        },
    }
}

/// A forest of transform nodes stored in an arena.
///
/// Nodes are referred to by the index that [`push`](Self::push) returned;
/// a node's parent always stands earlier in the arena than the node itself.
/// The arena owns the nodes: queries that recompute and cache matrices take
/// the arena exclusively.
#[derive(Debug)]
pub struct Tree {
    nodes: Vec<Node>,
}

impl View for Tree {
    type V = Seq<NodeView>;

    closed spec fn view(&self) -> Seq<NodeView> {
        self.nodes@.map_values(|n: Node| n@)
    }
}

impl Tree {
    /// Whether every node's parent stands earlier in the arena than the
    /// node itself. Every operation of the tree preserves this; it is
    /// required where a query walks parent chains.
    pub open spec fn wf(self) -> bool {
        parents_before(self@)
    }

    /// Creates an empty tree.
    pub fn new() -> (t: Tree)
        ensures
            t@ == Seq::<NodeView>::empty(),
            t.wf(),
    {
        let t = Tree { nodes: Vec::new() };
        proof {
            assert(t@ =~= Seq::<NodeView>::empty());
        }
        t
    }

    /// The number of nodes in the arena.
    pub fn len(&self) -> (n: usize)
        ensures
            n == self@.len(),
    {
        self.nodes.len()
    }

    /// Appends `node` to the arena and returns its index. The node's
    /// parent, if it names one, must already be in the arena.
    pub fn push(&mut self, node: Node) -> (i: usize)
        requires
            match node@.parent {
                Some(p) => p < old(self)@.len(),
                None => true,
            },
        ensures
            i == old(self)@.len(),
            final(self)@ == old(self)@.push(node@),
            old(self).wf() ==> final(self).wf(),
    {
        let i = self.nodes.len();
        self.nodes.push(node);
        proof {
            assert(self@ =~= old(self)@.push(node@));
            if old(self).wf() {
                assert forall|j: int| 0 <= j < self@.len() implies #[trigger] parent_before(
                    self@,
                    j,
                ) by {
                    if j < i {
                        assert(parent_before(old(self)@, j));
                    }
                }
            }
        }
        i
    }

    /// The node at index `i`.
    pub fn node(&self, i: usize) -> (n: &Node)
        requires
            i < self@.len(),
        ensures
            n@ == self@[i as int],
    {
        &self.nodes[i]
    }

    /// Mutable access to the node at index `i`.
    pub fn node_mut(&mut self, i: usize) -> (n: &mut Node)
        requires
            i < old(self)@.len(),
        ensures
            (*n)@ == old(self)@[i as int],
            final(self)@ == old(self)@.update(i as int, (*final(n))@),
    {
        &mut self.nodes[i]
    }

    /// The global transformation matrix for the node at index `i`.
    ///
    /// This returns the node's cached global matrix if one is present,
    /// without looking further — a stale cache is returned as it stands.
    /// Otherwise it composes the node's local matrix (itself cache-checked)
    /// with the parent's global matrix, recursively up the chain, caching
    /// every matrix it derives along the way. A root node's global matrix
    /// equals its local matrix.
    pub fn global_transformation_matrix(&mut self, i: usize) -> (m: Matrix)
        requires
            old(self).wf(),
            i < old(self)@.len(),
            global_ready(old(self)@, i as int),
        ensures
            m == effective_global(old(self)@, i as int),
            final(self)@ == fill_global(old(self)@, i as int),
            final(self).wf(),
        decreases i,
    {
        let ghost ns0 = self@;
        if let Some(cached) = self.nodes[i].cache_global {
            return cached;
        }
        let mut n = *self.node(i);
        let local = n.local_transformation_matrix();
        let parent = n.parent;
        self.nodes.set(i, n);
        let ghost ns1 = self@;
        proof {
            assert(ns1 =~= ns0.update(i as int, fill_local(ns0[i as int])));
            assert forall|j: int| 0 <= j < ns1.len() implies #[trigger] parent_before(
                ns1,
                j,
            ) by {
                assert(parent_before(ns0, j));
            }
        }
        let m = match parent {
            None => local,
            Some(p) => {
                proof {
                    assert(parent_before(ns0, i as int));
                    lemma_global_frame(ns1, ns0, p as int);
                }
                let pg = self.global_transformation_matrix(p);
                proof {
                    lemma_fill_global_shape(ns1, p as int);
                }
                local.mul(&pg)
            },
        };
        let ghost ns2 = self@;
        let mut filled = *self.node(i);
        filled.cache_global = Some(m);
        self.nodes.set(i, filled);
        proof {
            assert(self@ =~= ns2.update(
                i as int,
                NodeView { cache_global: Some(effective_global(ns0, i as int)), ..ns2[i as int] },
            ));
            assert(self@ =~= fill_global(ns0, i as int));
            lemma_fill_global_shape(ns0, i as int);
            assert forall|j: int| 0 <= j < self@.len() implies #[trigger] parent_before(
                self@,
                j,
            ) by {
                assert(parent_before(ns0, j));
                assert(same_fields(fill_global(ns0, i as int)[j], ns0[j]));
            }
        }
        m
    }
}

/// Querying a matrix twice without intervening mutation or invalidation
/// returns the identical matrix, and the second query changes nothing: the
/// first query fills the cache, and a query answers from a filled cache.
pub proof fn lemma_local_query_idempotent(n: NodeView)
    ensures
        effective_local(fill_local(n)) == effective_local(n),
        fill_local(fill_local(n)) == fill_local(n),
{
}

/// The global form of query idempotence: after one global query, a second
/// on the same node returns the identical matrix and changes nothing.
pub proof fn lemma_global_query_idempotent(ns: Seq<NodeView>, i: int)
    requires
        0 <= i < ns.len(),
    ensures
        effective_global(fill_global(ns, i), i) == effective_global(ns, i),
        fill_global(fill_global(ns, i), i) == fill_global(ns, i),
{
    lemma_fill_global_shape(ns, i);
}

/// The caching discipline around mutation: a mutation alone leaves a stale
/// cache in charge — a query after changing the position but before
/// invalidating still returns the old cached matrix — while invalidating
/// both slots puts the node's current fields in charge of the next query.
pub proof fn lemma_invalidation_contract(n: NodeView, q: Point)
    requires
        n.cache_local is Some,
    ensures
        effective_local(NodeView { position: q, ..n }) == effective_local(n),
        effective_local(NodeView { position: q, cache_local: None, cache_global: None, ..n })
            == local_matrix_spec(q, n.rotation, n.scale),
{
}

/// A root node's global matrix always equals its local matrix.
pub proof fn lemma_root_global(ns: Seq<NodeView>, i: int)
    requires
        ns[i].parent is None,
        ns[i].cache_global is None,
    ensures
        effective_global(ns, i) == effective_local(ns[i]),
{
}

/// Translation matrices compose by adding their translations: moving a
/// frame by `q` inside a frame moved by `p` moves it by their sum in all.
pub proof fn lemma_translation_compose(p: Point, q: Point)
    requires
        i64::MIN <= p.x + q.x <= i64::MAX,
        i64::MIN <= p.y + q.y <= i64::MAX,
        i64::MIN <= p.z + q.z <= i64::MAX,
    ensures
        mul_fits(translation_matrix(p), translation_matrix(q)),
        mat_mul(translation_matrix(p), translation_matrix(q)) == translation_matrix(
            Point { x: (p.x + q.x) as i64, y: (p.y + q.y) as i64, z: (p.z + q.z) as i64 },
        ),
{
    assert(mul_fits(translation_matrix(p), translation_matrix(q)) && mat_mul(
        translation_matrix(p),
        translation_matrix(q),
    ) == translation_matrix(
        Point { x: (p.x + q.x) as i64, y: (p.y + q.y) as i64, z: (p.z + q.z) as i64 },
    )) by (nonlinear_arith)
        requires
            i64::MIN <= p.x + q.x <= i64::MAX,
            i64::MIN <= p.y + q.y <= i64::MAX,
            i64::MIN <= p.z + q.z <= i64::MAX,
    ;
}

/// The composite rotation matrix of the zero rotation is the identity.
pub proof fn lemma_zero_rotation_identity()
    ensures
        is_identity(rotation_matrix_spec(Rotation { x: 0, y: 0, z: 0 })),
{
    assert(is_identity(x_rotation_matrix(0)));
    assert(is_identity(y_rotation_matrix(0)));
    assert(is_identity(z_rotation_matrix(0)));
    lemma_mul_identity(y_rotation_matrix(0), x_rotation_matrix(0));
    lemma_mul_identity(z_rotation_matrix(0), mat_mul(x_rotation_matrix(0), y_rotation_matrix(0)));
}

/// With zero rotation, the local matrix carries the uniform scale on the
/// first three diagonal entries, one in the last, and the position in the
/// fourth column — in particular, a node in the default state has the
/// identity as its local matrix.
pub proof fn lemma_local_matrix_zero_rotation(p: Point, s: Scalar)
    ensures
        local_matrix_spec(p, Rotation { x: 0, y: 0, z: 0 }, s) == (Matrix {
            c0: Vector { x: s, y: 0i64, z: 0i64, w: 0i64 },
            c1: Vector { x: 0i64, y: s, z: 0i64, w: 0i64 },
            c2: Vector { x: 0i64, y: 0i64, z: s, w: 0i64 },
            c3: Vector { x: p.x, y: p.y, z: p.z, w: 1i64 },
        }),
{
    lemma_zero_rotation_identity();
    lemma_mul_identity(translation_matrix(p), rotation_matrix_spec(Rotation { x: 0, y: 0, z: 0 }));
    assert(mat_mul(
        mat_mul(translation_matrix(p), rotation_matrix_spec(Rotation { x: 0, y: 0, z: 0 })),
        scale_matrix_spec(s),
    ) == mat_mul(translation_matrix(p), scale_matrix_spec(s)));
}

/// A quarter turn about the Z axis takes the unit X direction to the unit
/// Y direction.
pub proof fn lemma_z_quarter_turn_turns_x_to_y()
    ensures
        mat_apply(
            local_matrix_spec(Point { x: 0, y: 0, z: 0 }, Rotation { x: 0, y: 0, z: 1 }, 1),
            Vector { x: 1i64, y: 0i64, z: 0i64, w: 1i64 },
        ) == (Vector { x: 0i64, y: 1i64, z: 0i64, w: 1i64 }),
{
    assert(is_identity(x_rotation_matrix(0)));
    assert(is_identity(y_rotation_matrix(0)));
    lemma_mul_identity(y_rotation_matrix(0), x_rotation_matrix(0));
    lemma_mul_identity(z_rotation_matrix(1), mat_mul(x_rotation_matrix(0), y_rotation_matrix(0)));
    assert(rotation_matrix_spec(Rotation { x: 0, y: 0, z: 1 }) == z_rotation_matrix(1));
    assert(is_identity(translation_matrix(Point { x: 0, y: 0, z: 0 })));
    lemma_mul_identity(
        rotation_matrix_spec(Rotation { x: 0, y: 0, z: 1 }),
        translation_matrix(Point { x: 0, y: 0, z: 0 }),
    );
    assert(is_identity(scale_matrix_spec(1)));
    lemma_mul_identity(
        mat_mul(
            translation_matrix(Point { x: 0, y: 0, z: 0 }),
            rotation_matrix_spec(Rotation { x: 0, y: 0, z: 1 }),
        ),
        scale_matrix_spec(1),
    );
    assert(local_matrix_spec(Point { x: 0, y: 0, z: 0 }, Rotation { x: 0, y: 0, z: 1 }, 1)
        == z_rotation_matrix(1));
}

} // verus!
