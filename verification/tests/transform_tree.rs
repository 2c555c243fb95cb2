use pylon::Matrix;
use pylon::Point;
use pylon::Rotation;
use pylon::Vector;
use pylon::tree::Node;
use pylon::tree::Tree;

fn rows_of(m: &Matrix) -> [[i64; 4]; 4] {
    let cols = m.to_array();
    let mut rows = [[0i64; 4]; 4];
    for (r, row) in rows.iter_mut().enumerate() {
        for (c, entry) in row.iter_mut().enumerate() {
            *entry = cols[c][r];
        }
    }
    rows
}

#[test]
fn default_node_state() {
    let n = Node::default();
    assert_eq!(n.parent(), None);
    assert_eq!(n.position(), Point { x: 0, y: 0, z: 0 });
    assert_eq!(n.rotation(), Rotation { x: 0, y: 0, z: 0 });
    assert_eq!(n.scale(), 1);
}

#[test]
fn default_node_local_matrix_is_identity() {
    let mut n = Node::default();
    assert_eq!(
        rows_of(&n.local_transformation_matrix()),
        [[1, 0, 0, 0], [0, 1, 0, 0], [0, 0, 1, 0], [0, 0, 0, 1]]
    );
}

#[test]
fn local_matrix_query_is_idempotent() {
    let mut n = Node::default();
    *n.position_mut() = Point { x: 3, y: -4, z: 5 };
    *n.rotation_mut() = Rotation { x: 1, y: 2, z: 3 };
    *n.scale_mut() = 7;
    let first = n.local_transformation_matrix();
    let second = n.local_transformation_matrix();
    assert_eq!(first, second);
}

#[test]
fn stale_cache_without_invalidation() {
    let mut n = Node::default();
    let before = n.local_transformation_matrix();
    *n.position_mut() = Point { x: 9, y: 0, z: 0 };
    // No invalidation: the query must return the stale cached matrix.
    assert_eq!(n.local_transformation_matrix(), before);
    // After invalidation, the query reflects the new position.
    n.invalidate_cache();
    let after = n.local_transformation_matrix();
    assert_ne!(after, before);
    assert_eq!(rows_of(&after)[0][3], 9);
}

#[test]
fn scale_on_the_diagonal() {
    let mut n = Node::default();
    *n.position_mut() = Point { x: 4, y: 5, z: 6 };
    let _ = n.local_transformation_matrix();
    *n.scale_mut() = 2;
    n.invalidate_cache();
    let rows = rows_of(&n.local_transformation_matrix());
    assert_eq!(rows[0][0], 2);
    assert_eq!(rows[1][1], 2);
    assert_eq!(rows[2][2], 2);
    assert_eq!(rows[3][3], 1);
    // The translation column is unaffected by the scale.
    assert_eq!(rows[0][3], 4);
    assert_eq!(rows[1][3], 5);
    assert_eq!(rows[2][3], 6);
}

#[test]
fn z_quarter_turn_turns_x_to_y() {
    let mut n = Node::default();
    *n.rotation_mut() = Rotation { x: 0, y: 0, z: 1 };
    let m = n.local_transformation_matrix();
    let turned = m.apply(&Vector::new(1, 0, 0, 1));
    assert_eq!(turned.to_array(), [0, 1, 0, 1]);
}

#[test]
fn x_quarter_turn_turns_y_to_z() {
    let mut n = Node::default();
    *n.rotation_mut() = Rotation { x: 1, y: 0, z: 0 };
    let m = n.local_transformation_matrix();
    assert_eq!(m.apply(&Vector::new(0, 1, 0, 1)).to_array(), [0, 0, 1, 1]);
}

#[test]
fn y_quarter_turn_turns_z_to_x() {
    let mut n = Node::default();
    *n.rotation_mut() = Rotation { x: 0, y: 1, z: 0 };
    let m = n.local_transformation_matrix();
    assert_eq!(m.apply(&Vector::new(0, 0, 1, 1)).to_array(), [1, 0, 0, 1]);
}

#[test]
fn negative_z_quarter_turn_turns_x_to_minus_y() {
    let mut n = Node::default();
    *n.rotation_mut() = Rotation { x: 0, y: 0, z: -1 };
    let m = n.local_transformation_matrix();
    assert_eq!(m.apply(&Vector::new(1, 0, 0, 1)).to_array(), [0, -1, 0, 1]);
}

#[test]
fn rotation_order_is_z_then_y_then_x() {
    // With x = 0, y = 1, z = 1: the vector (1,0,0) first turns about Z to
    // (0,1,0), which the quarter turn about Y leaves in place.
    let mut n = Node::default();
    *n.rotation_mut() = Rotation { x: 0, y: 1, z: 1 };
    let m = n.local_transformation_matrix();
    assert_eq!(m.apply(&Vector::new(1, 0, 0, 1)).to_array(), [0, 1, 0, 1]);
}

#[test]
fn hierarchy_composes_translations() {
    let mut tree = Tree::new();
    let root = tree.push(Node::default());
    let mut child = Node::default();
    *child.parent_mut() = Some(root);
    *child.position_mut() = Point { x: 1, y: 0, z: 0 };
    let child = tree.push(child);

    // Move the root, then invalidate its caches — and the child's global
    // cache, since no invalidation cascades from parent to child.
    *tree.node_mut(root).position_mut() = Point { x: 5, y: 0, z: 0 };
    tree.node_mut(root).invalidate_cache();
    tree.node_mut(child).invalidate_global_cache();

    let global = tree.global_transformation_matrix(child);
    let moved = global.apply(&Vector::new(0, 0, 0, 1));
    assert_eq!(moved.to_array(), [6, 0, 0, 1]);
}

#[test]
fn root_global_equals_local() {
    let mut tree = Tree::new();
    let root = tree.push(Node::default());
    *tree.node_mut(root).position_mut() = Point { x: 2, y: 3, z: 4 };
    let global = tree.global_transformation_matrix(root);
    let local = tree.node_mut(root).local_transformation_matrix();
    assert_eq!(global, local);
}

#[test]
fn global_cache_serves_stale_until_invalidated() {
    let mut tree = Tree::new();
    let root = tree.push(Node::default());
    let first = tree.global_transformation_matrix(root);

    // Mutating the position without any invalidation leaves both caches in
    // charge: the global query still returns the old matrix.
    *tree.node_mut(root).position_mut() = Point { x: 8, y: 0, z: 0 };
    assert_eq!(tree.global_transformation_matrix(root), first);

    // Invalidating only the global cache still leaves the stale local
    // cache in charge of the recomputation.
    tree.node_mut(root).invalidate_global_cache();
    assert_eq!(tree.global_transformation_matrix(root), first);

    // Invalidating both caches puts the node's fields back in charge.
    tree.node_mut(root).invalidate_cache();
    let fresh = tree.global_transformation_matrix(root);
    assert_eq!(rows_of(&fresh)[0][3], 8);
}

#[test]
fn grandparent_chain_composes() {
    let mut tree = Tree::new();
    let a = tree.push(Node::default());
    let mut b_node = Node::default();
    *b_node.parent_mut() = Some(a);
    *b_node.position_mut() = Point { x: 0, y: 10, z: 0 };
    let b = tree.push(b_node);
    let mut c_node = Node::default();
    *c_node.parent_mut() = Some(b);
    *c_node.position_mut() = Point { x: 0, y: 0, z: 100 };
    let c = tree.push(c_node);

    *tree.node_mut(a).position_mut() = Point { x: 1, y: 0, z: 0 };
    tree.node_mut(a).invalidate_cache();
    let global = tree.global_transformation_matrix(c);
    assert_eq!(global.apply(&Vector::new(0, 0, 0, 1)).to_array(), [1, 10, 100, 1]);
}

#[test]
fn parent_scale_composes_on_the_diagonal() {
    let mut tree = Tree::new();
    let mut root_node = Node::default();
    *root_node.scale_mut() = 2;
    let root = tree.push(root_node);
    let mut child_node = Node::default();
    *child_node.parent_mut() = Some(root);
    *child_node.position_mut() = Point { x: 3, y: 0, z: 0 };
    let child = tree.push(child_node);

    // global = local(child) * global(root): the product carries the
    // parent's scale on the diagonal and the child's translation in the
    // fourth column.
    let global = tree.global_transformation_matrix(child);
    assert_eq!(
        rows_of(&global),
        [[2, 0, 0, 3], [0, 2, 0, 0], [0, 0, 2, 0], [0, 0, 0, 1]]
    );
}

#[test]
fn tree_len_and_node_access() {
    let mut tree = Tree::new();
    assert_eq!(tree.len(), 0);
    let root = tree.push(Node::default());
    assert_eq!(tree.len(), 1);
    assert_eq!(tree.node(root).parent(), None);
    *tree.node_mut(root).scale_mut() = 5;
    assert_eq!(tree.node(root).scale(), 5);
}

#[test]
fn full_turns_are_identity() {
    let mut n = Node::default();
    *n.rotation_mut() = Rotation { x: 4, y: -4, z: 8 };
    let m = n.local_transformation_matrix();
    assert_eq!(
        rows_of(&m),
        [[1, 0, 0, 0], [0, 1, 0, 0], [0, 0, 1, 0], [0, 0, 0, 1]]
    );
}
