use portal::mesh::{plane_grid, MeshBuilder, MeshData};

#[test]
fn builder_returns_consecutive_indices() {
    let mut mb: MeshBuilder<&str, u8> = MeshBuilder::new();
    assert_eq!(mb.push("a", 1), 0);
    assert_eq!(mb.push("b", 2), 1);
    assert_eq!(mb.push("c", 3), 2);
    match mb.finish() {
        MeshData::Plain { verts, colors } => {
            assert_eq!(verts, vec!["a", "b", "c"]);
            assert_eq!(colors, vec![1, 2, 3]);
        }
        MeshData::Indexed { .. } => panic!("no triangle was added"),
    }
}

#[test]
fn builder_with_triangles_is_indexed() {
    let mut mb: MeshBuilder<u8, u8> = MeshBuilder::new();
    let a = mb.push(10, 0);
    let b = mb.push(11, 0);
    let c = mb.push(12, 0);
    mb.index((a, c, b));
    match mb.finish() {
        MeshData::Indexed { verts, colors, indices } => {
            assert_eq!(verts, vec![10, 11, 12]);
            assert_eq!(colors, vec![0, 0, 0]);
            assert_eq!(indices, vec![(0, 2, 1)]);
        }
        MeshData::Plain { .. } => panic!("a triangle was added"),
    }
}

#[test]
fn plane_grid_two_by_one() {
    match plane_grid(2, 1).finish() {
        MeshData::Indexed { verts, colors, indices } => {
            assert_eq!(
                verts,
                vec![(0, 0), (0, 1), (1, 1), (1, 0), (1, 0), (1, 1), (2, 1), (2, 0)]
            );
            assert_eq!(colors, vec![true, true, true, true, false, false, false, false]);
            assert_eq!(indices, vec![(0, 1, 2), (2, 3, 0), (4, 5, 6), (6, 7, 4)]);
        }
        MeshData::Plain { .. } => panic!("a grid has triangles"),
    }
}

#[test]
fn plane_grid_checkerboard_rows_alternate() {
    match plane_grid(2, 2).finish() {
        MeshData::Indexed { verts, colors, indices } => {
            assert_eq!(verts.len(), 16);
            assert_eq!(indices.len(), 8);
            // second row, first cell
            assert_eq!(verts[8], (0, 1));
            assert_eq!(verts[10], (1, 2));
            assert!(!colors[8]);
            assert!(colors[12]);
            assert_eq!(indices[5], (10, 11, 8));
        }
        MeshData::Plain { .. } => panic!("a grid has triangles"),
    }
}

#[test]
fn empty_plane_grid_is_plain() {
    match plane_grid(0, 5).finish() {
        MeshData::Plain { verts, colors } => {
            assert!(verts.is_empty());
            assert!(colors.is_empty());
        }
        MeshData::Indexed { .. } => panic!("no cell, no triangle"),
    }
}

#[test]
fn largest_plane_grid_fits_the_index_range() {
    match plane_grid(128, 128).finish() {
        MeshData::Indexed { verts, indices, .. } => {
            assert_eq!(verts.len(), 65536);
            assert_eq!(*indices.last().unwrap(), (65534, 65535, 65532));
        }
        MeshData::Plain { .. } => panic!("a grid has triangles"),
    }
}
