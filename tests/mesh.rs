use sailfish::error::Error;
use sailfish::mesh::{
    face_primitive, faces_from_centers, patch_primitive, structured_primitive, uniform_faces,
    IndexSpace,
};

/// Cell centers of a centered square of half-size 1 with `n` cells a side.
fn center(n: i64, i: i64) -> f64 {
    let dx = 2.0 / n as f64;
    -1.0 + (i as f64 + 0.5) * dx
}

fn explosion(x: f64, y: f64) -> (f64, f64, f64) {
    let d = if (x * x + y * y).sqrt() < 0.25 { 1.0 } else { 0.1 };
    (d, 0.0, 0.0)
}

#[test]
fn structured_buffer_has_ghost_cells() {
    let buffer = structured_primitive(4, 4, |i, j| explosion(center(4, i), center(4, j)));
    assert_eq!(buffer.len(), (4 + 4) * (4 + 4) * 3);
    assert_eq!(buffer.len(), 192);
}

#[test]
fn structured_ghost_cells_hold_the_analytic_values() {
    let cell = |i: i64, j: i64| (i as f64, j as f64, (i * 100 + j) as f64);
    let buffer = structured_primitive(4, 4, cell);
    for i in -2..6i64 {
        for j in -2..6i64 {
            let n = ((i + 2) * 3 * 8 + (j + 2) * 3) as usize;
            assert_eq!(buffer[n], i as f64);
            assert_eq!(buffer[n + 1], j as f64);
            assert_eq!(buffer[n + 2], (i * 100 + j) as f64);
        }
    }
    // the first cell is the corner ghost cell (-2, -2), not zero
    assert_eq!(buffer[0], -2.0);
    assert_eq!(buffer[2], -202.0);
}

#[test]
fn structured_buffer_of_an_empty_mesh_holds_only_ghosts() {
    let buffer = structured_primitive(0, 3, |i, j| (i, j, 0i64));
    assert_eq!(buffer.len(), 4 * 7 * 3);
    assert_eq!(&buffer[0..3], &[-2, -2, 0]);
    assert_eq!(&buffer[buffer.len() - 3..], &[1, 4, 0]);
}

#[test]
fn patch_buffer_covers_only_its_rectangle() {
    let space = IndexSpace { i0: 1, i1: 3, j0: 5, j1: 8 };
    let buffer = patch_primitive(&space, |i, j| (i, j, i * j));
    assert_eq!(buffer.len(), 2 * 3 * 3);
    assert_eq!(&buffer[0..3], &[1, 5, 5]);
    assert_eq!(&buffer[3..6], &[1, 6, 6]);
    assert_eq!(&buffer[9..12], &[2, 5, 10]);
    let empty = IndexSpace { i0: 4, i1: 4, j0: 0, j1: 10 };
    assert!(patch_primitive(&empty, |i, j| (i, j, 0)).is_empty());
}

#[test]
fn face_buffer_fills_each_cell_from_its_faces() {
    let faces = vec![0.0, 0.25, 0.5, 0.75, 1.0];
    let shocktube = |a: f64, b: f64| {
        let x = 0.5 * (a + b);
        if x < 0.5 {
            (1.0, 0.0, 1.0)
        } else {
            (0.1, 0.0, 0.125)
        }
    };
    let buffer = face_primitive(&faces, shocktube);
    assert_eq!(buffer.len(), 12);
    assert_eq!(&buffer[0..3], &[1.0, 0.0, 1.0]);
    assert_eq!(&buffer[3..6], &[1.0, 0.0, 1.0]);
    assert_eq!(&buffer[6..9], &[0.1, 0.0, 0.125]);
    assert_eq!(&buffer[9..12], &[0.1, 0.0, 0.125]);
    assert!(face_primitive(&vec![0.5], shocktube).is_empty());
}

#[test]
fn uniform_faces_span_the_unit_interval() {
    let resolution = 8u32;
    let dx = 1.0 / resolution as f64;
    let faces = uniform_faces(resolution, |i| i as f64 * dx);
    assert_eq!(faces.len(), 9);
    assert_eq!(faces[0], 0.0);
    assert_eq!(faces[8], 1.0);
    assert_eq!(faces[4], 0.5);
    let faces = uniform_faces(4, |i| -1.0 + i as f64 * 0.5);
    assert_eq!(faces, vec![-1.0, -0.5, 0.0, 0.5, 1.0]);
}

fn midpoint(a: f64, b: f64) -> f64 {
    0.5 * (a + b)
}

fn extrapolate(neighbour: f64, edge: f64) -> f64 {
    edge + 0.5 * (edge - neighbour)
}

#[test]
fn one_row_table_gives_no_faces() {
    match faces_from_centers(&vec![1.0], midpoint, extrapolate) {
        Err(Error::InvalidSetup(message)) => {
            assert_eq!(message, "table must have at least 2 rows")
        }
        _ => panic!("one row is too few"),
    }
    assert!(faces_from_centers(&Vec::<f64>::new(), midpoint, extrapolate).is_err());
}

#[test]
fn table_faces_are_midpoints_between_rows() {
    let centers = vec![1.0, 2.0, 4.0];
    let faces = faces_from_centers(&centers, midpoint, extrapolate).unwrap();
    assert_eq!(faces.len(), centers.len() + 1);
    assert_eq!(faces, vec![0.5, 1.5, 3.0, 5.0]);
    let faces = faces_from_centers(&vec![0.0, 1.0], midpoint, extrapolate).unwrap();
    assert_eq!(faces, vec![-0.5, 0.5, 1.5]);
}

