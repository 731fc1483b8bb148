use pong3d::mesh::{append_paddle, append_quad, sphere_grid};

#[test]
fn quad_is_two_triangles_sharing_a_diagonal() {
    let mut out = vec!['x'];
    append_quad(&mut out, 'a', 'b', 'c', 'd');
    assert_eq!(out, vec!['x', 'a', 'b', 'c', 'a', 'c', 'd']);
}

#[test]
fn paddle_windings() {
    let mut front = Vec::new();
    append_paddle(&mut front, false, 1, 2, 3, 4);
    assert_eq!(front, vec![1, 2, 3, 1, 3, 4]);
    let mut back = Vec::new();
    append_paddle(&mut back, true, 1, 2, 3, 4);
    assert_eq!(back, vec![1, 4, 3, 1, 3, 2]);
}

#[test]
fn sphere_grid_size() {
    assert_eq!(sphere_grid(10, 16).len(), 960);
    assert_eq!(sphere_grid(0, 16).len(), 0);
    assert_eq!(sphere_grid(3, 0).len(), 0);
}

#[test]
fn sphere_grid_single_cell() {
    assert_eq!(
        sphere_grid(1, 1),
        vec![(0, 0), (1, 0), (1, 1), (0, 0), (1, 1), (0, 1)]
    );
}

#[test]
fn sphere_grid_order_and_range() {
    let g = sphere_grid(2, 3);
    assert_eq!(g.len(), 36);
    assert_eq!(&g[6..12], &[(0, 1), (1, 1), (1, 2), (0, 1), (1, 2), (0, 2)]);
    assert_eq!(&g[18..24], &[(1, 0), (2, 0), (2, 1), (1, 0), (2, 1), (1, 1)]);
    let big = sphere_grid(10, 16);
    for (k, (i, j)) in big.iter().enumerate() {
        assert!(*i <= 10 && *j <= 16);
        let cell = (k / 6) as u32;
        assert!(*i == cell / 16 || *i == cell / 16 + 1);
        assert!(*j == cell % 16 || *j == cell % 16 + 1);
    }
}
