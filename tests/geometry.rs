use webgpu_fundamentals::geometry::{create_circle_vertices, inner_color, outer_color, Rgba, Vertex};

#[test]
fn full_ring_of_24_subdivisions() {
    let (vertices, indices) = create_circle_vertices(24);
    assert_eq!(vertices.len(), 50);
    assert_eq!(indices.len(), 144);
    assert_eq!(indices.iter().copied().min(), Some(0));
    assert_eq!(indices.iter().copied().max(), Some(49));
}

#[test]
fn one_subdivision_is_one_quad() {
    let (vertices, indices) = create_circle_vertices(1);
    assert_eq!(vertices.len(), 4);
    assert_eq!(indices, vec![0, 1, 2, 2, 1, 3]);
}

#[test]
fn quads_join_consecutive_steps() {
    let (_, indices) = create_circle_vertices(3);
    assert_eq!(
        indices,
        vec![0, 1, 2, 2, 1, 3, 2, 3, 4, 4, 3, 5, 4, 5, 6, 6, 5, 7]
    );
}

#[test]
fn vertices_alternate_inner_and_outer_rim() {
    let (vertices, _) = create_circle_vertices(2);
    let white = Rgba { r: 255, g: 255, b: 255, a: 255 };
    let grey = Rgba { r: 25, g: 25, b: 25, a: 255 };
    assert_eq!(inner_color(), white);
    assert_eq!(outer_color(), grey);
    assert_eq!(
        vertices,
        vec![
            Vertex { step: 0, outer: false, color: white },
            Vertex { step: 0, outer: true, color: grey },
            Vertex { step: 1, outer: false, color: white },
            Vertex { step: 1, outer: true, color: grey },
            Vertex { step: 2, outer: false, color: white },
            Vertex { step: 2, outer: true, color: grey },
        ]
    );
}

#[test]
fn every_index_in_bounds_and_no_degenerate_triangle() {
    for n in [1usize, 2, 7, 24, 100] {
        let (vertices, indices) = create_circle_vertices(n);
        assert_eq!(vertices.len(), 2 * (n + 1));
        assert_eq!(indices.len(), 6 * n);
        assert!(indices.iter().all(|&i| (i as usize) < vertices.len()));
        for t in indices.chunks(3) {
            assert!(t[0] != t[1] && t[0] != t[2] && t[1] != t[2]);
        }
    }
}
