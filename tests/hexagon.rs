use hexs::hexagon::{generate, vertex_offsets, HexagonLines, VertexOffset};

const SIDE: f64 = 50.0;

fn point(v: VertexOffset, side: f64) -> (f64, f64) {
    let a = side / 2.0;
    let b = side * 3.0_f64.sqrt() / 2.0;
    (v.dx as f64 * a, v.dy as f64 * b)
}

#[test]
fn hexagon_has_six_vertices_and_segments() {
    let g = generate();
    assert_eq!(g.vertices.len(), 6);
    assert_eq!(g.segments.len(), 6);
    for i in 0..6 {
        assert_eq!(g.segments[i].line.index(), i);
        assert_eq!(g.segments[i].start, g.vertices[i]);
        assert_eq!(g.segments[i].end, g.vertices[(i + 1) % 6]);
    }
}

#[test]
fn hexagon_vertices_clockwise_from_leftmost() {
    let v = vertex_offsets();
    assert_eq!(v[0], VertexOffset { dx: -2, dy: 0 });
    assert_eq!(v[1], VertexOffset { dx: -1, dy: 1 });
    assert_eq!(v[2], VertexOffset { dx: 1, dy: 1 });
    assert_eq!(v[3], VertexOffset { dx: 2, dy: 0 });
    assert_eq!(v[4], VertexOffset { dx: 1, dy: -1 });
    assert_eq!(v[5], VertexOffset { dx: -1, dy: -1 });
}

#[test]
fn hexagon_sides_have_the_side_length() {
    let g = generate();
    for s in g.segments.iter() {
        let (x0, y0) = point(s.start, SIDE);
        let (x1, y1) = point(s.end, SIDE);
        let d = ((x1 - x0).powi(2) + (y1 - y0).powi(2)).sqrt();
        assert!((d - SIDE).abs() < 1e-4);
    }
    let (x0, y0) = point(g.vertices[0], SIDE);
    assert!((x0 + SIDE).abs() < 1e-4);
    assert!(y0.abs() < 1e-4);
}

#[test]
fn hexagon_is_mirror_symmetric() {
    let v = generate().vertices;
    assert_eq!(v[0].dy, 0);
    assert_eq!(v[3].dy, 0);
    assert_eq!(v[1].dx, -v[2].dx);
    assert_eq!(v[1].dy, v[2].dy);
    assert_eq!(v[4].dx, -v[5].dx);
    assert_eq!(v[4].dy, v[5].dy);
}

#[test]
fn hexagon_line_endpoints_close_the_loop() {
    assert_eq!(HexagonLines::TopAscendingLine.endpoints(), (0, 1));
    assert_eq!(HexagonLines::BottomHorizontalLine.endpoints(), (4, 5));
    assert_eq!(HexagonLines::BottomDescendingLine.endpoints(), (5, 0));
    assert_eq!(HexagonLines::from_index(2), HexagonLines::TopDescendingLine);
}
