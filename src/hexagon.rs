use vstd::prelude::*;

verus! {

/// Number of vertices, and of boundary segments, of a hexagon.
pub const HEXAGON_SIDES: usize = 6;

/// A hexagon vertex relative to the center, in exact units: `dx` counts half
/// side lengths (S / 2) along x, and `dy` counts half heights (S * sqrt(3) / 2)
/// along y. The point itself is (cx + dx * S / 2, cy + dy * S * sqrt(3) / 2).
#[derive(Clone, Copy, Debug, PartialEq, Eq, Structural)]
pub struct VertexOffset {
    pub dx: i8,
    pub dy: i8,
}

/// The six boundary segments of a flat-topped hexagon, starting with the
/// segment from the leftmost vertex up to the top left one and going on
/// clockwise.
#[derive(Clone, Copy, Debug, PartialEq, Eq, Structural)]
pub enum HexagonLines {
    TopAscendingLine,
    TopHorizontalLine,
    TopDescendingLine,
    BottomAscendingLine,
    BottomHorizontalLine,
    BottomDescendingLine,
}

impl HexagonLines {
    /// Position in clockwise order, from 0 to 5.
    pub open spec fn spec_index(self) -> nat {
        match self {
            HexagonLines::TopAscendingLine => 0,
            HexagonLines::TopHorizontalLine => 1,
            HexagonLines::TopDescendingLine => 2,
            HexagonLines::BottomAscendingLine => 3,
            HexagonLines::BottomHorizontalLine => 4,
            HexagonLines::BottomDescendingLine => 5,
        }
    }

    /// Position in clockwise order, from 0 to 5.
    pub fn index(&self) -> (r: usize)
        ensures
            r == self.spec_index(),
            r < HEXAGON_SIDES,
    {
        match self {
            HexagonLines::TopAscendingLine => 0,
            HexagonLines::TopHorizontalLine => 1,
            HexagonLines::TopDescendingLine => 2,
            HexagonLines::BottomAscendingLine => 3,
            HexagonLines::BottomHorizontalLine => 4,
            HexagonLines::BottomDescendingLine => 5,
        }
    }

    /// The segment at a clockwise position below 6.
    pub fn from_index(index: usize) -> (r: HexagonLines)
        requires
            index < HEXAGON_SIDES,
        ensures
            r.spec_index() == index,
    {
        match index {
            0 => HexagonLines::TopAscendingLine,
            1 => HexagonLines::TopHorizontalLine,
            2 => HexagonLines::TopDescendingLine,
            3 => HexagonLines::BottomAscendingLine,
            4 => HexagonLines::BottomHorizontalLine,
            _ => HexagonLines::BottomDescendingLine,
        }
    }

    /// The positions of the vertices this segment joins: its own position and
    /// the next one clockwise, the last segment closing the loop at vertex 0.
    pub fn endpoints(&self) -> (r: (usize, usize))
        ensures
            r.0 == self.spec_index(),
            r.1 == (self.spec_index() + 1) % 6,
    {
        let start = self.index();
        if start == HEXAGON_SIDES - 1 {
            (start, 0)
        } else {
            (start, start + 1)
        }
    }
}

/// One boundary segment: which one it is and the vertices it joins.
#[derive(Clone, Copy, Debug, PartialEq, Eq, Structural)]
pub struct Segment {
    pub line: HexagonLines,
    pub start: VertexOffset,
    pub end: VertexOffset,
}

/// The outline of a flat-topped regular hexagon around its center.
#[derive(Clone, Copy, Debug, PartialEq, Eq)]
pub struct HexagonGeometry {
    pub vertices: [VertexOffset; 6],
    pub segments: [Segment; 6],
}

/// The six vertices clockwise from the leftmost one: left, top left, top
/// right, right, bottom right, bottom left.
pub open spec fn spec_vertices() -> Seq<VertexOffset> {
    seq![
        VertexOffset { dx: -2i8, dy: 0i8 },
        VertexOffset { dx: -1i8, dy: 1i8 },
        VertexOffset { dx: 1i8, dy: 1i8 },
        VertexOffset { dx: 2i8, dy: 0i8 },
        VertexOffset { dx: 1i8, dy: -1i8 },
        VertexOffset { dx: -1i8, dy: -1i8 },
    ]
}

/// Four times the squared distance, in units of the side length, between two
/// offsets: with x in half sides and y in half heights a unit of x weighs 1/4
/// and a unit of y 3/4 of the side length squared.
pub open spec fn quarter_squared_distance(p: VertexOffset, q: VertexOffset) -> int {
    (q.dx - p.dx) * (q.dx - p.dx) + 3 * ((q.dy - p.dy) * (q.dy - p.dy))
}

/// The outline of a well-formed hexagon: the vertices of `spec_vertices`, and
/// segment `i` of kind `i` from vertex `i` to the next one clockwise.
pub open spec fn is_hexagon_outline(g: HexagonGeometry) -> bool {
    &&& g.vertices@ == spec_vertices()
    &&& forall|i: int|
        #![trigger g.segments@[i]]
        0 <= i < 6 ==> g.segments@[i].line.spec_index() == i && g.segments@[i].start
            == g.vertices@[i] && g.segments@[i].end == g.vertices@[(i + 1) % 6]
}

/// The six vertices of the hexagon, clockwise from the leftmost one.
pub fn vertex_offsets() -> (r: [VertexOffset; 6])
    ensures
        r@ == spec_vertices(),
{
    let r = [
        VertexOffset { dx: -2i8, dy: 0i8 },
        VertexOffset { dx: -1i8, dy: 1i8 },
        VertexOffset { dx: 1i8, dy: 1i8 },
        VertexOffset { dx: 2i8, dy: 0i8 },
        VertexOffset { dx: 1i8, dy: -1i8 },
        VertexOffset { dx: -1i8, dy: -1i8 },
    ];
    assert(r@ == spec_vertices());
    r
}

/// The segment of kind `line` over the given vertices.
fn segment(vertices: &[VertexOffset; 6], line: HexagonLines) -> (r: Segment)
    ensures
        r.line == line,
        r.start == vertices@[line.spec_index() as int],
        r.end == vertices@[((line.spec_index() + 1) % 6) as int],
{
    let (start, end) = line.endpoints();
    Segment { line, start: vertices[start], end: vertices[end] }
}

/// The outline of a flat-topped regular hexagon: six vertices clockwise from
/// the leftmost one, and the six segments between neighbours in the same order.
pub fn generate() -> (r: HexagonGeometry)
    ensures
        is_hexagon_outline(r),
{
    let vertices = vertex_offsets();
    let segments = [
        segment(&vertices, HexagonLines::from_index(0)),
        segment(&vertices, HexagonLines::from_index(1)),
        segment(&vertices, HexagonLines::from_index(2)),
        segment(&vertices, HexagonLines::from_index(3)),
        segment(&vertices, HexagonLines::from_index(4)),
        segment(&vertices, HexagonLines::from_index(5)),
    ];
    HexagonGeometry { vertices, segments }
}

/// Every outline holds six vertices and six segments, and no two segments are
/// of the same kind.
pub proof fn law_six_vertices_and_segments(g: HexagonGeometry)
    requires
        is_hexagon_outline(g),
    ensures
        g.vertices@.len() == 6,
        g.segments@.len() == 6,
        forall|i: int, j: int|
            0 <= i < j < 6 ==> #[trigger] g.segments@[i].line != #[trigger] g.segments@[j].line,
{
    assert forall|i: int, j: int| 0 <= i < j < 6 implies #[trigger] g.segments@[i].line
        != #[trigger] g.segments@[j].line by {
        assert(g.segments@[i].line.spec_index() == i);
        assert(g.segments@[j].line.spec_index() == j);
    }
}

/// Regularity: every segment is exactly one side length long, and every vertex
/// lies exactly one side length from the center.
pub proof fn law_regular(g: HexagonGeometry)
    requires
        is_hexagon_outline(g),
    ensures
        forall|i: int|
            0 <= i < 6 ==> quarter_squared_distance(#[trigger] g.segments@[i].start, g.segments@[i].end)
                == 4,
        forall|i: int|
            0 <= i < 6 ==> quarter_squared_distance((VertexOffset { dx: 0i8, dy: 0i8 }), #[trigger] g.vertices@[i]) == 4,
{
    lemma_vertex_values(g);
    assert forall|i: int| 0 <= i < 6 implies quarter_squared_distance(
        #[trigger] g.segments@[i].start,
        g.segments@[i].end,
    ) == 4 by {
        let s = g.segments@[i];
        if i == 5 {
            assert((i + 1) % 6 == 0);
        } else {
            assert((i + 1) % 6 == i + 1);
        }
        assert(s.start == g.vertices@[i] && s.end == g.vertices@[(i + 1) % 6]);
        lemma_small_square(s.end.dx - s.start.dx);
        lemma_small_square(s.end.dy - s.start.dy);
    }
    assert forall|i: int| 0 <= i < 6 implies quarter_squared_distance(
        (VertexOffset { dx: 0i8, dy: 0i8 }),
        #[trigger] g.vertices@[i],
    ) == 4 by {
        lemma_small_square(g.vertices@[i].dx as int);
        lemma_small_square(g.vertices@[i].dy as int);
    }
}

/// The squares of the small offsets that a hexagon's vertices differ by.
proof fn lemma_small_square(d: int)
    requires
        -4 <= d <= 4,
    ensures
        d == 0 ==> d * d == 0,
        d == 1 || d == -1 ==> d * d == 1,
        d == 2 || d == -2 ==> d * d == 4,
{
    assert(d == -4 || d == -3 || d == -2 || d == -1 || d == 0 || d == 1 || d == 2 || d == 3 || d
        == 4);
}

/// Symmetry: the leftmost and rightmost vertices lie on the center's
/// horizontal line, and the top pair and the bottom pair are mirror images
/// across the vertical line through the center.
pub proof fn law_symmetric(g: HexagonGeometry)
    requires
        is_hexagon_outline(g),
    ensures
        g.vertices@[0].dy == 0,
        g.vertices@[3].dy == 0,
        g.vertices@[0].dx == -g.vertices@[3].dx,
        g.vertices@[1].dx == -g.vertices@[2].dx,
        g.vertices@[1].dy == g.vertices@[2].dy,
        g.vertices@[4].dx == -g.vertices@[5].dx,
        g.vertices@[4].dy == g.vertices@[5].dy,
{
    lemma_vertex_values(g);
}

/// The vertices of an outline, one by one.
proof fn lemma_vertex_values(g: HexagonGeometry)
    requires
        is_hexagon_outline(g),
    ensures
        g.vertices@[0] == (VertexOffset { dx: -2i8, dy: 0i8 }),
        g.vertices@[1] == (VertexOffset { dx: -1i8, dy: 1i8 }),
        g.vertices@[2] == (VertexOffset { dx: 1i8, dy: 1i8 }),
        g.vertices@[3] == (VertexOffset { dx: 2i8, dy: 0i8 }),
        g.vertices@[4] == (VertexOffset { dx: 1i8, dy: -1i8 }),
        g.vertices@[5] == (VertexOffset { dx: -1i8, dy: -1i8 }),
{
}

} // verus!
