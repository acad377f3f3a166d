use vstd::prelude::*;

verus! {

/// One step of a drawing path, in integer pixel coordinates.
#[derive(Debug, Clone, Copy, PartialEq, Eq, Structural)]
pub enum PathStep {
    MoveTo(i32, i32),
    LineTo(i32, i32),
}

/// A drawing path: the sequence of steps a rasterizer walks.
pub struct Path {
    pub steps: Vec<PathStep>,
}

/// The straight stroke from `(x, y)` to `(x2, y2)`: a path that moves to
/// the first point and draws a line to the second.
pub fn draw_line(x: i32, y: i32, x2: i32, y2: i32) -> (p: Path)
    ensures
        p.steps@ == seq![PathStep::MoveTo(x, y), PathStep::LineTo(x2, y2)],
{
    let mut steps: Vec<PathStep> = Vec::new();
    steps.push(PathStep::MoveTo(x, y));
    steps.push(PathStep::LineTo(x2, y2));
    proof {
        assert(steps@ =~= seq![PathStep::MoveTo(x, y), PathStep::LineTo(x2, y2)]);
    }
    Path { steps }
}

} // verus!
