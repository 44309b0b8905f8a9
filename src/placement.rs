use vstd::prelude::*;

verus! {

/// A point in the window's client coordinates.
#[derive(Clone, Copy, Debug, PartialEq, Eq, Structural)]
pub struct Point {
    pub x: i32,
    pub y: i32,
}

/// A rectangle given by its edges.
#[derive(Clone, Copy, Debug, PartialEq, Eq, Structural)]
pub struct Rect {
    pub left: i32,
    pub top: i32,
    pub right: i32,
    pub bottom: i32,
}

/// The two kinds of placement directive for the candidate window.
#[derive(Clone, Copy, Debug, PartialEq, Eq, Structural)]
pub enum PlacementStyle {
    /// Anchor the candidate list at a point.
    CandidatePosition,
    /// Keep the candidate list out of an area that the application draws itself.
    Exclude,
}

/// One placement directive, laid out as the native candidate form record.
#[derive(Clone, Copy, Debug, PartialEq, Eq, Structural)]
pub struct CandidateForm {
    pub index: u32,
    pub style: PlacementStyle,
    pub current_pos: Point,
    pub area: Rect,
}

/// The rectangle that covers the single point `p`.
pub open spec fn point_rect(p: Point) -> Rect {
    Rect { left: p.x, top: p.y, right: p.x, bottom: p.y }
}

/// The directive that anchors the candidate list at `p`, with an empty area.
pub open spec fn candidate_position_form(p: Point) -> CandidateForm {
    CandidateForm {
        index: 0,
        style: PlacementStyle::CandidatePosition,
        current_pos: p,
        area: Rect { left: 0, top: 0, right: 0, bottom: 0 },
    }
}

/// The directive that keeps the candidate list off the point `p`.
pub open spec fn exclude_form(p: Point) -> CandidateForm {
    CandidateForm {
        index: 0,
        style: PlacementStyle::Exclude,
        current_pos: p,
        area: point_rect(p),
    }
}

/// The directives to issue, in order, to place the candidate window at
/// `position`: first anchor it there, then exclude that point, so that the
/// native layer leaves the drawing of the composition to the application.
pub fn candidate_window_forms(position: Point) -> (forms: [CandidateForm; 2])
    ensures
        forms@ == seq![candidate_position_form(position), exclude_form(position)],
{
    let anchor = CandidateForm {
        index: 0,
        style: PlacementStyle::CandidatePosition,
        current_pos: position,
        area: Rect { left: 0, top: 0, right: 0, bottom: 0 },
    };
    let exclude = CandidateForm {
        index: 0,
        style: PlacementStyle::Exclude,
        current_pos: position,
        area: Rect { left: position.x, top: position.y, right: position.x, bottom: position.y },
    };
    let forms = [anchor, exclude];
    assert(forms@ =~= seq![candidate_position_form(position), exclude_form(position)]);
    forms
}

} // verus!
