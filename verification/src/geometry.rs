//! Classification of geometric degeneracy: which rule gives the meeting point
//! of two directed lines, and which rule gives the foot of a perpendicular.
//!
//! The coordinates themselves stay with the host. The rules here are decided
//! from exact yes-or-no facts about the lines, with no tolerance, and absence
//! of a meeting point is an ordinary outcome.

use vstd::prelude::*;

verus! {

/// The facts about a directed line that decide how it can be intersected.
#[derive(Clone, Copy, Debug, PartialEq, Eq, Structural)]
pub struct LineKind {
    /// The line has length zero and so no direction.
    pub zero_length: bool,
    /// Start and end have the same x.
    pub vertical: bool,
}

/// How the point in which two directed lines meet, both taken as infinite
/// lines, is found.
#[derive(Clone, Copy, Debug, PartialEq, Eq, Structural)]
pub enum Meeting {
    /// There is no single meeting point.
    Nowhere,
    /// Only the first line is vertical: the point has its x, and the y that
    /// the equation of the second line gives there.
    OnFirstVertical,
    /// Only the second line is vertical: the point has its x, and the y that
    /// the equation of the first line gives there.
    OnSecondVertical,
    /// Neither line is vertical and their slopes differ: the point solves the
    /// two line equations.
    Solved,
}

/// How the foot of the perpendicular from a point onto a directed line is
/// found.
#[derive(Clone, Copy, Debug, PartialEq, Eq, Structural)]
pub enum Foot {
    /// The line is vertical: the foot has the x of the line and the y of the
    /// point.
    AtLineX,
    /// The line is horizontal: the foot has the x of the point and the y of
    /// the line.
    AtLineY,
    /// The line is slanted: the foot is where the perpendicular through the
    /// point meets it.
    Crossed,
}

/// The rule for the meeting point of `first` and `second`, where
/// `equal_slopes` says whether their slopes are the same number.
pub open spec fn meeting(first: LineKind, second: LineKind, equal_slopes: bool) -> Meeting {
    if first.zero_length || second.zero_length {
        Meeting::Nowhere
    } else if first.vertical {
        if second.vertical {
            Meeting::Nowhere
        } else {
            Meeting::OnFirstVertical
        }
    } else if second.vertical {
        Meeting::OnSecondVertical
    } else if equal_slopes {
        Meeting::Nowhere
    } else {
        Meeting::Solved
    }
}

/// The rule for the foot of a perpendicular onto a line that is `vertical`,
/// `horizontal`, both or neither. A line that is both counts as vertical.
pub open spec fn foot(vertical: bool, horizontal: bool) -> Foot {
    if vertical {
        Foot::AtLineX
    } else if horizontal {
        Foot::AtLineY
    } else {
        Foot::Crossed
    }
}

/// Decides how the meeting point of two directed lines is found.
pub fn classify_meeting(first: LineKind, second: LineKind, equal_slopes: bool) -> (rule: Meeting)
    ensures
        rule == meeting(first, second, equal_slopes),
{
    if first.zero_length || second.zero_length {
        return Meeting::Nowhere;
    }
    match (first.vertical, second.vertical) {
        (true, true) => Meeting::Nowhere,
        (true, false) => Meeting::OnFirstVertical,
        (false, true) => Meeting::OnSecondVertical,
        (false, false) => if equal_slopes {
            Meeting::Nowhere
        } else {
            Meeting::Solved
        },
    }
}

/// Decides how the foot of a perpendicular onto a line is found.
pub fn classify_foot(vertical: bool, horizontal: bool) -> (rule: Foot)
    ensures
        rule == foot(vertical, horizontal),
{
    if vertical {
        Foot::AtLineX
    } else if horizontal {
        Foot::AtLineY
    } else {
        Foot::Crossed
    }
}

/// Two lines have no meeting point exactly when one of them has no length,
/// when both are vertical, or when neither is and their slopes are equal. A
/// meeting point is taken from a vertical line exactly when it is the only
/// vertical one of two lines with a length.
pub proof fn lemma_meeting_cases(first: LineKind, second: LineKind, equal_slopes: bool)
    ensures
        meeting(first, second, equal_slopes) is Nowhere <==> {
            ||| first.zero_length
            ||| second.zero_length
            ||| first.vertical && second.vertical
            ||| !first.vertical && !second.vertical && equal_slopes
        },
        meeting(first, second, equal_slopes) is OnFirstVertical <==> {
            &&& !first.zero_length && !second.zero_length
            &&& first.vertical && !second.vertical
        },
        meeting(first, second, equal_slopes) is OnSecondVertical <==> {
            &&& !first.zero_length && !second.zero_length
            &&& !first.vertical && second.vertical
        },
{
}

/// Taking the two lines in the other order changes nothing but the line that
/// a vertical rule names.
pub proof fn lemma_meeting_mirrored(first: LineKind, second: LineKind, equal_slopes: bool)
    ensures
        meeting(second, first, equal_slopes) == match meeting(first, second, equal_slopes) {
            Meeting::OnFirstVertical => Meeting::OnSecondVertical,
            Meeting::OnSecondVertical => Meeting::OnFirstVertical,
            same => same,
        },
{
}

/// A slanted line is never parallel to its perpendicular, so the foot on a
/// slanted line with a length always exists: the rule for the two lines is
/// to solve their equations.
pub proof fn lemma_slanted_foot_exists(line: LineKind, perpendicular: LineKind)
    requires
        !line.zero_length,
        !line.vertical,
        !perpendicular.zero_length,
        !perpendicular.vertical,
    ensures
        meeting(line, perpendicular, false) is Solved,
{
}

} // verus!
