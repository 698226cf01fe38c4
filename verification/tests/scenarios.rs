use skyship::geometry::{classify_foot, classify_meeting, Foot, LineKind, Meeting};

#[derive(Clone, Copy, Debug, PartialEq)]
struct P {
    x: f32,
    y: f32,
}

#[derive(Clone, Copy, Debug)]
struct Line {
    start: P,
    end: P,
}

fn p(x: f32, y: f32) -> P {
    P { x, y }
}

fn line(x0: f32, y0: f32, x1: f32, y1: f32) -> Line {
    Line { start: p(x0, y0), end: p(x1, y1) }
}

impl Line {
    fn length(&self) -> f32 {
        let x_diff = self.start.x - self.end.x;
        let y_diff = self.start.y - self.end.y;
        (x_diff.powf(2.0) + y_diff.powf(2.0)).sqrt()
    }

    fn is_vertical(&self) -> bool {
        self.start.x == self.end.x
    }

    fn slope_intercept(&self) -> (f32, f32) {
        if self.is_vertical() {
            (f32::INFINITY, f32::NAN)
        } else {
            let slope = (self.end.y - self.start.y) / (self.end.x - self.start.x);
            (slope, self.start.y - self.start.x * slope)
        }
    }

    fn kind(&self) -> LineKind {
        LineKind { zero_length: self.length() == 0.0, vertical: self.is_vertical() }
    }

    fn holds(&self, point: &P) -> bool {
        let (x_low, x_high) = if self.start.x < self.end.x {
            (self.start.x, self.end.x)
        } else {
            (self.end.x, self.start.x)
        };
        let (y_low, y_high) = if self.start.y < self.end.y {
            (self.start.y, self.end.y)
        } else {
            (self.end.y, self.start.y)
        };
        let x_in_bounds = x_low <= point.x && point.x <= x_high;
        let y_in_bounds = y_low <= point.y && point.y <= y_high;
        let (slope, intercept) = if self.is_vertical() {
            self.slope_intercept()
        } else {
            (0.0, point.y)
        };
        let on_line = point.y == point.x * slope + intercept;
        x_in_bounds && y_in_bounds && on_line
    }

    fn meets(&self, other: &Line) -> Option<P> {
        let (slope, intercept) = self.slope_intercept();
        let (other_slope, other_intercept) = other.slope_intercept();
        match classify_meeting(self.kind(), other.kind(), slope == other_slope) {
            Meeting::Nowhere => None,
            Meeting::OnFirstVertical => {
                Some(p(self.start.x, other_slope * self.start.x + other_intercept))
            }
            Meeting::OnSecondVertical => Some(p(other.start.x, slope * other.start.x + intercept)),
            Meeting::Solved => {
                let x = (other_intercept - intercept) / (slope - other_slope);
                Some(p(x, slope * x + intercept))
            }
        }
    }

    fn crosses(&self, other: &Line) -> Option<P> {
        match self.meets(other) {
            Some(point) if self.holds(&point) && other.holds(&point) => Some(point),
            _ => None,
        }
    }
}

struct Zip {
    line: Line,
    width: f32,
}

impl Zip {
    fn perpendicular_through(&self, point: &P) -> Line {
        let horizontal = self.line.start.y == self.line.end.y;
        let foot = match classify_foot(self.line.is_vertical(), horizontal) {
            Foot::AtLineX => p(self.line.start.x, point.y),
            Foot::AtLineY => p(point.x, self.line.start.y),
            Foot::Crossed => {
                let (slope, _) = self.line.slope_intercept();
                let across = -1.0 / slope;
                let intercept = -point.x * across + point.y;
                let helper = line(0.0, intercept, 100.0, intercept + 100.0 * across);
                self.line.meets(&helper).unwrap_or(p(0.0, 0.0))
            }
        };
        Line { start: *point, end: foot }
    }

    fn point_in_range(&self, point: &P) -> bool {
        let across = self.perpendicular_through(point);
        self.line.holds(&across.end) && across.length() < self.width
    }
}

fn close(a: f32, b: f32) -> bool {
    (a - b).abs() <= 1e-4 * (1.0 + a.abs().max(b.abs()))
}

#[test]
fn crossing_segments_meet_at_five_five() {
    let a = line(0.0, 0.0, 10.0, 10.0);
    let b = line(0.0, 10.0, 10.0, 0.0);
    assert_eq!(a.crosses(&b), Some(p(5.0, 5.0)));
    assert_eq!(b.crosses(&a), Some(p(5.0, 5.0)));
}

#[test]
fn segments_whose_lines_meet_outside_them_do_not_cross() {
    let a = line(0.0, 0.0, 2.0, 2.0);
    let b = line(0.0, 10.0, 10.0, 0.0);
    assert_eq!(a.meets(&b), Some(p(5.0, 5.0)));
    assert_eq!(a.crosses(&b), None);
    assert_eq!(b.crosses(&a), None);
}

#[test]
fn meeting_point_satisfies_both_line_equations() {
    let lines = [
        line(0.0, 0.0, 10.0, 10.0),
        line(0.0, 10.0, 10.0, 0.0),
        line(-3.0, 2.0, 7.0, 4.5),
        line(1.0, -8.0, 2.0, 9.0),
        line(-20.0, 3.0, 5.0, 2.0),
    ];
    for a in lines.iter() {
        for b in lines.iter() {
            let (slope, intercept) = a.slope_intercept();
            let (other_slope, other_intercept) = b.slope_intercept();
            match a.meets(b) {
                Some(point) => {
                    assert!(slope != other_slope);
                    assert!(close(point.y, slope * point.x + intercept));
                    assert!(close(point.y, other_slope * point.x + other_intercept));
                }
                None => assert!(slope == other_slope),
            }
        }
    }
}

#[test]
fn a_point_between_the_ends_of_a_slanted_segment_is_held() {
    let a = line(0.0, 0.0, 10.0, 10.0);
    for step in 1..10 {
        let t = step as f32 / 10.0;
        assert!(a.holds(&p(10.0 * t, 10.0 * t)));
    }
}

#[test]
fn only_the_box_is_tested_on_a_slanted_segment() {
    let a = line(0.0, 0.0, 10.0, 10.0);
    assert!(a.holds(&p(2.0, 9.0)));
    assert!(!a.holds(&p(11.0, 11.0)));
    assert!(!a.holds(&p(-1.0, 5.0)));
}

#[test]
fn a_vertical_segment_holds_no_point() {
    let a = line(3.0, 0.0, 3.0, 10.0);
    assert!(!a.holds(&p(3.0, 5.0)));
    assert!(!a.holds(&p(3.0, 0.0)));
}

#[test]
fn zipper_range_follows_width_and_segment() {
    let zipper = Zip { line: line(0.0, 0.0, 10.0, 0.0), width: 2.0 };
    assert!(zipper.point_in_range(&p(5.0, 1.0)));
    assert!(!zipper.point_in_range(&p(5.0, 3.0)));
    assert!(!zipper.point_in_range(&p(-1.0, 1.0)));
}

#[test]
fn foot_on_a_slanted_zipper_is_the_nearest_point_of_its_line() {
    let zipper = Zip { line: line(0.0, 0.0, 10.0, 10.0), width: 2.0 };
    let across = zipper.perpendicular_through(&p(0.0, 4.0));
    assert!(close(across.end.x, 2.0));
    assert!(close(across.end.y, 2.0));
    assert!(zipper.point_in_range(&p(4.0, 5.0)));
    assert!(!zipper.point_in_range(&p(0.0, 4.0)));
}

#[test]
fn foot_on_a_vertical_zipper_keeps_the_height_of_the_point() {
    let zipper = Zip { line: line(4.0, 0.0, 4.0, 10.0), width: 2.0 };
    let across = zipper.perpendicular_through(&p(5.0, 6.0));
    assert_eq!(across.end, p(4.0, 6.0));
    assert_eq!(across.length(), 1.0);
}
