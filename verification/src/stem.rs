//! Stem geometry.
//!
//! A stem hangs off a notehead glyph at an anchor the font provides:
//! `stem_up_se` for an upward stem, `stem_down_nw` for a downward one. A
//! missing anchor is a fatal metrics error, never a silent default. The stem
//! body is drawn as a thin rectangle (emitted as a polygon) whose width is
//! the font's stem thickness.

use vstd::prelude::*;

use crate::glyph::Glyph;
use crate::ir::{rect_points, Coord, CoordModel, Polygon, Shape, ShapeModel, Size};
use crate::metrics::Metrics;
use crate::staff_spaces::{StaffSpaces, COORD_LIMIT};
use crate::{Error, MetricKind};

verus! {

/// The length of a stem, in staff-space units, when nothing overrides it:
/// three and a half staff spaces.
pub const DEFAULT_LENGTH_UNITS: i64 = 35_000_000;

/// Which way a stem points from its notehead.
#[derive(Clone, Copy, Debug, PartialEq, Eq, Structural)]
pub enum Direction {
    Up,
    Down,
}

/// A stem: a notehead glyph, the notehead's position, a direction and a
/// length.
#[derive(Clone, Copy, Debug, PartialEq)]
pub struct Stem {
    pub glyph: Glyph,
    pub x: StaffSpaces,
    pub y: StaffSpaces,
    pub direction: Direction,
    pub length: StaffSpaces,
}

impl Stem {
    /// Whether the stem's coordinates are within the layout bound, so that
    /// its geometry cannot overflow.
    pub open spec fn wf(self) -> bool {
        &&& -COORD_LIMIT <= self.x@ <= COORD_LIMIT
        &&& -COORD_LIMIT <= self.y@ <= COORD_LIMIT
        &&& -COORD_LIMIT <= self.length@ <= COORD_LIMIT
    }

    /// Returns a stem for the given notehead; without an override the
    /// length is the default three and a half staff spaces.
    pub fn new(
        glyph: Glyph,
        x: StaffSpaces,
        y: StaffSpaces,
        direction: Direction,
        length: Option<StaffSpaces>,
    ) -> (r: Stem)
        ensures
            r.glyph == glyph,
            r.x == x,
            r.y == y,
            r.direction == direction,
            r.length@ == match length {
                Some(length) => length@,
                None => DEFAULT_LENGTH_UNITS as int,
            },
    {
        Stem {
            glyph,
            x,
            y,
            direction,
            length: match length {
                Some(length) => length,
                None => StaffSpaces { units: DEFAULT_LENGTH_UNITS },
            },
        }
    }

    /// The height the stem reaches: above the notehead for an upward stem,
    /// below it for a downward one.
    pub open spec fn spec_end(self) -> int {
        match self.direction {
            Direction::Up => self.y@ + self.length@,
            Direction::Down => self.y@ - self.length@,
        }
    }

    /// The height the stem reaches: above the notehead for an upward stem,
    /// below it for a downward one.
    pub fn end(&self) -> (r: StaffSpaces)
        requires
            self.wf(),
        ensures
            r@ == self.spec_end(),
    {
        match self.direction {
            Direction::Up => StaffSpaces { units: self.y.units + self.length.units },
            Direction::Down => StaffSpaces { units: self.y.units - self.length.units },
        }
    }

    /// The anchor the stem hangs from: `stem_up_se` upward, `stem_down_nw`
    /// downward; either may be missing from the font, which is an error.
    pub open spec fn spec_anchor(self, metrics: Metrics) -> Result<Coord<StaffSpaces>, Error> {
        match metrics.spec_anchors_of(self.glyph) {
            Err(e) => Err(e),
            Ok(anchors) => match self.direction {
                Direction::Up => match anchors.stem_up_se {
                    Some(anchor) => Ok(anchor),
                    None => Err(
                        Error::MissingGlyphData {
                            glyph: self.glyph,
                            data_type: MetricKind::StemUpSe,
                        },
                    ),
                },
                Direction::Down => match anchors.stem_down_nw {
                    Some(anchor) => Ok(anchor),
                    None => Err(
                        Error::MissingGlyphData {
                            glyph: self.glyph,
                            data_type: MetricKind::StemDownNw,
                        },
                    ),
                },
            },
        }
    }

    fn anchor(&self, metrics: &Metrics) -> (r: Result<Coord<StaffSpaces>, Error>)
        ensures
            r == self.spec_anchor(*metrics),
    {
        let anchors = match metrics.anchors_of(self.glyph) {
            Ok(anchors) => anchors,
            Err(e) => {
                return Err(e);
            },
        };

        match self.direction {
            Direction::Up => match anchors.stem_up_se {
                Some(anchor) => Ok(anchor),
                None => Err(
                    Error::MissingGlyphData { glyph: self.glyph, data_type: MetricKind::StemUpSe },
                ),
            },
            Direction::Down => match anchors.stem_down_nw {
                Some(anchor) => Ok(anchor),
                None => Err(
                    Error::MissingGlyphData {
                        glyph: self.glyph,
                        data_type: MetricKind::StemDownNw,
                    },
                ),
            },
        }
    }

    /// Where the left edge of the stem body lies: at the anchor, pulled
    /// back by the stem thickness when the stem points up (the anchor is
    /// then the body's right edge).
    pub open spec fn spec_left(self, metrics: Metrics) -> Result<int, Error> {
        match self.spec_anchor(metrics) {
            Err(e) => Err(e),
            Ok(anchor) => Ok(
                match self.direction {
                    Direction::Up => self.x@ + anchor.x@
                        - metrics.engraving_defaults.spec_stem_thickness(),
                    Direction::Down => self.x@ + anchor.x@,
                },
            ),
        }
    }

    /// The left edge of the stem body.
    pub fn left(&self, metrics: &Metrics) -> (r: Result<StaffSpaces, Error>)
        requires
            self.wf(),
            metrics.wf(),
        ensures
            match (r, self.spec_left(*metrics)) {
                (Ok(left), Ok(spec_left)) => left@ == spec_left,
                (Err(e), Err(spec_e)) => e == spec_e,
                _ => false,
            },
    {
        let anchor = match self.anchor(metrics) {
            Ok(anchor) => anchor,
            Err(e) => {
                return Err(e);
            },
        };

        Ok(
            match self.direction {
                Direction::Up => {
                    let stem_thickness = metrics.engraving_defaults.stem_thickness();
                    StaffSpaces {
                        units: self.x.units + anchor.x.units - stem_thickness.units,
                    }
                },
                Direction::Down => StaffSpaces { units: self.x.units + anchor.x.units },
            },
        )
    }

    /// The right edge of the stem body: its left edge plus the stem
    /// thickness.
    pub open spec fn spec_right(self, metrics: Metrics) -> Result<int, Error> {
        match self.spec_left(metrics) {
            Err(e) => Err(e),
            Ok(left) => Ok(left + metrics.engraving_defaults.spec_stem_thickness()),
        }
    }

    /// The right edge of the stem body.
    pub fn right(&self, metrics: &Metrics) -> (r: Result<StaffSpaces, Error>)
        requires
            self.wf(),
            metrics.wf(),
        ensures
            match (r, self.spec_right(*metrics)) {
                (Ok(right), Ok(spec_right)) => right@ == spec_right,
                (Err(e), Err(spec_e)) => e == spec_e,
                _ => false,
            },
    {
        let stem_thickness = metrics.engraving_defaults.stem_thickness();
        match self.left(metrics) {
            Ok(left) => Ok(StaffSpaces { units: left.units + stem_thickness.units }),
            Err(e) => Err(e),
        }
    }

    /// Lengthens the stem by `adjustment`, which may be negative; the beam
    /// renderer shortens its stems by half the beam thickness this way.
    pub fn adjust_length(&mut self, adjustment: StaffSpaces)
        requires
            -COORD_LIMIT <= old(self).length@ + adjustment@ <= COORD_LIMIT,
        ensures
            final(self).length@ == old(self).length@ + adjustment@,
            final(self).glyph == old(self).glyph,
            final(self).x == old(self).x,
            final(self).y == old(self).y,
            final(self).direction == old(self).direction,
    {
        self.length = StaffSpaces { units: self.length.units + adjustment.units };
    }

    /// The stem body: a rectangle one stem thickness wide, reaching from
    /// the anchor to the stem's end.
    pub open spec fn spec_render(self, metrics: Metrics) -> Result<ShapeModel, Error> {
        let thickness = metrics.engraving_defaults.spec_stem_thickness();
        match (self.spec_anchor(metrics), self.spec_left(metrics)) {
            (Ok(anchor), Ok(left)) => Ok(
                match self.direction {
                    Direction::Up => ShapeModel::Polygon {
                        points: rect_points(
                            CoordModel { x: left, y: self.y@ + anchor.y@ },
                            thickness,
                            self.length@ - anchor.y@,
                        ),
                    },
                    Direction::Down => ShapeModel::Polygon {
                        points: rect_points(
                            CoordModel { x: left, y: self.y@ - self.length@ },
                            thickness,
                            self.length@ + anchor.y@,
                        ),
                    },
                },
            ),
            (Err(e), _) => Err(e),
            (_, Err(e)) => Err(e),
        }
    }

    /// Renders the stem body.
    pub fn render(&self, metrics: &Metrics) -> (r: Result<Shape<StaffSpaces>, Error>)
        requires
            self.wf(),
            metrics.wf(),
        ensures
            match (r, self.spec_render(*metrics)) {
                (Ok(shape), Ok(model)) => shape@ == model,
                (Err(e), Err(spec_e)) => e == spec_e,
                _ => false,
            },
    {
        let stem_thickness = metrics.engraving_defaults.stem_thickness();
        let anchor = match self.anchor(metrics) {
            Ok(anchor) => anchor,
            Err(e) => {
                return Err(e);
            },
        };
        let left = match self.left(metrics) {
            Ok(left) => left,
            Err(e) => {
                return Err(e);
            },
        };

        let polygon = match self.direction {
            Direction::Up => {
                let origin = Coord {
                    x: left,
                    y: StaffSpaces { units: self.y.units + anchor.y.units },
                };
                let size = Size {
                    width: stem_thickness,
                    height: StaffSpaces { units: self.length.units - anchor.y.units },
                };
                Polygon::rect(origin, size)
            },
            Direction::Down => {
                let origin = Coord {
                    x: left,
                    y: StaffSpaces { units: self.y.units - self.length.units },
                };
                let size = Size {
                    width: stem_thickness,
                    height: StaffSpaces { units: self.length.units + anchor.y.units },
                };
                Polygon::rect(origin, size)
            },
        };

        Ok(Shape::Polygon(polygon))
    }
}

} // verus!
