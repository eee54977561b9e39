//! Font metrics: glyph widths, stem anchors, and engraving defaults.
//!
//! The engine never reads a font itself; the host hands it a [`Metrics`]
//! value holding, in staff spaces, the glyph advance widths, the bounding
//! boxes, the stem attachment anchors, and the font's engraving defaults.
//! Widths and anchors have no fallback: a missing entry is a typed error.
//! Each engraving default falls back to a documented constant when the font
//! does not provide it.

use vstd::prelude::*;

use crate::glyph::Glyph;
use crate::ir::Coord;
use crate::staff_spaces::StaffSpaces;
use crate::table::Table;
use crate::{Error, MetricKind};

verus! {

/// The largest magnitude, in staff-space units, that any single font metric
/// may have: a hundred staff spaces, far beyond any real font, and small
/// enough that layout arithmetic cannot overflow.
pub const METRIC_BOUND: i64 = 1_000_000_000;

/// The stem attachment points of a notehead glyph, relative to its origin.
#[derive(Clone, Copy, Debug, PartialEq)]
pub struct Anchors {
    /// Where an upward stem meets the glyph: its south-east corner.
    pub stem_up_se: Option<Coord<StaffSpaces>>,
    /// Where a downward stem meets the glyph: its north-west corner.
    pub stem_down_nw: Option<Coord<StaffSpaces>>,
}

/// The line thicknesses and separations the font asks for; any the font
/// leaves out falls back to a documented constant.
#[derive(Clone, Copy, Debug, PartialEq)]
pub struct EngravingDefaults {
    pub staff_line_thickness: Option<StaffSpaces>,
    pub stem_thickness: Option<StaffSpaces>,
    pub beam_thickness: Option<StaffSpaces>,
    pub leger_line_thickness: Option<StaffSpaces>,
    pub leger_line_extension: Option<StaffSpaces>,
    pub thin_barline_thickness: Option<StaffSpaces>,
    pub thick_barline_thickness: Option<StaffSpaces>,
    pub barline_separation: Option<StaffSpaces>,
    pub thin_thick_barline_separation: Option<StaffSpaces>,
}

impl Default for EngravingDefaults {
    /// Returns defaults with nothing set: every lookup falls back.
    fn default() -> (r: EngravingDefaults)
        ensures
            r.staff_line_thickness == Option::<StaffSpaces>::None,
            r.stem_thickness == Option::<StaffSpaces>::None,
            r.beam_thickness == Option::<StaffSpaces>::None,
            r.leger_line_thickness == Option::<StaffSpaces>::None,
            r.leger_line_extension == Option::<StaffSpaces>::None,
            r.thin_barline_thickness == Option::<StaffSpaces>::None,
            r.thick_barline_thickness == Option::<StaffSpaces>::None,
            r.barline_separation == Option::<StaffSpaces>::None,
            r.thin_thick_barline_separation == Option::<StaffSpaces>::None,
    {
        EngravingDefaults {
            staff_line_thickness: None,
            stem_thickness: None,
            beam_thickness: None,
            leger_line_thickness: None,
            leger_line_extension: None,
            thin_barline_thickness: None,
            thick_barline_thickness: None,
            barline_separation: None,
            thin_thick_barline_separation: None,
        }
    }
}

/// `v` if given, else `fallback` — the engraving-default rule.
pub open spec fn or_default(v: Option<StaffSpaces>, fallback: int) -> int {
    match v {
        Some(value) => value@,
        None => fallback,
    }
}

impl EngravingDefaults {
    /// What `staff_line_thickness` returns: the font's value or 0.1.
    pub open spec fn spec_staff_line_thickness(self) -> int {
        or_default(self.staff_line_thickness, 1_000_000)
    }

    /// The thickness of a staff line; 0.1 staff spaces when the font is
    /// silent.
    pub fn staff_line_thickness(&self) -> (r: StaffSpaces)
        ensures
            r@ == self.spec_staff_line_thickness(),
    {
        match self.staff_line_thickness {
            Some(value) => value,
            None => StaffSpaces { units: 1_000_000 },
        }
    }

    /// What `stem_thickness` returns: the font's value or 0.12.
    pub open spec fn spec_stem_thickness(self) -> int {
        or_default(self.stem_thickness, 1_200_000)
    }

    /// The thickness of a stem; 0.12 staff spaces when the font is silent.
    pub fn stem_thickness(&self) -> (r: StaffSpaces)
        ensures
            r@ == self.spec_stem_thickness(),
    {
        match self.stem_thickness {
            Some(value) => value,
            None => StaffSpaces { units: 1_200_000 },
        }
    }

    /// What `beam_thickness` returns: the font's value or 0.5.
    pub open spec fn spec_beam_thickness(self) -> int {
        or_default(self.beam_thickness, 5_000_000)
    }

    /// The thickness of a beam; 0.5 staff spaces when the font is silent.
    pub fn beam_thickness(&self) -> (r: StaffSpaces)
        ensures
            r@ == self.spec_beam_thickness(),
    {
        match self.beam_thickness {
            Some(value) => value,
            None => StaffSpaces { units: 5_000_000 },
        }
    }

    /// What `leger_line_thickness` returns: the font's value or 0.16.
    pub open spec fn spec_leger_line_thickness(self) -> int {
        or_default(self.leger_line_thickness, 1_600_000)
    }

    /// The thickness of a leger line; 0.16 staff spaces when the font is
    /// silent.
    pub fn leger_line_thickness(&self) -> (r: StaffSpaces)
        ensures
            r@ == self.spec_leger_line_thickness(),
    {
        match self.leger_line_thickness {
            Some(value) => value,
            None => StaffSpaces { units: 1_600_000 },
        }
    }

    /// What `leger_line_extension` returns: the font's value or 0.4.
    pub open spec fn spec_leger_line_extension(self) -> int {
        or_default(self.leger_line_extension, 4_000_000)
    }

    /// How far a leger line reaches beyond the notehead on each side; 0.4
    /// staff spaces when the font is silent.
    pub fn leger_line_extension(&self) -> (r: StaffSpaces)
        ensures
            r@ == self.spec_leger_line_extension(),
    {
        match self.leger_line_extension {
            Some(value) => value,
            None => StaffSpaces { units: 4_000_000 },
        }
    }

    /// What `thin_barline_thickness` returns: the font's value or 0.16.
    pub open spec fn spec_thin_barline_thickness(self) -> int {
        or_default(self.thin_barline_thickness, 1_600_000)
    }

    /// The thickness of a thin barline; 0.16 staff spaces when the font is
    /// silent.
    pub fn thin_barline_thickness(&self) -> (r: StaffSpaces)
        ensures
            r@ == self.spec_thin_barline_thickness(),
    {
        match self.thin_barline_thickness {
            Some(value) => value,
            None => StaffSpaces { units: 1_600_000 },
        }
    }

    /// What `thick_barline_thickness` returns: the font's value or 0.5.
    pub open spec fn spec_thick_barline_thickness(self) -> int {
        or_default(self.thick_barline_thickness, 5_000_000)
    }

    /// The thickness of a thick barline; 0.5 staff spaces when the font is
    /// silent.
    pub fn thick_barline_thickness(&self) -> (r: StaffSpaces)
        ensures
            r@ == self.spec_thick_barline_thickness(),
    {
        match self.thick_barline_thickness {
            Some(value) => value,
            None => StaffSpaces { units: 5_000_000 },
        }
    }

    /// What `barline_separation` returns: the font's value or 0.4.
    pub open spec fn spec_barline_separation(self) -> int {
        or_default(self.barline_separation, 4_000_000)
    }

    /// The gap between two barlines; 0.4 staff spaces when the font is
    /// silent.
    pub fn barline_separation(&self) -> (r: StaffSpaces)
        ensures
            r@ == self.spec_barline_separation(),
    {
        match self.barline_separation {
            Some(value) => value,
            None => StaffSpaces { units: 4_000_000 },
        }
    }

    /// What `thin_thick_barline_separation` returns: the font's value, or
    /// the plain barline separation when the font is silent, since few fonts
    /// carry this field.
    pub open spec fn spec_thin_thick_barline_separation(self) -> int {
        match self.thin_thick_barline_separation {
            Some(value) => value@,
            None => self.spec_barline_separation(),
        }
    }

    /// The gap between the thin and thick line of a final barline; falls
    /// back to the plain barline separation.
    pub fn thin_thick_barline_separation(&self) -> (r: StaffSpaces)
        ensures
            r@ == self.spec_thin_thick_barline_separation(),
    {
        match self.thin_thick_barline_separation {
            Some(value) => value,
            None => self.barline_separation(),
        }
    }

    /// Whether every value the font provides is within [`METRIC_BOUND`] and
    /// not negative.
    pub open spec fn wf(self) -> bool {
        &&& 0 <= self.spec_staff_line_thickness() <= METRIC_BOUND
        &&& 0 <= self.spec_stem_thickness() <= METRIC_BOUND
        &&& 0 <= self.spec_beam_thickness() <= METRIC_BOUND
        &&& 0 <= self.spec_leger_line_thickness() <= METRIC_BOUND
        &&& 0 <= self.spec_leger_line_extension() <= METRIC_BOUND
        &&& 0 <= self.spec_thin_barline_thickness() <= METRIC_BOUND
        &&& 0 <= self.spec_thick_barline_thickness() <= METRIC_BOUND
        &&& 0 <= self.spec_barline_separation() <= METRIC_BOUND
        &&& 0 <= self.spec_thin_thick_barline_separation() <= METRIC_BOUND
    }
}

/// The glyph metrics and engraving defaults of one font.
#[derive(Clone, Debug)]
pub struct Metrics {
    /// Advance width of each glyph that has one.
    pub advance_widths: Table<StaffSpaces>,
    /// North-east corner of each glyph's bounding box, used as a width when
    /// the advance width is missing.
    pub bounding_box_ne: Table<Coord<StaffSpaces>>,
    /// Stem attachment anchors of the notehead glyphs.
    pub anchors: Table<Anchors>,
    /// The font's engraving defaults.
    pub engraving_defaults: EngravingDefaults,
}

impl Metrics {
    /// What `width_of` returns: the glyph's advance width if the font has
    /// one, else the x of its bounding box's north-east corner, else a
    /// missing-metric error naming the glyph.
    pub open spec fn spec_width_of(self, glyph: Glyph) -> Result<int, Error> {
        if self.advance_widths@.contains_key(glyph.spec_index()) {
            Ok(self.advance_widths@[glyph.spec_index()]@)
        } else if self.bounding_box_ne@.contains_key(glyph.spec_index()) {
            Ok(self.bounding_box_ne@[glyph.spec_index()].x@)
        } else {
            Err(Error::MissingGlyphData { glyph, data_type: MetricKind::BoundingBox })
        }
    }

    /// Returns the glyph's advance width, if one is provided, otherwise the
    /// x-coordinate of the right edge of the glyph's bounding box. Lookup
    /// failure is an error, not a default.
    pub fn width_of(&self, glyph: Glyph) -> (r: Result<StaffSpaces, Error>)
        ensures
            match (r, self.spec_width_of(glyph)) {
                (Ok(width), Ok(spec_width)) => width@ == spec_width,
                (Err(e), Err(spec_e)) => e == spec_e,
                _ => false,
            },
    {
        match self.advance_widths.get(glyph.index()) {
            Some(width) => Ok(width),
            None => match self.bounding_box_ne.get(glyph.index()) {
                Some(ne) => Ok(ne.x),
                None => Err(
                    Error::MissingGlyphData { glyph, data_type: MetricKind::BoundingBox },
                ),
            },
        }
    }

    /// What `anchors_of` returns: the glyph's anchors, or a missing-metric
    /// error naming the glyph.
    pub open spec fn spec_anchors_of(self, glyph: Glyph) -> Result<Anchors, Error> {
        if self.anchors@.contains_key(glyph.spec_index()) {
            Ok(self.anchors@[glyph.spec_index()])
        } else {
            Err(Error::MissingGlyphData { glyph, data_type: MetricKind::Anchors })
        }
    }

    /// Returns the glyph's stem anchors; a glyph without an entry is an
    /// error.
    pub fn anchors_of(&self, glyph: Glyph) -> (r: Result<Anchors, Error>)
        ensures
            r == self.spec_anchors_of(glyph),
    {
        match self.anchors.get(glyph.index()) {
            Some(anchors) => Ok(anchors),
            None => Err(Error::MissingGlyphData { glyph, data_type: MetricKind::Anchors }),
        }
    }

    /// Whether every width, corner and anchor the font provides is within
    /// [`METRIC_BOUND`] in magnitude, widths not negative, and the
    /// engraving defaults likewise.
    pub open spec fn wf(self) -> bool {
        &&& forall|k: u64|
            self.advance_widths@.contains_key(k) ==> 0 <= (
            #[trigger] self.advance_widths@[k])@ <= METRIC_BOUND
        &&& forall|k: u64|
            self.bounding_box_ne@.contains_key(k) ==> {
                let ne = #[trigger] self.bounding_box_ne@[k];
                &&& -METRIC_BOUND <= ne.x@ <= METRIC_BOUND
                &&& -METRIC_BOUND <= ne.y@ <= METRIC_BOUND
                &&& 0 <= ne.x@
            }
        &&& forall|k: u64|
            self.anchors@.contains_key(k) ==> {
                let anchors = #[trigger] self.anchors@[k];
                &&& match anchors.stem_up_se {
                    Some(c) => -METRIC_BOUND <= c.x@ <= METRIC_BOUND && -METRIC_BOUND <= c.y@
                        <= METRIC_BOUND,
                    None => true,
                }
                &&& match anchors.stem_down_nw {
                    Some(c) => -METRIC_BOUND <= c.x@ <= METRIC_BOUND && -METRIC_BOUND <= c.y@
                        <= METRIC_BOUND,
                    None => true,
                }
            }
        &&& self.engraving_defaults.wf()
    }

    /// Every width `width_of` can return for a well-formed metrics value is
    /// within the metric bound.
    pub proof fn lemma_width_of_bounded(self, glyph: Glyph)
        requires
            self.wf(),
        ensures
            match self.spec_width_of(glyph) {
                Ok(width) => 0 <= width <= METRIC_BOUND,
                Err(_) => true,
            },
    {
    }
}

} // verus!
