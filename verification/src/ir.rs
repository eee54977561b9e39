//! The geometric intermediate representation.
//!
//! A render pass produces an ordered list of [`Element`]s in staff-space
//! units. An element is a primitive [`Shape`] (line, polygon, symbol, text)
//! or a named [`Group`] of shapes. Consumers turn the list into a drawing by
//! applying a coordinate conversion ([`Convert`]) from staff spaces to a
//! device space; [`DeviceConverter`] is the standard policy `x' = x * ratio`,
//! `y' = (origin - y) * ratio`.
//!
//! Contracts describe elements through their mathematical models
//! ([`ShapeModel`], [`ElementModel`]): plain integers for coordinates and
//! sequences for point lists and identifiers.

use vstd::prelude::*;

use crate::math;
use crate::staff_spaces::StaffSpaces;

verus! {

/// How the ends of a drawn line are capped.
#[derive(Clone, Copy, Debug, PartialEq, Eq, Structural)]
pub enum Linecap {
    Butt,
    Round,
}

/// A point, generic over the coordinate type.
#[derive(Clone, Copy, Debug, PartialEq)]
pub struct Coord<T> {
    pub x: T,
    pub y: T,
}

/// A width and height, generic over the coordinate type.
#[derive(Clone, Copy, Debug, PartialEq)]
pub struct Size<T> {
    pub width: T,
    pub height: T,
}

/// A straight stroked line.
#[derive(Clone, Copy, Debug, PartialEq)]
pub struct Line<T> {
    pub from: Coord<T>,
    pub to: Coord<T>,
    pub thickness: T,
    pub cap: Linecap,
}

/// An axis-aligned rectangle.
#[derive(Clone, Copy, Debug, PartialEq)]
pub struct Rect<T> {
    pub origin: Coord<T>,
    pub size: Size<T>,
}

/// A closed filled polygon; the last point connects back to the first.
#[derive(Clone, Debug, PartialEq)]
pub struct Polygon<T> {
    pub points: Vec<Coord<T>>,
}

/// A glyph of the music font placed at a point, referred to by codepoint.
#[derive(Clone, Copy, Debug, PartialEq)]
pub struct Symbol<T> {
    pub origin: Coord<T>,
    pub value: char,
}

/// A run of ordinary text placed at a point.
#[derive(Clone, Debug, PartialEq)]
pub struct Text<T> {
    pub origin: Coord<T>,
    pub value: String,
}

/// A primitive drawing shape.
#[derive(Clone, Debug, PartialEq)]
pub enum Shape<T> {
    Line(Line<T>),
    Polygon(Polygon<T>),
    Symbol(Symbol<T>),
    Text(Text<T>),
}

/// A list of shapes under an optional identifier, so that a consumer can
/// address everything one notation element produced at once.
#[derive(Clone, Debug, PartialEq)]
pub struct Group<T> {
    pub elements: Vec<Shape<T>>,
    pub id: Option<String>,
}

/// One element of the rendered scene.
#[derive(Clone, Debug, PartialEq)]
pub enum Element<T> {
    Line(Line<T>),
    Polygon(Polygon<T>),
    Symbol(Symbol<T>),
    Text(Text<T>),
    Group(Group<T>),
}

// ------------------------------------------------------------------
// Mathematical models of staff-space elements.
// ------------------------------------------------------------------

/// Model of a point in staff-space units.
pub struct CoordModel {
    pub x: int,
    pub y: int,
}

/// Model of a primitive shape in staff-space units.
pub enum ShapeModel {
    Line { from: CoordModel, to: CoordModel, thickness: int, cap: Linecap },
    Polygon { points: Seq<CoordModel> },
    Symbol { origin: CoordModel, value: char },
    Text { origin: CoordModel, value: Seq<char> },
}

/// Model of a scene element in staff-space units.
pub enum ElementModel {
    Shape(ShapeModel),
    Group { id: Option<Seq<char>>, elements: Seq<ShapeModel> },
}

impl View for Coord<StaffSpaces> {
    type V = CoordModel;

    open spec fn view(&self) -> CoordModel {
        CoordModel { x: self.x@, y: self.y@ }
    }
}

/// The models of a sequence of points, in order.
pub open spec fn points_view(points: Seq<Coord<StaffSpaces>>) -> Seq<CoordModel> {
    Seq::new(points.len(), |i: int| points[i]@)
}

impl View for Shape<StaffSpaces> {
    type V = ShapeModel;

    open spec fn view(&self) -> ShapeModel {
        match self {
            Shape::Line(line) => ShapeModel::Line {
                from: line.from@,
                to: line.to@,
                thickness: line.thickness@,
                cap: line.cap,
            },
            Shape::Polygon(polygon) => ShapeModel::Polygon { points: points_view(polygon.points@) },
            Shape::Symbol(symbol) => ShapeModel::Symbol {
                origin: symbol.origin@,
                value: symbol.value,
            },
            Shape::Text(text) => ShapeModel::Text { origin: text.origin@, value: text.value@ },
        }
    }
}

/// The models of a sequence of shapes, in order.
pub open spec fn shapes_view(shapes: Seq<Shape<StaffSpaces>>) -> Seq<ShapeModel> {
    Seq::new(shapes.len(), |i: int| shapes[i]@)
}

impl View for Element<StaffSpaces> {
    type V = ElementModel;

    open spec fn view(&self) -> ElementModel {
        match self {
            Element::Line(line) => ElementModel::Shape(
                ShapeModel::Line {
                    from: line.from@,
                    to: line.to@,
                    thickness: line.thickness@,
                    cap: line.cap,
                },
            ),
            Element::Polygon(polygon) => ElementModel::Shape(
                ShapeModel::Polygon { points: points_view(polygon.points@) },
            ),
            Element::Symbol(symbol) => ElementModel::Shape(
                ShapeModel::Symbol { origin: symbol.origin@, value: symbol.value },
            ),
            Element::Text(text) => ElementModel::Shape(
                ShapeModel::Text { origin: text.origin@, value: text.value@ },
            ),
            Element::Group(group) => ElementModel::Group {
                id: match &group.id {
                    Some(id) => Some(id@),
                    None => None,
                },
                elements: shapes_view(group.elements@),
            },
        }
    }
}

/// The models of a sequence of scene elements, in order.
pub open spec fn elements_view(elements: Seq<Element<StaffSpaces>>) -> Seq<ElementModel> {
    Seq::new(elements.len(), |i: int| elements[i]@)
}

/// Each shape, promoted to a top-level scene element, in order.
pub fn shapes_to_elements(shapes: Vec<Shape<StaffSpaces>>) -> (r: Vec<Element<StaffSpaces>>)
    ensures
        elements_view(r@) =~= shapes_view(shapes@).map_values(
            |s: ShapeModel| ElementModel::Shape(s),
        ),
{
    let mut out: Vec<Element<StaffSpaces>> = Vec::new();
    let mut shapes = shapes;
    let ghost all = shapes@;

    while shapes.len() > 0
        invariant
            shapes@ =~= all.skip(out@.len() as int),
            out@.len() <= all.len(),
            forall|i: int|
                0 <= i < out@.len() ==> #[trigger] out@[i]@ == ElementModel::Shape(all[i]@),
        decreases shapes@.len(),
    {
        let ghost n = out@.len() as int;
        assert(shapes@[0] == all[n]);
        let shape = shapes.remove(0);
        let element = match shape {
            Shape::Line(line) => Element::Line(line),
            Shape::Polygon(polygon) => Element::Polygon(polygon),
            Shape::Symbol(symbol) => Element::Symbol(symbol),
            Shape::Text(text) => Element::Text(text),
        };
        assert(element@ == ElementModel::Shape(all[n]@));
        out.push(element);
        proof {
            assert(shapes@ =~= all.skip(out@.len() as int));
        }
    }

    proof {
        assert(elements_view(out@) =~= shapes_view(all).map_values(
            |s: ShapeModel| ElementModel::Shape(s),
        ));
    }
    out
}

// ------------------------------------------------------------------
// Coordinate conversion.
// ------------------------------------------------------------------

/// A policy that converts coordinates of type `T` into a device space `U`.
///
/// `convert_x` maps a horizontal position, `convert_y` a vertical position
/// (the two may differ, for example when the device's y axis points the
/// other way), and `convert_thickness` a length with no position.
pub trait Convert<T, U> {
    /// What `convert_x` returns.
    spec fn convert_x_spec(&self, x: T) -> U;

    /// What `convert_y` returns.
    spec fn convert_y_spec(&self, y: T) -> U;

    /// What `convert_thickness` returns.
    spec fn convert_thickness_spec(&self, thickness: T) -> U;

    fn convert_x(&self, x: T) -> (r: U)
        ensures
            r == self.convert_x_spec(x),
    ;

    fn convert_y(&self, y: T) -> (r: U)
        ensures
            r == self.convert_y_spec(y),
    ;

    fn convert_thickness(&self, thickness: T) -> (r: U)
        ensures
            r == self.convert_thickness_spec(thickness),
    ;
}

/// Whether `r` is `a` under the converter's policy.
pub open spec fn coord_converts<T, U, C: Convert<T, U>>(a: Coord<T>, r: Coord<U>, c: C) -> bool {
    &&& r.x == c.convert_x_spec(a.x)
    &&& r.y == c.convert_y_spec(a.y)
}

/// Whether `r` is `a` under the converter's policy.
pub open spec fn shape_converts<T, U, C: Convert<T, U>>(a: Shape<T>, r: Shape<U>, c: C) -> bool {
    match (a, r) {
        (Shape::Line(a), Shape::Line(r)) => {
            &&& coord_converts(a.from, r.from, c)
            &&& coord_converts(a.to, r.to, c)
            &&& r.thickness == c.convert_thickness_spec(a.thickness)
            &&& r.cap == a.cap
        },
        (Shape::Polygon(a), Shape::Polygon(r)) => {
            &&& r.points@.len() == a.points@.len()
            &&& forall|i: int|
                0 <= i < a.points@.len() ==> coord_converts(a.points@[i], #[trigger] r.points@[i], c)
        },
        (Shape::Symbol(a), Shape::Symbol(r)) => {
            &&& coord_converts(a.origin, r.origin, c)
            &&& r.value == a.value
        },
        (Shape::Text(a), Shape::Text(r)) => {
            &&& coord_converts(a.origin, r.origin, c)
            &&& r.value@ == a.value@
        },
        _ => false,
    }
}

/// Whether `r` is `a` under the converter's policy.
pub open spec fn element_converts<T, U, C: Convert<T, U>>(
    a: Element<T>,
    r: Element<U>,
    c: C,
) -> bool {
    match (a, r) {
        (Element::Line(a), Element::Line(r)) => shape_converts(Shape::Line(a), Shape::Line(r), c),
        (Element::Polygon(a), Element::Polygon(r)) => shape_converts(
            Shape::Polygon(a),
            Shape::Polygon(r),
            c,
        ),
        (Element::Symbol(a), Element::Symbol(r)) => shape_converts(
            Shape::Symbol(a),
            Shape::Symbol(r),
            c,
        ),
        (Element::Text(a), Element::Text(r)) => shape_converts(Shape::Text(a), Shape::Text(r), c),
        (Element::Group(a), Element::Group(r)) => {
            &&& match (&a.id, &r.id) {
                (Some(a_id), Some(r_id)) => a_id@ == r_id@,
                (None, None) => true,
                _ => false,
            }
            &&& r.elements@.len() == a.elements@.len()
            &&& forall|i: int|
                0 <= i < a.elements@.len() ==> shape_converts(
                    a.elements@[i],
                    #[trigger] r.elements@[i],
                    c,
                )
        },
        _ => false,
    }
}

impl<T: Copy> Coord<T> {
    /// This point under the converter's policy.
    pub fn convert<U, C: Convert<T, U>>(self, converter: &C) -> (r: Coord<U>)
        ensures
            coord_converts(self, r, *converter),
    {
        Coord { x: converter.convert_x(self.x), y: converter.convert_y(self.y) }
    }
}

impl<T: Copy> Size<T> {
    /// This size under the converter's policy; both extents are lengths.
    pub fn convert<U, C: Convert<T, U>>(self, converter: &C) -> (r: Size<U>)
        ensures
            r.width == converter.convert_thickness_spec(self.width),
            r.height == converter.convert_thickness_spec(self.height),
    {
        Size {
            width: converter.convert_thickness(self.width),
            height: converter.convert_thickness(self.height),
        }
    }
}

impl<T: Copy> Line<T> {
    /// This line under the converter's policy.
    pub fn convert<U, C: Convert<T, U>>(self, converter: &C) -> (r: Line<U>)
        ensures
            shape_converts(Shape::Line(self), Shape::Line(r), *converter),
    {
        Line {
            from: self.from.convert(converter),
            to: self.to.convert(converter),
            thickness: converter.convert_thickness(self.thickness),
            cap: self.cap,
        }
    }
}

impl Line<StaffSpaces> {
    /// The largest horizontal coordinate the line touches.
    pub fn max_x(&self) -> (r: StaffSpaces)
        ensures
            r@ == spec_max(self.from.x@, self.to.x@),
    {
        math::max(self.from.x, self.to.x)
    }
}

impl<T: Copy> Polygon<T> {
    /// This polygon under the converter's policy.
    pub fn convert<U, C: Convert<T, U>>(&self, converter: &C) -> (r: Polygon<U>)
        ensures
            r.points@.len() == self.points@.len(),
            forall|i: int|
                0 <= i < self.points@.len() ==> coord_converts(
                    self.points@[i],
                    #[trigger] r.points@[i],
                    *converter,
                ),
            shape_converts(Shape::Polygon(*self), Shape::Polygon(r), *converter),
    {
        let mut out: Vec<Coord<U>> = Vec::new();
        let mut i: usize = 0;
        while i < self.points.len()
            invariant
                i <= self.points@.len(),
                out@.len() == i,
                forall|j: int|
                    0 <= j < i ==> coord_converts(self.points@[j], #[trigger] out@[j], *converter),
            decreases self.points@.len() - i,
        {
            out.push(self.points[i].convert(converter));
            i += 1;
        }
        Polygon { points: out }
    }
}

impl<T: Copy> Symbol<T> {
    /// This symbol under the converter's policy.
    pub fn convert<U, C: Convert<T, U>>(self, converter: &C) -> (r: Symbol<U>)
        ensures
            coord_converts(self.origin, r.origin, *converter),
            r.value == self.value,
    {
        Symbol { origin: self.origin.convert(converter), value: self.value }
    }
}

impl<T: Copy> Text<T> {
    /// This text under the converter's policy.
    pub fn convert<U, C: Convert<T, U>>(self, converter: &C) -> (r: Text<U>)
        ensures
            coord_converts(self.origin, r.origin, *converter),
            r.value@ == self.value@,
    {
        Text { origin: self.origin.convert(converter), value: self.value }
    }
}

impl<T: Copy> Group<T> {
    /// This group under the converter's policy.
    pub fn convert<U, C: Convert<T, U>>(self, converter: &C) -> (r: Group<U>)
        ensures
            element_converts(Element::Group(self), Element::Group(r), *converter),
    {
        let Group { elements, id } = self;
        let mut elements = elements;
        let ghost all = elements@;
        let mut out: Vec<Shape<U>> = Vec::new();

        while elements.len() > 0
            invariant
                elements@ =~= all.skip(out@.len() as int),
                out@.len() <= all.len(),
                forall|i: int|
                    0 <= i < out@.len() ==> shape_converts(all[i], #[trigger] out@[i], *converter),
            decreases elements@.len(),
        {
            let ghost n = out@.len() as int;
            assert(elements@[0] == all[n]);
            let shape = elements.remove(0);
            let converted = match shape {
                Shape::Line(line) => Shape::Line(line.convert(converter)),
                Shape::Polygon(polygon) => Shape::Polygon(polygon.convert(converter)),
                Shape::Symbol(symbol) => Shape::Symbol(symbol.convert(converter)),
                Shape::Text(text) => Shape::Text(text.convert(converter)),
            };
            out.push(converted);
            proof {
                assert(elements@ =~= all.skip(out@.len() as int));
            }
        }

        Group { elements: out, id }
    }
}

impl<T: Copy> Element<T> {
    /// This element under the converter's policy.
    pub fn convert<U, C: Convert<T, U>>(self, converter: &C) -> (r: Element<U>)
        ensures
            element_converts(self, r, *converter),
    {
        match self {
            Element::Line(line) => Element::Line(line.convert(converter)),
            Element::Polygon(polygon) => Element::Polygon(polygon.convert(converter)),
            Element::Symbol(symbol) => Element::Symbol(symbol.convert(converter)),
            Element::Text(text) => Element::Text(text.convert(converter)),
            Element::Group(group) => Element::Group(group.convert(converter)),
        }
    }
}

// ------------------------------------------------------------------
// Polygon construction and extent queries.
// ------------------------------------------------------------------

impl Polygon<StaffSpaces> {
    /// Returns a polygon over the given corners.
    ///
    /// Fails (with `None`) if no corner is given, or if the first and last
    /// corner coincide: the polygon is closed automatically, so a repeated
    /// closing point would be an error in the caller.
    pub fn new(points: Vec<Coord<StaffSpaces>>) -> (r: Option<Polygon<StaffSpaces>>)
        ensures
            match r {
                Some(polygon) => {
                    &&& points@.len() > 0
                    &&& points@[0]@ != points@[points@.len() - 1]@
                    &&& polygon.points@ == points@
                },
                None => points@.len() == 0 || points@[0]@ == points@[points@.len() - 1]@,
            },
    {
        if points.len() == 0 {
            return None;
        }

        let first = points[0];
        let last = points[points.len() - 1];
        if first.x.units == last.x.units && first.y.units == last.y.units {
            return None;
        }

        Some(Polygon { points })
    }

    /// The axis-aligned rectangle with the given origin and size, as a
    /// four-cornered polygon winding from the origin through the corner at
    /// `origin + size`.
    pub fn rect(origin: Coord<StaffSpaces>, size: Size<StaffSpaces>) -> (r: Polygon<StaffSpaces>)
        requires
            i64::MIN <= origin.x@ + size.width@ <= i64::MAX,
            i64::MIN <= origin.y@ + size.height@ <= i64::MAX,
        ensures
            points_view(r.points@) =~= rect_points(origin@, size.width@, size.height@),
    {
        let far_x = StaffSpaces { units: origin.x.units + size.width.units };
        let far_y = StaffSpaces { units: origin.y.units + size.height.units };

        let mut points: Vec<Coord<StaffSpaces>> = Vec::new();
        points.push(origin);
        points.push(Coord { x: far_x, y: origin.y });
        points.push(Coord { x: far_x, y: far_y });
        points.push(Coord { x: origin.x, y: far_y });

        Polygon { points }
    }

    /// The corners, in order.
    pub fn points(&self) -> (r: &Vec<Coord<StaffSpaces>>)
        ensures
            r@ == self.points@,
    {
        &self.points
    }

    /// The largest horizontal coordinate among the corners.
    pub fn max_x(&self) -> (r: StaffSpaces)
        requires
            self.points@.len() > 0,
        ensures
            r@ == points_max_x(points_view(self.points@)),
    {
        let mut best = self.points[0].x;
        let mut i: usize = 1;
        while i < self.points.len()
            invariant
                1 <= i <= self.points@.len(),
                best@ == points_max_x(points_view(self.points@).take(i as int)),
            decreases self.points@.len() - i,
        {
            let ghost prefix = points_view(self.points@).take(i as int);
            let ghost next = points_view(self.points@).take(i as int + 1);
            proof {
                assert(next.drop_last() =~= prefix);
                assert(next.last() == self.points@[i as int]@);
            }
            if self.points[i].x.units > best.units {
                best = self.points[i].x;
            }
            i += 1;
        }
        proof {
            assert(points_view(self.points@).take(self.points@.len() as int) =~= points_view(
                self.points@,
            ));
        }
        best
    }
}

/// The corner points of the axis-aligned rectangle at `origin` with the
/// given extents, winding from the origin.
pub open spec fn rect_points(origin: CoordModel, width: int, height: int) -> Seq<CoordModel> {
    seq![
        origin,
        CoordModel { x: origin.x + width, y: origin.y },
        CoordModel { x: origin.x + width, y: origin.y + height },
        CoordModel { x: origin.x, y: origin.y + height },
    ]
}

/// The larger of two integers.
pub open spec fn spec_max(a: int, b: int) -> int {
    if a > b {
        a
    } else {
        b
    }
}

/// The largest `x` among a sequence of point models; `0` for the empty
/// sequence, which no caller asks about.
pub open spec fn points_max_x(points: Seq<CoordModel>) -> int
    decreases points.len(),
{
    if points.len() == 0 {
        0
    } else if points.len() == 1 {
        points[0].x
    } else {
        spec_max(points_max_x(points.drop_last()), points.last().x)
    }
}

impl ShapeModel {
    /// Whether the extent queries are meaningful: polygons have at least one
    /// corner.
    pub open spec fn wf(self) -> bool {
        match self {
            ShapeModel::Polygon { points } => points.len() > 0,
            _ => true,
        }
    }

    /// The largest horizontal coordinate the shape touches.
    pub open spec fn max_x(self) -> int {
        match self {
            ShapeModel::Line { from, to, .. } => spec_max(from.x, to.x),
            ShapeModel::Polygon { points } => points_max_x(points),
            ShapeModel::Symbol { origin, .. } => origin.x,
            ShapeModel::Text { origin, .. } => origin.x,
        }
    }
}

/// The largest `max_x` among a sequence of shape models; `0` for the empty
/// sequence, which no caller asks about.
pub open spec fn shapes_max_x(shapes: Seq<ShapeModel>) -> int
    decreases shapes.len(),
{
    if shapes.len() == 0 {
        0
    } else if shapes.len() == 1 {
        shapes[0].max_x()
    } else {
        spec_max(shapes_max_x(shapes.drop_last()), shapes.last().max_x())
    }
}

impl ElementModel {
    /// Whether the extent queries are meaningful: polygons and groups are
    /// not empty.
    pub open spec fn wf(self) -> bool {
        match self {
            ElementModel::Shape(shape) => shape.wf(),
            ElementModel::Group { elements, .. } => {
                &&& elements.len() > 0
                &&& forall|i: int| 0 <= i < elements.len() ==> (#[trigger] elements[i]).wf()
            },
        }
    }

    /// The largest horizontal coordinate the element touches.
    pub open spec fn max_x(self) -> int {
        match self {
            ElementModel::Shape(shape) => shape.max_x(),
            ElementModel::Group { elements, .. } => shapes_max_x(elements),
        }
    }
}

impl Symbol<StaffSpaces> {
    /// The largest horizontal coordinate the symbol touches.
    pub fn max_x(&self) -> (r: StaffSpaces)
        ensures
            r@ == self.origin.x@,
    {
        self.origin.x
    }
}

impl Text<StaffSpaces> {
    /// The largest horizontal coordinate the text touches.
    pub fn max_x(&self) -> (r: StaffSpaces)
        ensures
            r@ == self.origin.x@,
    {
        self.origin.x
    }
}

impl Shape<StaffSpaces> {
    /// The largest horizontal coordinate the shape touches.
    pub fn max_x(&self) -> (r: StaffSpaces)
        requires
            self@.wf(),
        ensures
            r@ == self@.max_x(),
    {
        match self {
            Shape::Line(line) => line.max_x(),
            Shape::Polygon(polygon) => polygon.max_x(),
            Shape::Symbol(symbol) => symbol.max_x(),
            Shape::Text(text) => text.max_x(),
        }
    }
}

impl Group<StaffSpaces> {
    /// The largest horizontal coordinate any shape of the group touches.
    pub fn max_x(&self) -> (r: StaffSpaces)
        requires
            self.elements@.len() > 0,
            forall|i: int| 0 <= i < self.elements@.len() ==> (#[trigger] self.elements@[i]@).wf(),
        ensures
            r@ == shapes_max_x(shapes_view(self.elements@)),
    {
        let mut best = self.elements[0].max_x();
        let mut i: usize = 1;
        while i < self.elements.len()
            invariant
                1 <= i <= self.elements@.len(),
                forall|j: int| 0 <= j < self.elements@.len() ==> (#[trigger] self.elements@[j]@).wf(),
                best@ == shapes_max_x(shapes_view(self.elements@).take(i as int)),
            decreases self.elements@.len() - i,
        {
            let ghost prefix = shapes_view(self.elements@).take(i as int);
            let ghost next = shapes_view(self.elements@).take(i as int + 1);
            proof {
                assert(next.drop_last() =~= prefix);
                assert(next.last() == self.elements@[i as int]@);
            }
            let x = self.elements[i].max_x();
            if x.units > best.units {
                best = x;
            }
            i += 1;
        }
        proof {
            assert(shapes_view(self.elements@).take(self.elements@.len() as int) =~= shapes_view(
                self.elements@,
            ));
        }
        best
    }
}

impl Element<StaffSpaces> {
    /// The largest horizontal coordinate the element touches.
    pub fn max_x(&self) -> (r: StaffSpaces)
        requires
            self@.wf(),
        ensures
            r@ == self@.max_x(),
    {
        match self {
            Element::Line(line) => line.max_x(),
            Element::Polygon(polygon) => polygon.max_x(),
            Element::Symbol(symbol) => symbol.max_x(),
            Element::Text(text) => text.max_x(),
            Element::Group(group) => {
                proof {
                    assert forall|i: int|
                        0 <= i < group.elements@.len() implies (
                    #[trigger] group.elements@[i]@).wf() by {
                        assert(shapes_view(group.elements@)[i] == group.elements@[i]@);
                    }
                }
                group.max_x()
            },
        }
    }
}

impl Rect<StaffSpaces> {
    /// This rectangle under the converter's policy, re-normalized so that
    /// its origin stays the corner with the smallest converted coordinates
    /// (a conversion may flip an axis).
    pub fn convert<C: Convert<StaffSpaces, i64>>(self, converter: &C) -> (r: Rect<i64>)
        requires
            i64::MIN <= self.origin.x@ + self.size.width@ <= i64::MAX,
            i64::MIN <= self.origin.y@ + self.size.height@ <= i64::MAX,
            ({
                let from_x = converter.convert_x_spec(self.origin.x);
                let to_x = converter.convert_x_spec(
                    StaffSpaces { units: (self.origin.x@ + self.size.width@) as i64 },
                );
                let from_y = converter.convert_y_spec(self.origin.y);
                let to_y = converter.convert_y_spec(
                    StaffSpaces { units: (self.origin.y@ + self.size.height@) as i64 },
                );
                &&& i64::MIN <= to_x - from_x <= i64::MAX
                &&& i64::MIN <= from_x - to_x <= i64::MAX
                &&& i64::MIN <= to_y - from_y <= i64::MAX
                &&& i64::MIN <= from_y - to_y <= i64::MAX
            }),
        ensures
            ({
                let from_x = converter.convert_x_spec(self.origin.x);
                let to_x = converter.convert_x_spec(
                    StaffSpaces { units: (self.origin.x@ + self.size.width@) as i64 },
                );
                let from_y = converter.convert_y_spec(self.origin.y);
                let to_y = converter.convert_y_spec(
                    StaffSpaces { units: (self.origin.y@ + self.size.height@) as i64 },
                );
                &&& r.origin.x == if from_x < to_x { from_x } else { to_x }
                &&& r.origin.y == if from_y < to_y { from_y } else { to_y }
                &&& r.size.width == if to_x >= from_x { to_x - from_x } else { from_x - to_x }
                &&& r.size.height == if to_y >= from_y { to_y - from_y } else { from_y - to_y }
            }),
    {
        let far_corner = Coord {
            x: StaffSpaces { units: self.origin.x.units + self.size.width.units },
            y: StaffSpaces { units: self.origin.y.units + self.size.height.units },
        };

        let from = self.origin.convert(converter);
        let to = far_corner.convert(converter);

        let origin = Coord {
            x: if from.x < to.x { from.x } else { to.x },
            y: if from.y < to.y { from.y } else { to.y },
        };
        let size = Size {
            width: if to.x >= from.x { to.x - from.x } else { from.x - to.x },
            height: if to.y >= from.y { to.y - from.y } else { from.y - to.y },
        };

        Rect { origin, size }
    }

    /// The largest horizontal coordinate the rectangle touches.
    pub fn max_x(&self) -> (r: StaffSpaces)
        requires
            i64::MIN <= self.origin.x@ + self.size.width@ <= i64::MAX,
        ensures
            r@ == self.origin.x@ + self.size.width@,
    {
        StaffSpaces { units: self.origin.x.units + self.size.width.units }
    }
}

// ------------------------------------------------------------------
// The standard staff-space-to-device conversion policy.
// ------------------------------------------------------------------

/// `v * ratio / SCALE`, rounded toward zero.
pub open spec fn spec_scaled(v: int, ratio: int) -> int {
    if v >= 0 {
        (v * ratio) / 10_000_000
    } else {
        -(((-v) * ratio) / 10_000_000)
    }
}

/// The standard conversion from staff spaces to an integer device space:
/// `x' = x * ratio`, `y' = (origin - y) * ratio`, with the device's y axis
/// pointing down from `origin` while the staff's points up.
#[derive(Clone, Copy, Debug)]
pub struct DeviceConverter {
    ratio: i64,
    origin: i64,
}

impl DeviceConverter {
    /// Device units for one staff space.
    pub closed spec fn spec_ratio(self) -> int {
        self.ratio as int
    }

    /// The staff-space height (in units) mapped to device `y = 0`.
    pub closed spec fn spec_origin(self) -> int {
        self.origin as int
    }

    #[verifier::type_invariant]
    spec fn type_inv(self) -> bool {
        &&& 0 <= self.ratio <= 1_000_000
        &&& -1_000_000_000_000 <= self.origin <= 1_000_000_000_000
    }

    /// Returns the policy that maps one staff space to `ratio` device units
    /// and the staff-space height `origin` to device `y = 0`.
    pub fn new(ratio: i64, origin: StaffSpaces) -> (r: DeviceConverter)
        requires
            0 <= ratio <= 1_000_000,
            -1_000_000_000_000 <= origin@ <= 1_000_000_000_000,
        ensures
            r.spec_ratio() == ratio,
            r.spec_origin() == origin@,
    {
        DeviceConverter { ratio, origin: origin.units }
    }
}

/// `v * ratio / SCALE` rounded toward zero, for `|v| <= 2^64` and
/// `0 <= ratio <= 10^6`; the result then always fits an `i64`.
fn scale_wide(v: i128, ratio: i64) -> (r: i64)
    requires
        -0x2_0000_0000_0000_0000 <= v <= 0x2_0000_0000_0000_0000,
        0 <= ratio <= 1_000_000,
    ensures
        r as int == spec_scaled(v as int, ratio as int),
{
    let negative = v < 0;
    let magnitude: u128 = if negative {
        (-v) as u128
    } else {
        v as u128
    };

    assert(magnitude * ratio <= 0x2_0000_0000_0000_0000 * 1_000_000) by (nonlinear_arith)
        requires
            0 <= magnitude <= 0x2_0000_0000_0000_0000,
            0 <= ratio <= 1_000_000,
    ;
    let scaled_magnitude = magnitude * (ratio as u128) / 10_000_000;
    assert(scaled_magnitude <= 0x2_0000_0000_0000_0000 * 1_000_000 / 10_000_000);

    if negative {
        -(scaled_magnitude as i64)
    } else {
        scaled_magnitude as i64
    }
}

impl Convert<StaffSpaces, i64> for DeviceConverter {
    open spec fn convert_x_spec(&self, x: StaffSpaces) -> i64 {
        spec_scaled(x@, self.spec_ratio()) as i64
    }

    open spec fn convert_y_spec(&self, y: StaffSpaces) -> i64 {
        spec_scaled(self.spec_origin() - y@, self.spec_ratio()) as i64
    }

    open spec fn convert_thickness_spec(&self, thickness: StaffSpaces) -> i64 {
        spec_scaled(thickness@, self.spec_ratio()) as i64
    }

    fn convert_x(&self, x: StaffSpaces) -> (r: i64) {
        proof {
            use_type_invariant(self);
        }
        scale_wide(x.units as i128, self.ratio)
    }

    fn convert_y(&self, y: StaffSpaces) -> (r: i64) {
        proof {
            use_type_invariant(self);
        }
        let difference = self.origin as i128 - y.units as i128;
        scale_wide(difference, self.ratio)
    }

    fn convert_thickness(&self, thickness: StaffSpaces) -> (r: i64) {
        proof {
            use_type_invariant(self);
        }
        scale_wide(thickness.units as i128, self.ratio)
    }
}

} // verus!
