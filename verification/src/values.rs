//! The value universe: the tagged sum of every runtime value, and the
//! geometry payloads the engine-linked variants carry.
//!
//! Real coordinates are IEEE-754 doubles carried as bit patterns (see
//! [`crate::json::Real`]); the core reads and routes them but never
//! computes with them itself.

use vstd::prelude::*;
use std::rc::Rc;
use crate::ast::FunctionExpression;
use crate::json::{JValue, Real};
use crate::source_range::{Metadata, SourceRange};
use crate::util::str_eq;

verus! {

/// A 128-bit stable identifier, the handle by which the engine recognizes
/// an object.
#[derive(Debug, Clone, Copy, PartialEq, Eq, Structural, Hash, Default)]
pub struct Uuid {
    /// The identifier as one 128-bit number.
    pub bits: u128,
}

/// A point in the sketch plane.
#[derive(Debug, Clone, Copy, PartialEq, Eq, Structural)]
pub struct Point2d {
    pub x: Real,
    pub y: Real,
}

/// A point or direction in model space.
#[derive(Debug, Clone, Copy, PartialEq, Eq, Structural)]
pub struct Point3d {
    pub x: Real,
    pub y: Real,
    pub z: Real,
}

impl Point3d {
    /// Bundle three coordinates.
    pub fn new(x: Real, y: Real, z: Real) -> (r: Self)
        ensures
            r == (Point3d { x, y, z }),
    {
        Point3d { x, y, z }
    }
}

/// A position in model space.
#[derive(Debug, Clone, Copy, PartialEq, Eq, Structural)]
pub struct Position {
    pub x: Real,
    pub y: Real,
    pub z: Real,
}

/// An orientation, as a quaternion.
#[derive(Debug, Clone, Copy, PartialEq, Eq, Structural)]
pub struct Rotation {
    pub x: Real,
    pub y: Real,
    pub z: Real,
    pub w: Real,
}

/// Identity of a piece of geometry plus its provenance.
#[derive(Debug, Clone, Copy, PartialEq, Eq)]
pub struct GeoMeta {
    /// The engine-side identifier of the geometry.
    pub id: Uuid,
    /// Provenance.
    pub metadata: Metadata,
}

/// Which plane a sketch is started on.
#[derive(Debug, Clone, Copy, PartialEq, Eq, Structural)]
pub enum PlaneType {
    XY,
    XZ,
    YZ,
    /// A custom plane.
    Custom,
}

impl PlaneType {
    /// The canonical text of the plane type.
    pub fn as_text(&self) -> (r: &'static str)
        ensures
            match self {
                PlaneType::XY => r@ == "XY"@,
                PlaneType::XZ => r@ == "XZ"@,
                PlaneType::YZ => r@ == "YZ"@,
                PlaneType::Custom => r@ == "Custom"@,
            },
    {
        match self {
            PlaneType::XY => "XY",
            PlaneType::XZ => "XZ",
            PlaneType::YZ => "YZ",
            PlaneType::Custom => "Custom",
        }
    }

    /// Parse the canonical text of a plane type.
    pub fn from_text(s: &str) -> (r: Option<PlaneType>)
        ensures
            r == if s@ == "XY"@ {
                Option::Some(PlaneType::XY)
            } else if s@ == "XZ"@ {
                Option::Some(PlaneType::XZ)
            } else if s@ == "YZ"@ {
                Option::Some(PlaneType::YZ)
            } else if s@ == "Custom"@ {
                Option::Some(PlaneType::Custom)
            } else {
                Option::None::<PlaneType>
            },
    {
        if str_eq(s, "XY") {
            Option::Some(PlaneType::XY)
        } else if str_eq(s, "XZ") {
            Option::Some(PlaneType::XZ)
        } else if str_eq(s, "YZ") {
            Option::Some(PlaneType::YZ)
        } else if str_eq(s, "Custom") {
            Option::Some(PlaneType::Custom)
        } else {
            Option::None
        }
    }
}

/// A plane.
#[derive(Debug, Clone, PartialEq)]
pub struct Plane {
    /// The id of the plane.
    pub id: Uuid,
    /// Which plane this is.
    pub value: PlaneType,
    /// Origin of the plane.
    pub origin: Point3d,
    /// The plane's X axis.
    pub x_axis: Point3d,
    /// The plane's Y axis.
    pub y_axis: Point3d,
    /// The plane's normal.
    pub z_axis: Point3d,
    /// Provenance.
    pub meta: Vec<Metadata>,
}

/// The engine-side identifiers of the six default planes.
#[derive(Debug, Clone, Copy, PartialEq, Eq, Structural, Default)]
pub struct DefaultPlanes {
    pub xy: Uuid,
    pub xz: Uuid,
    pub yz: Uuid,
    pub neg_xy: Uuid,
    pub neg_xz: Uuid,
    pub neg_yz: Uuid,
}

/// A face of previously sketched geometry.
#[derive(Debug, Clone, PartialEq)]
pub struct Face {
    /// The id of the face.
    pub id: Uuid,
    /// The tag of the face.
    pub value: String,
    /// The sketch group the face belongs to.
    pub sketch_group_id: Uuid,
    /// The face's X axis.
    pub x_axis: Point3d,
    /// The face's Y axis.
    pub y_axis: Point3d,
    /// The face's normal.
    pub z_axis: Point3d,
    /// The id of the face the sketch is on.
    pub face_id: Uuid,
    /// Provenance.
    pub meta: Vec<Metadata>,
}

/// A user-visible scalar, string, array or object in the portable JSON
/// form.
#[derive(Debug, Clone, PartialEq)]
pub struct UserVal {
    /// The embedded JSON value.
    pub value: JValue,
    /// Provenance.
    pub meta: Vec<Metadata>,
}

/// Imported external geometry.
#[derive(Debug, Clone, PartialEq)]
pub struct ImportedGeometry {
    /// The id of the imported geometry.
    pub id: Uuid,
    /// The original file paths.
    pub value: Vec<String>,
    /// Provenance.
    pub meta: Vec<Metadata>,
}

/// The start, or one segment, of a sketched profile.
#[derive(Debug, Clone, PartialEq)]
pub struct BasePath {
    /// Where the segment starts.
    pub from: Point2d,
    /// Where the segment ends.
    pub to: Point2d,
    /// The name given to the segment, empty when unnamed.
    pub name: String,
    /// Identity and provenance of the geometry.
    pub geo_meta: GeoMeta,
}

/// One path segment of a sketch group.
#[derive(Debug, Clone, PartialEq)]
pub enum Path {
    /// A straight segment to a point.
    ToPoint { base: BasePath },
    /// An arc, tangential to the previous segment, to a point.
    TangentialArcTo { base: BasePath, center: Point2d, ccw: bool },
    /// An arc tangential to the previous segment.
    TangentialArc { base: BasePath },
    /// A horizontal segment.
    Horizontal { base: BasePath, x: Real },
    /// An angled segment towards a coordinate.
    AngledLineTo { base: BasePath, x: Option<Real>, y: Option<Real> },
    /// A bare base segment.
    Base { base: BasePath },
}

impl Path {
    /// The common payload of the segment.
    pub open spec fn spec_base(&self) -> BasePath {
        match self {
            Path::ToPoint { base } => *base,
            Path::TangentialArcTo { base, .. } => *base,
            Path::TangentialArc { base } => *base,
            Path::Horizontal { base, .. } => *base,
            Path::AngledLineTo { base, .. } => *base,
            Path::Base { base } => *base,
        }
    }

    /// The engine-side identifier of the segment.
    pub fn get_id(&self) -> (r: Uuid)
        ensures
            r == self.spec_base().geo_meta.id,
    {
        self.get_base().geo_meta.id
    }

    /// The name of the segment.
    pub fn get_name(&self) -> (r: String)
        ensures
            r@ == self.spec_base().name@,
    {
        self.get_base().name.clone()
    }

    /// The common payload of the segment.
    pub fn get_base(&self) -> (r: &BasePath)
        ensures
            *r == self.spec_base(),
    {
        match self {
            Path::ToPoint { base } => base,
            Path::TangentialArcTo { base, .. } => base,
            Path::TangentialArc { base } => base,
            Path::Horizontal { base, .. } => base,
            Path::AngledLineTo { base, .. } => base,
            Path::Base { base } => base,
        }
    }
}

/// What a sketch is drawn on: a plane or a face.
#[derive(Debug, Clone, PartialEq)]
pub enum SketchSurface {
    Plane(Box<Plane>),
    Face(Box<Face>),
}

impl SketchSurface {
    /// The engine-side identifier of the surface.
    pub fn id(&self) -> (r: Uuid)
        ensures
            r == match self {
                SketchSurface::Plane(p) => p.id,
                SketchSurface::Face(f) => f.id,
            },
    {
        match self {
            SketchSurface::Plane(plane) => plane.id,
            SketchSurface::Face(face) => face.id,
        }
    }

    /// The X axis of the surface.
    pub fn x_axis(&self) -> (r: Point3d)
        ensures
            r == match self {
                SketchSurface::Plane(p) => p.x_axis,
                SketchSurface::Face(f) => f.x_axis,
            },
    {
        match self {
            SketchSurface::Plane(plane) => plane.x_axis,
            SketchSurface::Face(face) => face.x_axis,
        }
    }

    /// The Y axis of the surface.
    pub fn y_axis(&self) -> (r: Point3d)
        ensures
            r == match self {
                SketchSurface::Plane(p) => p.y_axis,
                SketchSurface::Face(f) => f.y_axis,
            },
    {
        match self {
            SketchSurface::Plane(plane) => plane.y_axis,
            SketchSurface::Face(face) => face.y_axis,
        }
    }

    /// The normal of the surface.
    pub fn z_axis(&self) -> (r: Point3d)
        ensures
            r == match self {
                SketchSurface::Plane(p) => p.z_axis,
                SketchSurface::Face(f) => f.z_axis,
            },
    {
        match self {
            SketchSurface::Plane(plane) => plane.z_axis,
            SketchSurface::Face(face) => face.z_axis,
        }
    }
}

/// A sketch group: an ordered collection of path segments on a surface.
#[derive(Debug, Clone, PartialEq)]
pub struct SketchGroup {
    /// The id of the sketch group.
    pub id: Uuid,
    /// The path segments, in drawing order.
    pub value: Vec<Path>,
    /// What the sketch is drawn on.
    pub on: SketchSurface,
    /// The starting path.
    pub start: BasePath,
    /// The position of the sketch group.
    pub position: Position,
    /// The rotation of the sketch group base plane.
    pub rotation: Rotation,
    /// The X axis of the base plane in model space.
    pub x_axis: Point3d,
    /// The Y axis of the base plane in model space.
    pub y_axis: Point3d,
    /// The normal of the base plane in model space.
    pub z_axis: Point3d,
    /// The plane or face id the sketch group sits on.
    pub entity_id: Option<Uuid>,
    /// Provenance.
    pub meta: Vec<Metadata>,
}

/// The first segment, by id, in a list of segments.
pub open spec fn find_path_by_id(paths: Seq<Path>, id: Uuid) -> Option<Path>
    decreases paths.len(),
{
    if paths.len() == 0 {
        Option::None
    } else if paths[0].spec_base().geo_meta.id == id {
        Option::Some(paths[0])
    } else {
        find_path_by_id(paths.drop_first(), id)
    }
}

/// The first segment, by name, in a list of segments.
pub open spec fn find_path_by_name(paths: Seq<Path>, name: Seq<char>) -> Option<Path>
    decreases paths.len(),
{
    if paths.len() == 0 {
        Option::None
    } else if paths[0].spec_base().name@ == name {
        Option::Some(paths[0])
    } else {
        find_path_by_name(paths.drop_first(), name)
    }
}

proof fn lemma_find_path_by_id_skip(paths: Seq<Path>, id: Uuid, i: int)
    requires
        0 <= i <= paths.len(),
        forall|j: int| 0 <= j < i ==> paths[j].spec_base().geo_meta.id != id,
    ensures
        find_path_by_id(paths, id) == find_path_by_id(
            paths.subrange(i, paths.len() as int),
            id,
        ),
    decreases i,
{
    if i > 0 {
        lemma_find_path_by_id_skip(paths, id, i - 1);
        let tail = paths.subrange(i - 1, paths.len() as int);
        assert(tail[0] == paths[i - 1]);
        assert(tail.drop_first() =~= paths.subrange(i, paths.len() as int));
    } else {
        assert(paths.subrange(0, paths.len() as int) =~= paths);
    }
}

proof fn lemma_find_path_by_name_skip(paths: Seq<Path>, name: Seq<char>, i: int)
    requires
        0 <= i <= paths.len(),
        forall|j: int| 0 <= j < i ==> paths[j].spec_base().name@ != name,
    ensures
        find_path_by_name(paths, name) == find_path_by_name(
            paths.subrange(i, paths.len() as int),
            name,
        ),
    decreases i,
{
    if i > 0 {
        lemma_find_path_by_name_skip(paths, name, i - 1);
        let tail = paths.subrange(i - 1, paths.len() as int);
        assert(tail[0] == paths[i - 1]);
        assert(tail.drop_first() =~= paths.subrange(i, paths.len() as int));
    } else {
        assert(paths.subrange(0, paths.len() as int) =~= paths);
    }
}

/// What the tangential-arc helpers need to know about the last segment.
pub struct GetTangentialInfoFromPathsResult {
    /// The arc center, or the tangent point, depending on `is_center`.
    pub center_or_tangent_point: Point2d,
    /// Whether the point is an arc center.
    pub is_center: bool,
    /// The arc's direction.
    pub ccw: bool,
}

impl SketchGroup {
    /// Find a segment by its engine-side identifier.
    #[verifier::loop_isolation(false)]
    pub fn get_path_by_id(&self, id: &Uuid) -> (r: Option<&Path>)
        ensures
            match r {
                Option::Some(p) => find_path_by_id(self.value@, *id) == Option::Some(*p),
                Option::None => find_path_by_id(self.value@, *id) is None,
            },
    {
        let n = self.value.len();
        let mut i: usize = 0;
        while i < n
            invariant
                i <= n,
                forall|j: int| 0 <= j < i ==> self.value@[j].spec_base().geo_meta.id != *id,
            decreases n - i,
        {
            if self.value[i].get_id().bits == id.bits {
                proof {
                    lemma_find_path_by_id_skip(self.value@, *id, i as int);
                    let tail = self.value@.subrange(i as int, self.value@.len() as int);
                    assert(tail[0] == self.value@[i as int]);
                }
                return Option::Some(&self.value[i]);
            }
            i = i + 1;
        }
        proof {
            lemma_find_path_by_id_skip(self.value@, *id, n as int);
        }
        Option::None
    }

    /// Find a segment by name.
    #[verifier::loop_isolation(false)]
    pub fn get_path_by_name(&self, name: &str) -> (r: Option<&Path>)
        ensures
            match r {
                Option::Some(p) => find_path_by_name(self.value@, name@) == Option::Some(*p),
                Option::None => find_path_by_name(self.value@, name@) is None,
            },
    {
        let n = self.value.len();
        let mut i: usize = 0;
        while i < n
            invariant
                i <= n,
                forall|j: int| 0 <= j < i ==> self.value@[j].spec_base().name@ != name@,
            decreases n - i,
        {
            if str_eq(self.value[i].get_base().name.as_str(), name) {
                proof {
                    lemma_find_path_by_name_skip(self.value@, name@, i as int);
                    let tail = self.value@.subrange(i as int, self.value@.len() as int);
                    assert(tail[0] == self.value@[i as int]);
                }
                return Option::Some(&self.value[i]);
            }
            i = i + 1;
        }
        proof {
            lemma_find_path_by_name_skip(self.value@, name@, n as int);
        }
        Option::None
    }

    /// The segment a name refers to: the starting path when it carries the
    /// name, else the first segment with the name.
    pub open spec fn spec_base_by_name_or_start(&self, name: Seq<char>) -> Option<BasePath> {
        if self.start.name@ == name {
            Option::Some(self.start)
        } else {
            match find_path_by_name(self.value@, name) {
                Option::Some(p) => Option::Some(p.spec_base()),
                Option::None => Option::None,
            }
        }
    }

    /// Resolve a segment name against the starting path and the segments.
    pub fn get_base_by_name_or_start(&self, name: &str) -> (r: Option<&BasePath>)
        ensures
            match r {
                Option::Some(b) => self.spec_base_by_name_or_start(name@) == Option::Some(*b),
                Option::None => self.spec_base_by_name_or_start(name@) is None,
            },
    {
        if str_eq(self.start.name.as_str(), name) {
            Option::Some(&self.start)
        } else {
            match self.get_path_by_name(name) {
                Option::Some(path) => Option::Some(path.get_base()),
                Option::None => Option::None,
            }
        }
    }

    /// Where drawing currently stands: the end of the last segment, or of
    /// the starting path when nothing is drawn yet.
    pub fn get_coords_from_paths(&self) -> (r: Result<Point2d, crate::errors::KclError>)
        ensures
            r matches Result::Ok(p) && p == if self.value@.len() == 0 {
                self.start.to
            } else {
                self.value@.last().spec_base().to
            },
    {
        if self.value.len() == 0 {
            Result::Ok(self.start.to)
        } else {
            let base = self.value[self.value.len() - 1].get_base();
            Result::Ok(base.to)
        }
    }

    /// What the last segment contributes to a tangential arc: the center
    /// for an arc segment, the tangent point otherwise.
    pub fn get_tangential_info_from_paths(&self) -> (r: GetTangentialInfoFromPathsResult)
        ensures
            self.value@.len() == 0 ==> r.center_or_tangent_point == self.start.to && !r.is_center
                && !r.ccw,
            self.value@.len() > 0 ==> match self.value@.last() {
                Path::TangentialArcTo { center, ccw, .. } => r.center_or_tangent_point == center
                    && r.is_center && r.ccw == ccw,
                _ => r.center_or_tangent_point == self.value@.last().spec_base().from
                    && !r.is_center && !r.ccw,
            },
    {
        if self.value.len() == 0 {
            return GetTangentialInfoFromPathsResult {
                center_or_tangent_point: self.start.to,
                is_center: false,
                ccw: false,
            };
        }
        let last = &self.value[self.value.len() - 1];
        match last {
            Path::TangentialArcTo { center, ccw, .. } => GetTangentialInfoFromPathsResult {
                center_or_tangent_point: *center,
                is_center: true,
                ccw: *ccw,
            },
            _ => {
                let base = last.get_base();
                GetTangentialInfoFromPathsResult {
                    center_or_tangent_point: base.from,
                    is_center: false,
                    ccw: false,
                }
            },
        }
    }
}

/// One face of an extruded volume.
#[derive(Debug, Clone, PartialEq)]
pub struct ExtrudePlane {
    /// The position of the face.
    pub position: Position,
    /// The rotation of the face.
    pub rotation: Rotation,
    /// The engine-side face identifier.
    pub face_id: Uuid,
    /// The name inherited from the originating segment.
    pub name: String,
    /// Identity and provenance.
    pub geo_meta: GeoMeta,
}

/// One arc face of an extruded volume.
#[derive(Debug, Clone, PartialEq)]
pub struct ExtrudeArc {
    /// The position of the face.
    pub position: Position,
    /// The rotation of the face.
    pub rotation: Rotation,
    /// The engine-side face identifier.
    pub face_id: Uuid,
    /// The name inherited from the originating segment.
    pub name: String,
    /// Identity and provenance.
    pub geo_meta: GeoMeta,
}

/// A surface of an extruded volume.
#[derive(Debug, Clone, PartialEq)]
pub enum ExtrudeSurface {
    ExtrudePlane(ExtrudePlane),
    ExtrudeArc(ExtrudeArc),
}

impl ExtrudeSurface {
    /// The engine-side identifier of the surface.
    pub open spec fn spec_id(&self) -> Uuid {
        match self {
            ExtrudeSurface::ExtrudePlane(p) => p.geo_meta.id,
            ExtrudeSurface::ExtrudeArc(a) => a.geo_meta.id,
        }
    }

    /// The name of the surface.
    pub open spec fn spec_name(&self) -> Seq<char> {
        match self {
            ExtrudeSurface::ExtrudePlane(p) => p.name@,
            ExtrudeSurface::ExtrudeArc(a) => a.name@,
        }
    }

    /// The engine-side identifier of the surface.
    pub fn get_id(&self) -> (r: Uuid)
        ensures
            r == self.spec_id(),
    {
        match self {
            ExtrudeSurface::ExtrudePlane(p) => p.geo_meta.id,
            ExtrudeSurface::ExtrudeArc(a) => a.geo_meta.id,
        }
    }

    /// The name of the surface.
    pub fn get_name(&self) -> (r: String)
        ensures
            r@ == self.spec_name(),
    {
        match self {
            ExtrudeSurface::ExtrudePlane(p) => p.name.clone(),
            ExtrudeSurface::ExtrudeArc(a) => a.name.clone(),
        }
    }

    /// The position of the surface.
    pub fn get_position(&self) -> (r: Position)
        ensures
            r == match self {
                ExtrudeSurface::ExtrudePlane(p) => p.position,
                ExtrudeSurface::ExtrudeArc(a) => a.position,
            },
    {
        match self {
            ExtrudeSurface::ExtrudePlane(p) => p.position,
            ExtrudeSurface::ExtrudeArc(a) => a.position,
        }
    }

    /// The rotation of the surface.
    pub fn get_rotation(&self) -> (r: Rotation)
        ensures
            r == match self {
                ExtrudeSurface::ExtrudePlane(p) => p.rotation,
                ExtrudeSurface::ExtrudeArc(a) => a.rotation,
            },
    {
        match self {
            ExtrudeSurface::ExtrudePlane(p) => p.rotation,
            ExtrudeSurface::ExtrudeArc(a) => a.rotation,
        }
    }
}

/// The first surface, by id, in a list of extrude surfaces.
pub open spec fn find_surface_by_id(surfaces: Seq<ExtrudeSurface>, id: Uuid) -> Option<
    ExtrudeSurface,
>
    decreases surfaces.len(),
{
    if surfaces.len() == 0 {
        Option::None
    } else if surfaces[0].spec_id() == id {
        Option::Some(surfaces[0])
    } else {
        find_surface_by_id(surfaces.drop_first(), id)
    }
}

/// The first surface, by name, in a list of extrude surfaces.
pub open spec fn find_surface_by_name(surfaces: Seq<ExtrudeSurface>, name: Seq<char>) -> Option<
    ExtrudeSurface,
>
    decreases surfaces.len(),
{
    if surfaces.len() == 0 {
        Option::None
    } else if surfaces[0].spec_name() == name {
        Option::Some(surfaces[0])
    } else {
        find_surface_by_name(surfaces.drop_first(), name)
    }
}

proof fn lemma_find_surface_by_id_skip(surfaces: Seq<ExtrudeSurface>, id: Uuid, i: int)
    requires
        0 <= i <= surfaces.len(),
        forall|j: int| 0 <= j < i ==> surfaces[j].spec_id() != id,
    ensures
        find_surface_by_id(surfaces, id) == find_surface_by_id(
            surfaces.subrange(i, surfaces.len() as int),
            id,
        ),
    decreases i,
{
    if i > 0 {
        lemma_find_surface_by_id_skip(surfaces, id, i - 1);
        let tail = surfaces.subrange(i - 1, surfaces.len() as int);
        assert(tail[0] == surfaces[i - 1]);
        assert(tail.drop_first() =~= surfaces.subrange(i, surfaces.len() as int));
    } else {
        assert(surfaces.subrange(0, surfaces.len() as int) =~= surfaces);
    }
}

proof fn lemma_find_surface_by_name_skip(surfaces: Seq<ExtrudeSurface>, name: Seq<char>, i: int)
    requires
        0 <= i <= surfaces.len(),
        forall|j: int| 0 <= j < i ==> surfaces[j].spec_name() != name,
    ensures
        find_surface_by_name(surfaces, name) == find_surface_by_name(
            surfaces.subrange(i, surfaces.len() as int),
            name,
        ),
    decreases i,
{
    if i > 0 {
        lemma_find_surface_by_name_skip(surfaces, name, i - 1);
        let tail = surfaces.subrange(i - 1, surfaces.len() as int);
        assert(tail[0] == surfaces[i - 1]);
        assert(tail.drop_first() =~= surfaces.subrange(i, surfaces.len() as int));
    } else {
        assert(surfaces.subrange(0, surfaces.len() as int) =~= surfaces);
    }
}

/// An extruded volume: the surfaces produced by extruding a sketch group.
#[derive(Debug, Clone, PartialEq)]
pub struct ExtrudeGroup {
    /// The id of the extrude group.
    pub id: Uuid,
    /// The extruded surfaces.
    pub value: Vec<ExtrudeSurface>,
    /// The path segments of the originating sketch.
    pub sketch_group_values: Vec<Path>,
    /// The extrusion height.
    pub height: Real,
    /// The position of the extrude group.
    pub position: Position,
    /// The rotation of the extrude group.
    pub rotation: Rotation,
    /// The X axis of the base plane in model space.
    pub x_axis: Point3d,
    /// The Y axis of the base plane in model space.
    pub y_axis: Point3d,
    /// The normal of the base plane in model space.
    pub z_axis: Point3d,
    /// The id of the extrusion start cap, if any.
    pub start_cap_id: Option<Uuid>,
    /// The id of the extrusion end cap, if any.
    pub end_cap_id: Option<Uuid>,
    /// Provenance.
    pub meta: Vec<Metadata>,
}

impl ExtrudeGroup {
    /// Find a surface by its engine-side identifier.
    #[verifier::loop_isolation(false)]
    pub fn get_path_by_id(&self, id: &Uuid) -> (r: Option<&ExtrudeSurface>)
        ensures
            match r {
                Option::Some(p) => find_surface_by_id(self.value@, *id) == Option::Some(*p),
                Option::None => find_surface_by_id(self.value@, *id) is None,
            },
    {
        let n = self.value.len();
        let mut i: usize = 0;
        while i < n
            invariant
                i <= n,
                forall|j: int| 0 <= j < i ==> self.value@[j].spec_id() != *id,
            decreases n - i,
        {
            if self.value[i].get_id().bits == id.bits {
                proof {
                    lemma_find_surface_by_id_skip(self.value@, *id, i as int);
                    let tail = self.value@.subrange(i as int, self.value@.len() as int);
                    assert(tail[0] == self.value@[i as int]);
                }
                return Option::Some(&self.value[i]);
            }
            i = i + 1;
        }
        proof {
            lemma_find_surface_by_id_skip(self.value@, *id, n as int);
        }
        Option::None
    }

    /// Find a surface by name.
    #[verifier::loop_isolation(false)]
    pub fn get_path_by_name(&self, name: &str) -> (r: Option<&ExtrudeSurface>)
        ensures
            match r {
                Option::Some(p) => find_surface_by_name(self.value@, name@) == Option::Some(*p),
                Option::None => find_surface_by_name(self.value@, name@) is None,
            },
    {
        let n = self.value.len();
        let mut i: usize = 0;
        while i < n
            invariant
                i <= n,
                forall|j: int| 0 <= j < i ==> self.value@[j].spec_name() != name@,
            decreases n - i,
        {
            let surface_name = self.value[i].get_name();
            if str_eq(surface_name.as_str(), name) {
                proof {
                    lemma_find_surface_by_name_skip(self.value@, name@, i as int);
                    let tail = self.value@.subrange(i as int, self.value@.len() as int);
                    assert(tail[0] == self.value@[i as int]);
                }
                return Option::Some(&self.value[i]);
            }
            i = i + 1;
        }
        proof {
            lemma_find_surface_by_name_skip(self.value@, name@, n as int);
        }
        Option::None
    }
}

/// A runtime value: the tagged sum the whole interpreter works over.
#[derive(Debug, Clone, PartialEq)]
pub enum MemoryItem {
    /// A user-visible JSON value.
    UserVal(UserVal),
    /// A plane.
    Plane(Box<Plane>),
    /// A face.
    Face(Box<Face>),
    /// A sketch group.
    SketchGroup(Box<SketchGroup>),
    /// Several sketch groups.
    SketchGroups { value: Vec<Box<SketchGroup>> },
    /// An extruded volume.
    ExtrudeGroup(Box<ExtrudeGroup>),
    /// Several extruded volumes.
    ExtrudeGroups { value: Vec<Box<ExtrudeGroup>> },
    /// Imported external geometry.
    ImportedGeometry(ImportedGeometry),
    /// A callable function value capturing its body.
    Function { expression: Rc<FunctionExpression>, meta: Vec<Metadata> },
}

/// A single sketch group or extrude group.
#[derive(Debug, Clone, PartialEq)]
pub enum Geometry {
    SketchGroup(Box<SketchGroup>),
    ExtrudeGroup(Box<ExtrudeGroup>),
}

impl Geometry {
    /// The engine-side identifier of the geometry.
    pub fn id(&self) -> (r: Uuid)
        ensures
            r == match self {
                Geometry::SketchGroup(s) => s.id,
                Geometry::ExtrudeGroup(e) => e.id,
            },
    {
        match self {
            Geometry::SketchGroup(s) => s.id,
            Geometry::ExtrudeGroup(e) => e.id,
        }
    }
}

/// Several sketch groups or several extrude groups.
#[derive(Debug, Clone, PartialEq)]
pub enum Geometries {
    SketchGroups(Vec<Box<SketchGroup>>),
    ExtrudeGroups(Vec<Box<ExtrudeGroup>>),
}

/// A sketch group, or a group of them.
#[derive(Debug, Clone, PartialEq)]
pub enum SketchGroupSet {
    SketchGroup(Box<SketchGroup>),
    SketchGroups(Vec<Box<SketchGroup>>),
}

/// An extrude group, or a group of them.
#[derive(Debug, Clone, PartialEq)]
pub enum ExtrudeGroupSet {
    ExtrudeGroup(Box<ExtrudeGroup>),
    ExtrudeGroups(Vec<Box<ExtrudeGroup>>),
}

/// The source ranges of a metadata list.
pub open spec fn meta_ranges(meta: Seq<Metadata>) -> Seq<SourceRange> {
    meta.map_values(|m: Metadata| m.source_range)
}

/// Collect the source ranges of a metadata list.
#[verifier::loop_isolation(false)]
pub fn meta_ranges_of(meta: &Vec<Metadata>) -> (r: Vec<SourceRange>)
    ensures
        r@ == meta_ranges(meta@),
{
    let mut out: Vec<SourceRange> = Vec::new();
    let mut i: usize = 0;
    while i < meta.len()
        invariant
            i <= meta@.len(),
            out@ =~= meta_ranges(meta@.subrange(0, i as int)),
        decreases meta@.len() - i,
    {
        out.push(meta[i].source_range);
        proof {
            assert(meta@.subrange(0, i as int + 1).drop_last() =~= meta@.subrange(0, i as int));
            assert(meta_ranges(meta@.subrange(0, i as int + 1)) =~= meta_ranges(
                meta@.subrange(0, i as int),
            ).push(meta@[i as int].source_range));
        }
        i = i + 1;
    }
    proof {
        assert(meta@.subrange(0, meta@.len() as int) =~= meta@);
    }
    out
}

impl MemoryItem {
    /// The metadata list of the value.  For the group-of-groups variants
    /// the lists of the members are concatenated.
    pub open spec fn spec_meta(&self) -> Seq<Metadata> {
        match self {
            MemoryItem::UserVal(u) => u.meta@,
            MemoryItem::Plane(p) => p.meta@,
            MemoryItem::Face(f) => f.meta@,
            MemoryItem::SketchGroup(s) => s.meta@,
            MemoryItem::SketchGroups { value } => concat_sketch_group_meta(value@),
            MemoryItem::ExtrudeGroup(e) => e.meta@,
            MemoryItem::ExtrudeGroups { value } => concat_extrude_group_meta(value@),
            MemoryItem::ImportedGeometry(i) => i.meta@,
            MemoryItem::Function { meta, .. } => meta@,
        }
    }

    /// Flatten the provenance of the value into a list of source ranges.
    #[verifier::loop_isolation(false)]
    pub fn source_ranges(&self) -> (r: Vec<SourceRange>)
        ensures
            r@ == meta_ranges(self.spec_meta()),
    {
        match self {
            MemoryItem::UserVal(u) => meta_ranges_of(&u.meta),
            MemoryItem::Plane(p) => meta_ranges_of(&p.meta),
            MemoryItem::Face(f) => meta_ranges_of(&f.meta),
            MemoryItem::SketchGroup(s) => meta_ranges_of(&s.meta),
            MemoryItem::SketchGroups { value } => {
                let mut out: Vec<SourceRange> = Vec::new();
                let mut i: usize = 0;
                while i < value.len()
                    invariant
                        i <= value@.len(),
                        out@ =~= meta_ranges(concat_sketch_group_meta(value@.subrange(0, i as int))),
                    decreases value@.len() - i,
                {
                    let mut ranges = meta_ranges_of(&value[i].meta);
                    out.append(&mut ranges);
                    proof {
                        let pre = value@.subrange(0, i as int);
                        let post = value@.subrange(0, i as int + 1);
                        assert(post.drop_last() =~= pre);
                        assert(post.last() == value@[i as int]);
                        assert(meta_ranges(concat_sketch_group_meta(post)) =~= meta_ranges(
                            concat_sketch_group_meta(pre),
                        ) + meta_ranges(value@[i as int].meta@));
                    }
                    i = i + 1;
                }
                proof {
                    assert(value@.subrange(0, value@.len() as int) =~= value@);
                }
                out
            },
            MemoryItem::ExtrudeGroup(e) => meta_ranges_of(&e.meta),
            MemoryItem::ExtrudeGroups { value } => {
                let mut out: Vec<SourceRange> = Vec::new();
                let mut i: usize = 0;
                while i < value.len()
                    invariant
                        i <= value@.len(),
                        out@ =~= meta_ranges(
                            concat_extrude_group_meta(value@.subrange(0, i as int)),
                        ),
                    decreases value@.len() - i,
                {
                    let mut ranges = meta_ranges_of(&value[i].meta);
                    out.append(&mut ranges);
                    proof {
                        let pre = value@.subrange(0, i as int);
                        let post = value@.subrange(0, i as int + 1);
                        assert(post.drop_last() =~= pre);
                        assert(post.last() == value@[i as int]);
                        assert(meta_ranges(concat_extrude_group_meta(post)) =~= meta_ranges(
                            concat_extrude_group_meta(pre),
                        ) + meta_ranges(value@[i as int].meta@));
                    }
                    i = i + 1;
                }
                proof {
                    assert(value@.subrange(0, value@.len() as int) =~= value@);
                }
                out
            },
            MemoryItem::ImportedGeometry(geometry) => meta_ranges_of(&geometry.meta),
            MemoryItem::Function { meta, .. } => meta_ranges_of(meta),
        }
    }
}

/// The concatenated metadata of a list of sketch groups.
pub open spec fn concat_sketch_group_meta(groups: Seq<Box<SketchGroup>>) -> Seq<Metadata>
    decreases groups.len(),
{
    if groups.len() == 0 {
        Seq::empty()
    } else {
        concat_sketch_group_meta(groups.drop_last()) + groups.last().meta@
    }
}

/// The concatenated metadata of a list of extrude groups.
pub open spec fn concat_extrude_group_meta(groups: Seq<Box<ExtrudeGroup>>) -> Seq<Metadata>
    decreases groups.len(),
{
    if groups.len() == 0 {
        Seq::empty()
    } else {
        concat_extrude_group_meta(groups.drop_last()) + groups.last().meta@
    }
}

} // verus!
