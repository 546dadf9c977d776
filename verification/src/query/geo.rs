//! Geo queries

use vstd::prelude::*;

use crate::json::{
    entries_view, jv, object, one_entry, opt_entry, opt_v, push_entry, push_field, str_json, Decimal, FieldBased,
    Json, JsonV, MergeSerialize, NoOuter, ToJson,
};
use crate::units::{Distance, DistanceType, GeoBox, Location};
use super::Query;

verus! {

/// The shape a geo shape query matches against.
#[derive(Debug)]
pub enum ShapeOption {
    Shape(Shape),
    IndexedShape(IndexedShape),
    /// A GeoJSON geometry, given as its JSON form.
    Geojson(Json),
}

/// Written as an object whose one key names the kind of shape.
impl ToJson for ShapeOption {
    open spec fn json_v(&self) -> JsonV {
        JsonV::Object(
            match self {
                ShapeOption::Shape(s) => one_entry("shape"@, s.json_v()),
                ShapeOption::IndexedShape(s) => one_entry("indexed_shape"@, s.json_v()),
                ShapeOption::Geojson(g) => one_entry("shape"@, jv(*g)),
            },
        )
    }

    fn to_json(&self) -> (r: Json) {
        let mut e: Vec<(String, Json)> = Vec::new();
        match self {
            ShapeOption::Shape(s) => push_entry(&mut e, "shape", s.to_json()),
            ShapeOption::IndexedShape(s) => push_entry(&mut e, "indexed_shape", s.to_json()),
            ShapeOption::Geojson(g) => push_entry(&mut e, "shape", g.to_json()),
        }
        assert(entries_view(e@) =~= self.json_v()->Object_0);
        object(e)
    }
}

/// GeoShape query
#[derive(Debug)]
pub struct GeoShapeQuery(pub FieldBased<String, Option<ShapeOption>, NoOuter>);

impl ToJson for GeoShapeQuery {
    open spec fn json_v(&self) -> JsonV {
        self.0.json_v()
    }

    fn to_json(&self) -> (r: Json) {
        self.0.to_json()
    }
}

impl Query {
    pub fn build_geo_shape(field: String) -> (r: GeoShapeQuery)
        ensures
            r.0.field == field,
            r.0.inner is None,
    {
        GeoShapeQuery(FieldBased::new(field, None, NoOuter))
    }
}

impl GeoShapeQuery {
    pub fn with_shape(self, shape: Shape) -> (r: Self)
        ensures
            r.0.field == self.0.field,
            r.0.inner == Some(ShapeOption::Shape(shape)),
    {
        GeoShapeQuery(FieldBased::new(self.0.field, Some(ShapeOption::Shape(shape)), NoOuter))
    }

    pub fn with_indexed_shape(self, indexed_shape: IndexedShape) -> (r: Self)
        ensures
            r.0.field == self.0.field,
            r.0.inner == Some(ShapeOption::IndexedShape(indexed_shape)),
    {
        GeoShapeQuery(FieldBased::new(self.0.field, Some(ShapeOption::IndexedShape(indexed_shape)), NoOuter))
    }

    /// Use a GeoJSON geometry, given as its JSON form, as the shape.
    pub fn with_geojson(self, shape: Json) -> (r: Self)
        ensures
            r.0.field == self.0.field,
            r.0.inner == Some(ShapeOption::Geojson(shape)),
    {
        GeoShapeQuery(FieldBased::new(self.0.field, Some(ShapeOption::Geojson(shape)), NoOuter))
    }

    pub fn build(self) -> (r: Query)
        ensures
            r == Query::GeoShape(Box::new(self)),
    {
        Query::GeoShape(Box::new(self))
    }
}

/// A shape given by its type and coordinates.
#[derive(Debug)]
pub struct Shape {
    pub shape_type: String,
    pub coordinates: Vec<(Decimal, Decimal)>,
}

/// The JSON form of a list of coordinate pairs: an array of two-element arrays.
pub open spec fn coordinates_v(c: Seq<(Decimal, Decimal)>) -> JsonV {
    JsonV::Array(Seq::new(c.len(), |i: int| JsonV::Array(seq![c[i].0.json_v(), c[i].1.json_v()])))
}

impl ToJson for Shape {
    open spec fn json_v(&self) -> JsonV {
        JsonV::Object(
            one_entry("type"@, JsonV::Str(self.shape_type@)) + one_entry("coordinates"@, coordinates_v(self.coordinates@)),
        )
    }

    fn to_json(&self) -> (r: Json) {
        let mut pairs: Vec<Json> = Vec::new();
        let mut i: usize = 0;
        while i < self.coordinates.len()
            invariant
                i <= self.coordinates@.len(),
                pairs@.len() == i,
                forall|k: int|
                    0 <= k < i ==> jv(#[trigger] pairs@[k]) == coordinates_v(self.coordinates@)->Array_0[k],
            decreases self.coordinates.len() - i,
        {
            let (a, b) = self.coordinates[i];
            let mut pair: Vec<Json> = Vec::new();
            pair.push(a.to_json());
            pair.push(b.to_json());
            let p = crate::json::array(pair);
            assert(jv(p) == JsonV::Array(seq![a.json_v(), b.json_v()])) by {
                assert(crate::json::elems_view(pair@) =~= seq![a.json_v(), b.json_v()]);
            }
            pairs.push(p);
            i = i + 1;
        }
        let c = crate::json::array(pairs);
        assert(crate::json::elems_view(pairs@) =~= coordinates_v(self.coordinates@)->Array_0);
        let mut e: Vec<(String, Json)> = Vec::new();
        push_entry(&mut e, "type", Json::Str(self.shape_type.clone()));
        push_entry(&mut e, "coordinates", c);
        assert(entries_view(e@) =~= self.json_v()->Object_0);
        object(e)
    }
}

impl Shape {
    pub fn new(shape_type: String, coordinates: Vec<(Decimal, Decimal)>) -> (r: Shape)
        ensures
            r.shape_type == shape_type,
            r.coordinates == coordinates,
    {
        Shape { shape_type, coordinates }
    }
}

/// A shape indexed in another document.
#[derive(Debug)]
pub struct IndexedShape {
    pub id: String,
    pub doc_type: String,
    pub index: String,
    pub path: String,
}

impl ToJson for IndexedShape {
    open spec fn json_v(&self) -> JsonV {
        JsonV::Object(
            one_entry("id"@, JsonV::Str(self.id@)) + one_entry("doc_type"@, JsonV::Str(self.doc_type@))
                + one_entry("index"@, JsonV::Str(self.index@)) + one_entry("path"@, JsonV::Str(self.path@)),
        )
    }

    fn to_json(&self) -> (r: Json) {
        let mut e: Vec<(String, Json)> = Vec::new();
        push_entry(&mut e, "id", Json::Str(self.id.clone()));
        push_entry(&mut e, "doc_type", Json::Str(self.doc_type.clone()));
        push_entry(&mut e, "index", Json::Str(self.index.clone()));
        push_entry(&mut e, "path", Json::Str(self.path.clone()));
        assert(entries_view(e@) =~= self.json_v()->Object_0);
        object(e)
    }
}

impl IndexedShape {
    pub fn new(id: String, doc_type: String, index: String, path: String) -> (r: IndexedShape)
        ensures
            r == (IndexedShape { id, doc_type, index, path }),
    {
        IndexedShape { id, doc_type, index, path }
    }
}

/// Geo Bounding Box Query
#[derive(Debug)]
pub struct GeoBoundingBoxQuery(pub FieldBased<String, GeoBoundingBoxQueryInner, NoOuter>);

#[derive(Debug)]
pub struct GeoBoundingBoxQueryInner {
    pub geo_box: GeoBox,
    pub coerce: Option<bool>,
    pub ignore_malformed: Option<bool>,
    pub filter_type: Option<Type>,
}

impl ToJson for GeoBoundingBoxQueryInner {
    open spec fn json_v(&self) -> JsonV {
        JsonV::Object(
            one_entry("geo_box"@, self.geo_box.json_v()) + opt_entry("coerce"@, opt_v(self.coerce))
                + opt_entry("ignore_malformed"@, opt_v(self.ignore_malformed))
                + opt_entry("type"@, opt_v(self.filter_type)),
        )
    }

    fn to_json(&self) -> (r: Json) {
        let mut e: Vec<(String, Json)> = Vec::new();
        push_entry(&mut e, "geo_box", self.geo_box.to_json());
        push_field(&mut e, "coerce", &self.coerce);
        push_field(&mut e, "ignore_malformed", &self.ignore_malformed);
        push_field(&mut e, "type", &self.filter_type);
        assert(entries_view(e@) =~= self.json_v()->Object_0);
        object(e)
    }
}

impl ToJson for GeoBoundingBoxQuery {
    open spec fn json_v(&self) -> JsonV {
        self.0.json_v()
    }

    fn to_json(&self) -> (r: Json) {
        self.0.to_json()
    }
}

impl Query {
    pub fn build_geo_bounding_box(field: String, geo_box: GeoBox) -> (r: GeoBoundingBoxQuery)
        ensures
            r.0.field == field,
            r.0.inner == (GeoBoundingBoxQueryInner {
                geo_box,
                coerce: None,
                ignore_malformed: None,
                filter_type: None,
            }),
    {
        GeoBoundingBoxQuery(
            FieldBased::new(
                field,
                GeoBoundingBoxQueryInner { geo_box, coerce: None, ignore_malformed: None, filter_type: None },
                NoOuter,
            ),
        )
    }
}

impl GeoBoundingBoxQuery {
    pub fn with_coerce(self, val: bool) -> (r: Self)
        ensures
            r.0.field == self.0.field,
            r.0.inner == (GeoBoundingBoxQueryInner { coerce: Some(val), ..self.0.inner }),
    {
        let mut s = self;
        s.0.inner.coerce = Some(val);
        s
    }

    pub fn with_ignore_malformed(self, val: bool) -> (r: Self)
        ensures
            r.0.field == self.0.field,
            r.0.inner == (GeoBoundingBoxQueryInner { ignore_malformed: Some(val), ..self.0.inner }),
    {
        let mut s = self;
        s.0.inner.ignore_malformed = Some(val);
        s
    }

    pub fn with_type(self, val: Type) -> (r: Self)
        ensures
            r.0.field == self.0.field,
            r.0.inner == (GeoBoundingBoxQueryInner { filter_type: Some(val), ..self.0.inner }),
    {
        let mut s = self;
        s.0.inner.filter_type = Some(val);
        s
    }

    pub fn build(self) -> (r: Query)
        ensures
            r == Query::GeoBoundingBox(Box::new(self)),
    {
        Query::GeoBoundingBox(Box::new(self))
    }
}

/// Geo Bounding Box filter type
#[derive(Debug, Clone, Copy, PartialEq, Eq)]
pub enum Type {
    Indexed,
    Memory,
}

/// Law: each value is written in JSON by its ElasticSearch name (`indexed`, `memory`, in the
/// order of the variants), and different values are written differently.
pub proof fn lemma_type_json_names(x: Type)
    ensures
        x is Indexed ==> x.json_v() == JsonV::Str("indexed"@),
        x is Memory ==> x.json_v() == JsonV::Str("memory"@),
        forall|a: Type, b: Type| a != b ==> #[trigger] a.json_v() != #[trigger] b.json_v(),
{
    reveal_strlit("indexed");
    assert("indexed"@.len() == 7 && "indexed"@[0] == 'i' && "indexed"@[1] == 'n' && "indexed"@[2] == 'd' && "indexed"@[3] == 'e' && "indexed"@[4] == 'x' && "indexed"@[5] == 'e' && "indexed"@[6] == 'd');
    reveal_strlit("memory");
    assert("memory"@.len() == 6 && "memory"@[0] == 'm' && "memory"@[1] == 'e' && "memory"@[2] == 'm' && "memory"@[3] == 'o' && "memory"@[4] == 'r' && "memory"@[5] == 'y');
}

impl ToJson for Type {
    open spec fn json_v(&self) -> JsonV {
        JsonV::Str(
            match self {
                Type::Indexed => "indexed"@,
                Type::Memory => "memory"@,
            },
        )
    }

    fn to_json(&self) -> (r: Json) {
        match self {
            Type::Indexed => str_json("indexed"),
            Type::Memory => str_json("memory"),
        }
    }
}

/// Geo Distance query
#[derive(Debug)]
pub struct GeoDistanceQuery(pub FieldBased<String, Location, GeoDistanceQueryOuter>);

/// The options written beside the location of a geo distance query.
#[derive(Debug)]
pub struct GeoDistanceQueryOuter {
    pub distance: Distance,
    pub distance_type: Option<DistanceType>,
    pub optimize_bbox: Option<OptimizeBbox>,
    pub coerce: Option<bool>,
    pub ignore_malformed: Option<bool>,
}

impl MergeSerialize for GeoDistanceQueryOuter {
    open spec fn merge_entries(&self) -> Seq<(Seq<char>, JsonV)> {
        one_entry("distance"@, self.distance.json_v()) + opt_entry("distance_type"@, opt_v(self.distance_type))
            + opt_entry("optimize_bbox"@, opt_v(self.optimize_bbox)) + opt_entry("coerce"@, opt_v(self.coerce))
            + opt_entry("ignore_malformed"@, opt_v(self.ignore_malformed))
    }

    fn merge_serialize(&self, e: &mut Vec<(String, Json)>) {
        push_entry(e, "distance", self.distance.to_json());
        push_field(e, "distance_type", &self.distance_type);
        push_field(e, "optimize_bbox", &self.optimize_bbox);
        push_field(e, "coerce", &self.coerce);
        push_field(e, "ignore_malformed", &self.ignore_malformed);
        assert(entries_view(e@) =~= entries_view(old(e)@) + self.merge_entries());
    }
}

impl ToJson for GeoDistanceQuery {
    open spec fn json_v(&self) -> JsonV {
        self.0.json_v()
    }

    fn to_json(&self) -> (r: Json) {
        self.0.to_json()
    }
}

impl Query {
    pub fn build_geo_distance(field: String, location: Location, distance: Distance) -> (r: GeoDistanceQuery)
        ensures
            r.0.field == field,
            r.0.inner == location,
            r.0.outer == (GeoDistanceQueryOuter {
                distance,
                distance_type: None,
                optimize_bbox: None,
                coerce: None,
                ignore_malformed: None,
            }),
    {
        let outer = GeoDistanceQueryOuter {
            distance,
            distance_type: None,
            optimize_bbox: None,
            coerce: None,
            ignore_malformed: None,
        };
        GeoDistanceQuery(FieldBased::new(field, location, outer))
    }
}

impl GeoDistanceQuery {
    pub fn with_distance_type(self, val: DistanceType) -> (r: Self)
        ensures
            r.0.field == self.0.field,
            r.0.inner == self.0.inner,
            r.0.outer == (GeoDistanceQueryOuter { distance_type: Some(val), ..self.0.outer }),
    {
        let mut s = self;
        s.0.outer.distance_type = Some(val);
        s
    }

    pub fn with_optimize_bbox(self, val: OptimizeBbox) -> (r: Self)
        ensures
            r.0.field == self.0.field,
            r.0.inner == self.0.inner,
            r.0.outer == (GeoDistanceQueryOuter { optimize_bbox: Some(val), ..self.0.outer }),
    {
        let mut s = self;
        s.0.outer.optimize_bbox = Some(val);
        s
    }

    pub fn with_coerce(self, val: bool) -> (r: Self)
        ensures
            r.0.field == self.0.field,
            r.0.inner == self.0.inner,
            r.0.outer == (GeoDistanceQueryOuter { coerce: Some(val), ..self.0.outer }),
    {
        let mut s = self;
        s.0.outer.coerce = Some(val);
        s
    }

    pub fn with_ignore_malformed(self, val: bool) -> (r: Self)
        ensures
            r.0.field == self.0.field,
            r.0.inner == self.0.inner,
            r.0.outer == (GeoDistanceQueryOuter { ignore_malformed: Some(val), ..self.0.outer }),
    {
        let mut s = self;
        s.0.outer.ignore_malformed = Some(val);
        s
    }

    pub fn build(self) -> (r: Query)
        ensures
            r == Query::GeoDistance(Box::new(self)),
    {
        Query::GeoDistance(Box::new(self))
    }
}

/// Options for `optimize_bbox`
#[derive(Debug, Clone, Copy, PartialEq, Eq)]
pub enum OptimizeBbox {
    Memory,
    Indexed,
    Nothing,
}

/// Law: each value is written in JSON by its ElasticSearch name (`memory`, `indexed`, `none`,
/// in the order of the variants), and different values are written differently.
pub proof fn lemma_optimize_bbox_json_names(x: OptimizeBbox)
    ensures
        x is Memory ==> x.json_v() == JsonV::Str("memory"@),
        x is Indexed ==> x.json_v() == JsonV::Str("indexed"@),
        x is Nothing ==> x.json_v() == JsonV::Str("none"@),
        forall|a: OptimizeBbox, b: OptimizeBbox| a != b ==> #[trigger] a.json_v() != #[trigger] b.json_v(),
{
    reveal_strlit("indexed");
    assert("indexed"@.len() == 7 && "indexed"@[0] == 'i' && "indexed"@[1] == 'n' && "indexed"@[2] == 'd' && "indexed"@[3] == 'e' && "indexed"@[4] == 'x' && "indexed"@[5] == 'e' && "indexed"@[6] == 'd');
    reveal_strlit("memory");
    assert("memory"@.len() == 6 && "memory"@[0] == 'm' && "memory"@[1] == 'e' && "memory"@[2] == 'm' && "memory"@[3] == 'o' && "memory"@[4] == 'r' && "memory"@[5] == 'y');
    reveal_strlit("none");
    assert("none"@.len() == 4 && "none"@[0] == 'n' && "none"@[1] == 'o' && "none"@[2] == 'n' && "none"@[3] == 'e');
}

impl ToJson for OptimizeBbox {
    open spec fn json_v(&self) -> JsonV {
        JsonV::Str(
            match self {
                OptimizeBbox::Memory => "memory"@,
                OptimizeBbox::Indexed => "indexed"@,
                OptimizeBbox::Nothing => "none"@,
            },
        )
    }

    fn to_json(&self) -> (r: Json) {
        match self {
            OptimizeBbox::Memory => str_json("memory"),
            OptimizeBbox::Indexed => str_json("indexed"),
            OptimizeBbox::Nothing => str_json("none"),
        }
    }
}

/// Geo Polygon query
#[derive(Debug)]
pub struct GeoPolygonQuery(pub FieldBased<String, GeoPolygonQueryInner, NoOuter>);

#[derive(Debug)]
pub struct GeoPolygonQueryInner {
    pub points: Vec<Location>,
    pub coerce: Option<bool>,
    pub ignore_malformed: Option<bool>,
}

impl ToJson for GeoPolygonQueryInner {
    open spec fn json_v(&self) -> JsonV {
        JsonV::Object(
            one_entry("points"@, self.points.json_v()) + opt_entry("coerce"@, opt_v(self.coerce))
                + opt_entry("ignore_malformed"@, opt_v(self.ignore_malformed)),
        )
    }

    fn to_json(&self) -> (r: Json) {
        let mut e: Vec<(String, Json)> = Vec::new();
        push_entry(&mut e, "points", self.points.to_json());
        push_field(&mut e, "coerce", &self.coerce);
        push_field(&mut e, "ignore_malformed", &self.ignore_malformed);
        assert(entries_view(e@) =~= self.json_v()->Object_0);
        object(e)
    }
}

impl ToJson for GeoPolygonQuery {
    open spec fn json_v(&self) -> JsonV {
        self.0.json_v()
    }

    fn to_json(&self) -> (r: Json) {
        self.0.to_json()
    }
}

impl Query {
    pub fn build_geo_polygon(field: String, points: Vec<Location>) -> (r: GeoPolygonQuery)
        ensures
            r.0.field == field,
            r.0.inner == (GeoPolygonQueryInner { points, coerce: None, ignore_malformed: None }),
    {
        GeoPolygonQuery(
            FieldBased::new(field, GeoPolygonQueryInner { points, coerce: None, ignore_malformed: None }, NoOuter),
        )
    }
}

impl GeoPolygonQuery {
    pub fn with_coerce(self, val: bool) -> (r: Self)
        ensures
            r.0.field == self.0.field,
            r.0.inner == (GeoPolygonQueryInner { coerce: Some(val), ..self.0.inner }),
    {
        let mut s = self;
        s.0.inner.coerce = Some(val);
        s
    }

    pub fn with_ignore_malformed(self, val: bool) -> (r: Self)
        ensures
            r.0.field == self.0.field,
            r.0.inner == (GeoPolygonQueryInner { ignore_malformed: Some(val), ..self.0.inner }),
    {
        let mut s = self;
        s.0.inner.ignore_malformed = Some(val);
        s
    }

    pub fn build(self) -> (r: Query)
        ensures
            r == Query::GeoPolygon(Box::new(self)),
    {
        Query::GeoPolygon(Box::new(self))
    }
}

/// Geohash cell query
#[derive(Debug)]
pub struct GeohashCellQuery(pub FieldBased<String, Location, GeohashCellQueryOuter>);

/// The options written beside the location of a geohash cell query.
#[derive(Debug)]
pub struct GeohashCellQueryOuter {
    pub precision: Option<Precision>,
    pub neighbors: Option<bool>,
}

impl MergeSerialize for GeohashCellQueryOuter {
    open spec fn merge_entries(&self) -> Seq<(Seq<char>, JsonV)> {
        opt_entry("precision"@, opt_v(self.precision)) + opt_entry("neighbors"@, opt_v(self.neighbors))
    }

    fn merge_serialize(&self, e: &mut Vec<(String, Json)>) {
        push_field(e, "precision", &self.precision);
        push_field(e, "neighbors", &self.neighbors);
        assert(entries_view(e@) =~= entries_view(old(e)@) + self.merge_entries());
    }
}

impl ToJson for GeohashCellQuery {
    open spec fn json_v(&self) -> JsonV {
        self.0.json_v()
    }

    fn to_json(&self) -> (r: Json) {
        self.0.to_json()
    }
}

impl Query {
    pub fn build_geohash_cell(field: String, location: Location) -> (r: GeohashCellQuery)
        ensures
            r.0.field == field,
            r.0.inner == location,
            r.0.outer == (GeohashCellQueryOuter { precision: None, neighbors: None }),
    {
        GeohashCellQuery(FieldBased::new(field, location, GeohashCellQueryOuter { precision: None, neighbors: None }))
    }
}

impl GeohashCellQuery {
    pub fn with_precision(self, val: Precision) -> (r: Self)
        ensures
            r.0.field == self.0.field,
            r.0.inner == self.0.inner,
            r.0.outer == (GeohashCellQueryOuter { precision: Some(val), ..self.0.outer }),
    {
        let mut s = self;
        s.0.outer.precision = Some(val);
        s
    }

    pub fn with_neighbors(self, val: bool) -> (r: Self)
        ensures
            r.0.field == self.0.field,
            r.0.inner == self.0.inner,
            r.0.outer == (GeohashCellQueryOuter { neighbors: Some(val), ..self.0.outer }),
    {
        let mut s = self;
        s.0.outer.neighbors = Some(val);
        s
    }

    pub fn build(self) -> (r: Query)
        ensures
            r == Query::GeohashCell(Box::new(self)),
    {
        Query::GeohashCell(Box::new(self))
    }
}

/// The precision of a geohash cell: a geohash length or a distance.
#[derive(Debug, Clone, Copy)]
pub enum Precision {
    Geohash(u64),
    Distance(Distance),
}

/// Written as the value it holds.
impl ToJson for Precision {
    open spec fn json_v(&self) -> JsonV {
        match self {
            Precision::Geohash(p) => JsonV::Int(*p as int),
            Precision::Distance(d) => d.json_v(),
        }
    }

    fn to_json(&self) -> (r: Json) {
        match self {
            Precision::Geohash(p) => Json::UInt(*p),
            Precision::Distance(d) => d.to_json(),
        }
    }
}

} // verus!
