//! Various re-occuring types that are used by the ElasticSearch API, e.g. `Duration`.

use vstd::prelude::*;

use crate::error::EsError;
use crate::json::{
    dec_display, entries_view, int_text, jv, list_json, list_v, object, one_entry, push_entry, str_json,
    decimal_to_string, int_to_string, to_json_string, Decimal, Json, JsonV, ToJson,
};

verus! {

/// The units by which duration is measured.
#[derive(Debug, Clone, Copy, PartialEq, Eq)]
pub enum DurationUnit {
    Month,
    Week,
    Day,
    Hour,
    Minute,
    Second,
    Millisecond,
}

/// Law: each value is written by its ElasticSearch name (`M`, `w`, `d`, `h`, `m`, `s`, `ms`, in
/// the order of the variants), and different values are written differently.
pub proof fn lemma_duration_unit_names(x: DurationUnit)
    ensures
        x is Month ==> x.suffix() == "M"@,
        x is Week ==> x.suffix() == "w"@,
        x is Day ==> x.suffix() == "d"@,
        x is Hour ==> x.suffix() == "h"@,
        x is Minute ==> x.suffix() == "m"@,
        x is Second ==> x.suffix() == "s"@,
        x is Millisecond ==> x.suffix() == "ms"@,
        forall|a: DurationUnit, b: DurationUnit| a != b ==> #[trigger] a.suffix() != #[trigger] b.suffix(),
{
    reveal_strlit("M");
    assert("M"@.len() == 1 && "M"@[0] == 'M');
    reveal_strlit("d");
    assert("d"@.len() == 1 && "d"@[0] == 'd');
    reveal_strlit("h");
    assert("h"@.len() == 1 && "h"@[0] == 'h');
    reveal_strlit("m");
    assert("m"@.len() == 1 && "m"@[0] == 'm');
    reveal_strlit("ms");
    assert("ms"@.len() == 2 && "ms"@[0] == 'm' && "ms"@[1] == 's');
    reveal_strlit("s");
    assert("s"@.len() == 1 && "s"@[0] == 's');
    reveal_strlit("w");
    assert("w"@.len() == 1 && "w"@[0] == 'w');
}

impl DurationUnit {
    /// The unit's suffix in ElasticSearch's duration format.
    pub open spec fn suffix(self) -> Seq<char> {
        match self {
            DurationUnit::Month => "M"@,
            DurationUnit::Week => "w"@,
            DurationUnit::Day => "d"@,
            DurationUnit::Hour => "h"@,
            DurationUnit::Minute => "m"@,
            DurationUnit::Second => "s"@,
            DurationUnit::Millisecond => "ms"@,
        }
    }

    /// The variant's name, which is how the unit is written as a JSON value.
    pub open spec fn name(self) -> Seq<char> {
        match self {
            DurationUnit::Month => "Month"@,
            DurationUnit::Week => "Week"@,
            DurationUnit::Day => "Day"@,
            DurationUnit::Hour => "Hour"@,
            DurationUnit::Minute => "Minute"@,
            DurationUnit::Second => "Second"@,
            DurationUnit::Millisecond => "Millisecond"@,
        }
    }

    pub fn to_string(&self) -> (r: String)
        ensures
            r@ == self.suffix(),
    {
        match self {
            DurationUnit::Month => "M".to_owned(),
            DurationUnit::Week => "w".to_owned(),
            DurationUnit::Day => "d".to_owned(),
            DurationUnit::Hour => "h".to_owned(),
            DurationUnit::Minute => "m".to_owned(),
            DurationUnit::Second => "s".to_owned(),
            DurationUnit::Millisecond => "ms".to_owned(),
        }
    }
}

impl ToJson for DurationUnit {
    open spec fn json_v(&self) -> JsonV {
        JsonV::Str(self.name())
    }

    fn to_json(&self) -> (r: Json) {
        match self {
            DurationUnit::Month => str_json("Month"),
            DurationUnit::Week => str_json("Week"),
            DurationUnit::Day => str_json("Day"),
            DurationUnit::Hour => str_json("Hour"),
            DurationUnit::Minute => str_json("Minute"),
            DurationUnit::Second => str_json("Second"),
            DurationUnit::Millisecond => str_json("Millisecond"),
        }
    }
}

/// A time-period, formatted into the ElasticSearch standard format.
///
/// ```
/// use rs_es::units::{Duration, DurationUnit};
///
/// assert_eq!("100d", Duration::new(100, DurationUnit::Day).to_string());
/// ```
#[derive(Debug, Clone, Copy, PartialEq, Eq)]
pub struct Duration {
    pub amt: i64,
    pub unit: DurationUnit,
}

impl Duration {
    /// ElasticSearch's text of the duration: the amount then the unit's suffix.
    pub open spec fn text(self) -> Seq<char> {
        int_text(self.amt as int) + self.unit.suffix()
    }

    pub fn new(amt: i64, unit: DurationUnit) -> (r: Duration)
        ensures
            r.amt == amt,
            r.unit == unit,
    {
        Duration { amt, unit }
    }

    pub fn months(amt: i64) -> (r: Duration)
        ensures
            r == Duration::new_spec(amt, DurationUnit::Month),
    {
        Duration::new(amt, DurationUnit::Month)
    }

    pub fn weeks(amt: i64) -> (r: Duration)
        ensures
            r == Duration::new_spec(amt, DurationUnit::Week),
    {
        Duration::new(amt, DurationUnit::Week)
    }

    pub fn days(amt: i64) -> (r: Duration)
        ensures
            r == Duration::new_spec(amt, DurationUnit::Day),
    {
        Duration::new(amt, DurationUnit::Day)
    }

    pub fn hours(amt: i64) -> (r: Duration)
        ensures
            r == Duration::new_spec(amt, DurationUnit::Hour),
    {
        Duration::new(amt, DurationUnit::Hour)
    }

    pub fn minutes(amt: i64) -> (r: Duration)
        ensures
            r == Duration::new_spec(amt, DurationUnit::Minute),
    {
        Duration::new(amt, DurationUnit::Minute)
    }

    pub fn seconds(amt: i64) -> (r: Duration)
        ensures
            r == Duration::new_spec(amt, DurationUnit::Second),
    {
        Duration::new(amt, DurationUnit::Second)
    }

    pub fn milliseconds(amt: i64) -> (r: Duration)
        ensures
            r == Duration::new_spec(amt, DurationUnit::Millisecond),
    {
        Duration::new(amt, DurationUnit::Millisecond)
    }

    pub open spec fn new_spec(amt: i64, unit: DurationUnit) -> Duration {
        Duration { amt, unit }
    }

    pub fn to_string(&self) -> (r: String)
        ensures
            r@ == self.text(),
    {
        let mut s = int_to_string(self.amt);
        let u = self.unit.to_string();
        s.append(u.as_str());
        s
    }
}

/// As a JSON value a duration is a record of its two fields.
impl ToJson for Duration {
    open spec fn json_v(&self) -> JsonV {
        JsonV::Object(one_entry("amt"@, JsonV::Int(self.amt as int)) + one_entry("unit"@, self.unit.json_v()))
    }

    fn to_json(&self) -> (r: Json) {
        let mut e: Vec<(String, Json)> = Vec::new();
        push_entry(&mut e, "amt", Json::Int(self.amt));
        push_entry(&mut e, "unit", self.unit.to_json());
        assert(entries_view(e@) =~= one_entry("amt"@, JsonV::Int(self.amt as int)) + one_entry("unit"@, self.unit.json_v()));
        object(e)
    }
}

/// Representing a geographic location
#[derive(Debug, Clone)]
pub enum Location {
    LatLon(Decimal, Decimal),
    GeoHash(String),
}

impl Location {
    pub fn default() -> (r: Location)
        ensures
            r matches Location::LatLon(a, b) && a.mantissa_of() == 0 && a.scale_of() == 0 && b.mantissa_of() == 0 && b.scale_of() == 0,
    {
        Location::LatLon(Decimal::whole(0), Decimal::whole(0))
    }
}

/// A latitude/longitude pair is written with its keys in sorted order.
impl ToJson for Location {
    open spec fn json_v(&self) -> JsonV {
        match self {
            Location::LatLon(lat, lon) => JsonV::Object(one_entry("lat"@, lat.json_v()) + one_entry("lon"@, lon.json_v())),
            Location::GeoHash(h) => JsonV::Str(h@),
        }
    }

    fn to_json(&self) -> (r: Json) {
        match self {
            Location::LatLon(lat, lon) => {
                let mut e: Vec<(String, Json)> = Vec::new();
                push_entry(&mut e, "lat", lat.to_json());
                push_entry(&mut e, "lon", lon.to_json());
                assert(entries_view(e@) =~= one_entry("lat"@, lat.json_v()) + one_entry("lon"@, lon.json_v()));
                object(e)
            },
            Location::GeoHash(h) => Json::Str(h.clone()),
        }
    }
}

/// Representing a geographic box
#[derive(Debug, Clone)]
pub enum GeoBox {
    Corners(Location, Location),
    Vertices(Decimal, Decimal, Decimal, Decimal),
}

impl GeoBox {
    pub fn default() -> (r: GeoBox)
        ensures
            r is Vertices,
    {
        GeoBox::Vertices(Decimal::whole(0), Decimal::whole(0), Decimal::whole(0), Decimal::whole(0))
    }
}

/// Keys are written in sorted order (as a sorted map writes them).
impl ToJson for GeoBox {
    open spec fn json_v(&self) -> JsonV {
        match self {
            GeoBox::Corners(tl, br) => JsonV::Object(one_entry("bottom_right"@, br.json_v()) + one_entry("top_left"@, tl.json_v())),
            GeoBox::Vertices(top, left, bottom, right) => JsonV::Object(
                one_entry("bottom"@, bottom.json_v()) + one_entry("left"@, left.json_v())
                    + one_entry("right"@, right.json_v()) + one_entry("top"@, top.json_v()),
            ),
        }
    }

    fn to_json(&self) -> (r: Json) {
        let mut e: Vec<(String, Json)> = Vec::new();
        match self {
            GeoBox::Corners(tl, br) => {
                push_entry(&mut e, "bottom_right", br.to_json());
                push_entry(&mut e, "top_left", tl.to_json());
                assert(entries_view(e@) =~= one_entry("bottom_right"@, br.json_v()) + one_entry("top_left"@, tl.json_v()));
            },
            GeoBox::Vertices(top, left, bottom, right) => {
                push_entry(&mut e, "bottom", bottom.to_json());
                push_entry(&mut e, "left", left.to_json());
                push_entry(&mut e, "right", right.to_json());
                push_entry(&mut e, "top", top.to_json());
                assert(entries_view(e@) =~= one_entry("bottom"@, bottom.json_v()) + one_entry("left"@, left.json_v())
                    + one_entry("right"@, right.json_v()) + one_entry("top"@, top.json_v()));
            },
        }
        object(e)
    }
}

/// A non-specific holder for an option which can either be a single thing, or
/// multiple instances of that thing.
#[derive(Debug)]
pub enum OneOrMany<T> {
    One(T),
    Many(Vec<T>),
}

/// One is written as the thing itself, many as an array.
impl<T: ToJson> ToJson for OneOrMany<T> {
    open spec fn json_v(&self) -> JsonV {
        match self {
            OneOrMany::One(t) => t.json_v(),
            OneOrMany::Many(v) => list_v(v@),
        }
    }

    fn to_json(&self) -> (r: Json) {
        match self {
            OneOrMany::One(t) => t.to_json(),
            OneOrMany::Many(v) => list_json(v),
        }
    }
}

/// DistanceType
#[derive(Debug, Clone, Copy, PartialEq, Eq)]
pub enum DistanceType {
    SloppyArc,
    Arc,
    Plane,
}

/// Law: each value is written in JSON by its ElasticSearch name (`sloppy_arc`, `arc`, `plane`,
/// in the order of the variants), and different values are written differently.
pub proof fn lemma_distance_type_json_names(x: DistanceType)
    ensures
        x is SloppyArc ==> x.json_v() == JsonV::Str("sloppy_arc"@),
        x is Arc ==> x.json_v() == JsonV::Str("arc"@),
        x is Plane ==> x.json_v() == JsonV::Str("plane"@),
        forall|a: DistanceType, b: DistanceType| a != b ==> #[trigger] a.json_v() != #[trigger] b.json_v(),
{
    reveal_strlit("arc");
    assert("arc"@.len() == 3 && "arc"@[0] == 'a' && "arc"@[1] == 'r' && "arc"@[2] == 'c');
    reveal_strlit("plane");
    assert("plane"@.len() == 5 && "plane"@[0] == 'p' && "plane"@[1] == 'l' && "plane"@[2] == 'a' && "plane"@[3] == 'n' && "plane"@[4] == 'e');
    reveal_strlit("sloppy_arc");
    assert("sloppy_arc"@.len() == 10 && "sloppy_arc"@[0] == 's' && "sloppy_arc"@[1] == 'l' && "sloppy_arc"@[2] == 'o' && "sloppy_arc"@[3] == 'p' && "sloppy_arc"@[4] == 'p' && "sloppy_arc"@[5] == 'y' && "sloppy_arc"@[6] == '_' && "sloppy_arc"@[7] == 'a' && "sloppy_arc"@[8] == 'r' && "sloppy_arc"@[9] == 'c');
}

impl ToJson for DistanceType {
    open spec fn json_v(&self) -> JsonV {
        JsonV::Str(
            match self {
                DistanceType::SloppyArc => "sloppy_arc"@,
                DistanceType::Arc => "arc"@,
                DistanceType::Plane => "plane"@,
            },
        )
    }

    fn to_json(&self) -> (r: Json) {
        match self {
            DistanceType::SloppyArc => str_json("sloppy_arc"),
            DistanceType::Arc => str_json("arc"),
            DistanceType::Plane => str_json("plane"),
        }
    }
}

/// DistanceUnit
#[derive(Debug, Clone, Copy, PartialEq, Eq)]
pub enum DistanceUnit {
    Mile,
    Yard,
    Feet,
    Inch,
    Kilometer,
    Meter,
    Centimeter,
    Millimeter,
    NauticalMile,
}

impl DistanceUnit {
    pub open spec fn suffix(self) -> Seq<char> {
        match self {
            DistanceUnit::Mile => "mi"@,
            DistanceUnit::Yard => "yd"@,
            DistanceUnit::Feet => "ft"@,
            DistanceUnit::Inch => "in"@,
            DistanceUnit::Kilometer => "km"@,
            DistanceUnit::Meter => "m"@,
            DistanceUnit::Centimeter => "cm"@,
            DistanceUnit::Millimeter => "mm"@,
            DistanceUnit::NauticalMile => "NM"@,
        }
    }

    /// The default unit is the kilometre.
    pub fn default() -> (r: DistanceUnit)
        ensures
            r == DistanceUnit::Kilometer,
    {
        DistanceUnit::Kilometer
    }

    pub fn to_string(&self) -> (r: String)
        ensures
            r@ == self.suffix(),
    {
        match self {
            DistanceUnit::Mile => "mi".to_owned(),
            DistanceUnit::Yard => "yd".to_owned(),
            DistanceUnit::Feet => "ft".to_owned(),
            DistanceUnit::Inch => "in".to_owned(),
            DistanceUnit::Kilometer => "km".to_owned(),
            DistanceUnit::Meter => "m".to_owned(),
            DistanceUnit::Centimeter => "cm".to_owned(),
            DistanceUnit::Millimeter => "mm".to_owned(),
            DistanceUnit::NauticalMile => "NM".to_owned(),
        }
    }
}

/// Law: a distance is written as its amount followed by the ElasticSearch
/// abbreviation of its unit (`mi`, `yd`, `ft`, `in`, `km`, `m`, `cm`, `mm`,
/// `NM`), and different units have different abbreviations.
pub proof fn lemma_distance_text(d: Distance)
    ensures
        d.unit == DistanceUnit::Mile ==> d.text() == dec_display(d.amt.mantissa_of(), d.amt.scale_of()) + "mi"@,
        d.unit == DistanceUnit::Yard ==> d.text() == dec_display(d.amt.mantissa_of(), d.amt.scale_of()) + "yd"@,
        d.unit == DistanceUnit::Feet ==> d.text() == dec_display(d.amt.mantissa_of(), d.amt.scale_of()) + "ft"@,
        d.unit == DistanceUnit::Inch ==> d.text() == dec_display(d.amt.mantissa_of(), d.amt.scale_of()) + "in"@,
        d.unit == DistanceUnit::Kilometer ==> d.text() == dec_display(d.amt.mantissa_of(), d.amt.scale_of()) + "km"@,
        d.unit == DistanceUnit::Meter ==> d.text() == dec_display(d.amt.mantissa_of(), d.amt.scale_of()) + "m"@,
        d.unit == DistanceUnit::Centimeter ==> d.text() == dec_display(d.amt.mantissa_of(), d.amt.scale_of()) + "cm"@,
        d.unit == DistanceUnit::Millimeter ==> d.text() == dec_display(d.amt.mantissa_of(), d.amt.scale_of()) + "mm"@,
        d.unit == DistanceUnit::NauticalMile ==> d.text() == dec_display(d.amt.mantissa_of(), d.amt.scale_of()) + "NM"@,
        forall|a: DistanceUnit, b: DistanceUnit| a != b ==> #[trigger] a.suffix() != #[trigger] b.suffix(),
{
    reveal_strlit("mi");
    reveal_strlit("yd");
    reveal_strlit("ft");
    reveal_strlit("in");
    reveal_strlit("km");
    reveal_strlit("m");
    reveal_strlit("cm");
    reveal_strlit("mm");
    reveal_strlit("NM");
    assert("mi"@.len() == 2 && "mi"@[0] == 'm' && "mi"@[1] == 'i');
    assert("yd"@.len() == 2 && "yd"@[0] == 'y' && "yd"@[1] == 'd');
    assert("ft"@.len() == 2 && "ft"@[0] == 'f' && "ft"@[1] == 't');
    assert("in"@.len() == 2 && "in"@[0] == 'i' && "in"@[1] == 'n');
    assert("km"@.len() == 2 && "km"@[0] == 'k' && "km"@[1] == 'm');
    assert("m"@.len() == 1 && "m"@[0] == 'm');
    assert("cm"@.len() == 2 && "cm"@[0] == 'c' && "cm"@[1] == 'm');
    assert("mm"@.len() == 2 && "mm"@[0] == 'm' && "mm"@[1] == 'm');
    assert("NM"@.len() == 2 && "NM"@[0] == 'N' && "NM"@[1] == 'M');
}

impl ToJson for DistanceUnit {
    open spec fn json_v(&self) -> JsonV {
        JsonV::Str(self.suffix())
    }

    fn to_json(&self) -> (r: Json) {
        Json::Str(self.to_string())
    }
}

/// Distance, both an amount and a unit
#[derive(Debug, Clone, Copy)]
pub struct Distance {
    pub amt: Decimal,
    pub unit: DistanceUnit,
}

impl Distance {
    pub fn new(amt: Decimal, unit: DistanceUnit) -> (r: Distance)
        ensures
            r.amt == amt,
            r.unit == unit,
    {
        Distance { amt, unit }
    }

    /// The amount as `{}` displays it, then the unit's suffix.
    pub open spec fn text(self) -> Seq<char> {
        dec_display(self.amt.mantissa_of(), self.amt.scale_of()) + self.unit.suffix()
    }

    pub fn to_string(&self) -> (r: String)
        ensures
            r@ == self.text(),
    {
        let mut s = decimal_to_string(self.amt);
        let u = self.unit.to_string();
        s.append(u.as_str());
        s
    }
}

/// A distance is written as its text.
impl ToJson for Distance {
    open spec fn json_v(&self) -> JsonV {
        JsonV::Str(self.text())
    }

    fn to_json(&self) -> (r: Json) {
        Json::Str(self.to_string())
    }
}

/// A JSON number.
#[derive(Debug, Clone, Copy, PartialEq, Eq)]
pub enum Number {
    PosInt(u64),
    NegInt(i64),
    Float(Decimal),
}

/// A Json value that's not a structural thing - i.e. just String, a number or
/// a boolean, no array or object
#[derive(Debug, Clone)]
pub enum JsonVal {
    String(String),
    Number(Number),
    Boolean(bool),
}

impl JsonVal {
    pub open spec fn view_v(self) -> JsonV {
        match self {
            JsonVal::String(s) => JsonV::Str(s@),
            JsonVal::Number(Number::PosInt(u)) => JsonV::Int(u as int),
            JsonVal::Number(Number::NegInt(i)) => JsonV::Int(i as int),
            JsonVal::Number(Number::Float(d)) => JsonV::Num(d.mantissa_of(), d.scale_of()),
            JsonVal::Boolean(b) => JsonV::Bool(b),
        }
    }

    /// Reads a scalar JSON value; arrays, objects and null are refused.
    pub fn from(from: &Json) -> (r: Result<JsonVal, EsError>)
        ensures
            r is Ok <==> !(jv(*from) is Null || jv(*from) is Array || jv(*from) is Object),
            r matches Ok(v) ==> v.view_v() == jv(*from),
            r is Err ==> (r matches Err(EsError::EsError(m)) && m@ == "Not a JsonVal: "@
                + crate::json::json_debug_text(crate::json::json_text(jv(*from)))),
    {
        match from {
            Json::Str(s) => Ok(JsonVal::String(s.clone())),
            Json::Bool(b) => Ok(JsonVal::Boolean(*b)),
            Json::Int(i) => {
                if *i >= 0 {
                    Ok(JsonVal::Number(Number::PosInt(*i as u64)))
                } else {
                    Ok(JsonVal::Number(Number::NegInt(*i)))
                }
            },
            Json::UInt(u) => Ok(JsonVal::Number(Number::PosInt(*u))),
            Json::Num(d) => Ok(JsonVal::Number(Number::Float(*d))),
            _ => {
                let mut msg = "Not a JsonVal: ".to_owned();
                let t = to_json_string(from);
                let d = crate::json::debug_text(t.as_str());
                msg.append(d.as_str());
                Err(EsError::EsError(msg))
            },
        }
    }

    pub fn from_str(s: &str) -> (r: JsonVal)
        ensures
            r.view_v() == JsonV::Str(s@),
    {
        JsonVal::String(s.to_owned())
    }

    pub fn from_i64(i: i64) -> (r: JsonVal)
        ensures
            r.view_v() == JsonV::Int(i as int),
    {
        if i >= 0 {
            JsonVal::Number(Number::PosInt(i as u64))
        } else {
            JsonVal::Number(Number::NegInt(i))
        }
    }

    pub fn from_u64(u: u64) -> (r: JsonVal)
        ensures
            r.view_v() == JsonV::Int(u as int),
    {
        JsonVal::Number(Number::PosInt(u))
    }

    pub fn from_decimal(d: Decimal) -> (r: JsonVal)
        ensures
            r.view_v() == JsonV::Num(d.mantissa_of(), d.scale_of()),
    {
        JsonVal::Number(Number::Float(d))
    }

    pub fn from_bool(b: bool) -> (r: JsonVal)
        ensures
            r.view_v() == JsonV::Bool(b),
    {
        JsonVal::Boolean(b)
    }

    /// The default is the empty string.
    pub fn default() -> (r: JsonVal)
        ensures
            r.view_v() == JsonV::Str(Seq::empty()),
    {
        JsonVal::String(String::new())
    }
}

impl ToJson for JsonVal {
    open spec fn json_v(&self) -> JsonV {
        self.view_v()
    }

    fn to_json(&self) -> (r: Json) {
        match self {
            JsonVal::String(s) => Json::Str(s.clone()),
            JsonVal::Number(Number::PosInt(u)) => Json::UInt(*u),
            JsonVal::Number(Number::NegInt(i)) => Json::Int(*i),
            JsonVal::Number(Number::Float(d)) => Json::Num(*d),
            JsonVal::Boolean(b) => Json::Bool(*b),
        }
    }
}

} // verus!
