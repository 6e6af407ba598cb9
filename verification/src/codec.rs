//! The boundary to the `postgis` crate's EWKB codec.
//!
//! Everything in this module is believed, not proved: the geometry value is
//! opaque to the verifier, and what the codec makes of it is given a name
//! rather than a definition. The rest of the crate is proved against the
//! contracts stated here.

use vstd::prelude::*;
use postgis::ewkb::{AsEwkbGeometry, EwkbRead, EwkbWrite, GeometryT, Point};
use crate::geometry::GeometryKind;

verus! {

/// A geometry value: one of point, line string, polygon, their multi forms or
/// a collection, with two-dimensional coordinates and an optional SRID.
///
/// The value is the `postgis` crate's `GeometryT<Point>`, held as is. The
/// verifier sees nothing inside it; callers read and build it through `value`.
#[verifier::external_body]
#[derive(Debug)]
pub struct Geometry {
    pub value: GeometryT<Point>,
}

/// The `postgis` crate's error type, carried from the codec to the place
/// where it is turned into a [`crate::error::GeometryError`].
#[verifier::external_type_specification]
#[verifier::external_body]
pub struct ExCodecError(postgis::error::Error);

/// The variant of the geometry union that `g` holds.
pub uninterp spec fn geometry_kind(g: Geometry) -> GeometryKind;

/// What the codec's EWKB writer makes of `g`: the bytes, or the text of the
/// error it stops with.
pub uninterp spec fn ewkb_written(g: Geometry) -> Result<Seq<u8>, Seq<char>>;

/// What the codec's EWKB reader makes of `bytes`: the geometry, or the text
/// of the error it stops with.
pub uninterp spec fn ewkb_parsed(bytes: Seq<u8>) -> Result<Geometry, Seq<char>>;

/// The text that the codec's error displays as.
pub uninterp spec fn codec_error_text(e: postgis::error::Error) -> Seq<char>;

/// A writer's outcome as plain values: the bytes, or the error's text.
pub open spec fn written_view(r: Result<Vec<u8>, postgis::error::Error>) -> Result<
    Seq<u8>,
    Seq<char>,
> {
    match r {
        Ok(bytes) => Ok(bytes@),
        Err(e) => Err(codec_error_text(e)),
    }
}

/// A reader's outcome with the error as plain text.
pub open spec fn parsed_view(r: Result<Geometry, postgis::error::Error>) -> Result<
    Geometry,
    Seq<char>,
> {
    match r {
        Ok(g) => Ok(g),
        Err(e) => Err(codec_error_text(e)),
    }
}

/// Tells the variants of `postgis::ewkb::GeometryT` apart.
///
/// Claims that the kind returned is the variant `g` holds, which is all that
/// [`geometry_kind`] means. The codec's union has no variant that maps to
/// [`GeometryKind::Other`].
#[verifier::external_body]
pub(crate) fn variant_of(g: &Geometry) -> (kind: GeometryKind)
    ensures
        kind == geometry_kind(*g),
{
    match g.value {
        GeometryT::Point(_) => GeometryKind::Point,
        GeometryT::LineString(_) => GeometryKind::LineString,
        GeometryT::Polygon(_) => GeometryKind::Polygon,
        GeometryT::MultiPoint(_) => GeometryKind::MultiPoint,
        GeometryT::MultiLineString(_) => GeometryKind::MultiLineString,
        GeometryT::MultiPolygon(_) => GeometryKind::MultiPolygon,
        GeometryT::GeometryCollection(_) => GeometryKind::GeometryCollection,
    }
}

/// Calls `EwkbWrite::write_ewkb` on the geometry's EWKB form, writing into a
/// fresh vector.
///
/// Claims only that the outcome is a function of the geometry: the same value
/// always gives the same bytes, or the same error. Nothing is claimed about
/// what the bytes are.
#[verifier::external_body]
pub(crate) fn write_ewkb(g: &Geometry) -> (r: Result<Vec<u8>, postgis::error::Error>)
    ensures
        written_view(r) == ewkb_written(*g),
{
    let mut out = Vec::new();
    g.value.as_ewkb().write_ewkb(&mut out)?;
    Ok(out)
}

/// Calls `EwkbRead::read_ewkb` for `GeometryT<Point>` on the bytes.
///
/// Claims only that the outcome is a function of the bytes: the same bytes
/// always give the same geometry, or the same error. The reader stops with an
/// error where the input ends early and on a type code it does not know. It
/// recurses once for each level of nested collections.
#[verifier::external_body]
pub(crate) fn read_ewkb(bytes: &[u8]) -> (r: Result<Geometry, postgis::error::Error>)
    ensures
        parsed_view(r) == ewkb_parsed(bytes@),
{
    let mut raw = bytes;
    let value = GeometryT::<Point>::read_ewkb(&mut raw)?;
    Ok(Geometry { value })
}

/// Calls `to_string` on the codec's error, which runs the `Display` impl of
/// `postgis::error::Error`.
///
/// Claims only that the text is a function of the error.
#[verifier::external_body]
pub(crate) fn error_text(e: &postgis::error::Error) -> (text: String)
    ensures
        text@ == codec_error_text(*e),
{
    e.to_string()
}

} // verus!
