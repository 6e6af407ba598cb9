//! The geometry adapter: catalog names, size hints, encoding and decoding.

use vstd::prelude::*;
use crate::arguments::{IsNull, PgArgumentBuffer};
use crate::codec::{
    error_text, ewkb_parsed, ewkb_written, geometry_kind, read_ewkb, variant_of, write_ewkb,
    Geometry,
};
use crate::error::GeometryError;
use crate::text::str_eq;
use crate::type_info::PgTypeInfo;
use crate::value::{PgValueFormat, PgValueRef};

verus! {

/// Which variant of the geometry union a value is.
///
/// `Other` stands for any variant this adapter has no dedicated estimate for.
#[derive(Clone, Copy, Debug, PartialEq, Eq, Structural)]
pub enum GeometryKind {
    Point,
    LineString,
    Polygon,
    MultiPoint,
    MultiLineString,
    MultiPolygon,
    GeometryCollection,
    Other,
}

/// The name under which the catalog lists the geometry type.
pub open spec fn geometry_type_name() -> Seq<char> {
    "geometry"@
}

/// The name under which the catalog lists arrays of geometry.
pub open spec fn geometry_array_type_name() -> Seq<char> {
    "_geometry"@
}

/// The buffer size estimate for a geometry of the given kind, in bytes.
///
/// Each estimate is a nine byte header plus the body of a typical small value
/// of that kind. It never depends on how many coordinates a value holds.
pub open spec fn spec_size_hint(kind: GeometryKind) -> nat {
    match kind {
        GeometryKind::Point => 21,
        GeometryKind::LineString => 49,
        GeometryKind::Polygon => 93,
        GeometryKind::MultiPoint => 42,
        GeometryKind::MultiLineString => 90,
        GeometryKind::MultiPolygon => 134,
        GeometryKind::GeometryCollection => 32,
        GeometryKind::Other => 128,
    }
}

/// How an encode call ends, given what the codec's writer made of the value.
///
/// If the writer gave bytes, they are appended to the buffer as they are, and
/// the result says that the argument is not null. If the writer failed, the
/// buffer is left as it was and the failure is passed on with the writer's
/// own text.
pub open spec fn encoded_as(
    written: Result<Seq<u8>, Seq<char>>,
    before: Seq<u8>,
    after: Seq<u8>,
    r: Result<IsNull, GeometryError>,
) -> bool {
    match written {
        Ok(bytes) => {
            &&& r == Ok::<IsNull, GeometryError>(IsNull::No)
            &&& after == before + bytes
        },
        Err(text) => {
            &&& r matches Err(GeometryError::Write(detail)) && detail@ == text
            &&& after == before
        },
    }
}

/// How reading a binary value ends, given what the codec's reader made of the
/// bytes: the geometry as it is, or a parse failure with the reader's text.
pub open spec fn parsed_as(
    parsed: Result<Geometry, Seq<char>>,
    r: Result<Geometry, GeometryError>,
) -> bool {
    match parsed {
        Ok(g) => r == Ok::<Geometry, GeometryError>(g),
        Err(text) => r matches Err(GeometryError::Parse(detail)) && detail@ == text,
    }
}

/// How a decode call ends for a value with the given format and bytes.
///
/// Only a binary value is read, and what the codec's reader says of its bytes
/// decides. A text value always fails, whatever its bytes are.
pub open spec fn decoded_as(
    format: PgValueFormat,
    bytes: Seq<u8>,
    r: Result<Geometry, GeometryError>,
) -> bool {
    match format {
        PgValueFormat::Binary => parsed_as(ewkb_parsed(bytes), r),
        PgValueFormat::Text => r == Err::<Geometry, GeometryError>(
            GeometryError::UnsupportedFormat,
        ),
    }
}

/// Whether the codec reads `g` back from the bytes that it writes for it.
///
/// This is a matter of the codec and of the value, not of this adapter. It
/// fails, for one, for a multi-point whose points carry an SRID: the writer
/// drops the SRID of each part.
pub open spec fn codec_reads_back(g: Geometry) -> bool {
    ewkb_written(g) matches Ok(bytes) && ewkb_parsed(bytes) == Ok::<Geometry, Seq<char>>(g)
}

/// Computes the buffer size estimate for a geometry of the given kind.
pub fn size_hint_for(kind: GeometryKind) -> (hint: usize)
    ensures
        hint == spec_size_hint(kind),
{
    match kind {
        GeometryKind::Point => 21,
        GeometryKind::LineString => 49,
        GeometryKind::Polygon => 93,
        GeometryKind::MultiPoint => 42,
        GeometryKind::MultiLineString => 90,
        GeometryKind::MultiPolygon => 134,
        GeometryKind::GeometryCollection => 32,
        GeometryKind::Other => 128,
    }
}

/// Ends an encode call with what the codec's writer returned: its bytes, or
/// the text of its error.
pub fn finish_encode(written: Result<Vec<u8>, String>, buf: &mut PgArgumentBuffer) -> (r: Result<
    IsNull,
    GeometryError,
>)
    ensures
        encoded_as(
            match written {
                Ok(bytes) => Ok(bytes@),
                Err(text) => Err(text@),
            },
            old(buf)@,
            final(buf)@,
            r,
        ),
{
    match written {
        Ok(bytes) => {
            buf.append(bytes);
            Ok(IsNull::No)
        },
        Err(text) => Err(GeometryError::Write(text)),
    }
}

/// Ends the reading of a binary value with what the codec's reader returned:
/// the geometry, or the text of its error.
pub fn finish_decode(parsed: Result<Geometry, String>) -> (r: Result<Geometry, GeometryError>)
    ensures
        parsed_as(
            match parsed {
                Ok(g) => Ok(g),
                Err(text) => Err(text@),
            },
            r,
        ),
{
    match parsed {
        Ok(g) => Ok(g),
        Err(text) => Err(GeometryError::Parse(text)),
    }
}

impl Geometry {
    /// The descriptor of the geometry type.
    pub fn type_info() -> (ty: PgTypeInfo)
        ensures
            ty@ == geometry_type_name(),
    {
        PgTypeInfo::with_name("geometry")
    }

    /// Whether a column or parameter of type `ty` can hold a geometry: only
    /// if `ty` is named exactly `geometry`.
    pub fn compatible(ty: &PgTypeInfo) -> (ok: bool)
        ensures
            ok == (ty@ == geometry_type_name()),
    {
        str_eq(ty.name(), "geometry")
    }

    /// The descriptor of the type of arrays of geometry.
    pub fn array_type_info() -> (ty: PgTypeInfo)
        ensures
            ty@ == geometry_array_type_name(),
    {
        PgTypeInfo::with_name("_geometry")
    }

    /// Whether a column or parameter of type `ty` can hold an array of
    /// geometry: only if `ty` is named exactly `_geometry`.
    pub fn array_compatible(ty: &PgTypeInfo) -> (ok: bool)
        ensures
            ok == (ty@ == geometry_array_type_name()),
    {
        str_eq(ty.name(), "_geometry")
    }

    /// Writes the geometry to the end of `buf` as EWKB, with no framing added.
    ///
    /// Never reports a null: on success the result is [`IsNull::No`].
    pub fn encode_by_ref(&self, buf: &mut PgArgumentBuffer) -> (r: Result<IsNull, GeometryError>)
        ensures
            encoded_as(ewkb_written(*self), old(buf)@, final(buf)@, r),
    {
        let written = match write_ewkb(self) {
            Ok(bytes) => Ok(bytes),
            Err(e) => Err(error_text(&e)),
        };
        finish_encode(written, buf)
    }

    /// Writes an owned geometry to the end of `buf`, as
    /// [`Geometry::encode_by_ref`] does for a borrowed one.
    pub fn encode(self, buf: &mut PgArgumentBuffer) -> (r: Result<IsNull, GeometryError>)
        ensures
            encoded_as(ewkb_written(self), old(buf)@, final(buf)@, r),
    {
        self.encode_by_ref(buf)
    }

    /// An estimate of how many bytes the geometry encodes to, for sizing a
    /// buffer ahead of the call. It depends on the variant alone.
    pub fn size_hint(&self) -> (hint: usize)
        ensures
            hint == spec_size_hint(geometry_kind(*self)),
    {
        size_hint_for(variant_of(self))
    }

    /// Reads a geometry from a binary value. A value in text format is
    /// refused without a look at its bytes.
    pub fn decode(value: PgValueRef<'_>) -> (r: Result<Geometry, GeometryError>)
        ensures
            decoded_as(value.spec_format(), value.spec_bytes(), r),
    {
        match value.format() {
            PgValueFormat::Binary => {
                let parsed = match read_ewkb(value.as_bytes()) {
                    Ok(g) => Ok(g),
                    Err(e) => Err(error_text(&e)),
                };
                finish_decode(parsed)
            },
            PgValueFormat::Text => Err(GeometryError::UnsupportedFormat),
        }
    }
}

/// No name is both the geometry type's and its array type's, so no descriptor
/// is compatible as a geometry and as an array of geometry at once.
pub proof fn lemma_scalar_and_array_names_differ(name: Seq<char>)
    ensures
        !(name == geometry_type_name() && name == geometry_array_type_name()),
{
    reveal_strlit("geometry");
    reveal_strlit("_geometry");
    assert(geometry_type_name().len() != geometry_array_type_name().len());
}

/// The size hint is settled by the variant: two geometries of the same kind
/// get the same hint, however many coordinates either holds.
pub proof fn lemma_size_hint_depends_on_kind_alone(a: Geometry, b: Geometry)
    requires
        geometry_kind(a) == geometry_kind(b),
    ensures
        spec_size_hint(geometry_kind(a)) == spec_size_hint(geometry_kind(b)),
{
}

/// An encode call never reports a null: it succeeds exactly when the codec's
/// writer does, and then says that the argument is not null.
pub proof fn lemma_encode_never_reports_null(
    written: Result<Seq<u8>, Seq<char>>,
    before: Seq<u8>,
    after: Seq<u8>,
    r: Result<IsNull, GeometryError>,
)
    requires
        encoded_as(written, before, after, r),
    ensures
        r != Ok::<IsNull, GeometryError>(IsNull::Yes),
        r is Ok <==> written is Ok,
        r is Ok ==> r == Ok::<IsNull, GeometryError>(IsNull::No),
{
}

/// A value in text format never decodes, whatever its bytes are, and the
/// failure always carries the same message.
pub proof fn lemma_text_format_is_rejected(bytes: Seq<u8>, r: Result<Geometry, GeometryError>)
    requires
        decoded_as(PgValueFormat::Text, bytes, r),
    ensures
        r is Err,
        r->Err_0 == GeometryError::UnsupportedFormat,
        r->Err_0.spec_message() == "Failed to parse WKT geometry"@,
{
}

/// Encoding a geometry and decoding, in binary format, the bytes that the
/// call added to the buffer goes through the codec's writer and reader and
/// through nothing else: the bytes added are the writer's, and the decode
/// ends as the reader does on them.
///
/// Whether the reader then gives back the geometry that was written is up to
/// the codec; nothing is claimed about that here.
pub proof fn lemma_round_trip_is_the_codecs(
    g: Geometry,
    before: Seq<u8>,
    after: Seq<u8>,
    encoded: Result<IsNull, GeometryError>,
    decoded: Result<Geometry, GeometryError>,
)
    requires
        encoded_as(ewkb_written(g), before, after, encoded),
        encoded is Ok,
        decoded_as(PgValueFormat::Binary, after.skip(before.len() as int), decoded),
    ensures
        ewkb_written(g) is Ok,
        after.skip(before.len() as int) == ewkb_written(g)->Ok_0,
        parsed_as(ewkb_parsed(ewkb_written(g)->Ok_0), decoded),
{
    let bytes = ewkb_written(g)->Ok_0;
    assert((before + bytes).skip(before.len() as int) =~= bytes);
}

/// Round trip: where the codec reads a geometry back from its own bytes,
/// encoding it and decoding, in binary format, the bytes that the call added
/// to the buffer gives the geometry again.
pub proof fn lemma_round_trip(
    g: Geometry,
    before: Seq<u8>,
    after: Seq<u8>,
    encoded: Result<IsNull, GeometryError>,
    decoded: Result<Geometry, GeometryError>,
)
    requires
        codec_reads_back(g),
        encoded_as(ewkb_written(g), before, after, encoded),
        decoded_as(PgValueFormat::Binary, after.skip(before.len() as int), decoded),
    ensures
        encoded == Ok::<IsNull, GeometryError>(IsNull::No),
        decoded == Ok::<Geometry, GeometryError>(g),
{
    lemma_round_trip_is_the_codecs(g, before, after, encoded, decoded);
}

} // verus!
