//! A type adapter that binds PostGIS geometry values to a PostgreSQL driver's
//! pluggable type system. Geometry values travel as EWKB; the byte layout is
//! the `postgis` crate's business, and this crate decides everything around
//! it: catalog names, wire-format selection, buffer handling and errors.

pub mod arguments;
pub mod codec;
pub mod error;
pub mod geometry;
pub mod text;
pub mod type_info;
pub mod value;

pub use arguments::{IsNull, PgArgumentBuffer};
pub use codec::Geometry;
pub use error::GeometryError;
pub use geometry::{finish_decode, finish_encode, size_hint_for, GeometryKind};
pub use type_info::PgTypeInfo;
pub use value::{PgValueFormat, PgValueRef};
