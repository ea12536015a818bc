//! Types for the OASIS Common Alerting Protocol (CAP).
//!
//! The scalar types (timestamps, identifiers, languages, item lists, geospatial shapes,
//! digests, embedded content, key/value maps and references) each carry their own text
//! grammar, stated as spec functions that their parsers and writers are proved against,
//! together with the law that writing and parsing again gives the value back. The three
//! dialects of the standard (`v1dot0`, `v1dot1`, `v1dot2`) are plain records built from
//! them, with total upgrade functions from each dialect to the next, and `protobuf` holds
//! the permissive binary message shapes with their conversions to and from the records.

pub mod text;
pub mod vecs;
pub mod id;
pub mod language;
pub mod delimited_items;
pub mod digest;
pub mod embedded_data;
pub mod datetime;
pub mod geo;
pub mod map;
pub mod references;
pub mod url;
pub mod v1dot0;
pub mod v1dot1;
pub mod v1dot2;
pub mod alert;
pub mod protobuf;

pub use alert::Alert;
pub use datetime::DateTime;
pub use embedded_data::EmbeddedContent;
