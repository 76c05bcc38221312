//! Characters of a text together with their positions.
//!
//! Similar to the standard library's `char_indices`, but instead of only
//! producing the start byte offset of each character, the iterator returned by
//! [`CharPositionsExt::char_positions`] can produce any combination of line
//! number, column number, start byte, and end byte position.
//!
//! The maximal record is [`LineColByteRange`]; every other shape
//! ([`LineCol`], [`Line`], [`Col`], [`ByteStart`], [`ByteEnd`], [`ByteRange`],
//! [`LineColByte`], `usize`, and tuples of these) is a projection of it,
//! chosen through the type parameter of `char_positions`.

pub mod boundary;
pub mod laws;
pub mod model;
pub mod records;
pub mod tracker;

pub use tracker::CharPositions;
pub use tracker::CharPositionsExt;
pub use records::Project;
pub use records::Line;
pub use records::Col;
pub use records::ByteStart;
pub use records::ByteEnd;
pub use records::ByteRange;
pub use records::LineCol;
pub use records::LineColByte;
pub use records::LineColByteRange;

