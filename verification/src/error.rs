//! Failure values of construction and of decoding.

use vstd::prelude::*;

verus! {

/// What can go wrong while an image is opened or a record is decoded.
#[derive(Clone, Copy, Debug, PartialEq, Eq, Structural)]
pub enum ElfError {
    /// The identification bytes are not those of a supported ELF image,
    /// a symbol table names a string table that does not exist, or the
    /// string table does not hold text.
    FormatError,
    /// A declared offset, size or count reaches past the end of the buffer.
    TruncatedError,
    /// A symbol's name offset does not lie inside its string table.
    InvalidOffset,
}

} // verus!
