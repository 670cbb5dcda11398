//! The first five bytes of a serialized PSBT.

use vstd::prelude::*;
use crate::error::{Error, ErrorView};

verus! {

/// The byte that separates the magic bytes from the global map.
pub const SEPARATOR: u8 = 0xff;

/// The magic bytes: the ASCII for "psbt".
pub open spec fn magic() -> Seq<u8> {
    seq![0x70u8, 0x73u8, 0x62u8, 0x74u8]
}

/// Whether `stream` begins with the magic bytes.
pub open spec fn has_magic(stream: Seq<u8>) -> bool {
    stream.len() >= 4 && stream.take(4) == magic()
}

/// Whether the byte of `stream` that follows the first four is the
/// separator. A stream of four bytes or fewer has no such byte.
pub open spec fn has_separator(stream: Seq<u8>) -> bool {
    stream.len() >= 5 && stream[4] == SEPARATOR
}

/// Accepts the streams that begin with the magic bytes.
pub fn check_magic(stream: &[u8]) -> (checked: Result<(), Error>)
    ensures
        has_magic(stream@) ==> checked is Ok,
        !has_magic(stream@) ==> (checked matches Err(e) && e@ == ErrorView::InvalidMagic),
{
    if stream.len() >= 4 && stream[0] == 0x70 && stream[1] == 0x73 && stream[2] == 0x62
        && stream[3] == 0x74 {
        assert(stream@.take(4) =~= magic());
        Ok(())
    } else {
        Err(Error::InvalidMagic)
    }
}

/// Accepts the separator byte and no other.
pub fn check_separator(byte: u8) -> (checked: Result<(), Error>)
    ensures
        byte == SEPARATOR ==> checked is Ok,
        byte != SEPARATOR ==> (checked matches Err(e) && e@ == ErrorView::InvalidSeparator),
{
    if byte == SEPARATOR {
        Ok(())
    } else {
        Err(Error::InvalidSeparator)
    }
}

/// Accepts the streams that begin with the magic bytes and the separator.
///
/// The magic bytes are looked at first: a stream that lacks them is refused
/// for that, whatever follows. A stream that ends after the magic bytes is
/// refused for its separator.
pub fn check_header(stream: &[u8]) -> (checked: Result<(), Error>)
    ensures
        !has_magic(stream@) ==> (checked matches Err(e) && e@ == ErrorView::InvalidMagic),
        has_magic(stream@) && !has_separator(stream@) ==> (checked matches Err(e) && e@
            == ErrorView::InvalidSeparator),
        has_magic(stream@) && has_separator(stream@) ==> checked is Ok,
{
    match check_magic(stream) {
        Ok(()) => {},
        Err(e) => {
            return Err(e);
        },
    }
    if stream.len() < 5 {
        return Err(Error::InvalidSeparator);
    }
    check_separator(stream[4])
}

} // verus!
