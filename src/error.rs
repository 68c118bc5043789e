use vstd::prelude::*;

verus! {

/// Protocol-level error kinds reported to the client on an `ERR` line.
#[derive(Debug, Clone, Copy, PartialEq, Eq, Structural)]
pub enum AssuanError {
    UnknownIPCCommand,
    NotImplemented,
}

/// The fixed source tag placed in the top bits of every encoded status.
pub const SOURCE_BITS: u32 = 0b1000000;

/// The reserved bits between the source tag and the error code.
pub const RESERVED_BITS: u32 = 0b0000000;

/// Human-readable text of an error kind.
pub open spec fn description_text(e: AssuanError) -> Seq<char> {
    match e {
        AssuanError::UnknownIPCCommand => "Unknown IPC command"@,
        AssuanError::NotImplemented => "Not implemented"@,
    }
}

/// Protocol-assigned numeric code of an error kind.
pub open spec fn error_code(e: AssuanError) -> u32 {
    match e {
        AssuanError::UnknownIPCCommand => 275,
        AssuanError::NotImplemented => 69,
    }
}

/// Literal naming the origin of every error of this library.
pub open spec fn source_text() -> Seq<char> {
    "<User defined source 1>"@
}

/// Packing of a 16-bit code under the source tag: `(source << 23) | (reserved << 16) | code`.
pub open spec fn encoded_status(code: u32) -> u32 {
    (SOURCE_BITS << 23u32) | (RESERVED_BITS << 16u32) | code
}

impl AssuanError {
    pub fn description(&self) -> (r: &'static str)
        ensures
            r@ == description_text(*self),
    {
        match self {
            AssuanError::UnknownIPCCommand => "Unknown IPC command",
            AssuanError::NotImplemented => "Not implemented",
        }
    }

    pub fn code(&self) -> (r: u32)
        ensures
            r == error_code(*self),
            r < 0x10000,
    {
        match self {
            AssuanError::UnknownIPCCommand => 275,
            AssuanError::NotImplemented => 69,
        }
    }

    pub fn source(&self) -> (r: &'static str)
        ensures
            r@ == source_text(),
    {
        "<User defined source 1>"
    }

    pub fn assuan_code(&self) -> (r: u32)
        ensures
            r == encoded_status(error_code(*self)),
    {
        let source_bits: u32 = SOURCE_BITS;
        let reserved_bits: u32 = RESERVED_BITS;
        let error_code: u32 = self.code();
        (source_bits << 23u32) | (reserved_bits << 16u32) | error_code
    }
}

/// The encoded statuses of the existing error kinds are frozen wire constants.
pub proof fn lemma_frozen_status_codes()
    ensures
        encoded_status(error_code(AssuanError::UnknownIPCCommand)) == 536871187,
        encoded_status(error_code(AssuanError::NotImplemented)) == 536870981,
{
    assert((0b1000000u32 << 23u32) | (0u32 << 16u32) | 275u32 == 536871187u32) by (bit_vector);
    assert((0b1000000u32 << 23u32) | (0u32 << 16u32) | 69u32 == 536870981u32) by (bit_vector);
}

} // verus!
