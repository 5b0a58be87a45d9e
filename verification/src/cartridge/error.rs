//! CartridgeError implementation and manipulation.
use crate::cartridge::chunk::ChunkType;
use crate::cartridge::stream::{StreamError, StreamView};
use std::string::FromUtf8Error;
use vstd::prelude::*;

verus! {

/// `std::string::FromUtf8Error`, the error of `String::from_utf8`: carried
/// through as it comes, nothing is read from it.
#[verifier::external_type_specification]
#[verifier::external_body]
pub struct ExFromUtf8Error(FromUtf8Error);

/// The mathematical model of a `CartridgeError`: what went wrong, over plain
/// values.
pub enum Fault {
    /// A chunk tag outside the known ones.
    InvalidChunkType(u8),
    /// A payload length outside the listed lengths of the chunk type.
    InvalidChunkSize(ChunkType, nat, Seq<usize>),
    /// A payload length over the maximum of the chunk type.
    InvalidChunkMaxSize(ChunkType, nat, nat),
    /// A header whose declared size is not the payload length.
    MismatchedChunkSizes(ChunkType, nat, nat),
    /// Text bytes that are not UTF-8.
    FromUtf8,
    /// A failed read or write on the stream.
    Io(StreamError),
}

/// Cartridge errors.
#[derive(Debug)]
pub enum CartridgeError {
    /// Error to represent invalid chunk types.
    InvalidChunkType(u8),
    /// Error to represent invalid chunk sizes.
    InvalidChunkSize(ChunkType, usize, Vec<usize>),
    /// Error to represent invalid chunk max sizes.
    InvalidChunkMaxSize(ChunkType, usize, usize),
    /// Error to represent mismatched chunk sizes.
    MismatchedChunkSizes(ChunkType, usize, usize),
    /// Error to wrap an invalid conversion to UTF8.
    FromUtf8(FromUtf8Error),
    /// Error to wrap a failed read or write on the stream.
    Io(StreamError),
}

impl View for CartridgeError {
    type V = Fault;

    open spec fn view(&self) -> Fault {
        match self {
            CartridgeError::InvalidChunkType(tag) => Fault::InvalidChunkType(*tag),
            CartridgeError::InvalidChunkSize(chunk_type, value, expected) => Fault::InvalidChunkSize(
                *chunk_type,
                *value as nat,
                expected@,
            ),
            CartridgeError::InvalidChunkMaxSize(chunk_type, value, expected) => {
                Fault::InvalidChunkMaxSize(*chunk_type, *value as nat, *expected as nat)
            },
            CartridgeError::MismatchedChunkSizes(chunk_type, header_size, data_size) => {
                Fault::MismatchedChunkSizes(*chunk_type, *header_size as nat, *data_size as nat)
            },
            CartridgeError::FromUtf8(_) => Fault::FromUtf8,
            CartridgeError::Io(error) => Fault::Io(*error),
        }
    }
}

impl CartridgeError {
    /// Creates a `InvalidChunkType` error.
    pub fn new_invalid_chunk_type(chunk_type: u8) -> (error: Self)
        ensures
            error@ == Fault::InvalidChunkType(chunk_type),
    {
        Self::InvalidChunkType(chunk_type)
    }

    /// Creates a `InvalidChunkSize` error.
    pub fn new_invalid_chunk_size(chunk_type: ChunkType, value: usize, expected: Vec<usize>) -> (error:
        Self)
        ensures
            error@ == Fault::InvalidChunkSize(chunk_type, value as nat, expected@),
    {
        Self::InvalidChunkSize(chunk_type, value, expected)
    }

    /// Creates a `InvalidChunkMaxSize` error.
    pub fn new_invalid_chunk_max_size(chunk_type: ChunkType, value: usize, expected: usize) -> (error:
        Self)
        ensures
            error@ == Fault::InvalidChunkMaxSize(chunk_type, value as nat, expected as nat),
    {
        Self::InvalidChunkMaxSize(chunk_type, value, expected)
    }

    /// Creates a `MismatchedChunkSizes` error.
    pub fn new_mismatched_chunk_sizes(
        chunk_type: ChunkType,
        header_size: usize,
        data_size: usize,
    ) -> (error: Self)
        ensures
            error@ == Fault::MismatchedChunkSizes(chunk_type, header_size as nat, data_size as nat),
    {
        Self::MismatchedChunkSizes(chunk_type, header_size, data_size)
    }

    /// Wraps a failed read or write on the stream.
    pub fn new_io(error: StreamError) -> (wrapped: Self)
        ensures
            wrapped@ == Fault::Io(error),
    {
        Self::Io(error)
    }
}

/// Whether `r` is the error that `fault` describes.
pub open spec fn fails_with<T>(r: Result<T, CartridgeError>, fault: Fault) -> bool {
    r matches Err(error) && error@ == fault
}

/// Whether `r` is a value whose model is `value`.
pub open spec fn yields<T: View>(r: Result<T, CartridgeError>, value: T::V) -> bool {
    r matches Ok(found) && found@ == value
}

/// Whether `r` is what `outcome` describes: a value with that model, or that
/// error.
pub open spec fn agrees<T: View>(
    r: Result<T, CartridgeError>,
    outcome: Result<T::V, Fault>,
) -> bool {
    match outcome {
        Ok(value) => yields(r, value),
        Err(fault) => fails_with(r, fault),
    }
}

/// Whether `r` is the error that `fault` describes, or success where there
/// is no fault.
pub open spec fn reports(r: Result<(), CartridgeError>, fault: Option<Fault>) -> bool {
    match fault {
        Some(fault) => fails_with(r, fault),
        None => r is Ok,
    }
}

/// The fault of a write of `count` bytes to a stream, if it has no room for
/// them.
pub open spec fn write_fault(stream: StreamView, count: nat) -> Option<Fault> {
    if stream.accepts(count) {
        None
    } else {
        Some(Fault::Io(StreamError::WriteZero))
    }
}


} // verus!
