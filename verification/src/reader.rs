//! A byte source held in memory, with a cursor.

use vstd::prelude::*;
use crate::codec::{
    decode_bytes, decode_i64, decode_string, decode_string_for_key, decode_u32, decode_u64,
    decode_u64_seq, decode_u8, spec_decode_bytes, spec_decode_i64, spec_decode_string,
    spec_decode_string_for_key, spec_decode_u32, spec_decode_u64, spec_decode_u64_seq,
    spec_decode_u8,
};
use crate::error::{ZffError, ZffErrorKind};

verus! {

/// Bytes and a reading position in them. The position may lie behind the
/// last byte: every read there fails.
#[derive(Debug, Clone, PartialEq, Eq)]
pub struct Reader {
    pub data: Vec<u8>,
    pub position: u64,
}

/// What a read from a reader did, against what the format says of the bytes
/// at its position: on success the value is returned and the cursor stands
/// behind it, on failure the reader is as it was.
pub open spec fn reads<T: View>(
    before: Reader,
    after: Reader,
    res: Result<T, ZffError>,
    expected: Result<(T::V, int), ZffErrorKind>,
) -> bool {
    match expected {
        Ok((value, end)) => {
            &&& res matches Ok(v)
            &&& v@ == value
            &&& after.data == before.data
            &&& after.position as int == end
        },
        Err(kind) => {
            &&& res matches Err(e)
            &&& e.kind == kind
            &&& after == before
        },
    }
}

/// An index stands for a position: it is the position where that lies within
/// the data or at its end, and the largest index where the position lies
/// behind the data.
pub open spec fn index_agrees(data: Seq<u8>, position: u64, index: usize) -> bool {
    &&& data.len() <= usize::MAX
    &&& position <= data.len() ==> index == position
    &&& position > data.len() ==> index == usize::MAX
}

/// The index in `data` that stands for a position. Every position behind
/// the data is given as the largest index: no byte can be read at either.
pub fn index_of(data: &[u8], position: u64) -> (index: usize)
    ensures
        index_agrees(data@, position, index),
{
    let length = data.len();
    if position <= length as u64 {
        position as usize
    } else {
        usize::MAX
    }
}

impl Reader {
    /// A reader over `data`, at its first byte.
    pub fn new(data: Vec<u8>) -> (reader: Reader)
        ensures
            reader.data == data,
            reader.position == 0,
    {
        Reader { data, position: 0 }
    }

    /// The position of the cursor.
    pub fn stream_position(&self) -> (position: u64)
        ensures
            position == self.position,
    {
        self.position
    }

    /// Moves the cursor to `position`, counted from the first byte.
    pub fn seek(&mut self, position: u64)
        ensures
            final(self).data == old(self).data,
            final(self).position == position,
    {
        self.position = position;
    }

    /// The bytes of the source.
    pub fn get_ref(&self) -> (data: &Vec<u8>)
        ensures
            *data == self.data,
    {
        &self.data
    }

    /// The position of the cursor as an index.
    pub fn cursor(&self) -> (pos: usize)
        ensures
            index_agrees(self.data@, self.position, pos),
    {
        index_of(self.data.as_slice(), self.position)
    }

    /// Reads one byte at the cursor.
    pub fn decode_u8(&mut self) -> (res: Result<u8, ZffError>)
        ensures
            reads(
                *old(self),
                *final(self),
                res,
                spec_decode_u8(old(self).data@, old(self).position as int),
            ),
    {
        let pos = self.cursor();
        let (value, end) = decode_u8(self.data.as_slice(), pos)?;
        self.position = end as u64;
        Ok(value)
    }

    /// Reads a little-endian `u32` at the cursor.
    pub fn decode_u32(&mut self) -> (res: Result<u32, ZffError>)
        ensures
            reads(
                *old(self),
                *final(self),
                res,
                spec_decode_u32(old(self).data@, old(self).position as int),
            ),
    {
        let pos = self.cursor();
        let (value, end) = decode_u32(self.data.as_slice(), pos)?;
        self.position = end as u64;
        Ok(value)
    }

    /// Reads a little-endian `u64` at the cursor.
    pub fn decode_u64(&mut self) -> (res: Result<u64, ZffError>)
        ensures
            reads(
                *old(self),
                *final(self),
                res,
                spec_decode_u64(old(self).data@, old(self).position as int),
            ),
    {
        let pos = self.cursor();
        let (value, end) = decode_u64(self.data.as_slice(), pos)?;
        self.position = end as u64;
        Ok(value)
    }

    /// Reads a little-endian `i64` at the cursor.
    pub fn decode_i64(&mut self) -> (res: Result<i64, ZffError>)
        ensures
            reads(
                *old(self),
                *final(self),
                res,
                spec_decode_i64(old(self).data@, old(self).position as int),
            ),
    {
        let pos = self.cursor();
        let (value, end) = decode_i64(self.data.as_slice(), pos)?;
        self.position = end as u64;
        Ok(value)
    }

    /// Reads a byte string behind its length at the cursor.
    pub fn decode_bytes(&mut self) -> (res: Result<Vec<u8>, ZffError>)
        ensures
            reads(
                *old(self),
                *final(self),
                res,
                spec_decode_bytes(old(self).data@, old(self).position as int),
            ),
    {
        let pos = self.cursor();
        let (value, end) = decode_bytes(self.data.as_slice(), pos)?;
        self.position = end as u64;
        Ok(value)
    }

    /// Reads a string at the cursor.
    pub fn decode_string(&mut self) -> (res: Result<String, ZffError>)
        ensures
            reads(
                *old(self),
                *final(self),
                res,
                spec_decode_string(old(self).data@, old(self).position as int),
            ),
    {
        let pos = self.cursor();
        let (value, end) = decode_string(self.data.as_slice(), pos)?;
        self.position = end as u64;
        Ok(value)
    }

    /// Reads a sequence of numbers behind its length at the cursor.
    pub fn decode_u64_seq(&mut self) -> (res: Result<Vec<u64>, ZffError>)
        ensures
            reads(
                *old(self),
                *final(self),
                res,
                spec_decode_u64_seq(old(self).data@, old(self).position as int),
            ),
    {
        let pos = self.cursor();
        let (value, end) = decode_u64_seq(self.data.as_slice(), pos)?;
        self.position = end as u64;
        Ok(value)
    }

    /// Reads a tagged string at the cursor. Where the tag is not at the
    /// cursor the error is `HeaderDecoderKeyNotOnPosition`, which tells that
    /// the optional value is absent; the cursor has not moved then.
    pub fn decode_string_for_key(&mut self, key: u32) -> (res: Result<String, ZffError>)
        ensures
            reads(
                *old(self),
                *final(self),
                res,
                spec_decode_string_for_key(old(self).data@, old(self).position as int, key),
            ),
            res matches Err(e) ==> (e.kind == ZffErrorKind::HeaderDecoderKeyNotOnPosition
                ==> *final(self) == *old(self)),
    {
        let pos = self.cursor();
        let (value, end) = decode_string_for_key(self.data.as_slice(), pos, key)?;
        self.position = end as u64;
        Ok(value)
    }
}

} // verus!
