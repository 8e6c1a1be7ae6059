//! Parting a stream of bytes into its server-sent events.

use vstd::prelude::*;

use crate::tunnel_request::{extend_body_from_buf, UpstreamSseReadError};

verus! {

/// A line ends at `i`, and the one after it is empty.
pub open spec fn blank_line_after(bytes: Seq<u8>, i: int) -> bool {
    &&& 0 <= i < bytes.len()
    &&& bytes[i] == 10
    &&& {
        ||| i + 1 < bytes.len() && bytes[i + 1] == 10
        ||| i + 2 < bytes.len() && bytes[i + 1] == 13 && bytes[i + 2] == 10
    }
}

/// Where the empty line after `i` ends.
pub open spec fn blank_line_end(bytes: Seq<u8>, i: int) -> int {
    if bytes[i + 1] == 10 {
        i + 2
    } else {
        i + 3
    }
}

/// The first event of the bytes, with the empty line that closes it, has this
/// length.
pub open spec fn first_event(bytes: Seq<u8>, len: int) -> bool {
    exists|i: int| #[trigger]
        blank_line_after(bytes, i) && len == blank_line_end(bytes, i) && forall|j: int|
            0 <= j < i ==> !#[trigger] blank_line_after(bytes, j)
}

/// No event of the bytes is complete.
pub open spec fn no_event(bytes: Seq<u8>) -> bool {
    forall|i: int| !#[trigger] blank_line_after(bytes, i)
}

/// The first event of the bytes, complete or not, is longer than the limit.
pub open spec fn oversized(bytes: Seq<u8>, limit: usize) -> bool {
    ||| no_event(bytes) && bytes.len() > limit
    ||| exists|len: int| #[trigger] first_event(bytes, len) && len > limit
}

/// The length of the first event, where one is complete.
pub fn event_boundary(bytes: &[u8]) -> (len: Option<usize>)
    ensures
        match len {
            Some(len) => first_event(bytes@, len as int) && 2 <= len <= bytes@.len(),
            None => no_event(bytes@),
        },
{
    let mut i: usize = 0;
    while i < bytes.len()
        invariant
            i <= bytes.len(),
            forall|j: int| 0 <= j < i ==> !#[trigger] blank_line_after(bytes@, j),
        decreases bytes.len() - i,
    {
        if bytes[i] == 10 {
            let rest: usize = bytes.len() - i;
            if rest > 1 && bytes[i + 1] == 10 {
                assert(blank_line_after(bytes@, i as int));
                return Some(i + 2);
            }
            if rest > 2 && bytes[i + 1] == 13 && bytes[i + 2] == 10 {
                assert(blank_line_after(bytes@, i as int));
                return Some(i + 3);
            }
        }
        assert(!blank_line_after(bytes@, i as int));
        i += 1;
    }
    None
}

/// The bytes of a stream that are not yet handed on. One event has at most
/// `max_buffer_bytes`.
#[derive(Debug)]
pub struct SseBuffer {
    bytes: Vec<u8>,
    max_buffer_bytes: usize,
}

impl SseBuffer {
    pub closed spec fn bytes(&self) -> Seq<u8> {
        self.bytes@
    }

    pub closed spec fn max_buffer_bytes(&self) -> usize {
        self.max_buffer_bytes
    }

    pub fn new(max_buffer_bytes: usize) -> (buffer: Self)
        ensures
            buffer.bytes() == Seq::<u8>::empty(),
            buffer.max_buffer_bytes() == max_buffer_bytes,
    {
        SseBuffer { bytes: Vec::new(), max_buffer_bytes }
    }

    /// Takes in what has come next.
    pub fn extend(&mut self, chunk: &mut bytes::Bytes)
        ensures
            final(self).bytes() == old(self).bytes() + crate::tunnel_request::bytes_left(*old(chunk)),
            final(self).max_buffer_bytes() == old(self).max_buffer_bytes(),
            crate::tunnel_request::bytes_left(*final(chunk)).len() == 0,
    {
        extend_body_from_buf(&mut self.bytes, chunk);
    }

    /// Hands on the first event, where one is complete. An event beyond the
    /// limit is refused, whether it is complete or not.
    pub fn next_event(&mut self) -> (event: Result<Option<Vec<u8>>, UpstreamSseReadError>)
        ensures
            final(self).max_buffer_bytes() == old(self).max_buffer_bytes(),
            match event {
                Ok(Some(event)) => {
                    &&& first_event(old(self).bytes(), event@.len() as int)
                    &&& event@.len() <= old(self).max_buffer_bytes()
                    &&& old(self).bytes() == event@ + final(self).bytes()
                },
                Ok(None) => {
                    &&& no_event(old(self).bytes())
                    &&& old(self).bytes().len() <= old(self).max_buffer_bytes()
                    &&& final(self).bytes() == old(self).bytes()
                },
                Err(error) => {
                    &&& oversized(old(self).bytes(), old(self).max_buffer_bytes())
                    &&& final(self).bytes() == old(self).bytes()
                    &&& error matches UpstreamSseReadError::BufferLimitExceeded { max_buffer_bytes, buffered_bytes }
                        && max_buffer_bytes == old(self).max_buffer_bytes() && buffered_bytes == old(
                        self,
                    ).bytes().len()
                },
            },
    {
        let buffered_bytes: usize = self.bytes.len();
        let over = UpstreamSseReadError::BufferLimitExceeded {
            max_buffer_bytes: self.max_buffer_bytes,
            buffered_bytes,
        };
        match event_boundary(self.bytes.as_slice()) {
            Some(len) => {
                if len > self.max_buffer_bytes {
                    return Err(over);
                }
                let ghost all = self.bytes@;
                let mut event = self.bytes.split_off(len);
                std::mem::swap(&mut event, &mut self.bytes);
                assert(all =~= event@ + self.bytes@);
                Ok(Some(event))
            },
            None => {
                if buffered_bytes > self.max_buffer_bytes {
                    return Err(over);
                }
                Ok(None)
            },
        }
    }

    /// Hands on what is left once the stream has ended.
    pub fn remainder(self) -> (rest: Vec<u8>)
        ensures
            rest@ == self.bytes(),
    {
        self.bytes
    }
}

} // verus!
