use vstd::prelude::*;
use crate::error::{Error, ErrorKind};

verus! {

#[verifier::external_type_specification]
#[verifier::external_body]
pub struct ExBytes(bytes::Bytes);

/// The bytes that a `bytes::Bytes` buffer holds.
pub uninterp spec fn bytes_content(b: bytes::Bytes) -> Seq<u8>;

/// Relies on bytes::Bytes::len: the number of bytes in the buffer.
pub assume_specification[ bytes::Bytes::len ](b: &bytes::Bytes) -> (r: usize)
    ensures
        r == bytes_content(*b).len(),
;

/// Relies on `<[u8]>::to_vec` through bytes::Bytes's `Deref`: a copy of the
/// buffer's bytes.
#[verifier::external_body]
fn bytes_to_vec(b: &bytes::Bytes) -> (r: Vec<u8>)
    ensures
        r@ == bytes_content(*b),
{
    b.to_vec()
}

/// Frame type of a DATAGRAM frame that carries an explicit length.
pub const DATAGRAM_FRAME_TYPE: u64 = 0x31;

/// Number of bytes of the variable-length integer that encodes `v`.
pub open spec fn varint_size(v: int) -> int {
    if v < 0x40 {
        1
    } else if v < 0x4000 {
        2
    } else if v < 0x4000_0000 {
        4
    } else {
        8
    }
}

/// Encoded size of a DATAGRAM frame whose payload has `len` bytes: the type
/// byte, the length field and the payload.
pub open spec fn frame_size(len: int) -> int {
    1 + varint_size(len) + len
}

/// Header of a DATAGRAM frame.
#[derive(Clone, Copy, Debug, PartialEq, Eq, Structural)]
pub struct DatagramFrame {
    /// Length of the payload in bytes.
    pub length: u64,
}

fn frame_size_of(len: usize) -> (r: u128)
    ensures
        r == frame_size(len as int),
{
    let l = len as u128;
    if l < 0x40 {
        2 + l
    } else if l < 0x4000 {
        3 + l
    } else if l < 0x4000_0000 {
        5 + l
    } else {
        9 + l
    }
}

/// Application handle for reading received datagrams, with the largest
/// payload that the peer may send.
#[derive(Clone, Copy, Debug, PartialEq, Eq, Structural)]
pub struct DatagramReader {
    pub max_datagram_frame_size: u64,
}

/// Application handle for sending datagrams, with the largest payload that
/// may be sent to the peer.
#[derive(Clone, Copy, Debug, PartialEq, Eq, Structural)]
pub struct DatagramWriter {
    pub max_datagram_frame_size: u64,
}

/// The state of a datagram flow: both negotiated sizes, the received payloads
/// waiting for the application, the payloads waiting to be sent, and the
/// connection error once one has occurred.
#[derive(Debug)]
pub struct RawDatagramFlow {
    pub local_max_datagram_frame_size: u64,
    pub remote_max_datagram_frame_size: u64,
    pub incoming: Vec<Vec<u8>>,
    pub outgoing: Vec<Vec<u8>>,
    pub error: Option<Error>,
}

impl RawDatagramFlow {
    /// A flow with the given limits, empty queues and no error.
    pub fn new(local_max_datagram_frame_size: u64, remote_max_datagram_frame_size: u64) -> (r:
        RawDatagramFlow)
        ensures
            r.local_max_datagram_frame_size == local_max_datagram_frame_size,
            r.remote_max_datagram_frame_size == remote_max_datagram_frame_size,
            r.incoming@.len() == 0,
            r.outgoing@.len() == 0,
            r.error is None,
    {
        RawDatagramFlow {
            local_max_datagram_frame_size,
            remote_max_datagram_frame_size,
            incoming: Vec::new(),
            outgoing: Vec::new(),
            error: None,
        }
    }
}

/// The flow after a connection error: the first error is kept.
pub open spec fn flow_after_error(f: RawDatagramFlow, error: Error) -> RawDatagramFlow {
    if f.error is Some {
        f
    } else {
        RawDatagramFlow { error: Some(error), ..f }
    }
}

/// Whether the oldest queued datagram may be sent now: its frame fits in the
/// `limit` bytes left in the packet and its payload within the peer's limit.
pub open spec fn can_send_next(f: RawDatagramFlow, limit: int) -> bool {
    &&& f.error is None
    &&& f.outgoing@.len() > 0
    &&& frame_size(f.outgoing@[0]@.len() as int) <= limit
    &&& f.outgoing@[0]@.len() <= f.remote_max_datagram_frame_size
}

/// The datagram flow of a connection.
#[derive(Debug)]
pub struct DatagramFlow {
    pub raw_flow: RawDatagramFlow,
}

impl DatagramFlow {
    /// What `reader` returns.
    pub open spec fn spec_reader(self) -> Result<DatagramReader, Error> {
        match self.raw_flow.error {
            Some(e) => Err(e),
            None => Ok(
                DatagramReader {
                    max_datagram_frame_size: self.raw_flow.local_max_datagram_frame_size,
                },
            ),
        }
    }

    /// What `writer` returns.
    pub open spec fn spec_writer(self) -> Result<DatagramWriter, Error> {
        match self.raw_flow.error {
            Some(e) => Err(e),
            None => Ok(
                DatagramWriter {
                    max_datagram_frame_size: self.raw_flow.remote_max_datagram_frame_size,
                },
            ),
        }
    }

    /// A flow with the given receive and send limits, empty and error free.
    pub fn new(local_max_datagram_frame_size: u64, remote_max_datagram_frame_size: u64) -> (r:
        DatagramFlow)
        ensures
            r.raw_flow.local_max_datagram_frame_size == local_max_datagram_frame_size,
            r.raw_flow.remote_max_datagram_frame_size == remote_max_datagram_frame_size,
            r.raw_flow.incoming@.len() == 0,
            r.raw_flow.outgoing@.len() == 0,
            r.raw_flow.error is None,
    {
        DatagramFlow {
            raw_flow: RawDatagramFlow::new(
                local_max_datagram_frame_size,
                remote_max_datagram_frame_size,
            ),
        }
    }

    /// Raises the largest frame that may be sent. A smaller value than the
    /// current one is a protocol violation and changes nothing.
    pub fn update_remote_max_datagram_frame_size(&mut self, new_size: u64) -> (r: Result<
        (),
        Error,
    >)
        ensures
            new_size < old(self).raw_flow.remote_max_datagram_frame_size ==> {
                &&& r is Err
                &&& r->Err_0.kind == ErrorKind::Transport
                &&& r->Err_0.code == crate::error::PROTOCOL_VIOLATION
                &&& *final(self) == *old(self)
            },
            new_size >= old(self).raw_flow.remote_max_datagram_frame_size ==> {
                &&& r is Ok
                &&& final(self).raw_flow == (RawDatagramFlow {
                    remote_max_datagram_frame_size: new_size,
                    ..old(self).raw_flow
                })
            },
    {
        if new_size < self.raw_flow.remote_max_datagram_frame_size {
            return Err(
                Error::protocol_violation(
                    DATAGRAM_FRAME_TYPE,
                    "max_datagram_frame_size must not decrease".to_string(),
                ),
            );
        }
        self.raw_flow.remote_max_datagram_frame_size = new_size;
        Ok(())
    }
    /// Takes the oldest datagram waiting to be sent, if the flow has no error
    /// its frame fits in `limit` (what is left of the packet) and its payload
    /// is within the peer's limit. Its payload is appended to `buf`, `limit`
    /// shrinks by the frame's size, and the frame header and payload length
    /// are returned. Otherwise nothing changes.
    pub fn try_read_datagram(&mut self, limit: &mut usize, buf: &mut Vec<u8>) -> (r: Option<
        (DatagramFrame, usize),
    >)
        ensures
            can_send_next(old(self).raw_flow, *old(limit) as int) ==> {
                let d = old(self).raw_flow.outgoing@[0]@;
                &&& r == Some((DatagramFrame { length: d.len() as u64 }, d.len() as usize))
                &&& final(buf)@ == old(buf)@ + d
                &&& *final(limit) == *old(limit) - frame_size(d.len() as int)
                &&& final(self).raw_flow == (RawDatagramFlow {
                    outgoing: final(self).raw_flow.outgoing,
                    ..old(self).raw_flow
                })
                &&& final(self).raw_flow.outgoing@ == old(self).raw_flow.outgoing@.drop_first()
            },
            !can_send_next(old(self).raw_flow, *old(limit) as int) ==> {
                &&& r is None
                &&& *final(self) == *old(self)
                &&& *final(limit) == *old(limit)
                &&& final(buf)@ == old(buf)@
            },
    {
        if self.raw_flow.error.is_some() || self.raw_flow.outgoing.len() == 0 {
            return None;
        }
        let n = self.raw_flow.outgoing[0].len();
        let size = frame_size_of(n);
        if size > *limit as u128 || n as u128 > self.raw_flow.remote_max_datagram_frame_size as u128 {
            return None;
        }
        let data = self.raw_flow.outgoing.remove(0);
        let mut i: usize = 0;
        while i < data.len()
            invariant
                i <= data@.len(),
                buf@ == old(buf)@ + data@.subrange(0, i as int),
            decreases data@.len() - i,
        {
            buf.push(data[i]);
            i = i + 1;
        }
        assert(data@.subrange(0, data@.len() as int) == data@);
        *limit = *limit - size as usize;
        Some((DatagramFrame { length: n as u64 }, n))
    }

    /// Takes a received DATAGRAM frame; only the size of its payload `body`
    /// matters here. After a connection error the payload is refused with
    /// that error; a payload larger than the local limit is a protocol
    /// violation; otherwise the payload waits for the application.
    pub fn recv_datagram(&mut self, _frame: DatagramFrame, body: bytes::Bytes) -> (r: Result<
        (),
        Error,
    >)
        ensures
            old(self).raw_flow.error is Some ==> {
                &&& r == Err::<(), Error>(old(self).raw_flow.error->Some_0)
                &&& *final(self) == *old(self)
            },
            old(self).raw_flow.error is None && bytes_content(body).len()
                > old(self).raw_flow.local_max_datagram_frame_size ==> {
                &&& r is Err
                &&& r->Err_0.kind == ErrorKind::Transport
                &&& r->Err_0.code == crate::error::PROTOCOL_VIOLATION
                &&& *final(self) == *old(self)
            },
            old(self).raw_flow.error is None && bytes_content(body).len()
                <= old(self).raw_flow.local_max_datagram_frame_size ==> {
                &&& r is Ok
                &&& final(self).raw_flow == (RawDatagramFlow {
                    incoming: final(self).raw_flow.incoming,
                    ..old(self).raw_flow
                })
                &&& final(self).raw_flow.incoming@.len() == old(self).raw_flow.incoming@.len() + 1
                &&& final(self).raw_flow.incoming@.drop_last() == old(self).raw_flow.incoming@
                &&& final(self).raw_flow.incoming@.last()@ == bytes_content(body)
            },
    {
        if let Some(e) = &self.raw_flow.error {
            return Err(e.duplicate());
        }
        let n = body.len();
        if n as u128 > self.raw_flow.local_max_datagram_frame_size as u128 {
            return Err(
                Error::protocol_violation(
                    DATAGRAM_FRAME_TYPE,
                    "datagram frame exceeds max_datagram_frame_size".to_string(),
                ),
            );
        }
        let data = bytes_to_vec(&body);
        self.raw_flow.incoming.push(data);
        assert(self.raw_flow.incoming@.drop_last() == old(self).raw_flow.incoming@);
        Ok(())
    }

    /// Handles for the application: a reader bounded by the local limit and
    /// a writer bounded by the peer's limit.
    pub fn rw(&self) -> (r: (DatagramReader, DatagramWriter))
        ensures
            r.0.max_datagram_frame_size == self.raw_flow.local_max_datagram_frame_size,
            r.1.max_datagram_frame_size == self.raw_flow.remote_max_datagram_frame_size,
    {
        (
            DatagramReader {
                max_datagram_frame_size: self.raw_flow.local_max_datagram_frame_size,
            },
            DatagramWriter {
                max_datagram_frame_size: self.raw_flow.remote_max_datagram_frame_size,
            },
        )
    }

    /// A reader handle, or the connection error if one has occurred.
    pub fn reader(&self) -> (r: Result<DatagramReader, Error>)
        ensures
            self.raw_flow.error is Some ==> r == Err::<DatagramReader, Error>(
                self.raw_flow.error->Some_0,
            ),
            self.raw_flow.error is None ==> r == Ok::<DatagramReader, Error>(
                DatagramReader {
                    max_datagram_frame_size: self.raw_flow.local_max_datagram_frame_size,
                },
            ),
    {
        match &self.raw_flow.error {
            Some(e) => Err(e.duplicate()),
            None => Ok(
                DatagramReader {
                    max_datagram_frame_size: self.raw_flow.local_max_datagram_frame_size,
                },
            ),
        }
    }

    /// A writer handle, or the connection error if one has occurred.
    pub fn writer(&self) -> (r: Result<DatagramWriter, Error>)
        ensures
            self.raw_flow.error is Some ==> r == Err::<DatagramWriter, Error>(
                self.raw_flow.error->Some_0,
            ),
            self.raw_flow.error is None ==> r == Ok::<DatagramWriter, Error>(
                DatagramWriter {
                    max_datagram_frame_size: self.raw_flow.remote_max_datagram_frame_size,
                },
            ),
    {
        match &self.raw_flow.error {
            Some(e) => Err(e.duplicate()),
            None => Ok(
                DatagramWriter {
                    max_datagram_frame_size: self.raw_flow.remote_max_datagram_frame_size,
                },
            ),
        }
    }

    /// The oldest received payload, `None` when none waits, or the
    /// connection error if one has occurred.
    pub fn read_datagram(&mut self) -> (r: Result<Option<Vec<u8>>, Error>)
        ensures
            old(self).raw_flow.error is Some ==> {
                &&& r == Err::<Option<Vec<u8>>, Error>(old(self).raw_flow.error->Some_0)
                &&& *final(self) == *old(self)
            },
            old(self).raw_flow.error is None && old(self).raw_flow.incoming@.len() == 0 ==> {
                &&& r == Ok::<Option<Vec<u8>>, Error>(None)
                &&& *final(self) == *old(self)
            },
            old(self).raw_flow.error is None && old(self).raw_flow.incoming@.len() > 0 ==> {
                &&& r is Ok && r->Ok_0 is Some
                &&& r->Ok_0->Some_0@ == old(self).raw_flow.incoming@[0]@
                &&& final(self).raw_flow == (RawDatagramFlow {
                    incoming: final(self).raw_flow.incoming,
                    ..old(self).raw_flow
                })
                &&& final(self).raw_flow.incoming@ == old(self).raw_flow.incoming@.drop_first()
            },
    {
        if let Some(e) = &self.raw_flow.error {
            return Err(e.duplicate());
        }
        if self.raw_flow.incoming.len() == 0 {
            return Ok(None);
        }
        let data = self.raw_flow.incoming.remove(0);
        Ok(Some(data))
    }

    /// Queues a payload to be sent, or returns the connection error if one
    /// has occurred.
    pub fn write_datagram(&mut self, data: Vec<u8>) -> (r: Result<(), Error>)
        ensures
            old(self).raw_flow.error is Some ==> {
                &&& r == Err::<(), Error>(old(self).raw_flow.error->Some_0)
                &&& *final(self) == *old(self)
            },
            old(self).raw_flow.error is None ==> {
                &&& r is Ok
                &&& final(self).raw_flow == (RawDatagramFlow {
                    outgoing: final(self).raw_flow.outgoing,
                    ..old(self).raw_flow
                })
                &&& final(self).raw_flow.outgoing@ == old(self).raw_flow.outgoing@.push(data)
            },
    {
        if let Some(e) = &self.raw_flow.error {
            return Err(e.duplicate());
        }
        self.raw_flow.outgoing.push(data);
        Ok(())
    }

    /// Records a connection error. Every later read or write fails with the
    /// first error recorded; a later error is ignored.
    pub fn on_conn_error(&mut self, error: &Error)
        ensures
            final(self).raw_flow == flow_after_error(old(self).raw_flow, *error),
    {
        if self.raw_flow.error.is_none() {
            self.raw_flow.error = Some(error.duplicate());
        }
    }
}

} // verus!
