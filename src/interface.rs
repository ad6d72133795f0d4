use vstd::prelude::*;

verus! {

/// What a bus transport offers: parameter writes and reads that start with a
/// command opcode, and raw display-memory streaming.
///
/// Each physical bus (SPI, parallel) has its own implementation. Every
/// operation may fail with the transport's own error, which the command layer
/// passes on unchanged.
///
/// An implementation keeps a model of the calls made on it, `history`: each
/// operation appends one [`Exchange`] that records its arguments, the bytes a
/// read left in its buffer, and its result.
pub trait Interface {
    /// The transport's own error.
    type Error;

    /// Every call made on this transport, oldest first.
    spec fn history(&self) -> History<Self::Error>;

    /// Sends `command` followed by the parameter bytes `data`, as one transaction.
    fn write_parameters(&mut self, command: u8, data: &[u8]) -> (r: Result<(), Self::Error>)
        ensures
            final(self).history() == old(self).history().push(Exchange::write(command, data@, r)),
    ;

    /// Streams raw display-memory bytes, with no opcode in front.
    fn write_memory(&mut self, data: &[u8]) -> (r: Result<(), Self::Error>)
        ensures
            final(self).history() == old(self).history().push(Exchange {
                request: Request::WriteMemory { data: data@ },
                response: Seq::empty(),
                outcome: r,
            }),
    ;

    /// Sends `command`, then fills `data` with the response; the length of
    /// `data` is the number of bytes read.
    fn read_parameters(&mut self, command: u8, data: &mut [u8]) -> (r: Result<(), Self::Error>)
        ensures
            final(data)@.len() == old(data)@.len(),
            final(self).history() == old(self).history().push(Exchange {
                request: Request::ReadParameters { command, width: old(data)@.len() },
                response: final(data)@,
                outcome: r,
            }),
    ;

    /// Streams raw display-memory bytes into `data`.
    fn read_memory(&mut self, data: &mut [u8]) -> (r: Result<(), Self::Error>)
        ensures
            final(data)@.len() == old(data)@.len(),
            final(self).history() == old(self).history().push(Exchange {
                request: Request::ReadMemory { width: old(data)@.len() },
                response: final(data)@,
                outcome: r,
            }),
    ;
}

/// The calls made on a transport, oldest first.
///
/// This is a model for proofs, with no value at run time: an implementation
/// that is not verified still declares `history`, and its body is never run.
pub type History<E> = Seq<Exchange<E>>;

/// One call made on a transport, as the command layer issued it.
pub enum Request {
    /// `write_parameters(command, data)`.
    WriteParameters { command: u8, data: Seq<u8> },
    /// `write_memory(data)`.
    WriteMemory { data: Seq<u8> },
    /// `read_parameters(command, buffer)` with a buffer of `width` bytes.
    ReadParameters { command: u8, width: nat },
    /// `read_memory(buffer)` with a buffer of `width` bytes.
    ReadMemory { width: nat },
}

/// A transport call together with what came back from it: the bytes that a
/// read left in its buffer (empty for a write) and the call's result.
pub struct Exchange<E> {
    pub request: Request,
    pub response: Seq<u8>,
    pub outcome: Result<(), E>,
}

impl<E> Exchange<E> {
    /// A parameter write of `command` and `data` that ended with `outcome`.
    pub open spec fn write(command: u8, data: Seq<u8>, outcome: Result<(), E>) -> Exchange<E> {
        Exchange {
            request: Request::WriteParameters { command, data },
            response: Seq::empty(),
            outcome,
        }
    }
}

} // verus!
