//! The echo service: what the accept loop does with each connection that
//! arrives, and what a connection does with each completed read and write.

use crate::sys::{OsError, Syscall};
use crate::tcp_listener::TcpStream;
use vstd::prelude::*;

verus! {

/// The length of the buffer a connection reads into.
pub const BUFFER_SIZE: usize = 1024;

/// What happened to a connection since its last action.
#[derive(Debug, PartialEq, Eq)]
pub enum ClientEvent {
    /// The connection was accepted.
    Connected,
    /// The read completed with this result, into this buffer.
    Read(Result<usize, OsError>, Vec<u8>),
    /// The write of these bytes completed with this result.
    Written(Result<usize, OsError>, Vec<u8>),
}

/// What a connection does next.
#[derive(Debug, PartialEq, Eq)]
pub enum ClientAction {
    /// Read once, into a buffer of `len` bytes.
    Read { len: usize },
    /// Write `data` once.
    Write { data: Vec<u8> },
    /// The connection is over, with this result: give the stream up and
    /// make the call `close`, which closes its descriptor.
    Finish { close: Syscall, result: Result<(), OsError> },
}

/// What the accept loop does after an accept completed.
#[derive(Debug, PartialEq, Eq)]
pub enum Accepted {
    /// Spawn a task that serves this connection, then accept again.
    Spawn(TcpStream),
    /// The loop is over, with this result.
    Stop(Result<(), OsError>),
}

/// The bytes a connection sends back for a read of `n` bytes into `buf`:
/// the first `n` bytes, in order.
pub open spec fn echo(buf: Seq<u8>, n: usize) -> Seq<u8> {
    buf.take(n as int)
}

/// What is still to be written of `offered` after a write that took `k`
/// bytes: the bytes behind the first `k`, and nothing if the write took
/// them all.
pub open spec fn unwritten(offered: Seq<u8>, k: usize) -> Seq<u8> {
    if k < offered.len() {
        offered.skip(k as int)
    } else {
        Seq::empty()
    }
}

/// What a write of `offered` that reported `k` bytes put on the wire: the
/// first `k` bytes, or all of them.
pub open spec fn taken(offered: Seq<u8>, k: usize) -> Seq<u8> {
    if k < offered.len() {
        offered.take(k as int)
    } else {
        offered
    }
}

/// What is still to be written of `offered` after writes that took
/// `counts` bytes, one after the other, each offered what the one before
/// left.
pub open spec fn unwritten_after(offered: Seq<u8>, counts: Seq<usize>) -> Seq<u8>
    decreases counts.len(),
{
    if counts.len() == 0 {
        offered
    } else {
        unwritten(unwritten_after(offered, counts.drop_last()), counts.last())
    }
}

/// What the writes that took `counts` bytes, one after the other, put on
/// the wire.
pub open spec fn written_after(offered: Seq<u8>, counts: Seq<usize>) -> Seq<u8>
    decreases counts.len(),
{
    if counts.len() == 0 {
        Seq::empty()
    } else {
        written_after(offered, counts.drop_last()) + taken(
            unwritten_after(offered, counts.drop_last()),
            counts.last(),
        )
    }
}

/// The call that closes the descriptor of `stream`.
pub open spec fn close_of(stream: &TcpStream) -> Syscall {
    Syscall::Close { fd: stream.0 }
}

/// The next action of the connection on `stream`. It reads; a read of no
/// bytes ends the connection, and a read of `n` bytes is followed by a
/// write of exactly those bytes. A write that took fewer bytes than it was
/// offered is followed by a write of the rest; after a write that took them
/// all the connection reads again. The first error of a read or a write
/// ends the connection with that error. A connection that ends closes its
/// stream.
pub fn handle_client(stream: &TcpStream, event: ClientEvent) -> (action: ClientAction)
    requires
        event matches ClientEvent::Read(Ok(n), buf) ==> n <= buf@.len(),
    ensures
        match event {
            ClientEvent::Connected => action == (ClientAction::Read { len: BUFFER_SIZE }),
            ClientEvent::Read(Ok(n), buf) => if n == 0 {
                action == (ClientAction::Finish { close: close_of(stream), result: Ok(()) })
            } else {
                action matches ClientAction::Write { data } && data@ == echo(buf@, n)
            },
            ClientEvent::Read(Err(e), _) => action == (ClientAction::Finish {
                close: close_of(stream),
                result: Err(e),
            }),
            ClientEvent::Written(Ok(k), offered) => if k < offered@.len() {
                action matches ClientAction::Write { data } && data@ == offered@.skip(k as int)
            } else {
                action == (ClientAction::Read { len: BUFFER_SIZE })
            },
            ClientEvent::Written(Err(e), _) => action == (ClientAction::Finish {
                close: close_of(stream),
                result: Err(e),
            }),
        },
{
    match event {
        ClientEvent::Connected => ClientAction::Read { len: BUFFER_SIZE },
        ClientEvent::Read(Ok(n), buf) => {
            if n == 0 {
                ClientAction::Finish { close: Syscall::Close { fd: stream.0 }, result: Ok(()) }
            } else {
                let mut data = buf;
                data.truncate(n);
                ClientAction::Write { data }
            }
        },
        ClientEvent::Read(Err(e), _) => ClientAction::Finish {
            close: Syscall::Close { fd: stream.0 },
            result: Err(e),
        },
        ClientEvent::Written(Ok(k), offered) => {
            if k < offered.len() {
                let mut head = offered;
                let data = head.split_off(k);
                assert(data@ =~= offered@.skip(k as int));
                ClientAction::Write { data }
            } else {
                ClientAction::Read { len: BUFFER_SIZE }
            }
        },
        ClientEvent::Written(Err(e), _) => ClientAction::Finish {
            close: Syscall::Close { fd: stream.0 },
            result: Err(e),
        },
    }
}

/// The next action of the accept loop. Every connection that arrives gets a
/// task of its own; an error of the listener ends the loop, and with it the
/// server, with that error; the end of the connections ends it without one.
pub fn accept_loop(accepted: Option<Result<TcpStream, OsError>>) -> (action: Accepted)
    ensures
        match accepted {
            Some(Ok(stream)) => action == Accepted::Spawn(stream),
            Some(Err(e)) => action == Accepted::Stop(Err(e)),
            None => action == Accepted::Stop(Ok(())),
        },
{
    match accepted {
        Some(Ok(stream)) => Accepted::Spawn(stream),
        Some(Err(e)) => Accepted::Stop(Err(e)),
        None => Accepted::Stop(Ok(())),
    }
}

/// What comes back is what was sent: the echoed bytes are as many as were
/// read, and byte `i` of them is byte `i` of the buffer.
pub proof fn lemma_echo_is_verbatim(buf: Seq<u8>, n: usize)
    requires
        n <= buf.len(),
    ensures
        echo(buf, n).len() == n,
        forall|i: int| 0 <= i < n ==> echo(buf, n)[i] == buf[i],
        n == buf.len() ==> echo(buf, n) == buf,
{
}

/// Short writes lose nothing. However the writes split the bytes that were
/// offered, what they put on the wire followed by what is still to be
/// written is what was offered, byte for byte; and the connection reads
/// again only when nothing is left.
pub proof fn lemma_short_writes_lose_nothing(offered: Seq<u8>, counts: Seq<usize>)
    ensures
        written_after(offered, counts) + unwritten_after(offered, counts) == offered,
        unwritten_after(offered, counts).len() == 0 ==> written_after(offered, counts) == offered,
    decreases counts.len(),
{
    if counts.len() > 0 {
        lemma_short_writes_lose_nothing(offered, counts.drop_last());
        let before = unwritten_after(offered, counts.drop_last());
        let k = counts.last();
        assert(taken(before, k) + unwritten(before, k) =~= before);
        assert(written_after(offered, counts) + unwritten_after(offered, counts)
            =~= written_after(offered, counts.drop_last()) + before);
    } else {
        assert(written_after(offered, counts) + unwritten_after(offered, counts) =~= offered);
    }
    if unwritten_after(offered, counts).len() == 0 {
        assert(written_after(offered, counts) + unwritten_after(offered, counts)
            =~= written_after(offered, counts));
    }
}

} // verus!
