//! Decision logic of the hosted backend's background workers.
//!
//! The desktop backend adapts blocking OS sockets to the non-blocking
//! capability contract with two background threads: a datagram worker
//! for peer messaging and a stream worker for the serial link. The
//! threads themselves only move bytes; every decision they take per loop
//! iteration — when to exit, what to forward, what to drop — is a
//! function in this module, verified for every input. The stream
//! worker's four-slot connection ring lives in [`crate::ring`].

use vstd::prelude::*;
use crate::errors::NetworkError;

verus! {

/// First UDP port the datagram worker tries to bind.
pub const UDP_PORT_MIN: u16 = 3110;

/// Last UDP port the datagram worker tries to bind.
pub const UDP_PORT_MAX: u16 = 3117;

/// First TCP port the stream worker tries to bind.
pub const TCP_PORT_MIN: u16 = 3210;

/// Last TCP port the stream worker tries to bind.
pub const TCP_PORT_MAX: u16 = 3217;

/// Largest message the workers carry, in bytes.
pub const MAX_MESSAGE: usize = 64;

/// The candidate ports from `lo` to `hi`, in the order binding tries
/// them.
pub fn ports_in_range(lo: u16, hi: u16) -> (r: Vec<u16>)
    requires
        lo <= hi,
    ensures
        r@.len() == hi - lo + 1,
        forall|i: int| 0 <= i < r@.len() ==> r@[i] == lo + i,
{
    let mut r: Vec<u16> = Vec::new();
    let mut p: u16 = lo;
    while p < hi
        invariant
            lo <= p <= hi,
            r@.len() == p - lo,
            forall|i: int| 0 <= i < r@.len() ==> r@[i] == lo + i,
        decreases hi - p,
    {
        r.push(p);
        p = p + 1;
    }
    r.push(hi);
    r
}

/// The ports the datagram worker tries, in order.
pub fn udp_ports() -> (r: Vec<u16>)
    ensures
        r@.len() == 8,
        forall|i: int| 0 <= i < r@.len() ==> r@[i] == UDP_PORT_MIN + i,
{
    ports_in_range(UDP_PORT_MIN, UDP_PORT_MAX)
}

/// The ports the stream worker tries, in order.
pub fn tcp_ports() -> (r: Vec<u16>)
    ensures
        r@.len() == 8,
        forall|i: int| 0 <= i < r@.len() ==> r@[i] == TCP_PORT_MIN + i,
{
    ports_in_range(TCP_PORT_MIN, TCP_PORT_MAX)
}

/// The advertisement payload every peer listens for.
pub fn hello_message() -> (r: Vec<u8>)
    ensures
        r@ =~= seq![0x48u8, 0x45u8, 0x4cu8, 0x4cu8, 0x4fu8],
{
    let mut r: Vec<u8> = Vec::new();
    r.push(0x48);
    r.push(0x45);
    r.push(0x4c);
    r.push(0x4c);
    r.push(0x4f);
    r
}

/// One advertisement target per peer and port: every port of the range
/// for the first peer, then every port for the second, and so on.
pub open spec fn spec_pair_with<A>(peer: A, ports: Seq<u16>) -> Seq<(A, u16)>
    decreases ports.len(),
{
    if ports.len() == 0 {
        Seq::empty()
    } else {
        spec_pair_with(peer, ports.drop_last()).push((peer, ports.last()))
    }
}

/// All advertisement targets, peer-major.
pub open spec fn spec_cross<A>(peers: Seq<A>, ports: Seq<u16>) -> Seq<(A, u16)>
    decreases peers.len(),
{
    if peers.len() == 0 {
        Seq::empty()
    } else {
        spec_cross(peers.drop_last(), ports) + spec_pair_with(peers.last(), ports)
    }
}

/// Where an advertisement is sent: one message per configured peer and
/// candidate port, peers in order, ports in order within each peer.
pub fn advertise_targets<A: Copy>(peers: &[A], ports: &Vec<u16>) -> (r: Vec<(A, u16)>)
    ensures
        r@ == spec_cross(peers@, ports@),
{
    let mut r: Vec<(A, u16)> = Vec::new();
    let n = peers.len();
    let mut i: usize = 0;
    proof {
        assert(peers@.subrange(0, 0) =~= Seq::<A>::empty());
    }
    while i < n
        invariant
            0 <= i <= n,
            n == peers@.len(),
            r@ == spec_cross(peers@.subrange(0, i as int), ports@),
        decreases n - i,
    {
        let peer = *vstd::slice::slice_index_get(peers, i);
        let m = ports.len();
        let mut j: usize = 0;
        while j < m
            invariant
                0 <= j <= m,
                0 <= i < n,
                n == peers@.len(),
                m == ports@.len(),
                peer == peers@[i as int],
                r@ == spec_cross(peers@.subrange(0, i as int), ports@) + spec_pair_with(
                    peers@[i as int],
                    ports@.subrange(0, j as int),
                ),
            decreases m - j,
        {
            r.push((peer, *vstd::slice::slice_index_get(ports.as_slice(), j)));
            proof {
                assert(ports@.subrange(0, j as int + 1).drop_last() =~= ports@.subrange(
                    0,
                    j as int,
                ));
            }
            j = j + 1;
        }
        proof {
            assert(ports@.subrange(0, m as int) =~= ports@);
            assert(peers@.subrange(0, i as int + 1).drop_last() =~= peers@.subrange(0, i as int));
        }
        i = i + 1;
    }
    proof {
        assert(peers@.subrange(0, n as int) =~= peers@);
    }
    r
}

/// Hands its contents out exactly once.
///
/// The hosted network and serial capabilities hold their spawnable
/// worker in one of these: the first start takes it, a second start
/// finds it gone and fails with `AlreadyInitialized`.
pub struct TakeOnce<T> {
    inner: Option<T>,
}

impl<T> TakeOnce<T> {
    /// Whether the contents are still here.
    pub closed spec fn is_armed(&self) -> bool {
        self.inner is Some
    }

    /// What the first take will hand out.
    pub closed spec fn spec_contents(&self) -> Option<T> {
        self.inner
    }

    pub fn new(value: T) -> (r: Self)
        ensures
            r.is_armed(),
            r.spec_contents() == Some(value),
    {
        TakeOnce { inner: Some(value) }
    }

    /// Take the contents. The first call returns them; every later call
    /// fails with `AlreadyInitialized`.
    pub fn take(&mut self) -> (r: Result<T, NetworkError>)
        ensures
            !final (self).is_armed(),
            old(self).is_armed() ==> (r matches Ok(v) && Some(v) == old(self).spec_contents()),
            !old(self).is_armed() ==> r == Err::<T, NetworkError>(
                NetworkError::AlreadyInitialized,
            ),
    {
        let taken = self.inner.take();
        match taken {
            Some(v) => Ok(v),
            None => Err(NetworkError::AlreadyInitialized),
        }
    }
}

/// What the datagram worker sees at the top of one loop iteration, all
/// I/O already done by the thread around it.
pub struct UdpEvents<A> {
    /// The stop signal has fired, or its channel is gone.
    pub stop: bool,
    /// A datagram that arrived within the receive window, with its
    /// sender.
    pub datagram: Option<(A, Vec<u8>)>,
    /// One outbound message drained from the capability side.
    pub outgoing: Option<(A, Vec<u8>)>,
    /// Whether that outbound message is addressed to this worker's own
    /// socket.
    pub outgoing_is_local: bool,
}

/// What the datagram worker does with them.
pub enum UdpAction<A> {
    /// Leave the loop.
    Exit,
    /// Forward `forward` (if any) to the capability side and transmit
    /// `transmit` (if any) on the socket.
    Run { forward: Option<(A, Vec<u8>)>, transmit: Option<(A, Vec<u8>)> },
}

/// One decision of the datagram worker's loop.
///
/// A fired stop signal exits the loop. Otherwise an arrived datagram is
/// forwarded unless it is empty, and the drained outbound message is
/// transmitted unless it is addressed to the worker itself — a device
/// never echoes its own messages back to itself.
pub fn udp_step<A>(ev: UdpEvents<A>) -> (r: UdpAction<A>)
    ensures
        ev.stop ==> r is Exit,
        !ev.stop ==> (r matches UdpAction::Run { forward, transmit } && forward == (match ev
            .datagram {
            Some((addr, data)) => if data@.len() > 0 {
                Some((addr, data))
            } else {
                None
            },
            None => None,
        }) && transmit == (if ev.outgoing_is_local {
            None
        } else {
            ev.outgoing
        })),
{
    if ev.stop {
        return UdpAction::Exit;
    }
    let forward = match ev.datagram {
        Some((addr, data)) => if data.len() > 0 {
            Some((addr, data))
        } else {
            None
        },
        None => None,
    };
    let transmit = if ev.outgoing_is_local {
        None
    } else {
        ev.outgoing
    };
    UdpAction::Run { forward, transmit }
}

/// Whether one non-blocking read of a tracked connection yielded bytes
/// worth forwarding: a read of zero bytes is not a message.
pub fn forwardable(data: Vec<u8>) -> (r: Option<Vec<u8>>)
    ensures
        data@.len() == 0 ==> r is None,
        data@.len() > 0 ==> r == Some(data),
{
    if data.len() == 0 {
        None
    } else {
        Some(data)
    }
}

/// Check an outgoing message against the workers' fixed capacity.
///
/// The message is handed back untouched where it fits; a message over
/// [`MAX_MESSAGE`] bytes is refused with `OutMessageTooBig`, never
/// truncated.
pub fn make_out_message(data: &[u8]) -> (r: Result<Vec<u8>, NetworkError>)
    ensures
        data@.len() <= MAX_MESSAGE ==> (r matches Ok(m) && m@ == data@),
        data@.len() > MAX_MESSAGE ==> r == Err::<Vec<u8>, NetworkError>(
            NetworkError::OutMessageTooBig,
        ),
{
    if data.len() > MAX_MESSAGE {
        return Err(NetworkError::OutMessageTooBig);
    }
    Ok(vstd::slice::slice_to_vec(data))
}

} // verus!
