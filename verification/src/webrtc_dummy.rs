//! A stream that stands in where there is no WebRTC: it is no one's endpoint, takes what is sent
//! and receives nothing.
use vstd::prelude::*;
use bytes::{Bytes, BytesMut};
use crate::address::SocketAddress;
use crate::error::ReadError;
use crate::webrtc::Key;

verus! {

/// A stream without a connection.
#[derive(Debug, PartialEq, Eq)]
pub struct WebRTCStream {}

impl WebRTCStream {
    /// Does nothing.
    pub fn set_raw(&mut self)
        ensures
            *final(self) == *old(self),
    {
    }

    /// The address of this side, of which nothing in particular is known.
    pub fn local_addr(&self) -> (addr: SocketAddress)
        ensures
            addr.is_unspecified(),
            addr matches SocketAddress::V4 { ipv4, port } && ipv4@ == seq![0u8, 0, 0, 0] && port
                == 0,
    {
        SocketAddress::unspecified()
    }

    /// Does nothing.
    pub fn set_send_timeout(&mut self, _ms: u64)
        ensures
            *final(self) == *old(self),
    {
    }

    /// Does nothing.
    pub fn set_key(&mut self, _key: Key)
        ensures
            *final(self) == *old(self),
    {
    }

    /// The stream is never encrypted.
    pub fn is_secured(&self) -> (secured: bool)
        ensures
            !secured,
    {
        false
    }

    /// Takes a message and drops it.
    pub fn send<M, E>(&mut self, _msg: &M) -> (sent: Result<(), E>)
        ensures
            *final(self) == *old(self),
            sent is Ok,
    {
        Ok(())
    }

    /// Takes the bytes of a message and drops them.
    pub fn send_raw<E>(&mut self, _msg: Vec<u8>) -> (sent: Result<(), E>)
        ensures
            *final(self) == *old(self),
            sent is Ok,
    {
        Ok(())
    }

    /// Takes bytes and drops them.
    pub fn send_bytes<E>(&mut self, _bytes: Bytes) -> (sent: Result<(), E>)
        ensures
            *final(self) == *old(self),
            sent is Ok,
    {
        Ok(())
    }

    /// There is no next message.
    pub fn next(&mut self) -> (message: Option<Result<BytesMut, ReadError>>)
        ensures
            *final(self) == *old(self),
            message is None,
    {
        None
    }

    /// There is no next message, and no wait for it.
    pub fn next_timeout(&mut self, _ms: u64) -> (message: Option<Result<BytesMut, ReadError>>)
        ensures
            *final(self) == *old(self),
            message is None,
    {
        None
    }
}

/// Nothing is an endpoint of this stream.
pub fn is_webrtc_endpoint(_endpoint: &str) -> (res: bool)
    ensures
        !res,
{
    false
}

} // verus!
