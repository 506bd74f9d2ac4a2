//! Address types: the original destination of a connection and the logical
//! (name-based) addresses that profiles and routes speak of.

use vstd::prelude::*;

verus! {

/// A socket address: an IPv4 host and a port, held as plain integers.
#[derive(Clone, Copy, PartialEq, Eq, Structural, Hash, Debug)]
pub struct SockAddr {
    pub ip: u32,
    pub port: u16,
}

/// The address the client originally meant to reach, taken from the
/// transparent-proxy redirection metadata. It is the primary identity of an
/// outbound target: caches key on it.
#[derive(Clone, Copy, PartialEq, Eq, Structural, Hash, Debug)]
pub struct OrigDstAddr(pub SockAddr);

/// The address of the remote server a connection is forwarded to.
#[derive(Clone, Copy, PartialEq, Eq, Structural, Hash, Debug)]
pub struct ServerAddr(pub SockAddr);

/// Marks an address as belonging to the remote peer of a connection.
#[derive(Clone, Copy, PartialEq, Eq, Structural, Hash, Debug)]
pub struct Remote(pub ServerAddr);

/// A named (DNS-like) address with a port.
#[derive(Clone, Debug)]
pub struct NameAddr {
    pub name: String,
    pub port: u16,
}

/// The logical address a service profile assigns to a target.
#[derive(Clone, Debug)]
pub struct LogicalAddr(pub NameAddr);

/// Either a concrete socket address or a named one.
#[derive(Clone, Debug)]
pub enum Addr {
    Socket(SockAddr),
    Name(NameAddr),
}

impl NameAddr {
    /// A fresh value equal to this one.
    pub fn duplicate(&self) -> (r: Self)
        ensures
            r == *self,
    {
        NameAddr { name: self.name.clone(), port: self.port }
    }
}

impl LogicalAddr {
    /// A fresh value equal to this one.
    pub fn duplicate(&self) -> (r: Self)
        ensures
            r == *self,
    {
        LogicalAddr(self.0.duplicate())
    }
}

impl Addr {
    /// A fresh value equal to this one.
    pub fn duplicate(&self) -> (r: Self)
        ensures
            r == *self,
    {
        match self {
            Addr::Socket(s) => Addr::Socket(*s),
            Addr::Name(n) => Addr::Name(n.duplicate()),
        }
    }
}

} // verus!
