//! What is asked of the mapping service, and what is known from it.

use vstd::prelude::*;

use crate::net::SocketAddrV4;
use crate::text::{push_decimal, push_flag};

verus! {

/// Errors of port mappings.
#[derive(Debug, Clone)]
pub enum PortMapperError {
    /// It could not be found out which protocols the gateway knows.
    ProbeFailed(String),
    /// There is no gateway.
    NoGateway,
    /// The mapping could not be had.
    MappingFailed(String),
}

impl PortMapperError {
    /// The message of the error.
    pub open spec fn message(self) -> Seq<char> {
        match self {
            PortMapperError::ProbeFailed(msg) => "Probe failed: "@ + msg@,
            PortMapperError::NoGateway => "No UPnP gateway found"@,
            PortMapperError::MappingFailed(msg) => "Mapping failed: "@ + msg@,
        }
    }

    /// The message of the error as a string.
    pub fn to_string(&self) -> (s: String)
        ensures
            s@ == self.message(),
            match *self {
                PortMapperError::ProbeFailed(msg) => s@ == "Probe failed: "@ + msg@,
                PortMapperError::NoGateway => s@ == "No UPnP gateway found"@,
                PortMapperError::MappingFailed(msg) => s@ == "Mapping failed: "@ + msg@,
            },
    {
        match self {
            PortMapperError::ProbeFailed(msg) => {
                let mut s = "Probe failed: ".to_owned();
                s.append(msg.as_str());
                s
            },
            PortMapperError::NoGateway => "No UPnP gateway found".to_owned(),
            PortMapperError::MappingFailed(msg) => {
                let mut s = "Mapping failed: ".to_owned();
                s.append(msg.as_str());
                s
            },
        }
    }
}

/// The transport that is mapped.
#[derive(Debug, Clone, Copy, PartialEq, Eq, Structural)]
pub enum Transport {
    Tcp,
    Udp,
}

/// Which mapping protocols are spoken, and for which transport.
#[derive(Debug, Clone, Copy, PartialEq, Eq, Structural)]
pub struct MappingSettings {
    pub enable_upnp: bool,
    pub enable_pcp: bool,
    pub enable_nat_pmp: bool,
    pub protocol: Transport,
}

/// Only UPnP is spoken, and TCP is mapped.
pub fn mapping_settings() -> (settings: MappingSettings)
    ensures
        settings == (MappingSettings {
            enable_upnp: true,
            enable_pcp: false,
            enable_nat_pmp: false,
            protocol: Transport::Tcp,
        }),
{
    MappingSettings {
        enable_upnp: true,
        enable_pcp: false,
        enable_nat_pmp: false,
        protocol: Transport::Tcp,
    }
}

/// Which protocols the gateway was found to know.
#[derive(Debug, Clone, Copy, PartialEq, Eq, Structural)]
pub struct ProbeOutput {
    pub upnp: bool,
    pub pcp: bool,
    pub nat_pmp: bool,
}

/// What came back of a probe.
#[derive(Debug, Clone)]
pub enum ProbeReply {
    /// The service went away without an answer.
    ChannelClosed,
    /// The probe failed.
    Failed(String),
    /// The probe came to an end.
    Done(ProbeOutput),
}

/// What a probe found, or the error of its failure.
pub fn probe_result(reply: &ProbeReply) -> (r: Result<ProbeOutput, PortMapperError>)
    ensures
        match *reply {
            ProbeReply::Done(output) => r == Ok::<ProbeOutput, PortMapperError>(output),
            ProbeReply::Failed(msg) => r matches Err(PortMapperError::ProbeFailed(m)) && m@
                == msg@,
            ProbeReply::ChannelClosed => r matches Err(PortMapperError::ProbeFailed(m)) && m@
                == "probe channel closed"@,
        },
{
    match reply {
        ProbeReply::Done(output) => Ok(*output),
        ProbeReply::Failed(msg) => Err(PortMapperError::ProbeFailed(msg.clone())),
        ProbeReply::ChannelClosed => Err(
            PortMapperError::ProbeFailed("probe channel closed".to_owned()),
        ),
    }
}

/// Whether a mapping is to be asked for after a probe: it is where the gateway was found to
/// know UPnP.
pub fn find_gateway(probed: &Result<ProbeOutput, PortMapperError>) -> (r: Result<
    (),
    PortMapperError,
>)
    ensures
        match *probed {
            Ok(output) => if output.upnp {
                r is Ok
            } else {
                r is Err && r->Err_0 is NoGateway
            },
            Err(e) => r is Err && r->Err_0.message() == e.message(),
        },
        match *probed {
            Err(PortMapperError::ProbeFailed(msg)) => r matches Err(PortMapperError::ProbeFailed(m))
                && m@ == msg@,
            Err(PortMapperError::NoGateway) => r matches Err(PortMapperError::NoGateway),
            Err(PortMapperError::MappingFailed(msg)) => r matches Err(
                PortMapperError::MappingFailed(m),
            ) && m@ == msg@,
            Ok(_) => true,
        },
{
    match probed {
        Ok(output) => if output.upnp {
            Ok(())
        } else {
            Err(PortMapperError::NoGateway)
        },
        Err(PortMapperError::ProbeFailed(msg)) => Err(PortMapperError::ProbeFailed(msg.clone())),
        Err(PortMapperError::NoGateway) => Err(PortMapperError::NoGateway),
        Err(PortMapperError::MappingFailed(msg)) => Err(
            PortMapperError::MappingFailed(msg.clone()),
        ),
    }
}

/// The port mapping of the server.
#[derive(Debug)]
pub struct PortMapper {
    port: u16,
    active: bool,
    external_addr: Option<SocketAddrV4>,
}

impl PortMapper {
    /// The port that the mapper was made for.
    pub closed spec fn for_port(self) -> u16 {
        self.port
    }

    /// Whether the mapping is in use.
    pub closed spec fn active(self) -> bool {
        self.active
    }

    /// The address under which the gateway shows the server, where it is known.
    pub closed spec fn external(self) -> Option<SocketAddrV4> {
        self.external_addr
    }

    /// What is told of the mapper.
    pub open spec fn summary(self) -> Seq<char> {
        "PortMapper(port="@ + crate::text::decimal(self.for_port() as nat) + ", active="@
            + crate::text::flag(self.active()) + ", external="@ + (match self.external() {
            Some(addr) => addr.notation(),
            None => "unknown"@,
        }) + ")"@
    }

    /// A mapper for a port, in use, with no address known yet.
    pub fn new(port: u16) -> (m: PortMapper)
        ensures
            m.for_port() == port,
            m.active(),
            m.external() is None,
    {
        PortMapper { port, active: true, external_addr: None }
    }

    /// The address under which the gateway shows the server, where it is known.
    pub fn current_external_address(&self) -> (addr: Option<SocketAddrV4>)
        ensures
            addr == self.external(),
    {
        self.external_addr
    }

    /// Takes note of the address that the mapping service reports.
    pub fn external_address_changed(&mut self, addr: Option<SocketAddrV4>)
        ensures
            final(self).external() == addr,
            final(self).for_port() == old(self).for_port(),
            final(self).active() == old(self).active(),
    {
        self.external_addr = addr;
    }

    /// Puts the mapping out of use.
    pub fn deactivate(&mut self)
        ensures
            !final(self).active(),
            final(self).for_port() == old(self).for_port(),
            final(self).external() == old(self).external(),
    {
        self.active = false;
    }

    /// The port that the mapping service is to be told when the local port changes: zero is
    /// none to map. The mapper stays the one for its first port.
    pub fn update_port(&self, port: u16) -> (local: Option<u16>)
        ensures
            local == if port == 0 {
                None
            } else {
                Some(port)
            },
    {
        if port == 0 {
            None
        } else {
            Some(port)
        }
    }

    /// The port that the mapper was made for.
    pub fn port(&self) -> (port: u16)
        ensures
            port == self.for_port(),
    {
        self.port
    }

    /// Whether the mapping is in use.
    pub fn is_active(&self) -> (b: bool)
        ensures
            b == self.active(),
    {
        self.active
    }

    /// What is told of the mapper, as a string.
    pub fn to_string(&self) -> (s: String)
        ensures
            s@ == self.summary(),
            s@ == "PortMapper(port="@ + crate::text::decimal(self.for_port() as nat)
                + ", active="@ + (if self.active() {
                "true"@
            } else {
                "false"@
            }) + ", external="@ + (match self.external() {
                Some(addr) => addr.notation(),
                None => "unknown"@,
            }) + ")"@,
    {
        let mut s = "PortMapper(port=".to_owned();
        push_decimal(&mut s, self.port as u64);
        s.append(", active=");
        push_flag(&mut s, self.active);
        s.append(", external=");
        match &self.external_addr {
            Some(addr) => {
                let text = addr.to_string();
                s.append(text.as_str());
            },
            None => s.append("unknown"),
        }
        s.append(")");
        assert(s@ =~= self.summary());
        s
    }
}

} // verus!
