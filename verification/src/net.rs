//! Internet addresses as plain numbers.

use crate::text::push_decimal;
use vstd::prelude::*;

verus! {

/// An internet address, as the number that its bits make.
#[derive(Debug, Clone, Copy, PartialEq, Eq, Structural)]
pub enum IpAddr {
    V4(u32),
    V6(u128),
}

/// An address of version four with a port.
#[derive(Debug, Clone, Copy, PartialEq, Eq)]
pub struct SocketAddrV4 {
    pub octets: (u8, u8, u8, u8),
    pub port: u16,
}

impl SocketAddrV4 {
    /// The usual notation: four numbers with dots between them, a colon, and the port.
    pub open spec fn notation(self) -> Seq<char> {
        crate::text::decimal(self.octets.0 as nat) + "."@ + crate::text::decimal(
            self.octets.1 as nat,
        ) + "."@ + crate::text::decimal(self.octets.2 as nat) + "."@ + crate::text::decimal(
            self.octets.3 as nat,
        ) + ":"@ + crate::text::decimal(self.port as nat)
    }

    /// The port.
    pub fn port(&self) -> (port: u16)
        ensures
            port == self.port,
    {
        self.port
    }

    /// The usual notation as a string.
    pub fn to_string(&self) -> (s: String)
        ensures
            s@ == self.notation(),
            s@ == crate::text::decimal(self.octets.0 as nat) + "."@ + crate::text::decimal(
                self.octets.1 as nat,
            ) + "."@ + crate::text::decimal(self.octets.2 as nat) + "."@ + crate::text::decimal(
                self.octets.3 as nat,
            ) + ":"@ + crate::text::decimal(self.port as nat),
    {
        let mut s = String::new();
        push_decimal(&mut s, self.octets.0 as u64);
        s.append(".");
        push_decimal(&mut s, self.octets.1 as u64);
        s.append(".");
        push_decimal(&mut s, self.octets.2 as u64);
        s.append(".");
        push_decimal(&mut s, self.octets.3 as u64);
        s.append(":");
        push_decimal(&mut s, self.port as u64);
        assert(s@ =~= self.notation());
        s
    }
}

} // verus!
