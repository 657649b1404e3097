//! The startup parameters of an endpoint.

use crate::decimal::decimal;
use crate::decimal::port_numeral;
use vstd::prelude::*;
use vstd::string::StringExecFns;

verus! {

/// The port to ask for when the operator names none: the system then
/// assigns a free one.
pub const EPHEMERAL_PORT: u16 = 0;

/// Chat with another client, serverless through most NATs.
#[derive(Debug, PartialEq, Eq)]
pub struct Cli {
    /// The remote address to talk to, host and port.
    remote: String,
    /// The local port to expose; `EPHEMERAL_PORT` to have one assigned.
    port: u16,
}

/// The startup parameters as a mathematical value.
pub struct CliView {
    pub remote: Seq<char>,
    pub port: u16,
}

impl View for Cli {
    type V = CliView;

    closed spec fn view(&self) -> CliView {
        CliView { remote: self.remote@, port: self.port }
    }
}

/// The local address that an endpoint binds for `port`: that port on all
/// interfaces.
pub open spec fn bind_address_of(port: u16) -> Seq<char> {
    "0.0.0.0:"@ + decimal(port as nat)
}

impl Cli {
    /// The parameters of an endpoint that talks to `remote` from `port`.
    pub fn new(remote: String, port: u16) -> (cli: Cli)
        ensures
            cli@ == (CliView { remote: remote@, port }),
    {
        Cli { remote, port }
    }

    /// The parameters of an endpoint that talks to `remote` from whatever
    /// port the system assigns.
    pub fn with_ephemeral_port(remote: String) -> (cli: Cli)
        ensures
            cli@ == (CliView { remote: remote@, port: EPHEMERAL_PORT }),
    {
        Cli { remote, port: EPHEMERAL_PORT }
    }

    /// The remote address, as the operator wrote it.
    pub fn remote(&self) -> (remote: &str)
        ensures
            remote@ == self@.remote,
    {
        self.remote.as_str()
    }

    /// The local port asked for.
    pub fn port(&self) -> (port: u16)
        ensures
            port == self@.port,
    {
        self.port
    }

    /// Whether the system is to pick the local port.
    pub fn wants_ephemeral_port(&self) -> (ephemeral: bool)
        ensures
            ephemeral <==> self@.port == EPHEMERAL_PORT,
    {
        self.port == EPHEMERAL_PORT
    }

    /// The local address to bind.
    pub fn bind_address(&self) -> (address: String)
        ensures
            address@ == bind_address_of(self@.port),
    {
        let mut address = String::from_str("0.0.0.0:");
        let numeral = port_numeral(self.port);
        address.append(numeral.as_str());
        address
    }
}

} // verus!
