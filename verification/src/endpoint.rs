//! Where the coordinator is reached, and how the node is invoked.

use vstd::prelude::*;
use vstd::string::*;

verus! {

/// The address of the coordinator's channel: `ws://<host>:<port><resource>`.
pub open spec fn address_of(host: Seq<char>, port: Seq<char>, resource: Seq<char>) -> Seq<char> {
    "ws://"@ + host + ":"@ + port + resource
}

/// The usage line for a node invoked as `program`.
pub open spec fn usage_of(program: Seq<char>) -> Seq<char> {
    "Usage: "@ + program + " <host> <port> <resource>"@
}

/// The sub-protocol that the node asks for when it opens the channel.
pub fn subprotocol() -> (name: &'static str)
    ensures
        name@ == "rust-websocket"@,
{
    "rust-websocket"
}

/// Builds the address of the coordinator's channel.
pub fn channel_address(host: &str, port: &str, resource: &str) -> (address: String)
    ensures
        address@ == address_of(host@, port@, resource@),
{
    let mut address = "ws://".to_owned();
    address.append(host);
    address.append(":");
    address.append(port);
    address.append(resource);
    address
}

/// Builds the usage line shown when the node is not given exactly a host,
/// a port and a resource.
pub fn usage(program_name: &str) -> (line: String)
    ensures
        line@ == usage_of(program_name@),
{
    let mut line = "Usage: ".to_owned();
    line.append(program_name);
    line.append(" <host> <port> <resource>");
    line
}

} // verus!
