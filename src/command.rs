//! Synthesis of the tunnel access command from an address and a port.
use vstd::prelude::*;
use vstd::string::StringExecFns;
use crate::port::{is_digit, is_valid_port, port_is_valid};

verus! {

/// What a successful build hands to the user: the command to run and the
/// local endpoint to connect to once the tunnel is up.
pub struct CommandResult {
    pub command_text: String,
    pub local_endpoint: String,
}

/// `localhost:{port}`.
pub open spec fn endpoint_of(port: Seq<char>) -> Seq<char> {
    "localhost:"@ + port
}

/// `cloudflared access tcp --hostname {address} --url localhost:{port}`.
pub open spec fn command_of(address: Seq<char>, port: Seq<char>) -> Seq<char> {
    "cloudflared access tcp --hostname "@ + address + " --url "@ + endpoint_of(port)
}

/// A build succeeds exactly when the address is non-empty and the port valid.
pub open spec fn can_build(address: Seq<char>, port: Seq<char>) -> bool {
    address.len() > 0 && port_is_valid(port)
}

/// The last character of `localhost:{port}` before the port is the colon.
proof fn lemma_colon_before_port(address: Seq<char>, port: Seq<char>)
    ensures
        command_of(address, port).len() > port.len(),
        command_of(address, port)[command_of(address, port).len() - port.len() - 1] == ':',
        command_of(address, port).subrange(
            command_of(address, port).len() - port.len(),
            command_of(address, port).len() as int,
        ) == port,
{
    reveal_strlit("localhost:");
    let head = "cloudflared access tcp --hostname "@ + address + " --url "@;
    let c = command_of(address, port);
    assert(c == head + ("localhost:"@ + port));
    let k = c.len() - port.len() - 1;
    assert(c[k] == ("localhost:"@ + port)[9]);
    assert(c.subrange(c.len() - port.len(), c.len() as int) =~= port);
}

/// The command text determines the address and the port it was built from:
/// each stands in its one place of the template, for every accepted port.
pub proof fn lemma_command_determines_fields(
    a1: Seq<char>,
    p1: Seq<char>,
    a2: Seq<char>,
    p2: Seq<char>,
)
    requires
        port_is_valid(p1),
        port_is_valid(p2),
        command_of(a1, p1) == command_of(a2, p2),
    ensures
        a1 == a2,
        p1 == p2,
{
    let c = command_of(a1, p1);
    let n = c.len();
    lemma_colon_before_port(a1, p1);
    lemma_colon_before_port(a2, p2);
    if p1.len() < p2.len() {
        let k = n - p1.len() - 1;
        assert(c.subrange(n - p2.len(), n as int)[k - (n - p2.len())] == c[k]);
        assert(is_digit(p2[k - (n - p2.len())]));
    } else if p2.len() < p1.len() {
        let k = n - p2.len() - 1;
        assert(c.subrange(n - p1.len(), n as int)[k - (n - p1.len())] == c[k]);
        assert(is_digit(p1[k - (n - p1.len())]));
    }
    assert(p1 == p2);
    let head = "cloudflared access tcp --hostname "@;
    let tail = " --url "@ + endpoint_of(p1);
    assert(c =~= head + a1 + tail);
    assert(c =~= head + a2 + tail);
    assert(a1 =~= c.subrange(head.len() as int, head.len() + a1.len() as int));
    assert(a2 =~= c.subrange(head.len() as int, head.len() + a2.len() as int));
}

/// Fills the command template with `address` and `port`, literally.
pub fn format_command(address: &str, port: &str) -> (r: CommandResult)
    ensures
        r.command_text@ == command_of(address@, port@),
        r.local_endpoint@ == endpoint_of(port@),
{
    let mut endpoint = "localhost:".to_owned();
    endpoint.append(port);
    let mut text = "cloudflared access tcp --hostname ".to_owned();
    text.append(address);
    text.append(" --url ");
    text.append(endpoint.as_str());
    CommandResult { command_text: text, local_endpoint: endpoint }
}

/// Builds the command for `address` and `port`, or nothing where the address
/// is empty or the port is not digits only. An empty port passes through and
/// yields the endpoint `localhost:`.
pub fn build_command(address: &str, port: &str) -> (r: Option<CommandResult>)
    ensures
        r is Some <==> can_build(address@, port@),
        r matches Some(c) ==> c.command_text@ == command_of(address@, port@)
            && c.local_endpoint@ == endpoint_of(port@),
{
    if is_valid_port(port) && !address.is_empty() {
        Some(format_command(address, port))
    } else {
        None
    }
}

} // verus!
