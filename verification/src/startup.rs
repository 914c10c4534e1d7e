//! The addresses that a server listens on.

use vstd::prelude::*;

use crate::config::ServerArgs;
use crate::text::{concat2, concat3, decimal, decimal_text};

verus! {

/// A network interface, by its address.
#[derive(Clone, Copy, Debug, PartialEq, Eq, Structural)]
pub enum ListenHost {
    V4 { bits: u32 },
    V6 { segments: u128, flow_info: u32, scope_id: u32 },
}

/// An address to listen on.
#[derive(Clone, Copy, Debug, PartialEq, Eq, Structural)]
pub struct ListenAddr {
    pub host: ListenHost,
    pub port: u16,
}

/// How `Debug` writes a text.
pub uninterp spec fn debug_model(text: Seq<char>) -> Seq<char>;

/// The `Debug` form of a `str`: the text in double quotes, with its special
/// characters escaped. Which characters are escaped, and how, is left unsaid.
#[verifier::external_body]
fn debug_text(text: &str) -> (quoted: String)
    ensures
        quoted@ == debug_model(text@),
{
    format!("{:?}", text)
}

/// The text of a startup failure, with what was being done.
pub fn value_error(context: &str, error: &str) -> (message: String)
    ensures
        message@ == context@ + ": "@ + error@,
{
    concat3(context, ": ", error)
}

/// The host and the port as one text. A host that holds a colon is an IPv6
/// address, and stands in brackets.
pub open spec fn bind_model(host: Seq<char>, port: u16) -> Seq<char> {
    if host.contains(':') {
        "["@ + host + "]:"@ + decimal(port as nat)
    } else {
        host + ":"@ + decimal(port as nat)
    }
}

/// Writes the host and the port of the server as one text, which an address can
/// be read from.
pub fn bind_text(server_args: &ServerArgs) -> (text: String)
    ensures
        text@ == bind_model(server_args.host@, server_args.port),
{
    let host = server_args.host.as_str();
    let port = decimal_text(server_args.port as u64);
    let length = host.unicode_len();
    let mut i: usize = 0;
    while i < length
        invariant
            i <= length == host@.len(),
            host@ == server_args.host@,
            port@ == decimal(server_args.port as nat),
            forall|j: int| 0 <= j < i ==> #[trigger] host@[j] != ':',
        decreases length - i,
    {
        if host.get_char(i) == ':' {
            assert(host@[i as int] == ':');
            let opened = concat2("[", host);
            return concat3(opened.as_str(), "]:", port.as_str());
        }
        i += 1;
    }
    concat3(host, ":", port.as_str())
}

/// The port that stands `offset` above the base, if there is one.
pub open spec fn offset_port(base: u16, offset: Option<u16>) -> Option<u16> {
    let port = base + offset_or_zero(offset);
    if port <= u16::MAX {
        Some(port as u16)
    } else {
        None
    }
}

/// The offset; an absent one is zero.
pub open spec fn offset_or_zero(offset: Option<u16>) -> int {
    match offset {
        Some(offset) => offset as int,
        None => 0,
    }
}

/// The address to listen on, or why there is none: the port is out of range, or
/// the host could not be read.
pub open spec fn listen_model(
    host: Seq<char>,
    base: u16,
    offset: Option<u16>,
    parsed: Result<ListenAddr, Seq<char>>,
) -> Result<ListenAddr, Seq<char>> {
    match offset_port(base, offset) {
        None => Err(
            "port "@ + decimal(base as nat) + " + offset "@ + decimal(offset_or_zero(offset) as nat)
                + " exceeds 65535"@,
        ),
        Some(port) => match parsed {
            Ok(address) => Ok(ListenAddr { host: address.host, port }),
            Err(reason) => Err("invalid host "@ + debug_model(host) + ": "@ + reason),
        },
    }
}

/// What a parsed address means.
pub open spec fn parsed_addr(parsed: Result<ListenAddr, String>) -> Result<ListenAddr, Seq<char>> {
    match parsed {
        Ok(address) => Ok(address),
        Err(reason) => Err(reason@),
    }
}

/// Finds the address to listen on, from what the host was read as.
pub fn listen_addr_for_port(
    server_args: &ServerArgs,
    base_port: u16,
    port_offset: Option<u16>,
    parsed: Result<ListenAddr, String>,
) -> (address: Result<ListenAddr, String>)
    ensures
        parsed_addr(address) == listen_model(
            server_args.host@,
            base_port,
            port_offset,
            parsed_addr(parsed),
        ),
{
    let offset: u16 = match port_offset {
        Some(offset) => offset,
        None => 0,
    };
    let port = match base_port.checked_add(offset) {
        Some(port) => port,
        None => {
            let base_text = decimal_text(base_port as u64);
            let offset_text = decimal_text(offset as u64);
            let sum = concat3("port ", base_text.as_str(), " + offset ");
            return Err(concat3(sum.as_str(), offset_text.as_str(), " exceeds 65535"));
        },
    };
    match parsed {
        Ok(address) => Ok(ListenAddr { host: address.host, port }),
        Err(reason) => {
            let host = debug_text(server_args.host.as_str());
            let context = concat2("invalid host ", host.as_str());
            Err(value_error(context.as_str(), reason.as_str()))
        },
    }
}

/// Finds the address that HTTP listens on.
pub fn listen_addr(
    server_args: &ServerArgs,
    port_offset: Option<u16>,
    parsed: Result<ListenAddr, String>,
) -> (address: Result<ListenAddr, String>)
    ensures
        parsed_addr(address) == listen_model(
            server_args.host@,
            server_args.port,
            port_offset,
            parsed_addr(parsed),
        ),
{
    listen_addr_for_port(server_args, server_args.port, port_offset, parsed)
}

/// What the optional address of gRPC means.
pub open spec fn opt_addr(address: Result<Option<ListenAddr>, String>) -> Result<
    Option<ListenAddr>,
    Seq<char>,
> {
    match address {
        Ok(address) => Ok(address),
        Err(reason) => Err(reason@),
    }
}

/// The address that gRPC listens on, if it is configured.
pub open spec fn grpc_listen_model(
    host: Seq<char>,
    port: Option<u16>,
    offset: Option<u16>,
    parsed: Result<ListenAddr, Seq<char>>,
) -> Result<Option<ListenAddr>, Seq<char>> {
    match port {
        Some(port) => match listen_model(host, port, offset, parsed) {
            Ok(address) => Ok(Some(address)),
            Err(reason) => Err(reason),
        },
        None => Ok(None),
    }
}

/// Finds the address that gRPC listens on, if it is configured. Both surfaces
/// move by the same offset.
pub fn grpc_listen_addr(
    server_args: &ServerArgs,
    port_offset: Option<u16>,
    parsed: Result<ListenAddr, String>,
) -> (address: Result<Option<ListenAddr>, String>)
    ensures
        opt_addr(address) == match server_args.grpc_port {
            None => Ok(None),
            Some(port) => match listen_model(
                server_args.host@,
                port,
                port_offset,
                parsed_addr(parsed),
            ) {
                Ok(address) => Ok(Some(address)),
                Err(reason) => Err(reason),
            },
        },
        opt_addr(address) == grpc_listen_model(
            server_args.host@,
            server_args.grpc_port,
            port_offset,
            parsed_addr(parsed),
        ),
{
    match server_args.grpc_port {
        None => Ok(None),
        Some(port) => match listen_addr_for_port(server_args, port, port_offset, parsed) {
            Ok(address) => Ok(Some(address)),
            Err(reason) => Err(reason),
        },
    }
}

/// Servers that start with different offsets never listen on the same port.
pub proof fn law_offsets_keep_ports_apart(base: u16, first: u16, second: u16)
    requires
        first != second,
        offset_port(base, Some(first)) is Some,
    ensures
        offset_port(base, Some(first)) != offset_port(base, Some(second)),
{
}

/// Only the port of the address depends on the offset.
pub proof fn law_offset_moves_only_the_port(
    host: Seq<char>,
    base: u16,
    offset: Option<u16>,
    address: ListenAddr,
)
    ensures
        listen_model(host, base, offset, Ok(address)) matches Ok(moved) ==> moved.host
            == address.host && moved.port == base + offset_or_zero(offset),
{
}

/// Where a server listens: on the host that was read, on the base port moved by the
/// offset. A port beyond the last one is refused with both numbers, before the host
/// is looked at, and a host that cannot be read with the reader's own words.
pub proof fn law_listening_addresses(
    host: Seq<char>,
    base: u16,
    offset: u16,
    address: ListenAddr,
    reason: Seq<char>,
)
    ensures
        base + offset <= 65_535 ==> (listen_model(host, base, Some(offset), Ok(address)) matches Ok(
            listening,
        ) && listening.host == address.host && listening.port == base + offset),
        listen_model(host, base, None, Ok(address)) matches Ok(listening) && listening.host
            == address.host && listening.port == base,
        base + offset > 65_535 ==> listen_model(host, base, Some(offset), Ok(address)) == Err::<
            ListenAddr,
            Seq<char>,
        >(
            "port "@ + decimal(base as nat) + " + offset "@ + decimal(offset as nat)
                + " exceeds 65535"@,
        ) && listen_model(host, base, Some(offset), Err(reason)) == listen_model(
            host,
            base,
            Some(offset),
            Ok(address),
        ),
        base + offset <= 65_535 ==> listen_model(host, base, Some(offset), Err(reason)) == Err::<
            ListenAddr,
            Seq<char>,
        >("invalid host "@ + debug_model(host) + ": "@ + reason),
        listen_model(host, base, None, Err(reason)) == Err::<ListenAddr, Seq<char>>(
            "invalid host "@ + debug_model(host) + ": "@ + reason,
        ),
{
}

/// The text that an address is read from is the host, a colon and the port; a host
/// that holds colons itself is set off by brackets, so that the last colon is always
/// the one before the port.
pub proof fn law_bind_texts(host: Seq<char>, port: u16)
    ensures
        !host.contains(':') ==> bind_model(host, port) == host + ":"@ + decimal(port as nat),
        host.contains(':') ==> bind_model(host, port) == "["@ + host + "]:"@ + decimal(port as nat),
{
}

/// gRPC listens nowhere where it has no port, even if the host cannot be read, and
/// else on the same host as HTTP, on its own port moved by the same offset.
pub proof fn law_grpc_addresses(
    host: Seq<char>,
    port: u16,
    offset: Option<u16>,
    parsed: Result<ListenAddr, Seq<char>>,
)
    ensures
        grpc_listen_model(host, None, offset, parsed) == Ok::<Option<ListenAddr>, Seq<char>>(None),
        listen_model(host, port, offset, parsed) matches Ok(address) ==> grpc_listen_model(
            host,
            Some(port),
            offset,
            parsed,
        ) == Ok::<Option<ListenAddr>, Seq<char>>(Some(address)),
        listen_model(host, port, offset, parsed) matches Err(reason) ==> grpc_listen_model(
            host,
            Some(port),
            offset,
            parsed,
        ) == Err::<Option<ListenAddr>, Seq<char>>(reason),
{
}

/// What an address was read as, or found to be, means itself.
pub proof fn law_addresses_mean_themselves(
    parsed: Result<ListenAddr, String>,
    found: Result<Option<ListenAddr>, String>,
)
    ensures
        parsed matches Ok(address) ==> parsed_addr(parsed) == Ok::<ListenAddr, Seq<char>>(address),
        parsed matches Err(reason) ==> parsed_addr(parsed) == Err::<ListenAddr, Seq<char>>(reason@),
        found matches Ok(address) ==> opt_addr(found) == Ok::<Option<ListenAddr>, Seq<char>>(
            address,
        ),
        found matches Err(reason) ==> opt_addr(found) == Err::<Option<ListenAddr>, Seq<char>>(
            reason@,
        ),
{
}

} // verus!
