//! From what the command line and the host say to the scans that are to be
//! run: which interface and source address, which source port, which
//! request for which targets.

use crate::address::{HostAddress, Ipv4Address};
use crate::config::{ScanConfig, ScanRequest, MAX_SOURCE_PORT, MIN_SOURCE_PORT};
use crate::wire::random_port;
use vstd::prelude::*;
use vstd::string::*;

verus! {

/// How long the scanner rests before each target's scan, in milliseconds,
/// so that consecutive scans do not share the source port while replies to
/// the earlier one may still arrive.
pub const TARGET_PAUSE_MILLIS: u64 = 3000;

/// A network interface of the host, as far as the choice of a source address
/// reads it.
#[derive(Debug)]
pub struct Interface {
    /// The interface's name.
    pub name: String,
    /// The operating system's index of the interface.
    pub index: u32,
    /// The addresses bound to the interface, in the host's order.
    pub addresses: Vec<HostAddress>,
}

/// The arguments of the command line.
#[derive(Debug)]
pub struct CliArgs {
    /// The hosts to scan.
    pub target_ip: Vec<Ipv4Address>,
    /// The one port to scan, if a single port is asked for.
    pub port: Option<u16>,
    /// The first port of the range.
    pub start_port: u16,
    /// The end of the range, itself not scanned.
    pub end_port: u16,
    /// The name of the interface to capture on.
    pub interface: String,
    /// Whether each discovery is announced as it is made.
    pub verbose: bool,
}

/// Why the command line cannot be turned into scans.
#[derive(Clone, Copy, Debug, PartialEq, Eq, Structural)]
pub enum CliError {
    /// No target address was given.
    NoTargets,
    /// The host has no interface of the given name.
    InterfaceNotFound,
    /// The interface has no IPv4 address.
    NoIpv4Address,
}

/// What the command line asks for, with the interface resolved and the
/// session's source port drawn.
#[derive(Debug)]
pub enum ParseCliOutput {
    WithRange {
        target_ip: Vec<Ipv4Address>,
        start_port: u16,
        end_port: u16,
        verbose: bool,
        interface: Interface,
        source_ip: Ipv4Address,
        source_port: u16,
    },
    WithTarget {
        target_ip: Vec<Ipv4Address>,
        port: u16,
        verbose: bool,
        interface: Interface,
        source_ip: Ipv4Address,
        source_port: u16,
    },
}

/// Why a host name gave no address to scan.
#[derive(Clone, Copy, Debug, PartialEq, Eq, Structural)]
pub enum LookupError {
    /// The name could not be resolved.
    LookupFailed,
    /// The first address of the name is an IPv6 address.
    Ipv6Only,
    /// The name resolved to no address.
    NoAddrsFound,
}

/// The position of the first interface called `name`, if there is one.
pub open spec fn first_named(interfaces: Seq<Interface>, name: Seq<char>) -> Option<int>
    decreases interfaces.len(),
{
    if interfaces.len() == 0 {
        None
    } else if interfaces[0].name@ == name {
        Some(0)
    } else {
        match first_named(interfaces.drop_first(), name) {
            Some(i) => Some(i + 1),
            None => None,
        }
    }
}

/// The first IPv4 address among `addresses`, if there is one.
pub open spec fn first_ipv4(addresses: Seq<HostAddress>) -> Option<Ipv4Address>
    decreases addresses.len(),
{
    if addresses.len() == 0 {
        None
    } else {
        match addresses[0] {
            HostAddress::V4(address) => Some(address),
            HostAddress::V6 => first_ipv4(addresses.drop_first()),
        }
    }
}

/// The interface to capture on and the address to send from: the first
/// interface of the given name, and its first IPv4 address.
pub open spec fn source_of(interfaces: Seq<Interface>, name: Seq<char>) -> Result<
    (int, Ipv4Address),
    CliError,
> {
    match first_named(interfaces, name) {
        None => Err(CliError::InterfaceNotFound),
        Some(i) => match first_ipv4(interfaces[i].addresses@) {
            None => Err(CliError::NoIpv4Address),
            Some(address) => Ok((i, address)),
        },
    }
}

/// What the command line asks for, given the host's interfaces and the
/// source port that was drawn. A single port, where one is given, takes
/// precedence over the range.
pub open spec fn cli_output(args: CliArgs, interfaces: Seq<Interface>, source_port: u16) -> Result<
    ParseCliOutput,
    CliError,
> {
    if args.target_ip@.len() == 0 {
        Err(CliError::NoTargets)
    } else {
        match source_of(interfaces, args.interface@) {
            Err(error) => Err(error),
            Ok((i, source_ip)) => match args.port {
                Some(port) => Ok(
                    ParseCliOutput::WithTarget {
                        target_ip: args.target_ip,
                        port,
                        verbose: args.verbose,
                        interface: interfaces[i],
                        source_ip,
                        source_port,
                    },
                ),
                None => Ok(
                    ParseCliOutput::WithRange {
                        target_ip: args.target_ip,
                        start_port: args.start_port,
                        end_port: args.end_port,
                        verbose: args.verbose,
                        interface: interfaces[i],
                        source_ip,
                        source_port,
                    },
                ),
            },
        }
    }
}

/// What resolving a host name comes to: the first address that the
/// resolver gave, which must be an IPv4 address.
pub open spec fn lookup_outcome(answers: Option<Seq<HostAddress>>) -> Result<
    Ipv4Address,
    LookupError,
> {
    match answers {
        None => Err(LookupError::LookupFailed),
        Some(addresses) => {
            if addresses.len() == 0 {
                Err(LookupError::NoAddrsFound)
            } else {
                match addresses[0] {
                    HostAddress::V4(address) => Ok(address),
                    HostAddress::V6 => Err(LookupError::Ipv6Only),
                }
            }
        },
    }
}

/// No interface before the first of a name has that name, and where none
/// is first, none has it.
pub proof fn lemma_first_named(interfaces: Seq<Interface>, name: Seq<char>)
    ensures
        match first_named(interfaces, name) {
            Some(i) => {
                &&& 0 <= i < interfaces.len()
                &&& interfaces[i].name@ == name
                &&& forall|j: int| 0 <= j < i ==> (#[trigger] interfaces[j]).name@ != name
            },
            None => forall|j: int|
                0 <= j < interfaces.len() ==> (#[trigger] interfaces[j]).name@ != name,
        },
    decreases interfaces.len(),
{
    if interfaces.len() > 0 && interfaces[0].name@ != name {
        let rest = interfaces.drop_first();
        lemma_first_named(rest, name);
        match first_named(rest, name) {
            Some(i) => {
                assert forall|j: int| 0 <= j < i + 1 implies (#[trigger] interfaces[j]).name@
                    != name by {
                    if j > 0 {
                        assert(rest[j - 1] == interfaces[j]);
                    }
                }
            },
            None => {
                assert forall|j: int| 0 <= j < interfaces.len() implies (
                #[trigger] interfaces[j]).name@ != name by {
                    if j > 0 {
                        assert(rest[j - 1] == interfaces[j]);
                    }
                }
            },
        }
    }
}

/// An interface that has the name and has none of that name before it is
/// the first of that name.
pub proof fn lemma_first_named_is(interfaces: Seq<Interface>, name: Seq<char>, i: int)
    requires
        0 <= i < interfaces.len(),
        interfaces[i].name@ == name,
        forall|j: int| 0 <= j < i ==> (#[trigger] interfaces[j]).name@ != name,
    ensures
        first_named(interfaces, name) == Some(i),
{
    lemma_first_named(interfaces, name);
}

/// An IPv4 address that has only IPv6 addresses before it is the first
/// IPv4 address; where every address is an IPv6 address, there is none.
pub proof fn lemma_first_ipv4(addresses: Seq<HostAddress>, upto: int)
    requires
        0 <= upto <= addresses.len(),
        forall|j: int| 0 <= j < upto ==> (#[trigger] addresses[j]) is V6,
    ensures
        upto < addresses.len() && addresses[upto] is V4 ==> first_ipv4(addresses) == Some(
            addresses[upto]->V4_0,
        ),
        upto == addresses.len() ==> first_ipv4(addresses).is_none(),
    decreases addresses.len(),
{
    if addresses.len() > 0 && upto > 0 {
        let rest = addresses.drop_first();
        assert(addresses[0] is V6);
        assert forall|j: int| 0 <= j < upto - 1 implies (#[trigger] rest[j]) is V6 by {
            assert(rest[j] == addresses[j + 1]);
        }
        lemma_first_ipv4(rest, upto - 1);
        if upto < addresses.len() {
            assert(rest[upto - 1] == addresses[upto]);
        }
    }
}

/// Finds the first interface called `name`.
pub fn find_interface(interfaces: &Vec<Interface>, name: &String) -> (found: Option<usize>)
    ensures
        match found {
            Some(i) => first_named(interfaces@, name@) == Some(i as int),
            None => first_named(interfaces@, name@).is_none(),
        },
{
    let mut at: usize = 0;
    while at < interfaces.len()
        invariant
            at <= interfaces@.len(),
            forall|j: int| 0 <= j < at ==> (#[trigger] interfaces@[j]).name@ != name@,
        decreases interfaces@.len() - at,
    {
        if interfaces[at].name == *name {
            proof {
                lemma_first_named_is(interfaces@, name@, at as int);
            }
            return Some(at);
        }
        at = at + 1;
    }
    proof {
        lemma_first_named(interfaces@, name@);
    }
    None
}

/// Finds the first IPv4 address among `addresses`.
pub fn find_ipv4(addresses: &Vec<HostAddress>) -> (found: Option<Ipv4Address>)
    ensures
        found == first_ipv4(addresses@),
{
    let mut at: usize = 0;
    while at < addresses.len()
        invariant
            at <= addresses@.len(),
            forall|j: int| 0 <= j < at ==> (#[trigger] addresses@[j]) is V6,
        decreases addresses@.len() - at,
    {
        match addresses[at] {
            HostAddress::V4(address) => {
                proof {
                    lemma_first_ipv4(addresses@, at as int);
                }
                return Some(address);
            },
            HostAddress::V6 => {},
        }
        at = at + 1;
    }
    proof {
        lemma_first_ipv4(addresses@, at as int);
    }
    None
}

/// Chooses the interface to capture on and the address to send from.
///
/// Fails with `InterfaceNotFound` exactly when no interface has the name,
/// and with `NoIpv4Address` exactly when the first interface of that name
/// has no IPv4 address.
pub fn select_source(interfaces: &Vec<Interface>, name: &String) -> (source: Result<
    (usize, Ipv4Address),
    CliError,
>)
    ensures
        match source {
            Ok((i, address)) => source_of(interfaces@, name@) == Ok::<
                (int, Ipv4Address),
                CliError,
            >((i as int, address)),
            Err(error) => source_of(interfaces@, name@) == Err::<(int, Ipv4Address), CliError>(
                error,
            ),
        },
{
    let i = match find_interface(interfaces, name) {
        Some(i) => i,
        None => { return Err(CliError::InterfaceNotFound); },
    };
    proof {
        lemma_first_named(interfaces@, name@);
    }
    match find_ipv4(&interfaces[i].addresses) {
        Some(address) => Ok((i, address)),
        None => Err(CliError::NoIpv4Address),
    }
}

/// Draws the source port of a scan session.
pub fn draw_source_port() -> (port: u16)
    ensures
        MIN_SOURCE_PORT <= port <= MAX_SOURCE_PORT,
{
    random_port(MIN_SOURCE_PORT, MAX_SOURCE_PORT)
}

/// Turns the command line into what is to be scanned, with the given source
/// port.
///
/// Fails with `NoTargets` exactly when no target was given; otherwise as
/// `select_source` does. A single port takes precedence over the range.
pub fn parse_cli_with(args: CliArgs, interfaces: Vec<Interface>, source_port: u16) -> (output:
    Result<ParseCliOutput, CliError>)
    ensures
        output == cli_output(args, interfaces@, source_port),
{
    if args.target_ip.len() == 0 {
        return Err(CliError::NoTargets);
    }
    let (i, source_ip) = match select_source(&interfaces, &args.interface) {
        Ok(source) => source,
        Err(error) => { return Err(error); },
    };
    proof {
        lemma_first_named(interfaces@, args.interface@);
    }
    let mut interfaces = interfaces;
    let interface = interfaces.remove(i);
    let CliArgs { target_ip, port, start_port, end_port, interface: _, verbose } = args;
    match port {
        Some(port) => Ok(
            ParseCliOutput::WithTarget {
                target_ip,
                port,
                verbose,
                interface,
                source_ip,
                source_port,
            },
        ),
        None => Ok(
            ParseCliOutput::WithRange {
                target_ip,
                start_port,
                end_port,
                verbose,
                interface,
                source_ip,
                source_port,
            },
        ),
    }
}

/// Turns the command line into what is to be scanned, drawing the session's
/// source port.
///
/// Whether it fails, and how, does not depend on the port drawn. Where it
/// succeeds, the output is that of `parse_cli_with` for some port between
/// `MIN_SOURCE_PORT` and `MAX_SOURCE_PORT`.
pub fn parse_cli(args: CliArgs, interfaces: Vec<Interface>) -> (output: Result<
    ParseCliOutput,
    CliError,
>)
    ensures
        exists|source_port: u16|
            MIN_SOURCE_PORT <= source_port <= MAX_SOURCE_PORT && output == #[trigger] cli_output(
                args,
                interfaces@,
                source_port,
            ),
        output is Err ==> output == cli_output(args, interfaces@, MIN_SOURCE_PORT),
{
    let source_port = draw_source_port();
    parse_cli_with(args, interfaces, source_port)
}

impl ParseCliOutput {
    /// The hosts to scan, in the order in which they are scanned.
    pub open spec fn targets(&self) -> Seq<Ipv4Address> {
        match self {
            ParseCliOutput::WithRange { target_ip, .. } => target_ip@,
            ParseCliOutput::WithTarget { target_ip, .. } => target_ip@,
        }
    }

    /// What is asked of each target's scan.
    pub open spec fn request(&self) -> ScanRequest {
        match self {
            ParseCliOutput::WithRange { start_port, end_port, .. } => ScanRequest::PortRange {
                start: *start_port,
                end: *end_port,
            },
            ParseCliOutput::WithTarget { port, .. } => ScanRequest::SinglePort(*port),
        }
    }

    /// The settings of the scan of `target`.
    pub open spec fn config(&self, target: Ipv4Address) -> ScanConfig {
        match self {
            ParseCliOutput::WithRange { verbose, interface, source_ip, source_port, .. } => {
                ScanConfig {
                    target_ip: target,
                    interface_index: interface.index,
                    source_ip: *source_ip,
                    source_port: *source_port,
                    verbose: *verbose,
                }
            },
            ParseCliOutput::WithTarget { verbose, interface, source_ip, source_port, .. } => {
                ScanConfig {
                    target_ip: target,
                    interface_index: interface.index,
                    source_ip: *source_ip,
                    source_port: *source_port,
                    verbose: *verbose,
                }
            },
        }
    }

    /// How many hosts are to be scanned.
    pub fn target_count(&self) -> (count: usize)
        ensures
            count == self.targets().len(),
    {
        match self {
            ParseCliOutput::WithRange { target_ip, .. } => target_ip.len(),
            ParseCliOutput::WithTarget { target_ip, .. } => target_ip.len(),
        }
    }

    /// What is asked of each target's scan: the range, or the single port.
    pub fn scan_request(&self) -> (request: ScanRequest)
        ensures
            request == self.request(),
    {
        match self {
            ParseCliOutput::WithRange { start_port, end_port, .. } => ScanRequest::PortRange {
                start: *start_port,
                end: *end_port,
            },
            ParseCliOutput::WithTarget { port, .. } => ScanRequest::SinglePort(*port),
        }
    }

    /// The settings of the scan of the target at `position`: a fresh
    /// configuration for each target, alike in all but the target. There is
    /// none for a position past the last target.
    pub fn scan_config(&self, position: usize) -> (config: Option<ScanConfig>)
        ensures
            position < self.targets().len() ==> config == Some(
                self.config(self.targets()[position as int]),
            ),
            position >= self.targets().len() ==> config.is_none(),
    {
        match self {
            ParseCliOutput::WithRange { target_ip, verbose, interface, source_ip, source_port, .. } => {
                if position < target_ip.len() {
                    Some(
                        ScanConfig {
                            target_ip: target_ip[position],
                            interface_index: interface.index,
                            source_ip: *source_ip,
                            source_port: *source_port,
                            verbose: *verbose,
                        },
                    )
                } else {
                    None
                }
            },
            ParseCliOutput::WithTarget { target_ip, verbose, interface, source_ip, source_port, .. } => {
                if position < target_ip.len() {
                    Some(
                        ScanConfig {
                            target_ip: target_ip[position],
                            interface_index: interface.index,
                            source_ip: *source_ip,
                            source_port: *source_port,
                            verbose: *verbose,
                        },
                    )
                } else {
                    None
                }
            },
        }
    }
}

impl CliError {
    /// The message that tells the user which step failed.
    pub open spec fn text(self) -> Seq<char> {
        match self {
            CliError::NoTargets => "You must at least give one valid address!"@,
            CliError::InterfaceNotFound => "Couldn't find interface with such name"@,
            CliError::NoIpv4Address => "No valid IPv4 addresses found for the given interface"@,
        }
    }

    /// The message that tells the user which step failed.
    pub fn message(&self) -> (message: String)
        ensures
            message@ == self.text(),
    {
        match self {
            CliError::NoTargets => String::from_str("You must at least give one valid address!"),
            CliError::InterfaceNotFound => String::from_str(
                "Couldn't find interface with such name",
            ),
            CliError::NoIpv4Address => String::from_str(
                "No valid IPv4 addresses found for the given interface",
            ),
        }
    }
}

impl LookupError {
    /// The code by which the failure is reported.
    pub open spec fn text(self) -> Seq<char> {
        match self {
            LookupError::LookupFailed => "LOOKUP_FAILED"@,
            LookupError::Ipv6Only => "IPV6_ONLY"@,
            LookupError::NoAddrsFound => "NO_ADDRS_FOUND"@,
        }
    }

    /// The code by which the failure is reported.
    pub fn code(&self) -> (code: String)
        ensures
            code@ == self.text(),
    {
        match self {
            LookupError::LookupFailed => String::from_str("LOOKUP_FAILED"),
            LookupError::Ipv6Only => String::from_str("IPV6_ONLY"),
            LookupError::NoAddrsFound => String::from_str("NO_ADDRS_FOUND"),
        }
    }
}

/// Picks the address to scan from what a resolver answered for a host name:
/// `None` where the resolver failed, else the addresses in its order. Only
/// the first address counts.
pub fn dns_lookup(answers: Option<Vec<HostAddress>>) -> (address: Result<Ipv4Address, LookupError>)
    ensures
        address == lookup_outcome(
            match answers {
                Some(addresses) => Some(addresses@),
                None => None,
            },
        ),
{
    match answers {
        None => Err(LookupError::LookupFailed),
        Some(addresses) => {
            if addresses.len() == 0 {
                Err(LookupError::NoAddrsFound)
            } else {
                match addresses[0] {
                    HostAddress::V4(address) => Ok(address),
                    HostAddress::V6 => Err(LookupError::Ipv6Only),
                }
            }
        },
    }
}

} // verus!
