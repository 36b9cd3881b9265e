use vstd::prelude::*;

verus! {

/// Ethernet header fields, as the decoder renders them.
pub struct EthernetHeader {
    pub source: String,
    pub destination: String,
    pub ether_type: String,
}

pub struct Ipv4Header {
    pub version: u8,
    pub source: String,
    pub destination: String,
    pub protocol: String,
    pub ttl: u8,
}

pub struct Ipv6Header {
    pub version: u8,
    pub source: String,
    pub destination: String,
    pub next_header: String,
}

pub struct TcpHeader {
    pub source_port: u16,
    pub destination_port: u16,
    pub sequence_number: u32,
    pub syn: bool,
    pub ack: bool,
}

pub struct UdpHeader {
    pub source_port: u16,
    pub destination_port: u16,
}

pub struct IcmpHeader {
    pub icmp_type: u8,
    pub icmp_code: u8,
    pub checksum: u16,
}

/// The transport layer found inside a network packet.
pub enum Transport {
    Tcp(TcpHeader),
    Udp(UdpHeader),
    Icmp(IcmpHeader),
    Other,
}

/// The network layer found inside an Ethernet frame.
pub enum Network {
    Ipv4(Ipv4Header, Transport),
    Ipv6(Ipv6Header, Transport),
    Other,
}

/// The layers of one frame that the decoder recognised.
pub struct DecodedFrame {
    pub ethernet: EthernetHeader,
    pub network: Network,
}

pub open spec fn digit_text(d: nat) -> Seq<char> {
    if d == 0 {
        "0"@
    } else if d == 1 {
        "1"@
    } else if d == 2 {
        "2"@
    } else if d == 3 {
        "3"@
    } else if d == 4 {
        "4"@
    } else if d == 5 {
        "5"@
    } else if d == 6 {
        "6"@
    } else if d == 7 {
        "7"@
    } else if d == 8 {
        "8"@
    } else {
        "9"@
    }
}

/// The decimal numeral of `n`, without leading zeros.
pub open spec fn decimal(n: nat) -> Seq<char>
    decreases n,
{
    if n < 10 {
        digit_text(n)
    } else {
        decimal(n / 10) + digit_text(n % 10)
    }
}

pub open spec fn bool_text(b: bool) -> Seq<char> {
    if b {
        "true"@
    } else {
        "false"@
    }
}

pub open spec fn ethernet_text(h: EthernetHeader) -> Seq<char> {
    "Ethernet: Src \""@ + h.source@ + "\", Dest \""@ + h.destination@ + "\", Prot "@
        + h.ether_type@
}

pub open spec fn ipv4_text(h: Ipv4Header) -> Seq<char> {
    "IPv4: Ver "@ + decimal(h.version as nat) + ", Src "@ + h.source@ + ", Dest "@
        + h.destination@ + ", Prot "@ + h.protocol@ + ", TTL "@ + decimal(h.ttl as nat)
}

pub open spec fn ipv6_text(h: Ipv6Header) -> Seq<char> {
    "IPV6: Ver: "@ + decimal(h.version as nat) + " Src: "@ + h.source@ + " Dest: "@
        + h.destination@ + " Next: "@ + h.next_header@
}

pub open spec fn tcp_text(h: TcpHeader) -> Seq<char> {
    "TCP: Src Port: "@ + decimal(h.source_port as nat) + " Dest Port: "@ + decimal(
        h.destination_port as nat,
    ) + " Seq: "@ + decimal(h.sequence_number as nat) + " Syn: "@ + bool_text(h.syn)
        + " Ack: "@ + bool_text(h.ack)
}

pub open spec fn udp_text(h: UdpHeader) -> Seq<char> {
    "UDP: Src Port "@ + decimal(h.source_port as nat) + ", Dest Port "@ + decimal(
        h.destination_port as nat,
    )
}

pub open spec fn icmp_text(h: IcmpHeader) -> Seq<char> {
    "ICMP: Type: "@ + decimal(h.icmp_type as nat) + " Code: "@ + decimal(h.icmp_code as nat)
        + "  Checksum: "@ + decimal(h.checksum as nat)
}

/// The transport segment; empty when no known transport layer is present.
pub open spec fn transport_text(t: Transport) -> Seq<char> {
    match t {
        Transport::Tcp(h) => tcp_text(h),
        Transport::Udp(h) => udp_text(h),
        Transport::Icmp(h) => icmp_text(h),
        Transport::Other => Seq::empty(),
    }
}

/// The network segment; empty when no known network layer is present.
pub open spec fn network_text(n: Network) -> Seq<char> {
    match n {
        Network::Ipv4(h, _) => ipv4_text(h),
        Network::Ipv6(h, _) => ipv6_text(h),
        Network::Other => Seq::empty(),
    }
}

/// The transport segment of the packet carried by the network layer.
pub open spec fn inner_transport_text(n: Network) -> Seq<char> {
    match n {
        Network::Ipv4(_, t) => transport_text(t),
        Network::Ipv6(_, t) => transport_text(t),
        Network::Other => Seq::empty(),
    }
}

/// The one-line summary of a decoded frame: Ethernet, network and transport
/// segments, separated by `" | "`.
pub open spec fn summary_text(f: DecodedFrame) -> Seq<char> {
    ethernet_text(f.ethernet) + " | "@ + network_text(f.network) + " | "@ + inner_transport_text(
        f.network,
    )
}

/// The log line for a frame of `len` bytes in `mode`, or none when the frame
/// could not be decoded.
pub open spec fn line_of(mode: Seq<char>, decoded: Option<DecodedFrame>, len: nat) -> Option<Seq<char>> {
    match decoded {
        Some(f) => Some(mode + ": "@ + summary_text(f) + " | "@ + decimal(len) + " bytes"@),
        None => None,
    }
}

fn digit(d: u64) -> (r: &'static str)
    requires
        d < 10,
    ensures
        r@ == digit_text(d as nat),
{
    if d == 0 {
        "0"
    } else if d == 1 {
        "1"
    } else if d == 2 {
        "2"
    } else if d == 3 {
        "3"
    } else if d == 4 {
        "4"
    } else if d == 5 {
        "5"
    } else if d == 6 {
        "6"
    } else if d == 7 {
        "7"
    } else if d == 8 {
        "8"
    } else {
        "9"
    }
}

/// Appends the decimal numeral of `n` to `s`.
pub fn push_decimal(s: &mut String, n: u64)
    ensures
        final(s)@ == old(s)@ + decimal(n as nat),
    decreases n,
{
    if n >= 10 {
        push_decimal(s, n / 10);
    }
    s.append(digit(n % 10));
    proof {
        if n >= 10 {
            assert(old(s)@ + decimal(n as nat) =~= old(s)@ + decimal((n / 10) as nat) + digit_text((n % 10) as nat));
        }
    }
}

fn push_bool(s: &mut String, b: bool)
    ensures
        final(s)@ == old(s)@ + bool_text(b),
{
    if b {
        s.append("true");
    } else {
        s.append("false");
    }
}

/// Renders the Ethernet segment.
pub fn format_ether_frame(h: &EthernetHeader) -> (r: String)
    ensures
        r@ == ethernet_text(*h),
{
    let mut s = String::from_str("Ethernet: Src \"");
    s.append(h.source.as_str());
    s.append("\", Dest \"");
    s.append(h.destination.as_str());
    s.append("\", Prot ");
    s.append(h.ether_type.as_str());
    s
}

pub fn format_ipv4(h: &Ipv4Header) -> (r: String)
    ensures
        r@ == ipv4_text(*h),
{
    let mut s = String::from_str("IPv4: Ver ");
    push_decimal(&mut s, h.version as u64);
    s.append(", Src ");
    s.append(h.source.as_str());
    s.append(", Dest ");
    s.append(h.destination.as_str());
    s.append(", Prot ");
    s.append(h.protocol.as_str());
    s.append(", TTL ");
    push_decimal(&mut s, h.ttl as u64);
    s
}

pub fn format_ipv6(h: &Ipv6Header) -> (r: String)
    ensures
        r@ == ipv6_text(*h),
{
    let mut s = String::from_str("IPV6: Ver: ");
    push_decimal(&mut s, h.version as u64);
    s.append(" Src: ");
    s.append(h.source.as_str());
    s.append(" Dest: ");
    s.append(h.destination.as_str());
    s.append(" Next: ");
    s.append(h.next_header.as_str());
    s
}

pub fn format_tcp(h: &TcpHeader) -> (r: String)
    ensures
        r@ == tcp_text(*h),
{
    let mut s = String::from_str("TCP: Src Port: ");
    push_decimal(&mut s, h.source_port as u64);
    s.append(" Dest Port: ");
    push_decimal(&mut s, h.destination_port as u64);
    s.append(" Seq: ");
    push_decimal(&mut s, h.sequence_number as u64);
    s.append(" Syn: ");
    push_bool(&mut s, h.syn);
    s.append(" Ack: ");
    push_bool(&mut s, h.ack);
    s
}

pub fn format_udp(h: &UdpHeader) -> (r: String)
    ensures
        r@ == udp_text(*h),
{
    let mut s = String::from_str("UDP: Src Port ");
    push_decimal(&mut s, h.source_port as u64);
    s.append(", Dest Port ");
    push_decimal(&mut s, h.destination_port as u64);
    s
}

pub fn format_icmp(h: &IcmpHeader) -> (r: String)
    ensures
        r@ == icmp_text(*h),
{
    let mut s = String::from_str("ICMP: Type: ");
    push_decimal(&mut s, h.icmp_type as u64);
    s.append(" Code: ");
    push_decimal(&mut s, h.icmp_code as u64);
    s.append("  Checksum: ");
    push_decimal(&mut s, h.checksum as u64);
    s
}

/// Renders the transport segment, empty for an unrecognised layer.
pub fn format_transports(t: &Transport) -> (r: String)
    ensures
        r@ == transport_text(*t),
{
    match t {
        Transport::Tcp(h) => format_tcp(h),
        Transport::Udp(h) => format_udp(h),
        Transport::Icmp(h) => format_icmp(h),
        Transport::Other => String::new(),
    }
}

/// Renders a decoded frame as one line: the Ethernet segment, then the IPv4
/// or IPv6 segment, then the transport segment of that packet.
pub fn format_packets(frame: &DecodedFrame) -> (r: String)
    ensures
        r@ == summary_text(*frame),
{
    let mut s = format_ether_frame(&frame.ethernet);
    s.append(" | ");
    match &frame.network {
        Network::Ipv4(h, t) => {
            let ip = format_ipv4(h);
            let tr = format_transports(t);
            s.append(ip.as_str());
            s.append(" | ");
            s.append(tr.as_str());
        },
        Network::Ipv6(h, t) => {
            let ip = format_ipv6(h);
            let tr = format_transports(t);
            s.append(ip.as_str());
            s.append(" | ");
            s.append(tr.as_str());
        },
        Network::Other => {
            s.append(" | ");
            proof {
                assert(s@ =~= summary_text(*frame));
            }
        },
    }
    s
}

/// The log line for a captured frame of `len` bytes, given what the decoder
/// made of it. A frame that could not be decoded yields no line.
pub fn summary_line(mode: &str, decoded: &Option<DecodedFrame>, len: usize) -> (r: Option<String>)
    ensures
        r is None <==> decoded is None,
        r is Some ==> line_of(mode@, *decoded, len as nat) == Some(r->Some_0@),
{
    match decoded {
        None => None,
        Some(f) => {
            let mut s = String::from_str(mode);
            s.append(": ");
            let body = format_packets(f);
            s.append(body.as_str());
            s.append(" | ");
            push_decimal(&mut s, len as u64);
            s.append(" bytes");
            Some(s)
        },
    }
}

} // verus!
