use sniff::format::{
    format_ether_frame, format_icmp, format_ipv4, format_ipv6, format_packets, format_tcp, format_udp, push_decimal,
    summary_line, DecodedFrame, EthernetHeader, IcmpHeader, Ipv4Header, Ipv6Header, Network,
    TcpHeader, Transport, UdpHeader,
};

fn ether() -> EthernetHeader {
    EthernetHeader {
        source: "aa:bb:cc:dd:ee:ff".to_string(),
        destination: "11:22:33:44:55:66".to_string(),
        ether_type: "Ipv4".to_string(),
    }
}

fn ipv4(t: Transport) -> Network {
    Network::Ipv4(
        Ipv4Header {
            version: 4,
            source: "10.0.0.1".to_string(),
            destination: "10.0.0.2".to_string(),
            protocol: "Tcp".to_string(),
            ttl: 64,
        },
        t,
    )
}

#[test]
fn decimal_numerals() {
    for (n, text) in [(0u64, "0"), (7, "7"), (10, "10"), (65535, "65535"), (u64::MAX, "18446744073709551615")] {
        let mut s = String::from("n=");
        push_decimal(&mut s, n);
        assert_eq!(s, format!("n={}", text));
    }
}

#[test]
fn ethernet_segment() {
    assert_eq!(
        format_ether_frame(&ether()),
        "Ethernet: Src \"aa:bb:cc:dd:ee:ff\", Dest \"11:22:33:44:55:66\", Prot Ipv4"
    );
}

#[test]
fn network_segments() {
    let v4 = Ipv4Header {
        version: 4,
        source: "192.168.1.5".to_string(),
        destination: "8.8.8.8".to_string(),
        protocol: "Udp".to_string(),
        ttl: 128,
    };
    assert_eq!(format_ipv4(&v4), "IPv4: Ver 4, Src 192.168.1.5, Dest 8.8.8.8, Prot Udp, TTL 128");
    let v6 = Ipv6Header {
        version: 6,
        source: "::1".to_string(),
        destination: "::2".to_string(),
        next_header: "Tcp".to_string(),
    };
    assert_eq!(format_ipv6(&v6), "IPV6: Ver: 6 Src: ::1 Dest: ::2 Next: Tcp");
}

#[test]
fn transport_segments() {
    let tcp = TcpHeader { source_port: 443, destination_port: 51000, sequence_number: 1234567, syn: true, ack: false };
    assert_eq!(
        format_tcp(&tcp),
        "TCP: Src Port: 443 Dest Port: 51000 Seq: 1234567 Syn: true Ack: false"
    );
    assert_eq!(
        format_udp(&UdpHeader { source_port: 53, destination_port: 0 }),
        "UDP: Src Port 53, Dest Port 0"
    );
    assert_eq!(
        format_icmp(&IcmpHeader { icmp_type: 8, icmp_code: 0, checksum: 61453 }),
        "ICMP: Type: 8 Code: 0  Checksum: 61453"
    );
}

#[test]
fn ipv4_udp_frame_summary() {
    let f = DecodedFrame {
        ethernet: ether(),
        network: ipv4(Transport::Udp(UdpHeader { source_port: 5353, destination_port: 5353 })),
    };
    assert_eq!(
        format_packets(&f),
        "Ethernet: Src \"aa:bb:cc:dd:ee:ff\", Dest \"11:22:33:44:55:66\", Prot Ipv4 | \
         IPv4: Ver 4, Src 10.0.0.1, Dest 10.0.0.2, Prot Tcp, TTL 64 | \
         UDP: Src Port 5353, Dest Port 5353"
    );
}

#[test]
fn ipv6_frame_without_known_transport() {
    let f = DecodedFrame {
        ethernet: ether(),
        network: Network::Ipv6(
            Ipv6Header {
                version: 6,
                source: "fe80::1".to_string(),
                destination: "ff02::1".to_string(),
                next_header: "HopByHop".to_string(),
            },
            Transport::Other,
        ),
    };
    assert_eq!(
        format_packets(&f),
        "Ethernet: Src \"aa:bb:cc:dd:ee:ff\", Dest \"11:22:33:44:55:66\", Prot Ipv4 | \
         IPV6: Ver: 6 Src: fe80::1 Dest: ff02::1 Next: HopByHop | "
    );
}

#[test]
fn frame_without_network_layer_has_empty_segments() {
    let f = DecodedFrame { ethernet: ether(), network: Network::Other };
    assert_eq!(
        format_packets(&f),
        "Ethernet: Src \"aa:bb:cc:dd:ee:ff\", Dest \"11:22:33:44:55:66\", Prot Ipv4 |  | "
    );
}

#[test]
fn summary_line_adds_mode_and_length() {
    let f = DecodedFrame { ethernet: ether(), network: Network::Other };
    let line = summary_line("LIVE", &Some(f), 98).unwrap();
    assert_eq!(
        line,
        "LIVE: Ethernet: Src \"aa:bb:cc:dd:ee:ff\", Dest \"11:22:33:44:55:66\", Prot Ipv4 |  |  | 98 bytes"
    );
}

#[test]
fn undecodable_frame_yields_no_line() {
    assert!(summary_line("CAPTURE", &None, 14).is_none());
}
