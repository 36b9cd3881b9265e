use sniff::analyzer::Analyzer;
use sniff::error::AnalyzerError;
use sniff::format::{summary_line, DecodedFrame, EthernetHeader, Network};
use sniff::cli::{
    run, uses_default_interface, uses_interface_list, BasicCaptureArgs, InterfacesArgs, List,
    LiveStreamArgs, RunOutcome, Subcommands,
};
use sniff::command::{InterfaceCommand, InterfaceSubCommand, ListCommand, SniffCommand, SniffSubCommand};
use sniff::frame::{RawFrame, ReadPacketResult};
use sniff::interface::Interface;
use sniff::session::{Session, SessionAction, SessionEnd};

fn iface(name: &str) -> Interface {
    Interface { name: name.to_string(), description: None }
}

fn enumeration() -> Result<Vec<Interface>, String> {
    Ok(vec![iface("lo"), iface("eth0")])
}

#[test]
fn capture_file_path_joins_directory_and_name() {
    assert_eq!(Analyzer::capture_file_path("/tmp", "dump"), "/tmp/dump.pcap");
    assert_eq!(Analyzer::capture_file_path("/tmp/", "dump"), "/tmp/dump.pcap");
    assert_eq!(Analyzer::capture_file_path("", "dump"), "dump.pcap");
}

#[test]
fn default_interface_report() {
    let d = Interface { name: "eth0".to_string(), description: None };
    assert_eq!(Analyzer::show_default_interface(Ok(Some(d))).unwrap(), "Default interface: eth0");
    assert_eq!(Analyzer::show_default_interface(Ok(None)).unwrap(), "No interface found");
    assert_eq!(
        Analyzer::show_default_interface(Err("denied".to_string())).unwrap_err(),
        "Failed to find default interface denied"
    );
}

#[test]
fn interface_names_keep_order() {
    let devs = vec![
        Interface { name: "lo".to_string(), description: None },
        Interface { name: "eth0".to_string(), description: Some("wired".to_string()) },
    ];
    assert_eq!(Analyzer::interface_names(&devs), vec!["lo".to_string(), "eth0".to_string()]);
    assert!(Analyzer::interface_names(&Vec::new()).is_empty());
}

#[test]
fn list_interfaces_reports_names_or_cause() {
    assert_eq!(Analyzer::list_interfaces(enumeration()).unwrap(), vec!["lo".to_string(), "eth0".to_string()]);
    assert_eq!(
        Analyzer::list_interfaces(Err("denied".to_string())).unwrap_err(),
        "Failed to list interfaces denied"
    );
}

#[test]
fn basic_capture_resolves_device_destination_and_limit() {
    let c = Analyzer::basic_capture("/var/tmp", "dump", 5, "eth0", enumeration(), true).unwrap();
    assert_eq!(c.device.name, "eth0");
    assert_eq!(c.destination, "/var/tmp/dump.pcap");
    assert_eq!(c.session.limit, Some(5));
    assert_eq!(c.session.processed, 0);
    assert!(!c.session.is_finished());
}

#[test]
fn basic_capture_errors_in_setup_order() {
    let r = Analyzer::basic_capture("/no/such/dir", "out", 5, "wlan9", enumeration(), false);
    assert!(matches!(r, Err(AnalyzerError::NoInterfaceFound)));
    let r = Analyzer::basic_capture("/no/such/dir", "out", 5, "lo", enumeration(), false);
    assert!(matches!(r, Err(AnalyzerError::InvalidDestination)));
    let r = Analyzer::basic_capture("/tmp", "out", 5, "lo", Err("denied".to_string()), true);
    assert!(matches!(r, Err(AnalyzerError::DeviceLookupFailed)));
}

#[test]
fn live_capture_resolution() {
    let c = Analyzer::live_capture("lo", enumeration()).unwrap();
    assert_eq!(c.device.name, "lo");
    assert_eq!(c.session.limit, None);
    assert!(matches!(Analyzer::live_capture("LO", enumeration()), Err(AnalyzerError::NoInterfaceFound)));
    assert!(matches!(
        Analyzer::live_capture("lo", Err("denied".to_string())),
        Err(AnalyzerError::DeviceLookupFailed)
    ));
}

#[test]
fn run_dispatches_interfaces_commands() {
    let all = Subcommands::Interfaces(InterfacesArgs { list_option: List::All });
    assert!(matches!(
        run(all, false, enumeration(), Ok(None)),
        RunOutcome::Interfaces(Ok(ref n)) if *n == vec!["lo".to_string(), "eth0".to_string()]
    ));
    let all = Subcommands::Interfaces(InterfacesArgs { list_option: List::All });
    assert!(matches!(
        run(all, false, Err("denied".to_string()), Ok(None)),
        RunOutcome::Interfaces(Err(ref t)) if t == "Failed to list interfaces denied"
    ));
    let default = Subcommands::Interfaces(InterfacesArgs { list_option: List::Default });
    assert!(matches!(
        run(default, false, enumeration(), Ok(Some(iface("eth0")))),
        RunOutcome::DefaultInterface(Ok(ref t)) if t == "Default interface: eth0"
    ));
}

#[test]
fn run_capture_falls_back_to_default_interface() {
    let args = || BasicCaptureArgs {
        dir_name: "/tmp".to_string(),
        file_name: "out".to_string(),
        size: 3,
        interface: String::new(),
    };
    match run(Subcommands::BasicCapture(args()), true, enumeration(), Ok(Some(iface("eth0")))) {
        RunOutcome::Capture(Ok(c)) => {
            assert_eq!(c.device.name, "eth0");
            assert_eq!(c.destination, "/tmp/out.pcap");
            assert_eq!(c.session.limit, Some(3));
        }
        _ => panic!("expected a resolved capture"),
    }
    assert!(matches!(
        run(Subcommands::BasicCapture(args()), true, enumeration(), Ok(None)),
        RunOutcome::Capture(Err(AnalyzerError::NoInterfaceFound))
    ));
}

#[test]
fn run_capture_reports_setup_errors() {
    let args = |interface: &str| BasicCaptureArgs {
        dir_name: "/tmp".to_string(),
        file_name: "out".to_string(),
        size: 3,
        interface: interface.to_string(),
    };
    assert!(matches!(
        run(Subcommands::BasicCapture(args("wlan9")), true, enumeration(), Ok(None)),
        RunOutcome::Capture(Err(AnalyzerError::NoInterfaceFound))
    ));
    assert!(matches!(
        run(Subcommands::BasicCapture(args("lo")), false, enumeration(), Ok(None)),
        RunOutcome::Capture(Err(AnalyzerError::InvalidDestination))
    ));
    assert!(matches!(
        run(Subcommands::BasicCapture(args("lo")), true, Err("denied".to_string()), Ok(None)),
        RunOutcome::Capture(Err(AnalyzerError::DeviceLookupFailed))
    ));
}

#[test]
fn run_reads_only_the_lookups_it_needs() {
    let all = Subcommands::Interfaces(InterfacesArgs { list_option: List::All });
    assert!(uses_interface_list(&all) && !uses_default_interface(&all));
    let default = Subcommands::Interfaces(InterfacesArgs { list_option: List::Default });
    assert!(!uses_interface_list(&default) && uses_default_interface(&default));
    let named = Subcommands::BasicCapture(BasicCaptureArgs {
        dir_name: "/tmp".to_string(),
        file_name: "out".to_string(),
        size: 1,
        interface: "lo".to_string(),
    });
    assert!(uses_interface_list(&named) && !uses_default_interface(&named));
    let unnamed = Subcommands::BasicCapture(BasicCaptureArgs {
        dir_name: "/tmp".to_string(),
        file_name: "out".to_string(),
        size: 1,
        interface: String::new(),
    });
    assert!(uses_default_interface(&unnamed));
    let live = Subcommands::LiveStream(LiveStreamArgs { interface: "lo".to_string() });
    assert!(uses_interface_list(&live) && !uses_default_interface(&live));
    assert!(matches!(
        run(live, false, enumeration(), Err("never read".to_string())),
        RunOutcome::Live(Ok(_))
    ));
}

#[test]
fn run_stream_resolves_live_session() {
    let live = Subcommands::LiveStream(LiveStreamArgs { interface: "lo".to_string() });
    assert!(matches!(run(live, false, enumeration(), Ok(None)), RunOutcome::Live(Ok(ref c)) if c.device.name == "lo"));
}

#[test]
fn sniff_command_lists_interfaces() {
    let cmd = SniffCommand {
        subcommand: SniffSubCommand::Interface(InterfaceCommand {
            subcommand: InterfaceSubCommand::List(ListCommand { verbose: false }),
        }),
    };
    assert_eq!(cmd.run(enumeration()).unwrap().len(), 2);
    let cmd = SniffCommand {
        subcommand: SniffSubCommand::Interface(InterfaceCommand {
            subcommand: InterfaceSubCommand::List(ListCommand { verbose: true }),
        }),
    };
    assert!(matches!(
        cmd.run(Err("denied".to_string())),
        Err(AnalyzerError::FailedToListInterfaces(ref e)) if e == "denied"
    ));
}

#[test]
fn malformed_frame_is_recorded_but_not_summarised() {
    let malformed = RawFrame::new(1, 0, 3, vec![0xde, 0xad, 0x00]);
    let wellformed = RawFrame::new(2, 0, 14, vec![0u8; 14]);
    let decodes = vec![
        None,
        Some(DecodedFrame {
            ethernet: EthernetHeader {
                source: "00:00:00:00:00:00".to_string(),
                destination: "00:00:00:00:00:00".to_string(),
                ether_type: "Ipv4".to_string(),
            },
            network: Network::Other,
        }),
    ];
    let mut s = Session::bounded(2);
    let mut written = Vec::new();
    let mut lines = Vec::new();
    for (f, d) in [malformed, wellformed].into_iter().zip(decodes.iter()) {
        if let SessionAction::Record(f) = s.on_message(Some(ReadPacketResult::Success(f))) {
            written.push(f.ts_sec);
            if let Some(line) = summary_line("CAPTURE", d, f.data.len()) {
                lines.push(line);
            }
        }
    }
    assert_eq!(written, vec![1, 2]);
    assert_eq!(lines.len(), 1);
    assert!(lines[0].ends_with("| 14 bytes"));
    assert!(s.is_finished());
    assert!(matches!(s.ended, Some(SessionEnd::LimitReached)));
}
