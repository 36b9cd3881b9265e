use vstd::prelude::*;
use crate::analyzer::{capture_file_path, default_interface_report, Analyzer, BasicCapture, LiveCapture};
use crate::error::AnalyzerError;
use crate::interface::{first_named, Interface};
use crate::session::Session;

verus! {

/// Which interfaces to show.
#[derive(Clone, Copy, Debug, PartialEq, Eq, Structural)]
pub enum List {
    All,
    Default,
}

/// Arguments of the `interfaces` command.
pub struct InterfacesArgs {
    pub list_option: List,
}

/// Arguments of the `capture` command.
pub struct BasicCaptureArgs {
    /// The directory where the capture file is written.
    pub dir_name: String,
    /// The name of the capture file, without its extension.
    pub file_name: String,
    /// The number of frames to capture.
    pub size: usize,
    /// The interface to capture from; empty for the default interface.
    pub interface: String,
}

/// Arguments of the `stream` command.
pub struct LiveStreamArgs {
    pub interface: String,
}

/// The commands of the sniffer.
pub enum Subcommands {
    Interfaces(InterfacesArgs),
    BasicCapture(BasicCaptureArgs),
    LiveStream(LiveStreamArgs),
}

/// What running a command produced, for the caller to report or to run.
pub enum RunOutcome {
    /// The names of all interfaces, or the error line.
    Interfaces(Result<Vec<String>, String>),
    /// The report on the default interface.
    DefaultInterface(Result<String, String>),
    /// A bounded capture, resolved and ready to be opened.
    Capture(Result<BasicCapture, AnalyzerError>),
    /// A live session, resolved and ready to be opened.
    Live(Result<LiveCapture, AnalyzerError>),
}

/// The interface a capture uses: the one requested, or the default
/// interface when the request is empty (`None` when there is none).
pub open spec fn capture_interface(requested: Seq<char>, default: Result<Option<Interface>, String>) -> Option<Seq<char>> {
    if requested.len() != 0 {
        Some(requested)
    } else {
        match default {
            Ok(Some(d)) => Some(d.name@),
            _ => None,
        }
    }
}

/// Whether running `command` reads the default-interface lookup.
pub open spec fn reads_default(command: Subcommands) -> bool {
    match command {
        Subcommands::Interfaces(a) => a.list_option == List::Default,
        Subcommands::BasicCapture(a) => a.interface@.len() == 0,
        Subcommands::LiveStream(_) => false,
    }
}

/// Whether running `command` may read the interface enumeration.
pub open spec fn reads_devices(command: Subcommands) -> bool {
    match command {
        Subcommands::Interfaces(a) => a.list_option == List::All,
        _ => true,
    }
}

/// Whether `command` needs the default interface to be looked up.
pub fn uses_default_interface(command: &Subcommands) -> (r: bool)
    ensures
        r == reads_default(*command),
{
    match command {
        Subcommands::Interfaces(a) => match a.list_option {
            List::Default => true,
            List::All => false,
        },
        Subcommands::BasicCapture(a) => a.interface.as_str().unicode_len() == 0,
        Subcommands::LiveStream(_) => false,
    }
}

/// Whether `command` needs the interfaces to be enumerated.
pub fn uses_interface_list(command: &Subcommands) -> (r: bool)
    ensures
        r == reads_devices(*command),
{
    match command {
        Subcommands::Interfaces(a) => match a.list_option {
            List::All => true,
            List::Default => false,
        },
        _ => true,
    }
}

/// Runs `command` against the outcomes of enumerating the interfaces
/// (`devices`) and of looking up the default one (`default`); each is read
/// only where `reads_devices` and `reads_default` say so. For a capture,
/// `dir_is_directory` tells whether its directory exists, and an empty
/// interface name stands for the default interface; without one the capture
/// fails with `NoInterfaceFound`. A capture or stream otherwise has the
/// outcome of `Analyzer::basic_capture` or `Analyzer::live_capture` on the
/// chosen interface.
pub fn run(
    command: Subcommands,
    dir_is_directory: bool,
    devices: Result<Vec<Interface>, String>,
    default: Result<Option<Interface>, String>,
) -> (r: RunOutcome)
    ensures
        command matches Subcommands::Interfaces(a) ==> {
            &&& a.list_option == List::All ==> (r matches RunOutcome::Interfaces(n) && match devices {
                Ok(v) => {
                    &&& n is Ok
                    &&& n->Ok_0@.len() == v@.len()
                    &&& forall|i: int| 0 <= i < v@.len() ==> (#[trigger] n->Ok_0@[i])@ == v@[i].name@
                },
                Err(e) => n is Err && n->Err_0@ == "Failed to list interfaces "@ + e@,
            })
            &&& a.list_option == List::Default ==> (r matches RunOutcome::DefaultInterface(t)
                && match default_interface_report(default) {
                    Ok(x) => t is Ok && t->Ok_0@ == x,
                    Err(x) => t is Err && t->Err_0@ == x,
                })
        },
        command matches Subcommands::BasicCapture(a) ==> (r matches RunOutcome::Capture(c) && match capture_interface(a.interface@, default) {
            None => c matches Err(AnalyzerError::NoInterfaceFound),
            Some(name) => match devices {
                Err(_) => c matches Err(AnalyzerError::DeviceLookupFailed),
                Ok(v) => match first_named(v@, name) {
                    None => c matches Err(AnalyzerError::NoInterfaceFound),
                    Some(d) => if dir_is_directory {
                        &&& c is Ok
                        &&& c->Ok_0.device == d
                        &&& c->Ok_0.session == Session::bounded_spec(a.size)
                        &&& c->Ok_0.destination@ == capture_file_path(a.dir_name@, a.file_name@)
                    } else {
                        c matches Err(AnalyzerError::InvalidDestination)
                    },
                },
            },
        }),
        command matches Subcommands::LiveStream(a) ==> (r matches RunOutcome::Live(c) && match devices {
            Err(_) => c matches Err(AnalyzerError::DeviceLookupFailed),
            Ok(v) => match first_named(v@, a.interface@) {
                None => c matches Err(AnalyzerError::NoInterfaceFound),
                Some(d) => {
                    &&& c is Ok
                    &&& c->Ok_0.device == d
                    &&& c->Ok_0.session == Session::unbounded_spec()
                },
            },
        }),
{
    match command {
        Subcommands::Interfaces(a) => match a.list_option {
            List::All => RunOutcome::Interfaces(Analyzer::list_interfaces(devices)),
            List::Default => RunOutcome::DefaultInterface(Analyzer::show_default_interface(default)),
        },
        Subcommands::BasicCapture(a) => {
            let interface = if a.interface.as_str().unicode_len() == 0 {
                match default {
                    Ok(Some(d)) => d.name,
                    _ => { return RunOutcome::Capture(Err(AnalyzerError::NoInterfaceFound)); },
                }
            } else {
                a.interface
            };
            let c = Analyzer::basic_capture(
                a.dir_name.as_str(),
                a.file_name.as_str(),
                a.size,
                interface.as_str(),
                devices,
                dir_is_directory,
            );
            RunOutcome::Capture(c)
        },
        Subcommands::LiveStream(a) => {
            let c = Analyzer::live_capture(a.interface.as_str(), devices);
            RunOutcome::Live(c)
        },
    }
}

} // verus!
