use vstd::prelude::*;
use crate::error::AnalyzerError;
use crate::format::{DecodedFrame, line_of};
use crate::frame::RawFrame;
use crate::interface::{first_named, Interface, PcapInterface};
use crate::session::{bounded_session_records_exactly_limit, consume, recorded, successes, Session};

verus! {

/// Longest prefix of a frame that a capture handle keeps.
pub const DEFAULT_SNAPLEN: i32 = 65535;

/// Where a bounded capture writes its frames: `file_name` with the capture
/// file extension, inside the directory `dir`.
pub open spec fn capture_file_path(dir: Seq<char>, file_name: Seq<char>) -> Seq<char> {
    if dir.len() == 0 || dir.last() == '/' {
        dir + file_name + ".pcap"@
    } else {
        dir + "/"@ + file_name + ".pcap"@
    }
}

/// The report on a default-interface lookup: an informational line, or an
/// error line that carries the cause.
pub open spec fn default_interface_report(found: Result<Option<Interface>, String>) -> Result<Seq<char>, Seq<char>> {
    match found {
        Ok(Some(d)) => Ok("Default interface: "@ + d.name@),
        Ok(None) => Ok("No interface found"@),
        Err(e) => Err("Failed to find default interface "@ + e@),
    }
}

/// A capture-to-file session that is resolved and ready to be opened.
pub struct BasicCapture {
    /// The interface to capture from.
    pub device: Interface,
    /// Path of the capture file.
    pub destination: String,
    pub session: Session,
}

/// A live session that is resolved and ready to be opened.
pub struct LiveCapture {
    /// The interface to capture from.
    pub device: Interface,
    pub session: Session,
}

pub struct Analyzer;

impl Analyzer {
    /// The path of the capture file named `file_name` in directory `dir`.
    pub fn capture_file_path(dir: &str, file_name: &str) -> (r: String)
        ensures
            r@ == capture_file_path(dir@, file_name@),
    {
        let mut s = String::from_str(dir);
        let n = dir.unicode_len();
        if n > 0 && dir.get_char(n - 1) != '/' {
            s.append("/");
        }
        s.append(file_name);
        s.append(".pcap");
        s
    }

    /// Resolves a capture of `limit` frames from the interface named
    /// `interface` into the file `file_name`.pcap in the directory `path`.
    /// `devices` is the outcome of enumerating the interfaces, and
    /// `path_is_dir` tells whether `path` names an existing directory.
    /// The interface is resolved first, then the directory is checked.
    pub fn basic_capture(
        path: &str,
        file_name: &str,
        limit: usize,
        interface: &str,
        devices: Result<Vec<Interface>, String>,
        path_is_dir: bool,
    ) -> (r: Result<BasicCapture, AnalyzerError>)
        ensures
            devices is Err ==> r matches Err(AnalyzerError::DeviceLookupFailed),
            devices is Ok ==> match first_named(devices->Ok_0@, interface@) {
                None => r matches Err(AnalyzerError::NoInterfaceFound),
                Some(d) => if path_is_dir {
                    &&& r is Ok
                    &&& r->Ok_0.device == d
                    &&& r->Ok_0.session == Session::bounded_spec(limit)
                    &&& r->Ok_0.destination@ == capture_file_path(path@, file_name@)
                } else {
                    r matches Err(AnalyzerError::InvalidDestination)
                },
            },
    {
        let device = match PcapInterface::find_device(devices, interface) {
            Ok(d) => d,
            Err(e) => { return Err(e); },
        };
        if !path_is_dir {
            return Err(AnalyzerError::InvalidDestination);
        }
        let destination = Self::capture_file_path(path, file_name);
        Ok(BasicCapture { device, destination, session: Session::bounded(limit) })
    }

    /// Resolves a live session on the interface named `interface`, given the
    /// outcome of enumerating the interfaces.
    pub fn live_capture(interface: &str, devices: Result<Vec<Interface>, String>) -> (r: Result<LiveCapture, AnalyzerError>)
        ensures
            devices is Err ==> r matches Err(AnalyzerError::DeviceLookupFailed),
            devices is Ok ==> match first_named(devices->Ok_0@, interface@) {
                None => r matches Err(AnalyzerError::NoInterfaceFound),
                Some(d) => r is Ok && r->Ok_0.device == d && r->Ok_0.session == Session::unbounded_spec(),
            },
    {
        let device = match PcapInterface::find_device(devices, interface) {
            Ok(d) => d,
            Err(e) => { return Err(e); },
        };
        Ok(LiveCapture { device, session: Session::unbounded() })
    }

    /// The report on a default-interface lookup (`Err` holds why the lookup
    /// failed).
    pub fn show_default_interface(found: Result<Option<Interface>, String>) -> (r: Result<String, String>)
        ensures
            match default_interface_report(found) {
                Ok(t) => r is Ok && r->Ok_0@ == t,
                Err(t) => r is Err && r->Err_0@ == t,
            },
    {
        match found {
            Ok(Some(d)) => {
                let mut s = String::from_str("Default interface: ");
                s.append(d.name.as_str());
                Ok(s)
            },
            Ok(None) => Ok(String::from_str("No interface found")),
            Err(e) => {
                let mut s = String::from_str("Failed to find default interface ");
                s.append(e.as_str());
                Err(s)
            },
        }
    }

    /// The names of `devices`, in order.
    pub fn interface_names(devices: &Vec<Interface>) -> (r: Vec<String>)
        ensures
            r@.len() == devices@.len(),
            forall|i: int| 0 <= i < r@.len() ==> (#[trigger] r@[i])@ == devices@[i].name@,
    {
        let mut names: Vec<String> = Vec::new();
        let mut i: usize = 0;
        while i < devices.len()
            invariant
                0 <= i <= devices@.len(),
                names@.len() == i,
                forall|j: int| 0 <= j < i ==> (#[trigger] names@[j])@ == devices@[j].name@,
            decreases devices@.len() - i,
        {
            names.push(devices[i].name.clone());
            i = i + 1;
        }
        names
    }

    /// The names of all interfaces, given the outcome of an enumeration; on
    /// failure, the error line that carries the cause.
    pub fn list_interfaces(devices: Result<Vec<Interface>, String>) -> (r: Result<Vec<String>, String>)
        ensures
            devices is Ok ==> r is Ok && r->Ok_0@.len() == devices->Ok_0@.len() && forall|i: int|
                0 <= i < r->Ok_0@.len() ==> (#[trigger] r->Ok_0@[i])@ == devices->Ok_0@[i].name@,
            devices is Err ==> r is Err && r->Err_0@ == "Failed to list interfaces "@ + devices->Err_0@,
    {
        match devices {
            Ok(devs) => Ok(Self::interface_names(&devs)),
            Err(e) => {
                let mut s = String::from_str("Failed to list interfaces ");
                s.append(e.as_str());
                Err(s)
            },
        }
    }
}

/// A frame that cannot be decoded does not keep a bounded session from
/// recording it: fed one undecodable and one decodable frame, a session with
/// a limit of two records both, while only the second yields a log line.
pub proof fn undecodable_frame_is_still_recorded(
    malformed: RawFrame,
    wellformed: RawFrame,
    decoded: DecodedFrame,
    mode: Seq<char>,
)
    ensures
        recorded(consume(Session::bounded_spec(2), successes(seq![malformed, wellformed])).1) == seq![
            malformed,
            wellformed,
        ],
        line_of(mode, None, malformed.data@.len()) is None,
        line_of(mode, Some(decoded), wellformed.data@.len()) is Some,
{
    let frames = seq![malformed, wellformed];
    bounded_session_records_exactly_limit(2, frames);
    assert(frames.take(2) =~= frames);
}

} // verus!
