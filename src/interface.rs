use vstd::prelude::*;
use crate::error::AnalyzerError;

verus! {

/// One capture-capable network interface.
pub struct Interface {
    /// The name by which the interface is opened; unique among interfaces.
    pub name: String,
    /// A human-readable description, when the system gives one.
    pub description: Option<String>,
}

/// The first interface of `devs` named `name`, if any.
pub open spec fn first_named(devs: Seq<Interface>, name: Seq<char>) -> Option<Interface>
    decreases devs.len(),
{
    if devs.len() == 0 {
        None
    } else if devs[0].name@ == name {
        Some(devs[0])
    } else {
        first_named(devs.subrange(1, devs.len() as int), name)
    }
}

/// Every interface listed under `name` is found under that name, and a name
/// that is not listed is not found.
pub proof fn listed_names_are_found(devs: Seq<Interface>, name: Seq<char>)
    ensures
        first_named(devs, name) is Some <==> exists|i: int| 0 <= i < devs.len() && (#[trigger] devs[i]).name@ == name,
        first_named(devs, name) is Some ==> first_named(devs, name)->Some_0.name@ == name,
    decreases devs.len(),
{
    if devs.len() > 0 {
        let tail = devs.subrange(1, devs.len() as int);
        listed_names_are_found(tail, name);
        if devs[0].name@ != name {
            if exists|i: int| 0 <= i < devs.len() && (#[trigger] devs[i]).name@ == name {
                let i = choose|i: int| 0 <= i < devs.len() && (#[trigger] devs[i]).name@ == name;
                assert(tail[i - 1] == devs[i]);
            }
            if first_named(tail, name) is Some {
                let k = choose|k: int| 0 <= k < tail.len() && (#[trigger] tail[k]).name@ == name;
                assert(devs[k + 1] == tail[k]);
            }
        }
    }
}

impl Interface {
    /// The default interface, from the outcome of a default-device lookup
    /// (`Err` holds why the lookup failed): `None` when the platform has no
    /// default, which is not an error.
    pub fn default_device(found: Result<Option<Interface>, String>) -> (r: Result<Option<Interface>, AnalyzerError>)
        ensures
            found matches Err(e) ==> r == Err::<Option<Interface>, AnalyzerError>(AnalyzerError::FailedToListDefaultInterface(e)),
            found is Ok ==> r == Ok::<Option<Interface>, AnalyzerError>(found->Ok_0),
    {
        match found {
            Err(e) => Err(AnalyzerError::FailedToListDefaultInterface(e)),
            Ok(d) => Ok(d),
        }
    }

    /// All capture-capable interfaces, in enumeration order, from the
    /// outcome of an enumeration (`Err` holds why it failed).
    pub fn list_interfaces(found: Result<Vec<Interface>, String>) -> (r: Result<Vec<Interface>, AnalyzerError>)
        ensures
            found matches Err(e) ==> r == Err::<Vec<Interface>, AnalyzerError>(AnalyzerError::FailedToListInterfaces(e)),
            found is Ok ==> r is Ok && r->Ok_0@ == found->Ok_0@,
    {
        match found {
            Ok(v) => Ok(v),
            Err(e) => Err(AnalyzerError::FailedToListInterfaces(e)),
        }
    }
}

/// Device resolution over the interfaces the capture library reports.
pub struct PcapInterface;

impl PcapInterface {
    /// Resolves the interface named exactly `name` (case-sensitive) among
    /// the outcome of an enumeration: the first such interface, or
    /// `NoInterfaceFound`; `DeviceLookupFailed` when the enumeration failed.
    pub fn find_device(devices: Result<Vec<Interface>, String>, name: &str) -> (r: Result<Interface, AnalyzerError>)
        ensures
            devices is Err ==> r matches Err(AnalyzerError::DeviceLookupFailed),
            devices is Ok ==> match first_named(devices->Ok_0@, name@) {
                Some(d) => r == Ok::<Interface, AnalyzerError>(d),
                None => r matches Err(AnalyzerError::NoInterfaceFound),
            },
            r is Ok ==> r->Ok_0.name@ == name@,
    {
        let mut devs = match devices {
            Ok(v) => v,
            Err(_) => { return Err(AnalyzerError::DeviceLookupFailed); },
        };
        let ghost all = devs@;
        let target = String::from_str(name);
        let mut i: usize = 0;
        assert(all.subrange(0, all.len() as int) =~= all);
        while i < devs.len()
            invariant
                devs@ == all,
                devices is Ok,
                devices->Ok_0@ == all,
                target@ == name@,
                0 <= i <= all.len(),
                first_named(all, name@) == first_named(all.subrange(i as int, all.len() as int), name@),
            decreases all.len() - i,
        {
            proof {
                let rest = all.subrange(i as int, all.len() as int);
                assert(rest.subrange(1, rest.len() as int) =~= all.subrange(i + 1, all.len() as int));
            }
            if devs[i].name == target {
                proof {
                    assert(all.subrange(i as int, all.len() as int)[0] == all[i as int]);
                }
                return Ok(devs.remove(i));
            }
            i = i + 1;
        }
        Err(AnalyzerError::NoInterfaceFound)
    }

    /// Opens a capture handle in its two steps: `created` is the outcome of
    /// creating the handle, and `activate` configures and activates a
    /// created one. A failure of either step is reported as its own error,
    /// holding the underlying cause; activation is attempted only on a
    /// created handle.
    pub fn capture_handle<C, A, F: FnOnce(C) -> Result<A, String>>(created: Result<C, String>, activate: F) -> (r: Result<A, AnalyzerError>)
        requires
            forall|c: C| activate.requires((c,)),
        ensures
            created matches Err(e) ==> r == Err::<A, AnalyzerError>(AnalyzerError::FailedToCreateCaptureHandle(e)),
            created matches Ok(c) ==> exists|res: Result<A, String>| {
                &&& activate.ensures((c,), res)
                &&& match res {
                    Ok(h) => r == Ok::<A, AnalyzerError>(h),
                    Err(e) => r == Err::<A, AnalyzerError>(AnalyzerError::FailedToOpenCaptureHandle(e)),
                }
            },
    {
        match created {
            Err(e) => Err(AnalyzerError::FailedToCreateCaptureHandle(e)),
            Ok(c) => match activate(c) {
                Ok(h) => Ok(h),
                Err(e) => Err(AnalyzerError::FailedToOpenCaptureHandle(e)),
            },
        }
    }
}

} // verus!
