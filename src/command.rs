use vstd::prelude::*;
use crate::error::AnalyzerError;
use crate::interface::Interface;

verus! {

/// `interface list`: lists the capture-capable interfaces.
pub struct ListCommand {
    pub verbose: bool,
}

pub enum InterfaceSubCommand {
    List(ListCommand),
}

/// `interface ...`: commands on interfaces.
pub struct InterfaceCommand {
    pub subcommand: InterfaceSubCommand,
}

pub enum SniffSubCommand {
    Interface(InterfaceCommand),
}

/// The root of the command tree.
pub struct SniffCommand {
    pub subcommand: SniffSubCommand,
}

impl ListCommand {
    /// All capture-capable interfaces, given the outcome of an enumeration.
    pub fn run(self, devices: Result<Vec<Interface>, String>) -> (r: Result<Vec<Interface>, AnalyzerError>)
        ensures
            devices matches Err(e) ==> r == Err::<Vec<Interface>, AnalyzerError>(AnalyzerError::FailedToListInterfaces(e)),
            devices is Ok ==> r is Ok && r->Ok_0@ == devices->Ok_0@,
    {
        Interface::list_interfaces(devices)
    }
}

impl InterfaceCommand {
    /// Runs the interface command, given the outcome of an enumeration.
    pub fn run(self, devices: Result<Vec<Interface>, String>) -> (r: Result<Vec<Interface>, AnalyzerError>)
        ensures
            devices matches Err(e) ==> r == Err::<Vec<Interface>, AnalyzerError>(AnalyzerError::FailedToListInterfaces(e)),
            devices is Ok ==> r is Ok && r->Ok_0@ == devices->Ok_0@,
    {
        match self.subcommand {
            InterfaceSubCommand::List(c) => c.run(devices),
        }
    }
}

impl SniffCommand {
    /// Runs the command, given the outcome of an enumeration.
    pub fn run(self, devices: Result<Vec<Interface>, String>) -> (r: Result<Vec<Interface>, AnalyzerError>)
        ensures
            devices matches Err(e) ==> r == Err::<Vec<Interface>, AnalyzerError>(AnalyzerError::FailedToListInterfaces(e)),
            devices is Ok ==> r is Ok && r->Ok_0@ == devices->Ok_0@,
    {
        match self.subcommand {
            SniffSubCommand::Interface(c) => c.run(devices),
        }
    }
}

} // verus!
