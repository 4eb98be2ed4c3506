//! What a window tells the server about the process that owns it.

use crate::protocol::Call;
use crate::window::UnownedWindow;
use vstd::prelude::*;

verus! {

/// The process that creates windows, as far as the server is told.
#[derive(Debug)]
pub struct ProcessInfo {
    /// The process id.
    pub pid: u32,
    /// The name of the machine.
    pub hostname: Vec<u8>,
    /// The file name of the program, where it is known.
    pub binary_name: Option<String>,
    /// The value of the `RESOURCE_NAME` variable, where it is set.
    pub resource_name: Option<String>,
}

/// `rustix::process::getpid`, as the raw number. The id of a process is held
/// in a non-zero integer, so it is assumed not to be zero.
#[verifier::external_body]
fn process_id() -> (r: i32)
    ensures
        r != 0,
{
    rustix::process::getpid().as_raw_nonzero().get()
}

/// `rustix::system::uname`, the node name as bytes. The name is a C string,
/// whose bytes are those before its terminator: none of them is assumed to be
/// zero.
#[verifier::external_body]
fn node_name() -> (r: Vec<u8>)
    ensures
        !r@.contains(0u8),
{
    rustix::system::uname().nodename().to_bytes().to_vec()
}

impl ProcessInfo {
    /// This process: its id and the machine's name as the system reports
    /// them, with the names given.
    pub fn current(binary_name: Option<String>, resource_name: Option<String>) -> (r: ProcessInfo)
        ensures
            r.pid != 0,
            !r.hostname@.contains(0u8),
            r.binary_name == binary_name,
            r.resource_name == resource_name,
    {
        let pid = process_id();
        assert(pid as u32 != 0) by (bit_vector)
            requires
                pid != 0,
        ;
        ProcessInfo {
            pid: #[verifier::truncate]
            (pid as u32),
            hostname: node_name(),
            binary_name,
            resource_name,
        }
    }
}

impl UnownedWindow {
    /// The calls that name this process and the machine it runs on, as the
    /// system reports them.
    pub fn set_pid(&self) -> (calls: Vec<Call>)
        ensures
            exists|pid: u32, hostname: Seq<u8>|
                pid != 0 && !hostname.contains(0u8) && calls.deep_view() == self@.pid_calls(
                    pid,
                    hostname,
                ),
    {
        let info = ProcessInfo::current(None, None);
        let ghost pid = info.pid;
        let ghost hostname = info.hostname@;
        let calls = self.pid_calls(info.pid, info.hostname);
        assert(calls.deep_view() == self@.pid_calls(pid, hostname));
        calls
    }
}

} // verus!
