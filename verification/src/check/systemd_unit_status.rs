//! The systemd unit-status data source: asks `systemctl status` (via
//! `systemd-run` for user units) and maps the exit codes the tool
//! documents: 0 active, 3 inactive, 4 no such unit.

use crate::config;
use crate::measurement::Measurement;
use crate::placeholder::PlaceholderMap;
use crate::process::ProcessConfig;
use crate::text;
use crate::Error;
use vstd::prelude::*;

verus! {

/// The command that asks for a system unit's status. The executable
/// path is a fixed constant, so no validation can fail.
pub fn process_config_system(unit: &str) -> (r: ProcessConfig)
    ensures
        r.path@ == "/usr/bin/systemctl"@,
        r.arguments@.len() == 2,
        r.arguments@[0]@ == "status"@,
        r.arguments@[1]@ == unit@,
{
    let mut arguments: Vec<String> = Vec::new();
    arguments.push(String::from_str("status"));
    arguments.push(String::from_str(unit));
    ProcessConfig {
        path: String::from_str("/usr/bin/systemctl"),
        arguments,
        environment_variables: PlaceholderMap::new(),
        working_directory: None,
        uid: None,
        gid: None,
        stdout_max: crate::config::default::process_config_stdout_max(),
        stderr_max: crate::config::default::process_config_stderr_max(),
    }
}

/// The command that asks for a user unit's status, through
/// `systemd-run` in the user's own manager. The executable path is a
/// fixed constant, so no validation can fail.
pub fn process_config_user(uid: u32, unit: &str) -> (r: ProcessConfig)
    ensures
        r.path@ == "/usr/bin/systemd-run"@,
        r.arguments@.len() == 10,
        r.arguments@[9]@ == unit@,
{
    let mut arguments: Vec<String> = Vec::new();
    arguments.push(String::from_str("--quiet"));
    arguments.push(String::from_str("--pipe"));
    arguments.push(String::from_str("--wait"));
    arguments.push(String::from_str("--collect"));
    arguments.push(String::from_str("--user"));
    let mut machine = String::from_str("--machine=");
    let uid_str = text::u64_to_string(uid as u64);
    machine.append(uid_str.as_str());
    machine.append("@.host");
    arguments.push(machine);
    arguments.push(String::from_str("/usr/bin/systemctl"));
    arguments.push(String::from_str("--user"));
    arguments.push(String::from_str("status"));
    arguments.push(String::from_str(unit));
    ProcessConfig {
        path: String::from_str("/usr/bin/systemd-run"),
        arguments,
        environment_variables: PlaceholderMap::new(),
        working_directory: None,
        uid: None,
        gid: None,
        stdout_max: crate::config::default::process_config_stdout_max(),
        stderr_max: crate::config::default::process_config_stderr_max(),
    }
}

/// The unit-status data source: one id and one command per watched
/// unit; user units report as `unit[uid]`.
#[derive(Debug)]
pub struct SystemdUnitStatus {
    pub id: Vec<String>,
    pub process_configs: Vec<ProcessConfig>,
}

impl SystemdUnitStatus {
    pub open spec fn wf(&self) -> bool {
        self.id@.len() == self.process_configs@.len()
    }

    /// Builds the source from the configured units; every configuration
    /// is accepted.
    pub fn from_config(c: &config::CheckSystemdUnitStatus) -> (r: Result<Self, Error>)
        ensures
            r is Ok,
            r matches Ok(s) ==> s.wf() && s.id@.len() == c.units@.len(),
    {
        let n = c.units.len();
        let mut id: Vec<String> = Vec::new();
        let mut process_configs: Vec<ProcessConfig> = Vec::new();
        for i in 0..n
            invariant
                n == c.units@.len(),
                id@.len() == i,
                process_configs@.len() == i,
        {
            let unit = &c.units[i];
            let uid = unit.uid();
            if uid != 0 {
                let mut s = unit.unit().clone();
                s.append("[");
                let uid_str = text::u64_to_string(uid as u64);
                s.append(uid_str.as_str());
                s.append("]");
                id.push(s);
                process_configs.push(process_config_user(uid, unit.unit().as_str()));
            } else {
                id.push(unit.unit().clone());
                process_configs.push(process_config_system(unit.unit().as_str()));
            }
        }
        Ok(SystemdUnitStatus { id, process_configs })
    }

    /// One unit's measurement from the status command's exit code:
    /// active, inactive, or the errors the other codes denote.
    pub fn status_from_code(code: u8) -> (r: Result<Option<Measurement>, Error>)
        ensures
            code == 0 ==> (r matches Ok(Some(m)) && m matches Measurement::BinaryState(b) && b@),
            code == 3 ==> (r matches Ok(Some(m)) && m matches Measurement::BinaryState(b) && !b@),
            code == 4 ==> (r matches Err(e) && e.0@ == "No such unit."@),
            code != 0 && code != 3 && code != 4 ==> (r matches Err(e) && e.0@
                == "Unknown error code "@ + text::spec_dec(code as nat) + "."@),
    {
        if code == 0 {
            match crate::measurement::BinaryState::new(true) {
                Ok(b) => Ok(Some(Measurement::BinaryState(b))),
                Err(e) => Err(e),
            }
        } else if code == 3 {
            match crate::measurement::BinaryState::new(false) {
                Ok(b) => Ok(Some(Measurement::BinaryState(b))),
                Err(e) => Err(e),
            }
        } else if code == 4 {
            Err(Error(String::from_str("No such unit.")))
        } else {
            let mut msg = String::from_str("Unknown error code ");
            let code_str = text::u64_to_string(code as u64);
            msg.append(code_str.as_str());
            msg.append(".");
            Err(Error(msg))
        }
    }
}

} // verus!
