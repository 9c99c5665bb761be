//! The process exit-status data source: runs a configured child and
//! reports its exit code, with the captured output as placeholders.

use crate::measurement::Measurement;
use crate::placeholder::PlaceholderMap;
use crate::process::{ProcessConfig, ProcessResult};
use crate::Error;
use vstd::prelude::*;

verus! {

/// The exit-status data source: one id, the executable's file name.
#[derive(Debug)]
pub struct ProcessExitStatus {
    pub id: Vec<String>,
    pub process_config: ProcessConfig,
}

impl ProcessExitStatus {
    /// Builds the source from the process description.
    pub fn new(process_config: ProcessConfig) -> (r: Result<Self, Error>)
        ensures
            r is Ok <==> crate::process::spec_file_name(process_config.path@) is Some,
            r matches Ok(s) ==> s.id@.len() == 1 && Some(s.id@[0]@)
                == crate::process::spec_file_name(process_config.path@) && s.process_config
                == process_config,
            r matches Err(e) ==> e.0@ == "Could not parse file name from path."@,
    {
        let name = match process_config.file_name() {
            Ok(n) => String::from_str(n),
            Err(e) => {
                return Err(e);
            },
        };
        let mut id: Vec<String> = Vec::new();
        id.push(name);
        Ok(ProcessExitStatus { id, process_config })
    }

    /// One tick's measurement from a finished run: the exit code, with
    /// the captured output exposed as placeholders.
    pub fn data_from_result(&self, result: &ProcessResult, placeholders: &mut PlaceholderMap) -> (r:
        Vec<Result<Option<Measurement>, Error>>)
        ensures
            final(placeholders)@ == old(placeholders)@.insert("stdout"@, result.stdout@).insert(
                "stderr"@,
                result.stderr@,
            ),
            r@.len() == 1,
            r@[0] matches Ok(Some(m)) && m matches Measurement::StatusCode(c) && c@ == result.code,
    {
        placeholders.insert(String::from_str("stdout"), result.stdout.clone());
        placeholders.insert(String::from_str("stderr"), result.stderr.clone());
        let mut res: Vec<Result<Option<Measurement>, Error>> = Vec::new();
        match crate::measurement::StatusCode::new(result.code) {
            Ok(c) => res.push(Ok(Some(Measurement::StatusCode(c)))),
            Err(e) => res.push(Err(e)),
        }
        res
    }
}

} // verus!
