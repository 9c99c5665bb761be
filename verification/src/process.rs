//! Child-process descriptions: the executable path, arguments and
//! environment a check or action runs, with placeholder rendering.
//! Spawning the process is host work.

use crate::placeholder::PlaceholderMap;
use crate::text;
use crate::Error;
use vstd::prelude::*;

verus! {

use vstd::string::StrSliceExecFns;

/// The result of one finished child process, as the host hands it back:
/// the low byte of the exit code, and the captured (possibly truncated)
/// output streams.
#[derive(Debug)]
pub struct ProcessResult {
    pub code: u8,
    pub stdout: String,
    pub stderr: String,
}

/// One rendered environment entry: some binding of `env` with its name
/// and value rendered under `p`.
pub open spec fn spec_env_entry(
    env: Map<Seq<char>, Seq<char>>,
    p: Map<Seq<char>, Seq<char>>,
    e: (String, String),
) -> bool {
    exists|k: Seq<char>|
        #[trigger] env.contains_key(k) && e.0@ == text::spec_render(k, p) && e.1@
            == text::spec_render(env[k], p)
}

/// A rendered environment: each name and value of `env` rendered under
/// `p`, one entry per binding.
pub open spec fn spec_env_rendered(
    env: Map<Seq<char>, Seq<char>>,
    p: Map<Seq<char>, Seq<char>>,
    out: Seq<(String, String)>,
) -> bool {
    out.len() == env.len() && forall|i: int|
        0 <= i < out.len() ==> spec_env_entry(env, p, #[trigger] out[i])
}

/// The length of a path without its trailing slashes.
pub open spec fn len_wo_trailing_slashes(s: Seq<char>) -> nat
    decreases s.len(),
{
    if s.len() == 0 {
        0
    } else if s.last() == '/' {
        len_wo_trailing_slashes(s.drop_last())
    } else {
        s.len()
    }
}

/// The position after the last `/` strictly before `e`.
pub open spec fn start_of_name(s: Seq<char>, e: int) -> int
    decreases e,
{
    if e <= 0 {
        0
    } else if s[e - 1] == '/' {
        e
    } else {
        start_of_name(s, e - 1)
    }
}

/// The final component of a path, with trailing slashes ignored; absent
/// when there is none or it is `.` or `..`.
pub open spec fn spec_file_name(s: Seq<char>) -> Option<Seq<char>> {
    let e = len_wo_trailing_slashes(s) as int;
    let a = start_of_name(s, e);
    let name = s.subrange(a, e);
    if name.len() == 0 || name == "."@ || name == ".."@ {
        None
    } else {
        Some(name)
    }
}

/// How to run a child process. The path is checked by the host when the
/// configuration is loaded; here it is carried as text.
#[derive(Debug)]
pub struct ProcessConfig {
    pub path: String,
    pub arguments: Vec<String>,
    pub environment_variables: PlaceholderMap,
    pub working_directory: Option<String>,
    pub uid: Option<u32>,
    pub gid: Option<u32>,
    pub stdout_max: u32,
    pub stderr_max: u32,
}

impl ProcessConfig {
    /// A process description. The host has already checked that `path`
    /// names a file; a path without a usable final component is rejected
    /// here.
    pub fn new(
        path: String,
        arguments: Vec<String>,
        environment_variables: PlaceholderMap,
        working_directory: Option<String>,
        uid: Option<u32>,
        gid: Option<u32>,
        stdout_max: u32,
        stderr_max: u32,
    ) -> (r: Result<Self, Error>)
        ensures
            r is Ok <==> spec_file_name(path@) is Some,
            r matches Ok(c) ==> c.path == path && c.arguments == arguments
                && c.environment_variables == environment_variables && c.working_directory
                == working_directory && c.uid == uid && c.gid == gid && c.stdout_max == stdout_max
                && c.stderr_max == stderr_max,
            r matches Err(e) ==> e.0@ == "Could not parse file name from path."@,
    {
        let config = ProcessConfig {
            path,
            arguments,
            environment_variables,
            working_directory,
            uid,
            gid,
            stdout_max,
            stderr_max,
        };
        match config.file_name() {
            Ok(_) => Ok(config),
            Err(e) => Err(e),
        }
    }

    /// The file name of the executable: the path's final component.
    pub fn file_name(&self) -> (r: Result<&str, Error>)
        ensures
            match spec_file_name(self.path@) {
                Some(name) => r matches Ok(s) && s@ == name,
                None => r matches Err(e) && e.0@ == "Could not parse file name from path."@,
            },
    {
        let s = self.path.as_str();
        let n = s.unicode_len();
        let mut e: usize = n;
        proof {
            assert(s@.take(n as int) == s@);
        }
        while e > 0 && s.get_char(e - 1) == '/'
            invariant
                e <= n,
                n == s@.len(),
                len_wo_trailing_slashes(s@) == len_wo_trailing_slashes(s@.take(e as int)),
            decreases e,
        {
            proof {
                assert(s@.take(e as int).drop_last() == s@.take(e - 1));
                assert(s@.take(e as int).last() == s@[e - 1]);
            }
            e = e - 1;
        }
        proof {
            assert(s@.take(n as int) == s@);
            if e == 0 {
                assert(s@.take(0) =~= Seq::<char>::empty());
            } else {
                assert(s@.take(e as int).last() == s@[e - 1]);
            }
            assert(e == len_wo_trailing_slashes(s@));
        }
        let mut a: usize = e;
        while a > 0 && s.get_char(a - 1) != '/'
            invariant
                a <= e <= n,
                n == s@.len(),
                start_of_name(s@, e as int) == start_of_name(s@, a as int),
            decreases a,
        {
            a = a - 1;
        }
        let name = s.substring_char(a, e);
        if name.is_empty() {
            proof {
                assert(name@.len() == 0);
            }
            Err(Error(String::from_str("Could not parse file name from path.")))
        } else if text::str_eq(name, ".") || text::str_eq(name, "..") {
            Err(Error(String::from_str("Could not parse file name from path.")))
        } else {
            Ok(name)
        }
    }

    /// Renders the arguments and the environment under a placeholder
    /// map, for an action-driven run.
    pub fn render_command(&self, p: &PlaceholderMap) -> (r: (Vec<String>, Vec<(String, String)>))
        ensures
            r.0@.len() == self.arguments@.len(),
            forall|i: int|
                0 <= i < r.0@.len() ==> (#[trigger] r.0@[i])@ == text::spec_render(
                    self.arguments@[i]@,
                    p@,
                ),
            spec_env_rendered(self.environment_variables@, p@, r.1@),
    {
        let n = self.arguments.len();
        let mut arguments: Vec<String> = Vec::new();
        for i in 0..n
            invariant
                n == self.arguments@.len(),
                arguments@.len() == i,
                forall|j: int|
                    0 <= j < i ==> (#[trigger] arguments@[j])@ == text::spec_render(
                        self.arguments@[j]@,
                        p@,
                    ),
        {
            arguments.push(text::render(self.arguments[i].as_str(), p));
        }
        let pairs = self.environment_variables.pairs();
        let m = pairs.len();
        let mut environment: Vec<(String, String)> = Vec::new();
        for i in 0..m
            invariant
                m == pairs@.len(),
                pairs@.len() == self.environment_variables@.len(),
                forall|j: int|
                    0 <= j < pairs@.len() ==> self.environment_variables@.contains_key(
                        (#[trigger] pairs@[j]).0@,
                    ) && self.environment_variables@[pairs@[j].0@] == pairs@[j].1@,
                environment@.len() == i,
                forall|j: int|
                    0 <= j < i ==> (#[trigger] environment@[j]).0@ == text::spec_render(
                        pairs@[j].0@,
                        p@,
                    ) && environment@[j].1@ == text::spec_render(pairs@[j].1@, p@),
        {
            let name = text::render(pairs[i].0.as_str(), p);
            let value = text::render(pairs[i].1.as_str(), p);
            environment.push((name, value));
        }
        proof {
            assert forall|i2: int| 0 <= i2 < environment@.len() implies spec_env_entry(
                self.environment_variables@,
                p@,
                #[trigger] environment@[i2],
            ) by {
                let k0 = pairs@[i2].0@;
                assert(self.environment_variables@.contains_key(k0) && environment@[i2].0@
                    == text::spec_render(k0, p@) && environment@[i2].1@ == text::spec_render(
                    self.environment_variables@[k0],
                    p@,
                ));
            }
        }
        (arguments, environment)
    }

    /// The arguments and environment exactly as configured, for a
    /// check-driven run without placeholders.
    pub fn plain_command(&self) -> (r: (Vec<String>, Vec<(String, String)>))
        ensures
            r.0@.len() == self.arguments@.len(),
            forall|i: int|
                0 <= i < r.0@.len() ==> (#[trigger] r.0@[i])@ == self.arguments@[i]@,
            r.1@.len() == self.environment_variables@.len(),
            forall|i: int|
                0 <= i < r.1@.len() ==> self.environment_variables@.contains_key(
                    (#[trigger] r.1@[i]).0@,
                ) && r.1@[i].1@ == self.environment_variables@[r.1@[i].0@],
    {
        let n = self.arguments.len();
        let mut arguments: Vec<String> = Vec::new();
        for i in 0..n
            invariant
                n == self.arguments@.len(),
                arguments@.len() == i,
                forall|j: int| 0 <= j < i ==> (#[trigger] arguments@[j])@ == self.arguments@[j]@,
        {
            arguments.push(self.arguments[i].clone());
        }
        let environment = self.environment_variables.pairs();
        (arguments, environment)
    }
}

} // verus!
