//! The configuration defaults.

use vstd::prelude::*;

verus! {

pub fn report_interval() -> (r: u32)
    ensures
        r == 604800,
{
    604800
}

pub fn action_timeout() -> (r: u32)
    ensures
        r == 10,
{
    10
}

pub fn check_interval() -> (r: u32)
    ensures
        r == 300,
{
    300
}

pub fn check_alarm_cycles() -> (r: u32)
    ensures
        r == 1,
{
    1
}

pub fn check_alarm_recover_cycles() -> (r: u32)
    ensures
        r == 1,
{
    1
}

pub fn check_timeout() -> (r: u32)
    ensures
        r == 5,
{
    5
}

pub fn docker_socket_path() -> (r: String)
    ensures
        r@ == "/var/run/docker.sock"@,
{
    String::from_str("/var/run/docker.sock")
}

pub fn process_config_stdout_max() -> (r: u32)
    ensures
        r == 512,
{
    512
}

pub fn process_config_stderr_max() -> (r: u32)
    ensures
        r == 512,
{
    512
}

} // verus!
