//! The Docker container-status data source: a container is good when it
//! is running and, if it reports health at all, healthy.

use crate::config;
use crate::measurement::Measurement;
use crate::Error;
use vstd::prelude::*;

verus! {

/// A container's lifecycle status, as the host reads it from the Docker
/// daemon.
#[derive(Clone, Copy, Debug, PartialEq, Eq, Structural)]
pub enum ContainerStatus {
    Running,
    Other,
}

/// A container's health status.
#[derive(Clone, Copy, Debug, PartialEq, Eq, Structural)]
pub enum HealthStatus {
    Healthy,
    NoHealthCheck,
    Other,
}

/// The docker data source: the daemon's socket path and the watched
/// containers, which are also the ids.
#[derive(Debug)]
pub struct DockerContainerStatus {
    pub socket_path: String,
    pub containers: Vec<String>,
}

impl DockerContainerStatus {
    /// Builds the source from its configuration; every configuration is
    /// accepted.
    pub fn from_config(c: &config::CheckDockerContainerStatus) -> (r: Result<Self, Error>)
        ensures
            r is Ok,
            r matches Ok(s) ==> s.socket_path@ == c.socket_path@ && s.containers@.len()
                == c.containers@.len() && (forall|i: int|
                0 <= i < s.containers@.len() ==> (#[trigger] s.containers@[i])@
                    == c.containers@[i]@),
    {
        let n = c.containers.len();
        let mut containers: Vec<String> = Vec::new();
        for i in 0..n
            invariant
                n == c.containers@.len(),
                containers@.len() == i,
                forall|j: int| 0 <= j < i ==> (#[trigger] containers@[j])@ == c.containers@[j]@,
        {
            containers.push(c.containers[i].clone());
        }
        Ok(DockerContainerStatus { socket_path: c.socket_path.clone(), containers })
    }

    /// One container's measurement: good exactly when it is running and
    /// not reported unhealthy; a container without a readable status is
    /// an error.
    pub fn evaluate(status: Option<ContainerStatus>, health: Option<HealthStatus>) -> (r: Result<
        Option<Measurement>,
        Error,
    >)
        ensures
            status is None ==> (r matches Err(e) && e.0@ == "Could not read container status."@),
            status matches Some(st) ==> r matches Ok(Some(m)) && m matches Measurement::BinaryState(
                b,
            ) && b@ == (st == ContainerStatus::Running && (match health {
                Some(h) => h == HealthStatus::Healthy || h == HealthStatus::NoHealthCheck,
                None => true,
            })),
    {
        match status {
            None => Err(Error(String::from_str("Could not read container status."))),
            Some(st) => {
                let running = matches!(st, ContainerStatus::Running);
                let healthy = match health {
                    Some(h) => matches!(h, HealthStatus::Healthy) || matches!(
                        h,
                        HealthStatus::NoHealthCheck,
                    ),
                    None => true,
                };
                match crate::measurement::BinaryState::new(running && healthy) {
                    Ok(b) => Ok(Some(Measurement::BinaryState(b))),
                    Err(e) => Err(e),
                }
            },
        }
    }
}

} // verus!
