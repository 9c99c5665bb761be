//! The temperature data source: readings from resolved hardware
//! sensors. Resolving the configured sensor names against the sensor
//! library, and reading the values, is host work; each reading comes in
//! as whole degrees Celsius.

use crate::config;
use crate::measurement::Measurement;
use crate::Error;
use vstd::prelude::*;

verus! {

/// The temperature data source: the resolved chip/label pairs and the
/// `chip[label]` ids they report under.
#[derive(Debug)]
pub struct Temperature {
    pub id: Vec<String>,
    pub sensors: Vec<config::SensorsIdLabel>,
}

impl Temperature {
    /// Builds the source from sensors the host has already resolved to
    /// chip and label names.
    pub fn from_resolved(sensors: Vec<config::SensorsIdLabel>) -> (r: Self)
        ensures
            r.id@.len() == sensors@.len(),
            r.sensors == sensors,
            forall|i: int|
                0 <= i < sensors@.len() ==> (#[trigger] r.id@[i])@ == sensors@[i].sensor@ + "["@
                    + sensors@[i].label@ + "]"@,
    {
        let n = sensors.len();
        let mut id: Vec<String> = Vec::new();
        for i in 0..n
            invariant
                n == sensors@.len(),
                id@.len() == i,
                forall|j: int|
                    0 <= j < i ==> (#[trigger] id@[j])@ == sensors@[j].sensor@ + "["@
                        + sensors@[j].label@ + "]"@,
        {
            let mut s = sensors[i].sensor.clone();
            s.append("[");
            s.append(sensors[i].label.as_str());
            s.append("]");
            id.push(s);
            proof {
                assert(id@[i as int]@ == sensors@[i as int].sensor@ + "["@ + sensors@[
                    i as int].label@ + "]"@);
            }
        }
        Temperature { id, sensors }
    }

    /// One sensor's measurement from a reading in whole degrees; a
    /// reading below absolute zero is a sink-domain error.
    pub fn measurement_from_reading(celsius: i16) -> (r: Result<Option<Measurement>, Error>)
        ensures
            celsius >= -273 ==> (r matches Ok(Some(m)) && m matches Measurement::Temperature(t)
                && t@ == celsius),
            celsius < -273 ==> r is Err,
    {
        match crate::measurement::Temperature::new(celsius) {
            Ok(t) => Ok(Some(Measurement::Temperature(t))),
            Err(e) => Err(e),
        }
    }
}

} // verus!
