//! The filesystem usage data source: usage levels from the block counts
//! a `statvfs` call reports.

use crate::config;
use crate::measurement::Measurement;
use crate::Error;
use vstd::prelude::*;

verus! {


/// One `statvfs` reading, as the host hands it in: the block count and
/// the blocks still available to unprivileged users.
#[derive(Debug)]
pub struct StatvfsReading {
    pub blocks: u64,
    pub blocks_available: u64,
}

/// The filesystem usage data source: one id per watched mountpoint.
#[derive(Debug)]
pub struct FilesystemUsage {
    pub mountpoints: Vec<String>,
}

/// The usage level a reading denotes: never above 100.
pub open spec fn spec_fs_usage(blocks: u64, blocks_available: u64) -> int {
    let used = if blocks_available <= blocks {
        blocks - blocks_available
    } else {
        0
    };
    used * 100 / (blocks as int)
}

impl FilesystemUsage {
    /// Builds the source; empty mountpoint paths are rejected.
    pub fn from_config(c: &config::CheckFilesystemUsage) -> (r: Result<Self, Error>)
        ensures
            r is Ok <==> (forall|i: int|
                0 <= i < c.mountpoints@.len() ==> (#[trigger] c.mountpoints@[i])@.len() != 0),
            r matches Ok(s) ==> s.mountpoints@.len() == c.mountpoints@.len() && (forall|i: int|
                0 <= i < s.mountpoints@.len() ==> (#[trigger] s.mountpoints@[i])@
                    == c.mountpoints@[i]@),
            r matches Err(e) ==> e.0@ == "'mountpoints' cannot contain empty paths."@,
    {
        let n = c.mountpoints.len();
        let mut mountpoints: Vec<String> = Vec::new();
        for i in 0..n
            invariant
                n == c.mountpoints@.len(),
                mountpoints@.len() == i,
                forall|j: int| 0 <= j < i ==> (#[trigger] c.mountpoints@[j])@.len() != 0,
                forall|j: int|
                    0 <= j < i ==> (#[trigger] mountpoints@[j])@ == c.mountpoints@[j]@,
        {
            if c.mountpoints[i].as_str().is_empty() {
                return Err(Error(String::from_str("'mountpoints' cannot contain empty paths.")));
            }
            mountpoints.push(c.mountpoints[i].clone());
        }
        Ok(FilesystemUsage { mountpoints })
    }

    /// One mountpoint's measurement from its reading: the usage level,
    /// or an error where the filesystem reports no blocks at all.
    pub fn compute_one(&self, reading: &StatvfsReading) -> (r: Result<Option<Measurement>, Error>)
        ensures
            reading.blocks != 0 ==> (r matches Ok(Some(m)) && m matches Measurement::Level(l)
                && l@ == spec_fs_usage(reading.blocks, reading.blocks_available)),
            reading.blocks == 0 ==> (r matches Err(e) && e.0@
                == "Call to 'statvfs' reported no blocks."@),
    {
        if reading.blocks == 0 {
            return Err(Error(String::from_str("Call to 'statvfs' reported no blocks.")));
        }
        let blocks = reading.blocks;
        let avail = reading.blocks_available;
        let used: u64 = if avail <= blocks {
            blocks - avail
        } else {
            0
        };
        let level = ((used as u128) * 100 / (blocks as u128)) as u64;
        proof {
            assert((used as int) * 100 <= (blocks as int) * 100) by (nonlinear_arith)
                requires
                    used <= blocks,
            ;
            vstd::arithmetic::div_mod::lemma_div_is_ordered(
                (used as int) * 100,
                (blocks as int) * 100,
                blocks as int,
            );
            vstd::arithmetic::div_mod::lemma_div_multiples_vanish(100, blocks as int);
        }
        match crate::measurement::Level::new(level as u8) {
            Ok(l) => Ok(Some(Measurement::Level(l))),
            Err(e) => Err(e),
        }
    }
}

} // verus!
