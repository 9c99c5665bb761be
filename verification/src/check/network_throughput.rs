//! The network throughput data source: byte deltas between consecutive
//! interface counter readings, aware that the kernel's counters wrap at
//! the top of `u64`.

use crate::config;
use crate::measurement::{DataSize, Measurement};
use crate::Error;
use vstd::prelude::*;

verus! {


/// The last counter reading of one id, if any was seen yet.
#[derive(Debug)]
pub struct WrappingItem {
    pub last: Option<DataSize>,
}

/// The throughput a new reading denotes against the last one: the plain
/// difference, or the wrapped difference when the counter went
/// backwards.
pub open spec fn spec_wrap_delta(last: u64, data: u64) -> u64 {
    if data < last {
        ((u64::MAX - last) + 1 + data) as u64
    } else {
        (data - last) as u64
    }
}

impl WrappingItem {
    /// A fresh item that has not seen a reading.
    pub fn new() -> (r: Self)
        ensures
            r.last is None,
    {
        WrappingItem { last: None }
    }

    /// Feeds the next counter reading: the throughput since the last
    /// one, or nothing for the first reading (warming up).
    pub fn update(&mut self, data: DataSize) -> (r: Option<DataSize>)
        ensures
            final(self).last == Some(data),
            match old(self).last {
                None => r is None,
                Some(last) => r matches Some(d) && d@ == spec_wrap_delta(last@, data@),
            },
    {
        let res = match &self.last {
            Some(last) => {
                let l = last.data();
                let d = data.data();
                let delta: u64 = if d < l {
                    (u64::MAX - l) + 1 + d
                } else {
                    d - l
                };
                Some(DataSize::from_valid(delta))
            },
            None => None,
        };
        self.last = Some(data);
        res
    }
}

/// The network throughput data source: one id per watched direction of
/// each interface, in the order `rx` (when received is watched) then
/// `tx` (when sent is watched).
#[derive(Debug)]
pub struct NetworkThroughput {
    pub id: Vec<String>,
    pub interfaces: Vec<String>,
    pub received: bool,
    pub sent: bool,
    pub log_format: config::DataSizeFormat,
    pub last: Vec<WrappingItem>,
}

impl NetworkThroughput {
    pub open spec fn wf(&self) -> bool {
        self.last@.len() == self.id@.len()
    }

    /// Builds the source; at least one direction must be enabled. The
    /// ids pair each interface with the watched directions.
    pub fn from_config(c: &config::CheckNetworkThroughput) -> (r: Result<Self, Error>)
        ensures
            r is Ok <==> (c.received || c.sent),
            r matches Ok(s) ==> s.wf() && s.received == c.received && s.sent == c.sent
                && s.log_format == c.log_format && s.id@.len() == c.interfaces@.len() * (
            (if c.received {
                1int
            } else {
                0int
            }) + (if c.sent {
                1int
            } else {
                0int
            })) && (forall|i: int| 0 <= i < s.last@.len() ==> (#[trigger] s.last@[i]).last is None),
            r matches Err(e) ==> e.0@
                == "At least one of 'received' or 'sent' needs to be enabled."@,
    {
        if !c.received && !c.sent {
            return Err(
                Error(String::from_str("At least one of 'received' or 'sent' needs to be enabled.")),
            );
        }
        let n = c.interfaces.len();
        let per: usize = (if c.received {
            1usize
        } else {
            0usize
        }) + (if c.sent {
            1usize
        } else {
            0usize
        });
        let mut id: Vec<String> = Vec::new();
        let mut last: Vec<WrappingItem> = Vec::new();
        let mut interfaces: Vec<String> = Vec::new();
        for i in 0..n
            invariant
                n == c.interfaces@.len(),
                per == (if c.received {
                    1int
                } else {
                    0int
                }) + (if c.sent {
                    1int
                } else {
                    0int
                }),
                per <= 2,
                id@.len() == i * per,
                last@.len() == id@.len(),
                interfaces@.len() == i,
                forall|j: int| 0 <= j < last@.len() ==> (#[trigger] last@[j]).last is None,
        {
            if c.received {
                let mut s = c.interfaces[i].clone();
                s.append("[rx]");
                id.push(s);
                last.push(WrappingItem::new());
            }
            if c.sent {
                let mut s = c.interfaces[i].clone();
                s.append("[tx]");
                id.push(s);
                last.push(WrappingItem::new());
            }
            interfaces.push(c.interfaces[i].clone());
            proof {
                assert((i + 1) * per == i * per + per) by (nonlinear_arith);
            }
        }
        Ok(
            NetworkThroughput {
                id,
                interfaces,
                received: c.received,
                sent: c.sent,
                log_format: c.log_format,
                last,
            },
        )
    }

    /// Feeds one tick of counter readings, one per id in id order: each
    /// becomes the throughput since the last reading, nothing while an
    /// id is warming up, and the reading's own error where the host
    /// could not read the counter.
    pub fn advance(&mut self, readings: Vec<Result<u64, Error>>) -> (r: Vec<
        Result<Option<Measurement>, Error>,
    >)
        requires
            old(self).wf(),
            readings@.len() == old(self).id@.len(),
        ensures
            final(self).wf(),
            final(self).id == old(self).id,
            final(self).received == old(self).received,
            final(self).sent == old(self).sent,
            final(self).log_format == old(self).log_format,
            r@.len() == readings@.len(),
            forall|i: int|
                0 <= i < r@.len() ==> (match readings@[i] {
                    Ok(v) => (match old(self).last@[i].last {
                        None => ((#[trigger] r@[i]) matches Ok(o) && o is None) && (final(
                        self).last@[i].last matches Some(d) && d@ == v),
                        Some(prev) => (r@[i] matches Ok(Some(m)) && m
                            matches Measurement::DataSize(d) && d@ == spec_wrap_delta(prev@, v))
                            && (final(self).last@[i].last matches Some(d2) && d2@ == v),
                    }),
                    Err(e) => (r@[i] matches Err(e2) && e2.0@ == e.0@) && final(self).last@[i]
                        == old(self).last@[i],
                }),
    {
        let n = readings.len();
        let mut res: Vec<Result<Option<Measurement>, Error>> = Vec::new();
        for i in 0..n
            invariant
                n == readings@.len(),
                n == self.last@.len(),
                self.id == old(self).id,
                self.received == old(self).received,
                self.sent == old(self).sent,
                self.log_format == old(self).log_format,
                self.interfaces == old(self).interfaces,
                res@.len() == i,
                forall|j: int| i <= j < n ==> self.last@[j] == old(self).last@[j],
                forall|j: int|
                    0 <= j < i ==> (match readings@[j] {
                        Ok(v) => (match old(self).last@[j].last {
                            None => ((#[trigger] res@[j]) matches Ok(o) && o is None) && (
                            self.last@[j].last matches Some(d) && d@ == v),
                            Some(prev) => (res@[j] matches Ok(Some(m)) && m
                                matches Measurement::DataSize(d) && d@ == spec_wrap_delta(
                                prev@,
                                v,
                            )) && (self.last@[j].last matches Some(d2) && d2@ == v),
                        }),
                        Err(e) => (res@[j] matches Err(e2) && e2.0@ == e.0@) && self.last@[j]
                            == old(self).last@[j],
                    }),
        {
            match &readings[i] {
                Ok(v) => {
                    let mut item = WrappingItem { last: self.last[i].last };
                    let out = item.update(DataSize::from_valid(*v));
                    self.last.set(i, item);
                    match out {
                        Some(d) => res.push(Ok(Some(Measurement::DataSize(d)))),
                        None => res.push(Ok(None)),
                    }
                },
                Err(e) => {
                    res.push(Err(Error(e.0.clone())));
                },
            }
        }
        res
    }
}

} // verus!
