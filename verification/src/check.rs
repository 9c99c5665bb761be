//! Checks: the periodic binding of one data source to per-id filters
//! and per-id alarm lists. One call of `trigger` is one tick: it takes
//! the tick's source outcome and hands back every action invocation the
//! tick asks for, in dispatch order.

pub mod docker_container_status;
pub mod filesystem_usage;
pub mod memory_usage;
pub mod network_throughput;
pub mod pressure_average;
pub mod process_exit_status;
pub mod systemd_unit_status;
pub mod temperature;

use crate::action::Invocation;
use crate::alarm::AlarmBase;
use crate::filter::WindowFilter;
use crate::measurement::{Measurement, MeasurementKind};
use crate::placeholder::PlaceholderMap;
use crate::text;
use crate::Error;
use vstd::prelude::*;

verus! {

/// The data sources a check can bind.
#[derive(Debug)]
pub enum DataSource {
    DockerContainerStatus(docker_container_status::DockerContainerStatus),
    FilesystemUsage(filesystem_usage::FilesystemUsage),
    MemoryUsage(memory_usage::MemoryUsage),
    NetworkThroughput(network_throughput::NetworkThroughput),
    PressureAverage(pressure_average::PressureAverage),
    ProcessExitStatus(process_exit_status::ProcessExitStatus),
    SystemdUnitStatus(systemd_unit_status::SystemdUnitStatus),
    Temperature(temperature::Temperature),
}

impl DataSource {
    /// The measurement kind this source produces.
    pub open spec fn spec_kind(&self) -> MeasurementKind {
        match self {
            DataSource::DockerContainerStatus(_) => MeasurementKind::BinaryState,
            DataSource::FilesystemUsage(_) => MeasurementKind::Level,
            DataSource::MemoryUsage(_) => MeasurementKind::Level,
            DataSource::NetworkThroughput(_) => MeasurementKind::DataSize,
            DataSource::PressureAverage(_) => MeasurementKind::Level,
            DataSource::ProcessExitStatus(_) => MeasurementKind::StatusCode,
            DataSource::SystemdUnitStatus(_) => MeasurementKind::BinaryState,
            DataSource::Temperature(_) => MeasurementKind::Temperature,
        }
    }

    pub open spec fn wf(&self) -> bool {
        match self {
            DataSource::NetworkThroughput(s) => s.wf(),
            DataSource::SystemdUnitStatus(s) => s.wf(),
            _ => true,
        }
    }

    pub open spec fn spec_ids(&self) -> Seq<String> {
        match self {
            DataSource::DockerContainerStatus(s) => s.containers@,
            DataSource::FilesystemUsage(s) => s.mountpoints@,
            DataSource::MemoryUsage(s) => s.id@,
            DataSource::NetworkThroughput(s) => s.id@,
            DataSource::PressureAverage(s) => s.id@,
            DataSource::ProcessExitStatus(s) => s.id@,
            DataSource::SystemdUnitStatus(s) => s.id@,
            DataSource::Temperature(s) => s.id@,
        }
    }

    /// The stable per-tick ids of this source.
    pub fn ids(&self) -> (r: &Vec<String>)
        ensures
            r@ == self.spec_ids(),
    {
        match self {
            DataSource::DockerContainerStatus(s) => &s.containers,
            DataSource::FilesystemUsage(s) => &s.mountpoints,
            DataSource::MemoryUsage(s) => &s.id,
            DataSource::NetworkThroughput(s) => &s.id,
            DataSource::PressureAverage(s) => &s.id,
            DataSource::ProcessExitStatus(s) => &s.id,
            DataSource::SystemdUnitStatus(s) => &s.id,
            DataSource::Temperature(s) => &s.id,
        }
    }
}

/// One error tick as the state machine sees it: some instant and
/// fresh identifier under which the alarm's machine stepped by the
/// error event.
pub open spec fn spec_error_step(a0: AlarmBase, a1: AlarmBase) -> bool {
    exists|now: u64, uuid: String|
        crate::alarm::state_machine::after_error(
            a0.state_machine.state,
            a0.state_machine.error_repeat_cycles,
            a1.state_machine.state,
            now,
            uuid,
        )
}

/// The placeholder map a tick starts from: the globals, the check's
/// own placeholders, and `check_name`.
pub open spec fn spec_tick_base(c: CheckBase, system_uptime: u64, minmon_uptime: u64) -> Map<
    Seq<char>,
    Seq<char>,
> {
    crate::spec_global_placeholders(system_uptime, minmon_uptime).union_prefer_right(
        c.placeholders@,
    ).insert("check_name"@, c.name@)
}

/// The error text a timed-out source call is replaced with.
pub open spec fn spec_timeout_text(timeout: u32) -> Seq<char> {
    "Timed out after "@ + text::spec_dec(timeout as nat) + " seconds."@
}

/// The per-id results a tick works on: the source's own vector, or one
/// copy of the failure (or timeout) error for every id.
pub open spec fn spec_tick_inputs(
    c: CheckBase,
    outcome: SourceOutcome,
    inp: Seq<Result<Option<Measurement>, Error>>,
) -> bool {
    match outcome {
        SourceOutcome::Data(v, _) => inp == v@,
        SourceOutcome::Failed(e) => inp.len() == c.data_source.spec_ids().len() && (forall|i: int|
            0 <= i < inp.len() ==> ((#[trigger] inp[i]) matches Err(e2) && e2.0@ == e.0@)),
        SourceOutcome::TimedOut => inp.len() == c.data_source.spec_ids().len() && (forall|i: int|
            0 <= i < inp.len() ==> ((#[trigger] inp[i]) matches Err(e2) && e2.0@
                == spec_timeout_text(c.timeout))),
    }
}

/// One filter's view of one tick: a matching measurement enters the
/// window and leaves as the reduction; a mismatched kind is rejected
/// without touching the window; a warming-up slot passes through; an
/// error advances the window with an absent slot and stays an error.
pub open spec fn spec_filter_tick(
    f0: WindowFilter,
    slot_in: Result<Option<Measurement>, Error>,
    f1: WindowFilter,
    slot_out: Result<Option<Measurement>, Error>,
) -> bool {
    &&& f1.spec_op() == f0.spec_op()
    &&& f1.spec_kind() == f0.spec_kind()
    &&& f1.spec_capacity() == f0.spec_capacity()
    &&& match slot_in {
        Ok(om) => match om {
            Some(m) => if m.spec_kind() == f0.spec_kind() {
                &&& WindowFilter::window_step(
                    f0.window(),
                    f1.window(),
                    f0.spec_capacity(),
                    Some(m),
                )
                &&& (slot_out matches Ok(o2) && o2 matches Some(m2) && m2.spec_kind()
                    == f0.spec_kind() && m2.spec_value() == crate::filter::spec_reduce(
                    f0.spec_op(),
                    f0.spec_kind(),
                    f1.window(),
                ))
            } else {
                f1 == f0 && (slot_out matches Err(e2) && e2.0@
                    == "Unexpected measurement kind for this check."@)
            },
            None => f1 == f0 && (slot_out matches Ok(o2) && o2 is None),
        },
        Err(e) => {
            &&& WindowFilter::window_step(f0.window(), f1.window(), f0.spec_capacity(), None)
            &&& (slot_out matches Err(e2) && e2.0@ == e.0@)
        },
    }
}

/// The whole filter stage: without filters the results pass through;
/// with filters, result `i` is filter `i`'s view of input `i`, results
/// beyond the inputs are dropped (and their filters untouched).
pub open spec fn spec_filter_stage(
    f0: Option<Vec<WindowFilter>>,
    f1: Option<Vec<WindowFilter>>,
    inp: Seq<Result<Option<Measurement>, Error>>,
    slots: Seq<Result<Option<Measurement>, Error>>,
) -> bool {
    match (f0, f1) {
        (None, None) => slots == inp,
        (Some(v0), Some(v1)) => {
            &&& v1@.len() == v0@.len()
            &&& slots.len() == (if inp.len() < v0@.len() {
                inp.len() as int
            } else {
                v0@.len() as int
            })
            &&& (forall|i: int|
                0 <= i < slots.len() ==> spec_filter_tick(
                    v0@[i],
                    inp[i],
                    v1@[i],
                    #[trigger] slots[i],
                ))
            &&& (forall|i: int| slots.len() <= i < v1@.len() ==> v1@[i] == v0@[i])
        },
        _ => false,
    }
}

/// One alarm's view of one tick: a matching measurement is a data tick,
/// an error slot is an error tick with `check_error` layered in, and a
/// warming-up slot, a mismatched kind or a missing slot leave the alarm
/// untouched with nothing dispatched.
pub open spec fn spec_alarm_tick(
    a0: AlarmBase,
    a1: AlarmBase,
    slot: Option<Result<Option<Measurement>, Error>>,
    base: Map<Seq<char>, Seq<char>>,
    invs: Seq<Invocation>,
) -> bool {
    match slot {
        None => a1 == a0 && invs.len() == 0,
        Some(s) => match s {
            Ok(om) => match om {
                Some(m) => if m.spec_kind() == a0.data_sink.spec_kind() {
                    crate::alarm::spec_put_data_step(a0, a1, m, base, invs) && a1.wf()
                        && a0.same_shape(&a1)
                } else {
                    a1 == a0 && invs.len() == 0
                },
                None => a1 == a0 && invs.len() == 0,
            },
            Err(e) => crate::alarm::spec_put_error_step(
                a0,
                a1,
                base.insert("check_error"@, e.0@),
                invs,
            ) && a1.wf() && a0.same_shape(&a1),
        },
    }
}

/// The invocations of a row of alarms, in alarm order.
pub open spec fn concat_invocations(s: Seq<Seq<Invocation>>) -> Seq<Invocation>
    decreases s.len(),
{
    if s.len() == 0 {
        Seq::empty()
    } else {
        concat_invocations(s.drop_last()) + s.last()
    }
}

/// The invocations of all ids' rows, in id-then-alarm order.
pub open spec fn concat_rows(s: Seq<Seq<Seq<Invocation>>>) -> Seq<Invocation>
    decreases s.len(),
{
    if s.len() == 0 {
        Seq::empty()
    } else {
        concat_rows(s.drop_last()) + concat_invocations(s.last())
    }
}

/// What one tick's data-source call came to: the per-id results with
/// any placeholders the source contributed, or a whole-call failure, or
/// a timeout.
#[derive(Debug)]
pub enum SourceOutcome {
    Data(Vec<Result<Option<Measurement>, Error>>, PlaceholderMap),
    Failed(Error),
    TimedOut,
}

/// One periodic check: a data source, optional per-id filters, and the
/// alarms bound to each id.
#[derive(Debug)]
pub struct CheckBase {
    pub interval: u32,
    pub name: String,
    pub timeout: u32,
    pub placeholders: PlaceholderMap,
    pub filters: Option<Vec<WindowFilter>>,
    pub alarms: Vec<Vec<AlarmBase>>,
    pub data_source: DataSource,
}

impl CheckBase {
    pub open spec fn wf(&self) -> bool {
        &&& 1 <= self.interval
        &&& 1 <= self.timeout <= self.interval
        &&& self.data_source.wf()
        &&& self.alarms@.len() == self.data_source.spec_ids().len()
        &&& (forall|i: int, j: int|
            0 <= i < self.alarms@.len() && 0 <= j < self.alarms@[i].len()
                ==> (#[trigger] self.alarms@[i][j]).wf())
        &&& (self.filters matches Some(fs) ==> fs@.len() == self.data_source.spec_ids().len() && (
        forall|i: int|
            0 <= i < fs@.len() ==> (#[trigger] fs@[i]).wf() && fs@[i].spec_kind()
                == self.data_source.spec_kind()))
    }

    /// A check; a zero interval, an empty name, a zero timeout or a
    /// timeout above the interval are rejected. Without a configured
    /// timeout, the default (capped at the interval) applies.
    pub fn new(
        interval: u32,
        name: String,
        timeout: Option<u32>,
        placeholders: PlaceholderMap,
        filters: Option<Vec<WindowFilter>>,
        data_source: DataSource,
        alarms: Vec<Vec<AlarmBase>>,
    ) -> (r: Result<Self, Error>)
        requires
            data_source.wf(),
            alarms@.len() == data_source.spec_ids().len(),
            forall|i: int, j: int|
                0 <= i < alarms@.len() && 0 <= j < alarms@[i].len() ==> (
                #[trigger] alarms@[i][j]).wf(),
            filters matches Some(fs) ==> fs@.len() == data_source.spec_ids().len() && (forall|
                i: int,
            |
                0 <= i < fs@.len() ==> (#[trigger] fs@[i]).wf() && fs@[i].spec_kind()
                    == data_source.spec_kind()),
        ensures
            r is Ok <==> (interval != 0 && name@.len() != 0 && (timeout matches Some(t) ==> 1 <= t
                <= interval)),
            r matches Ok(c) ==> c.wf() && c.interval == interval && c.name == name && c.timeout
                == (match timeout {
                Some(t) => t,
                None => if interval < 5 {
                    interval
                } else {
                    5
                },
            }) && c.placeholders == placeholders && c.filters == filters && c.data_source
                == data_source && c.alarms == alarms,
            r matches Err(e) ==> e.0@ == (if interval == 0 {
                "'interval' cannot be 0."@
            } else if name@.len() == 0 {
                "'name' cannot be empty."@
            } else if timeout matches Some(t) && t == 0 {
                "'timeout' cannot be 0."@
            } else {
                "'timeout' cannot be greater than 'interval'."@
            }),
    {
        if interval == 0 {
            Err(Error(String::from_str("'interval' cannot be 0.")))
        } else if name.as_str().is_empty() {
            Err(Error(String::from_str("'name' cannot be empty.")))
        } else if match timeout {
            Some(t) => t == 0,
            None => false,
        } {
            Err(Error(String::from_str("'timeout' cannot be 0.")))
        } else {
            let t_over = match timeout {
                Some(t) => t > interval,
                None => false,
            };
            if t_over {
                Err(Error(String::from_str("'timeout' cannot be greater than 'interval'.")))
            } else {
                let timeout = match timeout {
                    Some(t) => t,
                    None => if interval < crate::config::default::check_timeout() {
                        interval
                    } else {
                        crate::config::default::check_timeout()
                    },
                };
                Ok(
                    CheckBase {
                        interval,
                        name,
                        timeout,
                        placeholders,
                        filters,
                        data_source,
                        alarms,
                    },
                )
            }
        }
    }

    /// Runs one tick: layers the global, check and source placeholders,
    /// substitutes a per-id error for every id when the source call
    /// failed or timed out, feeds each id's result through its filter,
    /// and hands each id's result to each of its alarms in configured
    /// order. The returned invocations are everything the tick asks the
    /// host to perform, in id-then-alarm dispatch order. Ticks of one
    /// check serialize through the exclusive borrow: every observer sees
    /// them in call order, and each alarm sees at most one event per
    /// tick.
    pub fn trigger(
        &mut self,
        outcome: SourceOutcome,
        system_uptime: u64,
        minmon_uptime: u64,
    ) -> (r: Vec<Invocation>)
        requires
            old(self).wf(),
        ensures
            final(self).wf(),
            final(self).interval == old(self).interval,
            final(self).name == old(self).name,
            final(self).timeout == old(self).timeout,
            final(self).placeholders == old(self).placeholders,
            final(self).data_source.spec_ids() == old(self).data_source.spec_ids(),
            final(self).data_source.spec_kind() == old(self).data_source.spec_kind(),
            final(self).alarms@.len() == old(self).alarms@.len(),
            forall|i: int|
                0 <= i < final(self).alarms@.len() ==> (#[trigger] final(self).alarms@[i]).len()
                    == old(self).alarms@[i].len() && (forall|j: int|
                    0 <= j < final(self).alarms@[i].len() ==> (
                    #[trigger] final(self).alarms@[i][j]).same_shape(&old(self).alarms@[i][j])),
            !(outcome is Data) ==> forall|i: int, j: int|
                0 <= i < final(self).alarms@.len() && 0 <= j < final(self).alarms@[i].len()
                    ==> spec_error_step(
                    old(self).alarms@[i][j],
                    #[trigger] final(self).alarms@[i][j],
                ),
            exists|
                inp: Seq<Result<Option<Measurement>, Error>>,
                slots: Seq<Result<Option<Measurement>, Error>>,
                segs: Seq<Seq<Seq<Invocation>>>,
            |
                #![trigger spec_tick_inputs(*old(self), outcome, inp), spec_filter_stage(old(self).filters, final(self).filters, inp, slots), concat_rows(segs)]
                {
                    let base = match outcome {
                        SourceOutcome::Data(_, extra) => spec_tick_base(
                            *old(self),
                            system_uptime,
                            minmon_uptime,
                        ).union_prefer_right(extra@),
                        _ => spec_tick_base(*old(self), system_uptime, minmon_uptime),
                    };
                    &&& spec_tick_inputs(*old(self), outcome, inp)
                    &&& spec_filter_stage(old(self).filters, final(self).filters, inp, slots)
                    &&& segs.len() == old(self).alarms@.len()
                    &&& (forall|i: int|
                        0 <= i < segs.len() ==> (#[trigger] segs[i]).len() == old(
                        self,
                        ).alarms@[i].len())
                    &&& (forall|i: int, j: int|
                        0 <= i < segs.len() && 0 <= j < segs[i].len() ==> spec_alarm_tick(
                            old(self).alarms@[i][j],
                            final(self).alarms@[i][j],
                            if i < slots.len() {
                                Some(slots[i])
                            } else {
                                None
                            },
                            base,
                            #[trigger] segs[i][j],
                        ))
                    &&& r@ == concat_rows(segs)
                },
    {
        let ghost outcome0 = outcome;
        let ghost base0 = spec_tick_base(*old(self), system_uptime, minmon_uptime);
        let mut placeholders = crate::global_placeholders(system_uptime, minmon_uptime);
        placeholders.merge(&self.placeholders);
        placeholders.insert(String::from_str("check_name"), self.name.clone());
        proof {
            assert(placeholders@ == base0);
        }
        let ids_len = self.data_source.ids().len();
        let mut data_vec: Vec<Result<Option<Measurement>, Error>> = match outcome {
            SourceOutcome::Data(v, extra) => {
                placeholders.merge(&extra);
                v
            },
            SourceOutcome::Failed(e) => Self::error_vec(ids_len, &e),
            SourceOutcome::TimedOut => {
                let mut msg = String::from_str("Timed out after ");
                let t = text::u64_to_string(self.timeout as u64);
                msg.append(t.as_str());
                msg.append(" seconds.");
                proof {
                    assert(msg@ == spec_timeout_text(old(self).timeout));
                }
                Self::error_vec(ids_len, &Error(msg))
            },
        };
        let ghost inp0 = data_vec@;
        let ghost base = placeholders@;
        proof {
            assert(spec_tick_inputs(*old(self), outcome0, inp0));
            assert(base == (match outcome0 {
                SourceOutcome::Data(_, extra) => base0.union_prefer_right(extra@),
                _ => base0,
            }));
        }
        let mut filters_local: Option<Vec<WindowFilter>> = None;
        core::mem::swap(&mut filters_local, &mut self.filters);
        match filters_local {
            Some(fs) => {
                let (new_fs, new_data) = Self::filter_stage(fs, data_vec);
                self.filters = Some(new_fs);
                data_vec = new_data;
            },
            None => {
                self.filters = None;
            },
        }
        proof {
            assert(spec_filter_stage(old(self).filters, self.filters, inp0, data_vec@));
        }
        let mut rows: Vec<Vec<AlarmBase>> = Vec::new();
        core::mem::swap(&mut rows, &mut self.alarms);
        let ghost rows0 = rows@;
        let (new_rows, out) = Self::alarm_stage(rows, &data_vec, &placeholders);
        self.alarms = new_rows;
        proof {
            let segs = choose|segs: Seq<Seq<Seq<Invocation>>>|
                {
                    &&& segs.len() == rows0.len()
                    &&& (forall|p: int|
                        0 <= p < segs.len() ==> (#[trigger] segs[p]).len() == rows0[p].len())
                    &&& (forall|p: int, q: int|
                        0 <= p < segs.len() && 0 <= q < segs[p].len() ==> spec_alarm_tick(
                            rows0[p][q],
                            self.alarms@[p][q],
                            if p < data_vec@.len() {
                                Some(data_vec@[p])
                            } else {
                                None
                            },
                            base,
                            #[trigger] segs[p][q],
                        ))
                    &&& out@ == concat_rows(segs)
                };
            if !(outcome0 is Data) {
                assert forall|i: int, j: int|
                    0 <= i < self.alarms@.len() && 0 <= j < self.alarms@[i].len()
                    implies spec_error_step(
                    old(self).alarms@[i][j],
                    #[trigger] self.alarms@[i][j],
                ) by {
                    assert(i < data_vec@.len());
                    assert(data_vec@[i] is Err);
                    assert(spec_alarm_tick(
                        rows0[i][j],
                        self.alarms@[i][j],
                        Some(data_vec@[i]),
                        base,
                        segs[i][j],
                    ));
                }
            }
        }
        out
    }

    /// The filter stage of one tick: result `i` is filter `i`'s view of
    /// input `i`; inputs beyond the filters, and filters beyond the
    /// inputs, are left as they are.
    fn filter_stage(fs: Vec<WindowFilter>, data_vec: Vec<Result<Option<Measurement>, Error>>) -> (r:
        (Vec<WindowFilter>, Vec<Result<Option<Measurement>, Error>>))
        requires
            forall|j: int| 0 <= j < fs@.len() ==> (#[trigger] fs@[j]).wf(),
        ensures
            r.0@.len() == fs@.len(),
            forall|j: int|
                0 <= j < r.0@.len() ==> (#[trigger] r.0@[j]).wf() && r.0@[j].spec_kind()
                    == fs@[j].spec_kind(),
            spec_filter_stage(Some(fs), Some(r.0), data_vec@, r.1@),
    {
        let ghost fs0 = fs@;
        let ghost dv0 = data_vec@;
        let mut fs = fs;
        let mut data_vec = data_vec;
        let n = fs.len();
        let mut new_fs: Vec<WindowFilter> = Vec::new();
        let mut new_data: Vec<Result<Option<Measurement>, Error>> = Vec::new();
        let mut i: usize = 0;
        while i < n
            invariant
                n == fs0.len(),
                fs@ == fs0.skip(i as int),
                i <= n,
                new_fs@.len() == i,
                forall|j: int|
                    0 <= j < i ==> (#[trigger] new_fs@[j]).wf() && new_fs@[j].spec_kind()
                        == fs0[j].spec_kind(),
                forall|j: int| 0 <= j < fs0.len() ==> (#[trigger] fs0[j]).wf(),
                i <= dv0.len() ==> data_vec@ == dv0.skip(i as int),
                i > dv0.len() ==> data_vec@.len() == 0,
                new_data@.len() == (if i < dv0.len() {
                    i as int
                } else {
                    dv0.len() as int
                }),
                forall|j: int|
                    0 <= j < new_data@.len() ==> spec_filter_tick(
                        fs0[j],
                        dv0[j],
                        new_fs@[j],
                        #[trigger] new_data@[j],
                    ),
                forall|j: int| dv0.len() <= j < i ==> new_fs@[j] == fs0[j],
            decreases n - i,
        {
            proof {
                assert(fs0.skip(i as int).drop_first() =~= fs0.skip(i + 1));
                if i < dv0.len() {
                    assert(dv0.skip(i as int).drop_first() =~= dv0.skip(i + 1));
                    assert(data_vec@[0] == dv0[i as int]);
                }
            }
            let mut f = fs.remove(0);
            if data_vec.len() > 0 {
                let d = data_vec.remove(0);
                match d {
                    Ok(Some(m)) => {
                        if m.kind() == f.kind() {
                            let m2 = f.filter(m);
                            new_data.push(Ok(Some(m2)));
                        } else {
                            new_data.push(
                                Err(
                                    Error(
                                        String::from_str(
                                            "Unexpected measurement kind for this check.",
                                        ),
                                    ),
                                ),
                            );
                        }
                    },
                    Ok(None) => {
                        new_data.push(Ok(None));
                    },
                    Err(e) => {
                        f.error();
                        new_data.push(Err(e));
                    },
                }
            }
            new_fs.push(f);
            i = i + 1;
        }
        proof {
            assert(new_data@.len() == (if dv0.len() < fs0.len() {
                dv0.len() as int
            } else {
                fs0.len() as int
            }));
        }
        (new_fs, new_data)
    }

    /// The alarm stage of one tick: each id's slot goes to each of its
    /// alarms in configured order, and the asked-for invocations come
    /// back concatenated in that order. An alarm whose id has no slot is
    /// left untouched.
    fn alarm_stage(
        rows: Vec<Vec<AlarmBase>>,
        data_vec: &Vec<Result<Option<Measurement>, Error>>,
        placeholders: &PlaceholderMap,
    ) -> (r: (Vec<Vec<AlarmBase>>, Vec<Invocation>))
        requires
            forall|p: int, q: int|
                0 <= p < rows@.len() && 0 <= q < rows@[p].len() ==> (#[trigger] rows@[p][q]).wf(),
        ensures
            r.0@.len() == rows@.len(),
            forall|p: int|
                0 <= p < r.0@.len() ==> (#[trigger] r.0@[p]).len() == rows@[p].len() && (forall|
                    q: int,
                |
                    0 <= q < r.0@[p].len() ==> (#[trigger] r.0@[p][q]).wf()
                        && r.0@[p][q].same_shape(&rows@[p][q])),
            exists|segs: Seq<Seq<Seq<Invocation>>>|
                {
                    &&& segs.len() == rows@.len()
                    &&& (forall|p: int|
                        0 <= p < segs.len() ==> (#[trigger] segs[p]).len() == rows@[p].len())
                    &&& (forall|p: int, q: int|
                        0 <= p < segs.len() && 0 <= q < segs[p].len() ==> spec_alarm_tick(
                            rows@[p][q],
                            r.0@[p][q],
                            if p < data_vec@.len() {
                                Some(data_vec@[p])
                            } else {
                                None
                            },
                            placeholders@,
                            #[trigger] segs[p][q],
                        ))
                    &&& r.1@ == concat_rows(segs)
                },
    {
        let ghost rows0 = rows@;
        let ghost base = placeholders@;
        let mut rows = rows;
        let mut out: Vec<Invocation> = Vec::new();
        let m = rows.len();
        let mut new_rows: Vec<Vec<AlarmBase>> = Vec::new();
        let ghost mut seg_rows: Seq<Seq<Seq<Invocation>>> = Seq::empty();
        let mut i: usize = 0;
        while i < m
            invariant
                m == rows0.len(),
                rows@ == rows0.skip(i as int),
                i <= m,
                new_rows@.len() == i,
                forall|p: int, q: int|
                    0 <= p < rows0.len() && 0 <= q < rows0[p].len() ==> (
                    #[trigger] rows0[p][q]).wf(),
                forall|p: int|
                    0 <= p < i ==> (#[trigger] new_rows@[p]).len() == rows0[p].len() && (forall|
                        q: int,
                    |
                        0 <= q < new_rows@[p].len() ==> (#[trigger] new_rows@[p][q]).wf()
                            && new_rows@[p][q].same_shape(&rows0[p][q])),
                base == placeholders@,
                seg_rows.len() == i,
                forall|p: int|
                    0 <= p < i ==> (#[trigger] seg_rows[p]).len() == rows0[p].len(),
                forall|p: int, q: int|
                    0 <= p < i && 0 <= q < seg_rows[p].len() ==> spec_alarm_tick(
                        rows0[p][q],
                        new_rows@[p][q],
                        if p < data_vec@.len() {
                            Some(data_vec@[p])
                        } else {
                            None
                        },
                        base,
                        #[trigger] seg_rows[p][q],
                    ),
                out@ == concat_rows(seg_rows),
            decreases m - i,
        {
            proof {
                assert(rows0.skip(i as int).drop_first() =~= rows0.skip(i + 1));
            }
            let mut row = rows.remove(0);
            let ghost row0 = row@;
            let k = row.len();
            let mut new_row: Vec<AlarmBase> = Vec::new();
            let ghost mut row_segs: Seq<Seq<Invocation>> = Seq::empty();
            let mut j: usize = 0;
            while j < k
                invariant
                    k == row0.len(),
                    row@ == row0.skip(j as int),
                    j <= k,
                    new_row@.len() == j,
                    i < rows0.len(),
                    rows0[i as int]@ == row0,
                    forall|q: int| 0 <= q < row0.len() ==> (#[trigger] row0[q]).wf(),
                    forall|q: int|
                        0 <= q < j ==> (#[trigger] new_row@[q]).wf() && new_row@[q].same_shape(
                            &row0[q],
                        ),
                    base == placeholders@,
                    row_segs.len() == j,
                    forall|q: int|
                        0 <= q < j ==> spec_alarm_tick(
                            row0[q],
                            new_row@[q],
                            if i < data_vec@.len() {
                                Some(data_vec@[i as int])
                            } else {
                                None
                            },
                            base,
                            #[trigger] row_segs[q],
                        ),
                    seg_rows.len() == i,
                    out@ == concat_rows(seg_rows) + concat_invocations(row_segs),
                decreases k - j,
            {
                proof {
                    assert(row0.skip(j as int).drop_first() =~= row0.skip(j + 1));
                }
                let mut a = row.remove(0);
                let ghost a0 = row0[j as int];
                let ghost mut seg: Seq<Invocation> = Seq::empty();
                if i < data_vec.len() {
                    match &data_vec[i] {
                        Ok(Some(meas)) => {
                            let m2 = *meas;
                            let p2 = placeholders.duplicate();
                            let ghost pv = p2@;
                            proof {
                                assert(pv == base);
                            }
                            match a.put_data(&m2, p2) {
                                Ok(mut invs) => {
                                    proof {
                                        seg = invs@;
                                        assert(crate::alarm::spec_put_data_step(
                                            a0,
                                            a,
                                            m2,
                                            base,
                                            seg,
                                        ));
                                    }
                                    out.append(&mut invs);
                                },
                                Err(_) => {
                                    proof {
                                        assert(a.state_machine =~= a0.state_machine);
                                        assert(a =~= a0);
                                    }
                                },
                            }
                        },
                        Ok(None) => {},
                        Err(e) => {
                            let mut p = placeholders.duplicate();
                            p.insert(String::from_str("check_error"), e.0.clone());
                            let ghost pv = p@;
                            proof {
                                assert(pv == base.insert("check_error"@, e.0@));
                            }
                            let e2 = Error(e.0.clone());
                            match a.put_error(&e2, p) {
                                Ok(mut invs) => {
                                    proof {
                                        seg = invs@;
                                        assert(crate::alarm::spec_put_error_step(a0, a, pv, seg));
                                    }
                                    out.append(&mut invs);
                                },
                                Err(_) => {},
                            }
                        },
                    }
                }
                proof {
                    assert(spec_alarm_tick(
                        a0,
                        a,
                        if i < data_vec@.len() {
                            Some(data_vec@[i as int])
                        } else {
                            None
                        },
                        base,
                        seg,
                    ));
                    assert(row_segs.push(seg).drop_last() == row_segs);
                    row_segs = row_segs.push(seg);
                }
                new_row.push(a);
                j = j + 1;
            }
            proof {
                assert(seg_rows.push(row_segs).drop_last() == seg_rows);
                seg_rows = seg_rows.push(row_segs);
            }
            new_rows.push(new_row);
            i = i + 1;
        }
        proof {
            assert(rows0.skip(m as int) =~= Seq::<Vec<AlarmBase>>::empty());
        }
        (new_rows, out)
    }

    /// Replaces a temperature source's configured sensors with the
    /// chip/label pairs the host resolved, one for one. Succeeds exactly
    /// on a temperature check given one resolved sensor per id.
    pub fn resolve_temperature_sensors(
        &mut self,
        resolved: Vec<crate::config::SensorsIdLabel>,
    ) -> (r: Result<(), Error>)
        requires
            old(self).wf(),
        ensures
            final(self).wf(),
            r is Ok <==> (old(self).data_source is Temperature && resolved@.len() == old(
                self,
            ).data_source.spec_ids().len()),
            r is Err ==> *final(self) == *old(self),
            r is Ok ==> ({
                &&& final(self).data_source matches DataSource::Temperature(src)
                    && src.sensors == resolved && src.id@.len() == resolved@.len() && (forall|
                    i: int,
                |
                    0 <= i < resolved@.len() ==> (#[trigger] src.id@[i])@ == resolved@[i].sensor@
                        + "["@ + resolved@[i].label@ + "]"@)
                &&& final(self).interval == old(self).interval
                &&& final(self).name == old(self).name
                &&& final(self).timeout == old(self).timeout
                &&& final(self).placeholders == old(self).placeholders
                &&& final(self).filters == old(self).filters
                &&& final(self).alarms == old(self).alarms
            }),
            final(self).alarms@.len() == old(self).alarms@.len(),
    {
        let n = resolved.len();
        match &self.data_source {
            DataSource::Temperature(_) => {},
            _ => {
                return Err(
                    Error(String::from_str("Only a temperature check has sensors to resolve.")),
                );
            },
        }
        if n != self.data_source.ids().len() {
            return Err(
                Error(String::from_str("Resolved sensors do not match the configured ones.")),
            );
        }
        let source = temperature::Temperature::from_resolved(resolved);
        self.data_source = DataSource::Temperature(source);
        Ok(())
    }

    /// One copy of the error for every id.
    fn error_vec(n: usize, e: &Error) -> (r: Vec<Result<Option<Measurement>, Error>>)
        ensures
            r@.len() == n,
            forall|i: int|
                0 <= i < n ==> ((#[trigger] r@[i]) matches Err(e2) && e2.0@ == e.0@),
    {
        let mut res: Vec<Result<Option<Measurement>, Error>> = Vec::new();
        for i in 0..n
            invariant
                res@.len() == i,
                forall|j: int|
                    0 <= j < i ==> ((#[trigger] res@[j]) matches Err(e2) && e2.0@ == e.0@),
        {
            res.push(Err(Error(e.0.clone())));
        }
        res
    }
}

/// The measurement kind each source configuration produces.
pub open spec fn spec_source_kind(ct: crate::config::CheckType) -> MeasurementKind {
    match ct {
        crate::config::CheckType::DockerContainerStatus(_) => MeasurementKind::BinaryState,
        crate::config::CheckType::FilesystemUsage(_) => MeasurementKind::Level,
        crate::config::CheckType::MemoryUsage(_) => MeasurementKind::Level,
        crate::config::CheckType::NetworkThroughput(_) => MeasurementKind::DataSize,
        crate::config::CheckType::PressureAverage(_) => MeasurementKind::Level,
        crate::config::CheckType::ProcessExitStatus(_) => MeasurementKind::StatusCode,
        crate::config::CheckType::SystemdUnitStatus(_) => MeasurementKind::BinaryState,
        crate::config::CheckType::Temperature(_) => MeasurementKind::Temperature,
    }
}

/// Whether a source configuration passes its construction checks.
pub open spec fn spec_source_config_ok(ct: crate::config::CheckType) -> bool {
    match ct {
        crate::config::CheckType::DockerContainerStatus(_) => true,
        crate::config::CheckType::FilesystemUsage(f) => forall|i: int|
            0 <= i < f.mountpoints@.len() ==> (#[trigger] f.mountpoints@[i])@.len() != 0,
        crate::config::CheckType::MemoryUsage(m) => m.memory || m.swap,
        crate::config::CheckType::NetworkThroughput(n) => n.received || n.sent,
        crate::config::CheckType::PressureAverage(p) => (p.cpu || p.io
            != crate::config::PressureChoice::Neither || p.memory
            != crate::config::PressureChoice::Neither) && (p.avg10 || p.avg60 || p.avg300),
        crate::config::CheckType::ProcessExitStatus(p) => crate::process::spec_file_name(
            p.process_config.path@,
        ) is Some,
        crate::config::CheckType::SystemdUnitStatus(_) => true,
        crate::config::CheckType::Temperature(_) => true,
    }
}

/// How many per-tick ids each source configuration produces.
pub open spec fn spec_source_ids_len(ct: crate::config::CheckType) -> int {
    match ct {
        crate::config::CheckType::DockerContainerStatus(c) => c.containers@.len() as int,
        crate::config::CheckType::FilesystemUsage(c) => c.mountpoints@.len() as int,
        crate::config::CheckType::MemoryUsage(c) => (if c.memory {
            1int
        } else {
            0int
        }) + (if c.swap {
            1int
        } else {
            0int
        }),
        crate::config::CheckType::NetworkThroughput(c) => c.interfaces@.len() * ((if c.received {
            1int
        } else {
            0int
        }) + (if c.sent {
            1int
        } else {
            0int
        })),
        crate::config::CheckType::PressureAverage(c) => pressure_average::spec_pressure_ids_len(c),
        crate::config::CheckType::ProcessExitStatus(_) => 1int,
        crate::config::CheckType::SystemdUnitStatus(c) => c.units@.len() as int,
        crate::config::CheckType::Temperature(c) => c.sensors@.len() as int,
    }
}

/// Whether an alarm's kind-specific configuration fits the source kind.
pub open spec fn spec_sink_config_ok(kind: MeasurementKind, a: crate::config::Alarm) -> bool {
    match kind {
        MeasurementKind::Level => a.type_ matches crate::config::AlarmType::Level(l) && l.level
            <= 100,
        MeasurementKind::DataSize => a.type_ is DataSize,
        MeasurementKind::StatusCode => a.type_ is StatusCode || a.type_ is Default,
        MeasurementKind::Temperature => a.type_ matches crate::config::AlarmType::Temperature(t2)
            && t2.temperature >= -273,
        MeasurementKind::Integer => a.type_ matches crate::config::AlarmType::Integer(iv) && (
        iv.min is Some || iv.max is Some),
        MeasurementKind::BinaryState => a.type_ is Default,
    }
}

/// The reducer and window size a filter configuration asks for.
pub open spec fn spec_filter_op(f: crate::config::Filter) -> (crate::filter::FilterOp, u16) {
    match f {
        crate::config::Filter::Average(fa) => (
            crate::filter::FilterOp::Average,
            fa.window_config.window_size,
        ),
        crate::config::Filter::Peak(fp) => (
            crate::filter::FilterOp::Peak,
            fp.window_config.window_size,
        ),
        crate::config::Filter::Sum(fs2) => (
            crate::filter::FilterOp::Sum,
            fs2.window_config.window_size,
        ),
    }
}

/// Whether a configured filter can be built for the source kind.
pub open spec fn spec_filter_config_ok(
    f: Option<crate::config::Filter>,
    kind: MeasurementKind,
) -> bool {
    match f {
        None => true,
        Some(fc) => crate::filter::op_capable(spec_filter_op(fc).0, kind) && spec_filter_op(fc).1
            != 0,
    }
}

/// Whether an action name resolves in the registry.
pub open spec fn spec_action_ref_ok(name: Seq<char>, actions: crate::action::ActionMap) -> bool {
    name.len() != 0 && actions.spec_contains(name)
}

pub open spec fn spec_opt_action_ref_ok(
    name: Option<String>,
    actions: crate::action::ActionMap,
) -> bool {
    match name {
        Some(n) => spec_action_ref_ok(n@, actions),
        None => true,
    }
}

/// Whether one alarm configuration passes every construction check for
/// the source kind; a disabled alarm only needs a fresh name.
pub open spec fn spec_alarm_config_ok(
    kind: MeasurementKind,
    a: crate::config::Alarm,
    actions: crate::action::ActionMap,
) -> bool {
    a.disable || ({
        &&& a.name@.len() != 0
        &&& a.cycles != 0
        &&& a.recover_cycles != 0
        &&& spec_sink_config_ok(kind, a)
        &&& spec_action_ref_ok(a.action@, actions)
        &&& spec_opt_action_ref_ok(a.recover_action, actions)
        &&& spec_opt_action_ref_ok(a.error_action, actions)
        &&& spec_opt_action_ref_ok(a.error_recover_action, actions)
    })
}

pub open spec fn spec_no_duplicate_alarm_names(alarms: Seq<crate::config::Alarm>) -> bool {
    forall|i: int, j: int| 0 <= i < j < alarms.len() ==> alarms[i].name@ != alarms[j].name@
}

/// Whether a whole check configuration passes construction: a valid
/// source, valid check parameters, and — where the source yields any id
/// at all — distinct alarm names, valid enabled alarms and a buildable
/// filter.
pub open spec fn spec_check_config_ok(
    c: crate::config::Check,
    actions: crate::action::ActionMap,
) -> bool {
    &&& spec_source_config_ok(c.type_)
    &&& c.interval != 0
    &&& c.name@.len() != 0
    &&& (c.timeout matches Some(t2) ==> 1 <= t2 <= c.interval)
    &&& (spec_source_ids_len(c.type_) == 0 || ({
        &&& spec_no_duplicate_alarm_names(c.alarms@)
        &&& (forall|i: int|
            0 <= i < c.alarms@.len() ==> spec_alarm_config_ok(
                spec_source_kind(c.type_),
                #[trigger] c.alarms@[i],
                actions,
            ))
        &&& spec_filter_config_ok(c.filter, spec_source_kind(c.type_))
    }))
}

/// The configured alarms that are enabled, in configured order.
pub open spec fn spec_enabled_alarms(s: Seq<crate::config::Alarm>) -> Seq<crate::config::Alarm>
    decreases s.len(),
{
    if s.len() == 0 {
        Seq::empty()
    } else if s.last().disable {
        spec_enabled_alarms(s.drop_last())
    } else {
        spec_enabled_alarms(s.drop_last()).push(s.last())
    }
}

/// Whether a built sink carries exactly the alarm configuration's
/// thresholds for the source kind.
pub open spec fn spec_sink_matches(
    kind: MeasurementKind,
    a: crate::config::Alarm,
    s: crate::alarm::DataSink,
) -> bool {
    match kind {
        MeasurementKind::Level => a.type_ matches crate::config::AlarmType::Level(l) && (
        s matches crate::alarm::DataSink::Level(sl) && sl.level@ == l.level),
        MeasurementKind::DataSize => a.type_ matches crate::config::AlarmType::DataSize(d) && (
        s matches crate::alarm::DataSink::DataSize(sd) && sd.data_size@
            == crate::config::spec_min_u64(d.data_size as int * d.unit.spec_factor() as int)),
        MeasurementKind::StatusCode => s matches crate::alarm::DataSink::StatusCode(sc) && (match a
            .type_ {
            crate::config::AlarmType::StatusCode(c) => sc.status_codes@ == c.status_codes@,
            crate::config::AlarmType::Default(_) => sc.status_codes@ == seq![0u8],
            _ => false,
        }),
        MeasurementKind::Temperature => a.type_ matches crate::config::AlarmType::Temperature(t)
            && (s matches crate::alarm::DataSink::Temperature(st) && st.temperature@
            == t.temperature),
        MeasurementKind::Integer => a.type_ matches crate::config::AlarmType::Integer(iv) && (
        s matches crate::alarm::DataSink::Integer(si) && (match iv.min {
            Some(v) => si.min matches Some(mv) && mv@ == v,
            None => si.min is None,
        }) && (match iv.max {
            Some(v) => si.max matches Some(mv) && mv@ == v,
            None => si.max is None,
        })),
        MeasurementKind::BinaryState => s is BinaryState,
    }
}

/// Whether a built optional action is exactly the configured optional
/// reference, resolved in the registry.
pub open spec fn spec_opt_action_matches(
    built: Option<std::sync::Arc<crate::action::ActionBase>>,
    name: Option<String>,
    actions: crate::action::ActionMap,
) -> bool {
    match name {
        Some(n) => built matches Some(b) && actions.spec_binds(n@, *b),
        None => built is None,
    }
}

/// Whether a built alarm carries exactly its configuration: name,
/// sink thresholds, inversion, placeholders, the four actions resolved
/// in the registry, and a fresh state machine with the configured
/// cycle counts.
pub open spec fn spec_alarm_matches(
    a: AlarmBase,
    ac: crate::config::Alarm,
    id: Seq<char>,
    kind: MeasurementKind,
    actions: crate::action::ActionMap,
) -> bool {
    &&& a.name@ == ac.name@
    &&& a.id@ == id
    &&& actions.spec_binds(ac.action@, *a.action)
    &&& a.placeholders@ == ac.placeholders@
    &&& spec_opt_action_matches(a.recover_action, ac.recover_action, actions)
    &&& a.recover_placeholders@ == ac.recover_placeholders@
    &&& spec_opt_action_matches(a.error_action, ac.error_action, actions)
    &&& a.error_placeholders@ == ac.error_placeholders@
    &&& spec_opt_action_matches(a.error_recover_action, ac.error_recover_action, actions)
    &&& a.error_recover_placeholders@ == ac.error_recover_placeholders@
    &&& a.invert == ac.invert
    &&& a.state_machine.cycles == ac.cycles
    &&& a.state_machine.repeat_cycles == ac.repeat_cycles
    &&& a.state_machine.recover_cycles == ac.recover_cycles
    &&& a.state_machine.error_repeat_cycles == ac.error_repeat_cycles
    &&& (a.state_machine.state matches crate::alarm::state_machine::State::Good(g) && g.bad_cycles
        == 0 && g.last_duration is None && g.last_uuid is None)
    &&& spec_sink_matches(kind, ac, a.data_sink)
}

/// Whether a built check carries exactly its configuration: the check
/// parameters, one row per id holding the enabled alarms in configured
/// order, and — where a filter is configured — one filter per id with
/// the configured reducer and window size over an empty window.
pub open spec fn spec_check_matches(
    c: CheckBase,
    cc: crate::config::Check,
    actions: crate::action::ActionMap,
) -> bool {
    let enabled = spec_enabled_alarms(cc.alarms@);
    let kind = spec_source_kind(cc.type_);
    &&& c.name@ == cc.name@
    &&& c.interval == cc.interval
    &&& c.timeout == (match cc.timeout {
        Some(t2) => t2,
        None => if cc.interval < 5 {
            cc.interval
        } else {
            5
        },
    })
    &&& c.placeholders@ == cc.placeholders@
    &&& c.data_source.spec_kind() == kind
    &&& c.data_source.spec_ids().len() == spec_source_ids_len(cc.type_)
    &&& c.alarms@.len() == c.data_source.spec_ids().len()
    &&& (forall|i: int|
        0 <= i < c.alarms@.len() ==> (#[trigger] c.alarms@[i]).len() == enabled.len())
    &&& (forall|i: int, j: int|
        0 <= i < c.alarms@.len() && 0 <= j < enabled.len() ==> spec_alarm_matches(
            #[trigger] c.alarms@[i][j],
            enabled[j],
            c.data_source.spec_ids()[i]@,
            kind,
            actions,
        ))
    &&& (c.filters is Some <==> cc.filter is Some)
    &&& (cc.filter matches Some(fc) ==> (c.filters matches Some(fv) && fv@.len()
        == c.data_source.spec_ids().len() && (forall|i: int|
        0 <= i < fv@.len() ==> (#[trigger] fv@[i]).spec_op() == spec_filter_op(fc).0
            && fv@[i].spec_capacity() == spec_filter_op(fc).1 && fv@[i].window() == Seq::<
            Option<Measurement>,
        >::empty())))
}

/// The data sink that classifies one source kind, built from the
/// alarm's kind-specific configuration.
pub fn sink_from_config(kind: MeasurementKind, alarm_config: &crate::config::Alarm) -> (r: Result<
    crate::alarm::DataSink,
    Error,
>)
    ensures
        r is Ok <==> spec_sink_config_ok(kind, *alarm_config),
        r matches Ok(s) ==> s.spec_kind() == kind && spec_sink_matches(kind, *alarm_config, s),
{
    match kind {
        MeasurementKind::Level => match &alarm_config.type_ {
            crate::config::AlarmType::Level(l) => match crate::measurement::Level::new(l.level) {
                Ok(level) => Ok(crate::alarm::DataSink::Level(crate::alarm::Level { level })),
                Err(e) => Err(e),
            },
            _ => Err(Error(String::from_str("Expected level alarm config."))),
        },
        MeasurementKind::DataSize => match &alarm_config.type_ {
            crate::config::AlarmType::DataSize(d) => match crate::measurement::DataSize::new(
                d.bytes(),
            ) {
                Ok(data_size) => Ok(
                    crate::alarm::DataSink::DataSize(crate::alarm::DataSize { data_size }),
                ),
                Err(e) => Err(e),
            },
            _ => Err(Error(String::from_str("Expected data size alarm config."))),
        },
        MeasurementKind::StatusCode => match &alarm_config.type_ {
            crate::config::AlarmType::StatusCode(s) => {
                let mut status_codes: Vec<u8> = Vec::new();
                let n = s.status_codes.len();
                for i in 0..n
                    invariant
                        n == s.status_codes@.len(),
                        status_codes@.len() == i,
                        forall|q: int|
                            0 <= q < i ==> status_codes@[q] == s.status_codes@[q],
                {
                    status_codes.push(s.status_codes[i]);
                }
                proof {
                    assert(status_codes@ =~= s.status_codes@);
                }
                Ok(crate::alarm::DataSink::StatusCode(crate::alarm::StatusCode { status_codes }))
            },
            crate::config::AlarmType::Default(_) => {
                let mut status_codes: Vec<u8> = Vec::new();
                status_codes.push(0);
                proof {
                    assert(status_codes@ =~= seq![0u8]);
                }
                Ok(crate::alarm::DataSink::StatusCode(crate::alarm::StatusCode { status_codes }))
            },
            _ => Err(Error(String::from_str("Expected status code alarm config."))),
        },
        MeasurementKind::Temperature => match &alarm_config.type_ {
            crate::config::AlarmType::Temperature(t) => match crate::measurement::Temperature::new(
                t.temperature,
            ) {
                Ok(temperature) => Ok(
                    crate::alarm::DataSink::Temperature(crate::alarm::Temperature { temperature }),
                ),
                Err(e) => Err(e),
            },
            _ => Err(Error(String::from_str("Expected temperature alarm config."))),
        },
        MeasurementKind::Integer => match &alarm_config.type_ {
            crate::config::AlarmType::Integer(iv) => {
                if iv.min.is_none() && iv.max.is_none() {
                    Err(Error(String::from_str("At least one of 'min' or 'max' needs to be set")))
                } else {
                    let min = match iv.min {
                        Some(v) => match crate::measurement::Integer::new(v) {
                            Ok(m) => Some(m),
                            Err(e) => {
                                return Err(e);
                            },
                        },
                        None => None,
                    };
                    let max = match iv.max {
                        Some(v) => match crate::measurement::Integer::new(v) {
                            Ok(m) => Some(m),
                            Err(e) => {
                                return Err(e);
                            },
                        },
                        None => None,
                    };
                    Ok(crate::alarm::DataSink::Integer(crate::alarm::Integer { min, max }))
                }
            },
            _ => Err(Error(String::from_str("Expected integer alarm config."))),
        },
        MeasurementKind::BinaryState => match &alarm_config.type_ {
            crate::config::AlarmType::Default(_) => Ok(
                crate::alarm::DataSink::BinaryState(crate::alarm::BinaryState {  }),
            ),
            _ => Err(Error(String::from_str("Did not expect any alarm config."))),
        },
    }
}

/// The reducer a filter configuration asks for, with its window size.
pub fn filter_op_of(filter_config: &crate::config::Filter) -> (r: (crate::filter::FilterOp, u16))
    ensures
        r == spec_filter_op(*filter_config),
{
    match filter_config {
        crate::config::Filter::Average(f) => (
            crate::filter::FilterOp::Average,
            f.window_config.window_size,
        ),
        crate::config::Filter::Peak(f) => (
            crate::filter::FilterOp::Peak,
            f.window_config.window_size,
        ),
        crate::config::Filter::Sum(f) => (crate::filter::FilterOp::Sum, f.window_config.window_size),
    }
}

/// Builds the data source a check configuration names. A temperature
/// source starts with the configured sensor names; the host resolves
/// them before the first tick.
fn source_from_config(check_config: &crate::config::Check) -> (r: Result<DataSource, Error>)
    ensures
        r is Ok <==> spec_source_config_ok(check_config.type_),
        r matches Ok(s) ==> s.wf() && s.spec_kind() == spec_source_kind(check_config.type_)
            && s.spec_ids().len() == spec_source_ids_len(check_config.type_),
{
    match &check_config.type_ {
        crate::config::CheckType::DockerContainerStatus(c) => {
            match docker_container_status::DockerContainerStatus::from_config(c) {
                Ok(s) => Ok(DataSource::DockerContainerStatus(s)),
                Err(e) => Err(e),
            }
        },
        crate::config::CheckType::FilesystemUsage(c) => {
            match filesystem_usage::FilesystemUsage::from_config(c) {
                Ok(s) => Ok(DataSource::FilesystemUsage(s)),
                Err(e) => Err(e),
            }
        },
        crate::config::CheckType::MemoryUsage(c) => {
            match memory_usage::MemoryUsage::from_config(c) {
                Ok(s) => Ok(DataSource::MemoryUsage(s)),
                Err(e) => Err(e),
            }
        },
        crate::config::CheckType::NetworkThroughput(c) => {
            match network_throughput::NetworkThroughput::from_config(c) {
                Ok(s) => Ok(DataSource::NetworkThroughput(s)),
                Err(e) => Err(e),
            }
        },
        crate::config::CheckType::PressureAverage(c) => {
            match pressure_average::PressureAverage::from_config(c) {
                Ok(s) => Ok(DataSource::PressureAverage(s)),
                Err(e) => Err(e),
            }
        },
        crate::config::CheckType::ProcessExitStatus(c) => {
            let pc = match crate::action::config_process(&c.process_config) {
                Ok(pc) => pc,
                Err(e) => {
                    return Err(e);
                },
            };
            match process_exit_status::ProcessExitStatus::new(pc) {
                Ok(s) => Ok(DataSource::ProcessExitStatus(s)),
                Err(e) => Err(e),
            }
        },
        crate::config::CheckType::SystemdUnitStatus(c) => {
            match systemd_unit_status::SystemdUnitStatus::from_config(c) {
                Ok(s) => Ok(DataSource::SystemdUnitStatus(s)),
                Err(e) => Err(e),
            }
        },
        crate::config::CheckType::Temperature(c) => {
            let n = c.sensors.len();
            let mut resolved: Vec<crate::config::SensorsIdLabel> = Vec::new();
            for i in 0..n
                invariant
                    n == c.sensors@.len(),
                    resolved@.len() == i,
            {
                let sensor = c.sensors[i].sensor().clone();
                let label = match c.sensors[i].label() {
                    Some(l) => l.clone(),
                    None => String::new(),
                };
                resolved.push(crate::config::SensorsIdLabel { sensor, label });
            }
            Ok(DataSource::Temperature(temperature::Temperature::from_resolved(resolved)))
        },
    }
}

/// Builds a check from its configuration and the action registry: the
/// data source, one filter per id where one is configured, and for each
/// id every enabled alarm with its sink, state machine and actions.
/// Duplicate alarm names within the check are rejected.
pub fn from_check_config(
    check_config: &crate::config::Check,
    actions: &crate::action::ActionMap,
) -> (r: Result<CheckBase, Error>)
    ensures
        r is Ok <==> spec_check_config_ok(*check_config, *actions),
        r matches Err(e) ==> text::spec_starts_with(
            e.0@,
            "Failed to create check '"@ + check_config.name@ + "' from config: "@,
        ),
        r matches Ok(c) ==> ({
            &&& c.wf()
            &&& spec_check_matches(c, *check_config, *actions)
            &&& (forall|i: int, j: int|
                0 <= i < c.alarms@.len() && 0 <= j < c.alarms@[i].len() ==> (
                #[trigger] c.alarms@[i][j]).id@ == c.data_source.spec_ids()[i]@)
        }),
{
    let data_source = match source_from_config(check_config) {
        Ok(s) => s,
        Err(e) => {
            return Err(wrap_check_error(&check_config.name, e));
        },
    };
    let kind = match &data_source {
        DataSource::DockerContainerStatus(_) => MeasurementKind::BinaryState,
        DataSource::FilesystemUsage(_) => MeasurementKind::Level,
        DataSource::MemoryUsage(_) => MeasurementKind::Level,
        DataSource::NetworkThroughput(_) => MeasurementKind::DataSize,
        DataSource::PressureAverage(_) => MeasurementKind::Level,
        DataSource::ProcessExitStatus(_) => MeasurementKind::StatusCode,
        DataSource::SystemdUnitStatus(_) => MeasurementKind::BinaryState,
        DataSource::Temperature(_) => MeasurementKind::Temperature,
    };
    let ids_len = data_source.ids().len();
    let mut all_alarms: Vec<Vec<AlarmBase>> = Vec::new();
    let mut i: usize = 0;
    while i < ids_len
        invariant
            ids_len == data_source.spec_ids().len(),
            ids_len == spec_source_ids_len(check_config.type_),
            all_alarms@.len() == i,
            i <= ids_len,
            kind == data_source.spec_kind(),
            kind == spec_source_kind(check_config.type_),
            forall|p: int, q: int|
                0 <= p < all_alarms@.len() && 0 <= q < all_alarms@[p].len() ==> (
                #[trigger] all_alarms@[p][q]).wf() && all_alarms@[p][q].id@
                    == data_source.spec_ids()[p]@,
            forall|p: int|
                0 <= p < all_alarms@.len() ==> (#[trigger] all_alarms@[p]).len()
                    == spec_enabled_alarms(check_config.alarms@).len(),
            forall|p: int, q: int|
                0 <= p < all_alarms@.len() && 0 <= q < all_alarms@[p].len() ==> spec_alarm_matches(
                    #[trigger] all_alarms@[p][q],
                    spec_enabled_alarms(check_config.alarms@)[q],
                    data_source.spec_ids()[p]@,
                    kind,
                    *actions,
                ),
            i > 0 ==> spec_no_duplicate_alarm_names(check_config.alarms@) && (forall|q: int|
                0 <= q < check_config.alarms@.len() ==> spec_alarm_config_ok(
                    kind,
                    #[trigger] check_config.alarms@[q],
                    *actions,
                )),
        decreases ids_len - i,
    {
        let id = data_source.ids()[i].clone();
        let mut alarms: Vec<AlarmBase> = Vec::new();
        let mut used_names: Vec<String> = Vec::new();
        let m = check_config.alarms.len();
        let mut j: usize = 0;
        while j < m
            invariant
                m == check_config.alarms@.len(),
                j <= m,
                kind == data_source.spec_kind(),
                kind == spec_source_kind(check_config.type_),
                i < ids_len == data_source.spec_ids().len(),
                ids_len == spec_source_ids_len(check_config.type_),
                id@ == data_source.spec_ids()[i as int]@,
                forall|q: int|
                    0 <= q < alarms@.len() ==> (#[trigger] alarms@[q]).wf() && alarms@[q].id@
                        == id@,
                alarms@.len() == spec_enabled_alarms(check_config.alarms@.take(j as int)).len(),
                forall|q: int|
                    0 <= q < alarms@.len() ==> spec_alarm_matches(
                        #[trigger] alarms@[q],
                        spec_enabled_alarms(check_config.alarms@.take(j as int))[q],
                        id@,
                        kind,
                        *actions,
                    ),
                used_names@.len() == j,
                forall|q: int|
                    0 <= q < j ==> (#[trigger] used_names@[q])@ == check_config.alarms@[q].name@,
                forall|p: int, q: int|
                    0 <= p < q < j ==> check_config.alarms@[p].name@
                        != check_config.alarms@[q].name@,
                forall|q: int|
                    0 <= q < j ==> spec_alarm_config_ok(
                        kind,
                        #[trigger] check_config.alarms@[q],
                        *actions,
                    ),
            decreases m - j,
        {
            let alarm_config = &check_config.alarms[j];
            let mut duplicate = false;
            let u = used_names.len();
            let mut t: usize = 0;
            while t < u
                invariant
                    u == used_names@.len(),
                    u == j,
                    j < m == check_config.alarms@.len(),
                    t <= u,
                    alarm_config.name@ == check_config.alarms@[j as int].name@,
                    forall|q: int|
                        0 <= q < j ==> (#[trigger] used_names@[q])@
                            == check_config.alarms@[q].name@,
                    duplicate ==> exists|q: int|
                        0 <= q < j && (#[trigger] check_config.alarms@[q]).name@
                            == check_config.alarms@[j as int].name@,
                    !duplicate ==> forall|q: int|
                        0 <= q < t ==> (#[trigger] check_config.alarms@[q]).name@
                            != check_config.alarms@[j as int].name@,
                decreases u - t,
            {
                if text::str_eq(used_names[t].as_str(), alarm_config.name.as_str()) {
                    duplicate = true;
                    proof {
                        assert(0 <= t < j && check_config.alarms@[t as int].name@
                            == check_config.alarms@[j as int].name@);
                    }
                }
                t = t + 1;
            }
            proof {
                if duplicate {
                    assert(!spec_no_duplicate_alarm_names(check_config.alarms@));
                    assert(!spec_check_config_ok(*check_config, *actions));
                }
            }
            if duplicate {
                let mut msg = String::from_str("Found duplicate alarm name '");
                msg.append(alarm_config.name.as_str());
                msg.append("' for check '");
                msg.append(check_config.name.as_str());
                msg.append("'.");
                return Err(wrap_check_error(&check_config.name, Error(msg)));
            }
            used_names.push(alarm_config.name.clone());
            if !alarm_config.disable {
                let mut log_id = String::from_str("Alarm '");
                log_id.append(alarm_config.name.as_str());
                log_id.append("', id '");
                log_id.append(id.as_str());
                log_id.append("' from check '");
                log_id.append(check_config.name.as_str());
                log_id.append("'");
                let data_sink = match sink_from_config(kind, alarm_config) {
                    Ok(s) => s,
                    Err(e) => {
                        return Err(wrap_check_error(&check_config.name, e));
                    },
                };
                let state_machine = match crate::alarm::state_machine::StateMachine::new(
                    alarm_config.cycles,
                    alarm_config.repeat_cycles,
                    alarm_config.recover_cycles,
                    alarm_config.error_repeat_cycles,
                    log_id.clone(),
                ) {
                    Ok(sm) => sm,
                    Err(e) => {
                        return Err(wrap_check_error(&check_config.name, e));
                    },
                };
                let action = match crate::action::get_action(&alarm_config.action, actions) {
                    Ok(a) => a,
                    Err(e) => {
                        return Err(wrap_check_error(&check_config.name, e));
                    },
                };
                let recover_action = match get_optional_action(
                    &alarm_config.recover_action,
                    actions,
                ) {
                    Ok(a) => a,
                    Err(e) => {
                        return Err(wrap_check_error(&check_config.name, e));
                    },
                };
                let error_action = match get_optional_action(&alarm_config.error_action, actions) {
                    Ok(a) => a,
                    Err(e) => {
                        return Err(wrap_check_error(&check_config.name, e));
                    },
                };
                let error_recover_action = match get_optional_action(
                    &alarm_config.error_recover_action,
                    actions,
                ) {
                    Ok(a) => a,
                    Err(e) => {
                        return Err(wrap_check_error(&check_config.name, e));
                    },
                };
                let alarm = match AlarmBase::new(
                    alarm_config.name.clone(),
                    id.clone(),
                    action,
                    alarm_config.placeholders.duplicate(),
                    recover_action,
                    alarm_config.recover_placeholders.duplicate(),
                    error_action,
                    alarm_config.error_placeholders.duplicate(),
                    error_recover_action,
                    alarm_config.error_recover_placeholders.duplicate(),
                    alarm_config.invert,
                    state_machine,
                    data_sink,
                    log_id,
                ) {
                    Ok(a) => a,
                    Err(e) => {
                        return Err(wrap_check_error(&check_config.name, e));
                    },
                };
                proof {
                    assert(spec_alarm_matches(
                        alarm,
                        check_config.alarms@[j as int],
                        id@,
                        kind,
                        *actions,
                    ));
                }
                alarms.push(alarm);
            }
            proof {
                assert(check_config.alarms@.take(j + 1).drop_last() =~= check_config.alarms@.take(
                    j as int,
                ));
                assert(check_config.alarms@.take(j + 1).last() == check_config.alarms@[j as int]);
            }
            j = j + 1;
        }
        proof {
            assert(check_config.alarms@.take(m as int) =~= check_config.alarms@);
        }
        all_alarms.push(alarms);
        i = i + 1;
    }
    proof {
        assert(ids_len > 0 ==> spec_no_duplicate_alarm_names(check_config.alarms@) && (forall|
            q: int,
        |
            0 <= q < check_config.alarms@.len() ==> spec_alarm_config_ok(
                kind,
                #[trigger] check_config.alarms@[q],
                *actions,
            )));
    }
    let filters: Option<Vec<WindowFilter>> = match &check_config.filter {
        Some(filter_config) => {
            let (op, window_size) = filter_op_of(filter_config);
            let mut fs: Vec<WindowFilter> = Vec::new();
            let mut i2: usize = 0;
            while i2 < ids_len
                invariant
                    ids_len == data_source.spec_ids().len(),
                    ids_len == spec_source_ids_len(check_config.type_),
                    fs@.len() == i2,
                    i2 <= ids_len,
                    kind == data_source.spec_kind(),
                    kind == spec_source_kind(check_config.type_),
                    (op, window_size) == spec_filter_op(check_config.filter->0),
                    forall|p: int|
                        0 <= p < fs@.len() ==> (#[trigger] fs@[p]).wf() && fs@[p].spec_kind()
                            == kind,
                    forall|p: int|
                        0 <= p < fs@.len() ==> (#[trigger] fs@[p]).spec_op() == op
                            && fs@[p].spec_capacity() == window_size && fs@[p].window() == Seq::<
                        Option<Measurement>,
                        >::empty(),
                    check_config.filter is Some,
                    i2 > 0 ==> spec_filter_config_ok(check_config.filter, kind),
                decreases ids_len - i2,
            {
                match WindowFilter::new(op, window_size, kind) {
                    Ok(f) => fs.push(f),
                    Err(e) => {
                        proof {
                            assert(!spec_filter_config_ok(check_config.filter, kind));
                            assert(!spec_check_config_ok(*check_config, *actions));
                        }
                        return Err(wrap_check_error(&check_config.name, e));
                    },
                }
                i2 = i2 + 1;
            }
            Some(fs)
        },
        None => None,
    };
    match CheckBase::new(
        check_config.interval,
        check_config.name.clone(),
        check_config.timeout,
        check_config.placeholders.duplicate(),
        filters,
        data_source,
        all_alarms,
    ) {
        Ok(c) => Ok(c),
        Err(e) => Err(wrap_check_error(&check_config.name, e)),
    }
}

/// Looks an optional action name up.
fn get_optional_action(
    name: &Option<String>,
    actions: &crate::action::ActionMap,
) -> (r: Result<Option<std::sync::Arc<crate::action::ActionBase>>, Error>)
    ensures
        r is Ok <==> spec_opt_action_ref_ok(*name, *actions),
        r matches Ok(o) ==> spec_opt_action_matches(o, *name, *actions),
{
    match name {
        Some(n) => match crate::action::get_action(n, actions) {
            Ok(a) => Ok(Some(a)),
            Err(e) => Err(e),
        },
        None => Ok(None),
    }
}

/// Wraps a construction failure with the failing check's name.
fn wrap_check_error(name: &String, e: Error) -> (r: Error)
    ensures
        r.0@ == "Failed to create check '"@ + name@ + "' from config: "@ + e.0@,
        text::spec_starts_with(r.0@, "Failed to create check '"@ + name@ + "' from config: "@),
{
    let mut msg = String::from_str("Failed to create check '");
    msg.append(name.as_str());
    msg.append("' from config: ");
    msg.append(e.0.as_str());
    proof {
        let prefix = "Failed to create check '"@ + name@ + "' from config: "@;
        assert(msg@.subrange(0, prefix.len() as int) =~= prefix);
    }
    Error(msg)
}

} // verus!
