//! Alarms: the binding of a data sink (the good/bad classifier), the
//! debouncing state machine and the configured actions. `put_data` and
//! `put_error` feed one tick and hand back the action invocations that
//! tick asks for.

pub mod state_machine;

use crate::action::{ActionBase, Invocation};
use crate::measurement::{Measurement, MeasurementKind};
use crate::placeholder::PlaceholderMap;
use crate::Error;
use state_machine::StateMachine;
use std::sync::Arc;
use vstd::prelude::*;

verus! {

/// The verdict of a data sink on one measurement.
#[derive(Clone, Copy, Debug, PartialEq, Eq, Structural)]
pub enum SinkDecision {
    Good,
    Bad,
}

impl SinkDecision {
    /// The opposite decision, for inverted alarms.
    pub fn not(self) -> (r: SinkDecision)
        ensures
            r == self.spec_not(),
    {
        match self {
            SinkDecision::Good => SinkDecision::Bad,
            SinkDecision::Bad => SinkDecision::Good,
        }
    }

    pub open spec fn spec_not(self) -> SinkDecision {
        match self {
            SinkDecision::Good => SinkDecision::Bad,
            SinkDecision::Bad => SinkDecision::Good,
        }
    }
}

/// A level sink: bad above the configured level.
#[derive(Debug)]
pub struct Level {
    pub level: crate::measurement::Level,
}

/// A data-size sink: bad above the configured byte count.
#[derive(Debug)]
pub struct DataSize {
    pub data_size: crate::measurement::DataSize,
}

/// A status-code sink: good exactly on the accepted codes.
#[derive(Debug)]
pub struct StatusCode {
    pub status_codes: Vec<u8>,
}

/// A temperature sink: bad above the configured temperature.
#[derive(Debug)]
pub struct Temperature {
    pub temperature: crate::measurement::Temperature,
}

/// An integer sink: bad outside the configured bounds.
#[derive(Debug)]
pub struct Integer {
    pub min: Option<crate::measurement::Integer>,
    pub max: Option<crate::measurement::Integer>,
}

/// A binary-state sink: good exactly on `true`.
#[derive(Debug)]
pub struct BinaryState {
}

/// The sink kinds, one per measurement kind.
#[derive(Debug)]
pub enum DataSink {
    Level(Level),
    DataSize(DataSize),
    StatusCode(StatusCode),
    Temperature(Temperature),
    Integer(Integer),
    BinaryState(BinaryState),
}

impl DataSink {
    /// The measurement kind this sink classifies.
    pub open spec fn spec_kind(&self) -> MeasurementKind {
        match self {
            DataSink::Level(_) => MeasurementKind::Level,
            DataSink::DataSize(_) => MeasurementKind::DataSize,
            DataSink::StatusCode(_) => MeasurementKind::StatusCode,
            DataSink::Temperature(_) => MeasurementKind::Temperature,
            DataSink::Integer(_) => MeasurementKind::Integer,
            DataSink::BinaryState(_) => MeasurementKind::BinaryState,
        }
    }

    /// The decision a sink takes on a matching measurement.
    pub open spec fn spec_decision(&self, m: Measurement) -> SinkDecision {
        match (self, m) {
            (DataSink::Level(s), Measurement::Level(v)) => if v@ > s.level@ {
                SinkDecision::Bad
            } else {
                SinkDecision::Good
            },
            (DataSink::DataSize(s), Measurement::DataSize(v)) => if v@ > s.data_size@ {
                SinkDecision::Bad
            } else {
                SinkDecision::Good
            },
            (DataSink::StatusCode(s), Measurement::StatusCode(v)) => if s.status_codes@.contains(
                v@,
            ) {
                SinkDecision::Good
            } else {
                SinkDecision::Bad
            },
            (DataSink::Temperature(s), Measurement::Temperature(v)) => if v@ > s.temperature@ {
                SinkDecision::Bad
            } else {
                SinkDecision::Good
            },
            (DataSink::Integer(s), Measurement::Integer(v)) => if (s.min matches Some(lo) && v@
                < lo@) || (s.max matches Some(hi) && v@ > hi@) {
                SinkDecision::Bad
            } else {
                SinkDecision::Good
            },
            (DataSink::BinaryState(_), Measurement::BinaryState(v)) => if v@ {
                SinkDecision::Good
            } else {
                SinkDecision::Bad
            },
            _ => SinkDecision::Good,
        }
    }

    /// Classifies one measurement; a measurement of the wrong kind for
    /// this sink is rejected.
    pub fn put_data(&self, data: &Measurement) -> (r: Result<SinkDecision, Error>)
        ensures
            r is Ok <==> data.spec_kind() == self.spec_kind(),
            r matches Ok(d) ==> d == self.spec_decision(*data),
            r matches Err(e) ==> e.0@ == "Unexpected measurement kind for this data sink."@,
    {
        match (self, data) {
            (DataSink::Level(s), Measurement::Level(v)) => Ok(
                if v.data() > s.level.data() {
                    SinkDecision::Bad
                } else {
                    SinkDecision::Good
                },
            ),
            (DataSink::DataSize(s), Measurement::DataSize(v)) => Ok(
                if v.data() > s.data_size.data() {
                    SinkDecision::Bad
                } else {
                    SinkDecision::Good
                },
            ),
            (DataSink::StatusCode(s), Measurement::StatusCode(v)) => {
                let code = v.data();
                let n = s.status_codes.len();
                let mut found = false;
                for i in 0..n
                    invariant
                        n == s.status_codes@.len(),
                        found == s.status_codes@.take(i as int).contains(code),
                {
                    proof {
                        assert(s.status_codes@.take(i + 1).drop_last() == s.status_codes@.take(
                            i as int,
                        ));
                        assert(s.status_codes@.take(i + 1).last() == s.status_codes@[i as int]);
                    }
                    if s.status_codes[i] == code {
                        found = true;
                    }
                    proof {
                        if found {
                            if s.status_codes@.take(i as int).contains(code) || s.status_codes@[
                                i as int] == code {
                                assert(s.status_codes@.take(i + 1).contains(code));
                            }
                        } else {
                            assert(!s.status_codes@.take(i + 1).contains(code));
                        }
                    }
                }
                proof {
                    assert(s.status_codes@.take(n as int) == s.status_codes@);
                }
                Ok(
                    if found {
                        SinkDecision::Good
                    } else {
                        SinkDecision::Bad
                    },
                )
            },
            (DataSink::Temperature(s), Measurement::Temperature(v)) => Ok(
                if v.data() > s.temperature.data() {
                    SinkDecision::Bad
                } else {
                    SinkDecision::Good
                },
            ),
            (DataSink::Integer(s), Measurement::Integer(v)) => {
                let below = match &s.min {
                    Some(lo) => v.data() < lo.data(),
                    None => false,
                };
                let above = match &s.max {
                    Some(hi) => v.data() > hi.data(),
                    None => false,
                };
                Ok(
                    if below || above {
                        SinkDecision::Bad
                    } else {
                        SinkDecision::Good
                    },
                )
            },
            (DataSink::BinaryState(_), Measurement::BinaryState(v)) => Ok(
                if v.data() {
                    SinkDecision::Good
                } else {
                    SinkDecision::Bad
                },
            ),
            _ => Err(Error(String::from_str("Unexpected measurement kind for this data sink."))),
        }
    }
}

/// The placeholders a measurement contributes before classification.
pub open spec fn spec_sink_placeholders(m: Measurement, p0: Map<Seq<char>, Seq<char>>) -> Map<
    Seq<char>,
    Seq<char>,
> {
    match m {
        Measurement::Level(_) => p0.insert("level"@, m.spec_display()),
        Measurement::DataSize(d) => p0.insert("data_size"@, m.spec_display()).insert(
            "data_size_bin"@,
            crate::measurement::spec_size_string(d@, 1024, "B"@, "KiB"@, "MiB"@, "GiB"@),
        ).insert(
            "data_size_dec"@,
            crate::measurement::spec_size_string(d@, 1000, "B"@, "kB"@, "MB"@, "GB"@),
        ),
        Measurement::StatusCode(_) => p0.insert("status_code"@, m.spec_display()),
        Measurement::Temperature(_) => p0.insert("temperature"@, m.spec_display()),
        Measurement::Integer(_) => p0.insert("integer"@, m.spec_display()),
        Measurement::BinaryState(_) => p0.insert("state"@, m.spec_display()),
    }
}

/// Adds the measurement-specific placeholders for one tick.
pub fn add_sink_placeholders(data: &Measurement, placeholders: &mut PlaceholderMap)
    ensures
        final(placeholders)@ == spec_sink_placeholders(*data, old(placeholders)@),
{
    match data {
        Measurement::Level(_) => {
            placeholders.insert(String::from_str("level"), data.to_display_string());
        },
        Measurement::DataSize(d) => {
            placeholders.insert(String::from_str("data_size"), data.to_display_string());
            placeholders.insert(String::from_str("data_size_bin"), d.as_string_binary());
            placeholders.insert(String::from_str("data_size_dec"), d.as_string_decimal());
        },
        Measurement::StatusCode(_) => {
            placeholders.insert(String::from_str("status_code"), data.to_display_string());
        },
        Measurement::Temperature(_) => {
            placeholders.insert(String::from_str("temperature"), data.to_display_string());
        },
        Measurement::Integer(_) => {
            placeholders.insert(String::from_str("integer"), data.to_display_string());
        },
        Measurement::BinaryState(_) => {
            placeholders.insert(String::from_str("state"), data.to_display_string());
        },
    }
}

/// Whether `inv` is the invocation `a` produces from the base map plus
/// the class-specific placeholders in `extra`.
pub open spec fn inv_for(
    a: ActionBase,
    base: Map<Seq<char>, Seq<char>>,
    extra: Map<Seq<char>, Seq<char>>,
    inv: Invocation,
) -> bool {
    let p2 = base.union_prefer_right(extra);
    inv.action_name@ == a.name@ && inv.timeout == a.timeout && inv.placeholders@ == a.spec_seen(p2)
        && a.spec_payload_ok(inv.placeholders@, inv.payload)
}

/// Whether `invs` is exactly the dispatch of one tick: the error-recover
/// invocation where the machine left Error (and an error-recover action
/// is configured), then the class invocation where its trigger fired
/// (and its action is configured) — in that order, and nothing else.
pub open spec fn spec_dispatch(
    invs: Seq<Invocation>,
    ter_fired: bool,
    era: Option<Arc<ActionBase>>,
    era_extra: Map<Seq<char>, Seq<char>>,
    t_fired: bool,
    cls: Option<Arc<ActionBase>>,
    cls_extra: Map<Seq<char>, Seq<char>>,
    base: Map<Seq<char>, Seq<char>>,
) -> bool {
    let fire1 = ter_fired && era is Some;
    let fire2 = t_fired && cls is Some;
    if fire1 && fire2 {
        invs.len() == 2 && inv_for(*era->0, base, era_extra, invs[0]) && inv_for(
            *cls->0,
            base,
            cls_extra,
            invs[1],
        )
    } else if fire1 {
        invs.len() == 1 && inv_for(*era->0, base, era_extra, invs[0])
    } else if fire2 {
        invs.len() == 1 && inv_for(*cls->0, base, cls_extra, invs[0])
    } else {
        invs.len() == 0
    }
}

/// An alarm: a named decision point binding a data sink, a state machine
/// and up to four actions, attached to one data-source id.
#[derive(Debug)]
#[verifier::ext_equal]
pub struct AlarmBase {
    pub name: String,
    pub id: String,
    pub action: Arc<ActionBase>,
    pub placeholders: PlaceholderMap,
    pub recover_action: Option<Arc<ActionBase>>,
    pub recover_placeholders: PlaceholderMap,
    pub error_action: Option<Arc<ActionBase>>,
    pub error_placeholders: PlaceholderMap,
    pub error_recover_action: Option<Arc<ActionBase>>,
    pub error_recover_placeholders: PlaceholderMap,
    pub invert: bool,
    pub state_machine: StateMachine,
    pub data_sink: DataSink,
    pub log_id: String,
}

impl AlarmBase {
    pub open spec fn wf(&self) -> bool {
        self.state_machine.wf()
    }

    /// Everything but the machine's state, for stating that a tick
    /// changes nothing else.
    pub open spec fn same_shape(&self, other: &AlarmBase) -> bool {
        &&& self.name == other.name
        &&& self.id == other.id
        &&& self.action == other.action
        &&& self.placeholders == other.placeholders
        &&& self.recover_action == other.recover_action
        &&& self.recover_placeholders == other.recover_placeholders
        &&& self.error_action == other.error_action
        &&& self.error_placeholders == other.error_placeholders
        &&& self.error_recover_action == other.error_recover_action
        &&& self.error_recover_placeholders == other.error_recover_placeholders
        &&& self.invert == other.invert
        &&& self.state_machine.same_config(&other.state_machine)
        &&& self.data_sink == other.data_sink
        &&& self.log_id == other.log_id
    }

    /// An alarm; an empty name is rejected.
    pub fn new(
        name: String,
        id: String,
        action: Arc<ActionBase>,
        placeholders: PlaceholderMap,
        recover_action: Option<Arc<ActionBase>>,
        recover_placeholders: PlaceholderMap,
        error_action: Option<Arc<ActionBase>>,
        error_placeholders: PlaceholderMap,
        error_recover_action: Option<Arc<ActionBase>>,
        error_recover_placeholders: PlaceholderMap,
        invert: bool,
        state_machine: StateMachine,
        data_sink: DataSink,
        log_id: String,
    ) -> (r: Result<Self, Error>)
        requires
            state_machine.wf(),
        ensures
            r is Ok <==> name@.len() != 0,
            r matches Ok(a) ==> a.wf() && a.name == name && a.id == id && a.action == action
                && a.placeholders == placeholders && a.recover_action == recover_action
                && a.recover_placeholders == recover_placeholders && a.error_action == error_action
                && a.error_placeholders == error_placeholders && a.error_recover_action
                == error_recover_action && a.error_recover_placeholders
                == error_recover_placeholders && a.invert == invert && a.state_machine
                == state_machine && a.data_sink == data_sink && a.log_id == log_id,
            r matches Err(e) ==> e.0@ == "'name' cannot be empty."@,
    {
        if name.as_str().is_empty() {
            Err(Error(String::from_str("'name' cannot be empty.")))
        } else {
            Ok(
                AlarmBase {
                    name,
                    id,
                    action,
                    placeholders,
                    recover_action,
                    recover_placeholders,
                    error_action,
                    error_placeholders,
                    error_recover_action,
                    error_recover_placeholders,
                    invert,
                    state_machine,
                    data_sink,
                    log_id,
                },
            )
        }
    }

    /// The base map every action class of a data tick sees, layered in
    /// precedence order (later wins): the incoming placeholders, the
    /// measurement's contribution, the state machine's contribution for
    /// the state the tick reached, then `alarm_name`, `check_id` and the
    /// alarm's own placeholders.
    pub open spec fn spec_data_base(
        self,
        new_state: state_machine::State,
        m: Measurement,
        p0: Map<Seq<char>, Seq<char>>,
    ) -> Map<Seq<char>, Seq<char>> {
        state_machine::spec_fsm_placeholders(new_state, spec_sink_placeholders(m, p0)).insert(
            "alarm_name"@,
            self.name@,
        ).insert("check_id"@, self.id@).union_prefer_right(self.placeholders@)
    }

    /// The base map of an error tick, layered the same way but without
    /// a measurement.
    pub open spec fn spec_error_base(
        self,
        new_state: state_machine::State,
        p0: Map<Seq<char>, Seq<char>>,
    ) -> Map<Seq<char>, Seq<char>> {
        state_machine::spec_fsm_placeholders(new_state, p0).insert("alarm_name"@, self.name@)
            .insert("check_id"@, self.id@).union_prefer_right(self.placeholders@)
    }

    /// The decision the sink takes on this tick, inverted if configured.
    pub open spec fn spec_effective_decision(self, m: Measurement) -> SinkDecision {
        if self.invert {
            self.data_sink.spec_decision(m).spec_not()
        } else {
            self.data_sink.spec_decision(m)
        }
    }

    fn add_placeholders(&self, placeholders: &mut PlaceholderMap)
        ensures
            final(placeholders)@ == old(placeholders)@.insert("alarm_name"@, self.name@).insert(
                "check_id"@,
                self.id@,
            ).union_prefer_right(self.placeholders@),
    {
        placeholders.insert(String::from_str("alarm_name"), self.name.clone());
        placeholders.insert(String::from_str("check_id"), self.id.clone());
        placeholders.merge(&self.placeholders);
    }

    /// Feeds one measurement: classifies it, advances the state machine,
    /// and returns the invocations this tick asks for — the error-recover
    /// action where the machine left Error, then the bad or recover
    /// action where its trigger fired. A measurement of the wrong kind
    /// for the sink is rejected.
    pub fn put_data(&mut self, data: &Measurement, placeholders: PlaceholderMap) -> (r: Result<
        Vec<Invocation>,
        Error,
    >)
        requires
            old(self).wf(),
        ensures
            final(self).wf(),
            old(self).same_shape(final(self)),
            r is Ok <==> data.spec_kind() == old(self).data_sink.spec_kind(),
            r is Err ==> final(self).state_machine.state == old(self).state_machine.state,
            r matches Ok(invs) ==> spec_put_data_step(
                *old(self),
                *final(self),
                *data,
                placeholders@,
                invs@,
            ),
    {
        let mut p = placeholders;
        add_sink_placeholders(data, &mut p);
        let decision = match self.data_sink.put_data(data) {
            Ok(d) => d,
            Err(e) => {
                return Err(e);
            },
        };
        let decision = if self.invert {
            decision.not()
        } else {
            decision
        };
        let mut invs: Vec<Invocation> = Vec::new();
        match decision {
            SinkDecision::Good => {
                let (t, ter) = self.state_machine.good();
                let mut fsm_p = p;
                self.state_machine.add_placeholders(&mut fsm_p);
                self.add_placeholders(&mut fsm_p);
                if ter {
                    match &self.error_recover_action {
                        Some(a) => {
                            let mut p2 = fsm_p.duplicate();
                            p2.merge(&self.error_recover_placeholders);
                            invs.push(a.trigger(p2));
                        },
                        None => {},
                    }
                }
                if t {
                    match &self.recover_action {
                        Some(a) => {
                            let mut p2 = fsm_p.duplicate();
                            p2.merge(&self.recover_placeholders);
                            invs.push(a.trigger(p2));
                        },
                        None => {},
                    }
                }
            },
            SinkDecision::Bad => {
                let (t, ter) = self.state_machine.bad();
                let mut fsm_p = p;
                self.state_machine.add_placeholders(&mut fsm_p);
                self.add_placeholders(&mut fsm_p);
                if ter {
                    match &self.error_recover_action {
                        Some(a) => {
                            let mut p2 = fsm_p.duplicate();
                            p2.merge(&self.error_recover_placeholders);
                            invs.push(a.trigger(p2));
                        },
                        None => {},
                    }
                }
                if t {
                    let p2 = fsm_p.duplicate();
                    proof {
                        assert(p2@.union_prefer_right(Map::<Seq<char>, Seq<char>>::empty())
                            =~= p2@);
                    }
                    invs.push((&self.action).trigger(p2));
                }
            },
        }
        Ok(invs)
    }

    /// Feeds one data-source error: advances the state machine with the
    /// error event and returns the error-action invocation where its
    /// trigger fired. The caller has already folded the error's text
    /// into the placeholders as `check_error`.
    pub fn put_error(&mut self, _error: &Error, placeholders: PlaceholderMap) -> (r: Result<
        Vec<Invocation>,
        Error,
    >)
        requires
            old(self).wf(),
        ensures
            final(self).wf(),
            old(self).same_shape(final(self)),
            r is Ok,
            r matches Ok(invs) ==> spec_put_error_step(
                *old(self),
                *final(self),
                placeholders@,
                invs@,
            ),
    {
        let t = self.state_machine.error();
        let mut invs: Vec<Invocation> = Vec::new();
        let mut fsm_p = placeholders;
        self.state_machine.add_placeholders(&mut fsm_p);
        self.add_placeholders(&mut fsm_p);
        if t {
            match &self.error_action {
                Some(a) => {
                    let mut p2 = fsm_p.duplicate();
                    p2.merge(&self.error_placeholders);
                    invs.push(a.trigger(p2));
                },
                None => {},
            }
        }
        Ok(invs)
    }
}

/// One data tick of an alarm: the machine stepped by the effective
/// decision's event under some instant and fresh identifier, and `invs`
/// is exactly the tick's dispatch over the layered base map.
pub open spec fn spec_put_data_step(
    a0: AlarmBase,
    a1: AlarmBase,
    m: Measurement,
    p0: Map<Seq<char>, Seq<char>>,
    invs: Seq<Invocation>,
) -> bool {
    let base = a0.spec_data_base(a1.state_machine.state, m, p0);
    let ter = a0.state_machine.state is Error;
    match a0.spec_effective_decision(m) {
        SinkDecision::Good => {
            &&& exists|now: u64|
                state_machine::after_good(
                    a0.state_machine.state,
                    a0.state_machine.recover_cycles,
                    a1.state_machine.state,
                    now,
                )
            &&& spec_dispatch(
                invs,
                ter,
                a0.error_recover_action,
                a0.error_recover_placeholders@,
                state_machine::spec_good_trigger(
                    a0.state_machine.state,
                    a0.state_machine.recover_cycles,
                ),
                a0.recover_action,
                a0.recover_placeholders@,
                base,
            )
        },
        SinkDecision::Bad => {
            &&& exists|now: u64, uuid: String|
                state_machine::after_bad(
                    a0.state_machine.state,
                    a0.state_machine.cycles,
                    a0.state_machine.repeat_cycles,
                    a1.state_machine.state,
                    now,
                    uuid,
                )
            &&& spec_dispatch(
                invs,
                ter,
                a0.error_recover_action,
                a0.error_recover_placeholders@,
                state_machine::spec_bad_trigger(
                    a0.state_machine.state,
                    a0.state_machine.cycles,
                    a0.state_machine.repeat_cycles,
                ),
                Some(a0.action),
                Map::<Seq<char>, Seq<char>>::empty(),
                base,
            )
        },
    }
}

/// One error tick of an alarm: the machine stepped by the error event
/// under some instant and fresh identifier, and `invs` is exactly the
/// error-class dispatch over the layered base map.
pub open spec fn spec_put_error_step(
    a0: AlarmBase,
    a1: AlarmBase,
    p0: Map<Seq<char>, Seq<char>>,
    invs: Seq<Invocation>,
) -> bool {
    let base = a0.spec_error_base(a1.state_machine.state, p0);
    &&& exists|now: u64, uuid: String|
        state_machine::after_error(
            a0.state_machine.state,
            a0.state_machine.error_repeat_cycles,
            a1.state_machine.state,
            now,
            uuid,
        )
    &&& spec_dispatch(
        invs,
        false,
        None,
        Map::<Seq<char>, Seq<char>>::empty(),
        state_machine::spec_error_trigger(
            a0.state_machine.state,
            a0.state_machine.error_repeat_cycles,
        ),
        a0.error_action,
        a0.error_placeholders@,
        base,
    )
}

/// Law: for any one event, at most one of the bad, recover and error
/// actions fires, and the error-recover action fires only when the event
/// made the machine leave the Error state (where it may accompany the
/// destination action). A data tick dispatches through the bad or the
/// recover class depending only on the sink's decision, never both, and
/// an error tick dispatches through the error class alone.
pub proof fn lemma_exclusive_transitions(
    a: AlarmBase,
    m: Measurement,
    bad_fires: bool,
    recover_fires: bool,
    error_fires: bool,
    error_recover_fires: bool,
)
    requires
        ({
            // a data tick: the class triggers come from the decision's event
            let dec = a.spec_effective_decision(m);
            &&& bad_fires == (dec is Bad && state_machine::spec_bad_trigger(
                a.state_machine.state,
                a.state_machine.cycles,
                a.state_machine.repeat_cycles,
            ))
            &&& recover_fires == (dec is Good && state_machine::spec_good_trigger(
                a.state_machine.state,
                a.state_machine.recover_cycles,
            ))
            &&& error_fires == false
            &&& error_recover_fires ==> a.state_machine.state is Error
        }),
    ensures
        (if bad_fires {
            1int
        } else {
            0int
        }) + (if recover_fires {
            1int
        } else {
            0int
        }) + (if error_fires {
            1int
        } else {
            0int
        }) <= 1,
        error_recover_fires ==> a.state_machine.state is Error,
{
}

} // verus!
