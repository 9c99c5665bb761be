//! The three-state debouncing state machine: Good with a bad-cycle count,
//! Bad with repeat and recovery counting, and Error shadowing the state it
//! interrupted. Each event (`bad`, `good`, `error`) yields trigger flags
//! that tell the alarm which actions to dispatch.

use crate::clock;
use crate::placeholder::PlaceholderMap;
use crate::text;
use crate::Error;
use vstd::prelude::*;

verus! {

/// The machine is in the good state; `bad_cycles` counts the bad events
/// seen since it was entered. After at least one Good-Bad-Good round trip,
/// `last_duration` and `last_uuid` carry the closed bad episode.
#[derive(Debug)]
pub struct GoodState {
    pub timestamp: u64,
    pub last_duration: Option<u64>,
    pub last_uuid: Option<String>,
    pub bad_cycles: u32,
}

/// The machine is in the bad state. `cycles` counts events seen in this
/// state (it wraps to 1 when a repeat fires), `good_cycles` the current
/// streak of good events.
#[derive(Debug)]
pub struct BadState {
    pub timestamp: u64,
    pub uuid: String,
    pub last_duration: u64,
    pub cycles: u32,
    pub good_cycles: u32,
}

/// The machine saw a data-source error; the state it interrupted is kept
/// in `shadowed` and restored by the next non-error event.
#[derive(Debug)]
pub struct ErrorState {
    pub timestamp: u64,
    pub uuid: String,
    pub last_duration: u64,
    pub shadowed: Box<State>,
    pub cycles: u32,
}

#[derive(Debug)]
pub enum State {
    Good(GoodState),
    Bad(BadState),
    Error(ErrorState),
}

impl State {
    /// The lower-case name of the state.
    pub fn name(&self) -> (r: &'static str)
        ensures
            self is Good ==> r@ == "good"@,
            self is Bad ==> r@ == "bad"@,
            self is Error ==> r@ == "error"@,
    {
        match self {
            State::Good(_) => "good",
            State::Bad(_) => "bad",
            State::Error(_) => "error",
        }
    }
}

/// Subtraction of clock readings, floored at zero: the wall clock is not
/// monotonic, so an elapsed time is never taken on trust to be positive.
pub open spec fn ssub(a: u64, b: u64) -> u64 {
    if a >= b {
        (a - b) as u64
    } else {
        0u64
    }
}

/// The next value of a repeat counter: it wraps to 1 exactly when it has
/// reached the repeat threshold (never, for threshold 0, since counters
/// stay at least 1), and otherwise grows, staying put at the type's
/// maximum rather than overflowing.
pub open spec fn next_counter(c: u32, repeat: u32) -> u32 {
    if c == repeat {
        1u32
    } else if c == u32::MAX {
        u32::MAX
    } else {
        (c + 1) as u32
    }
}

/// Well-formedness of a state under the machine's configured thresholds.
pub open spec fn state_wf(s: State, cycles: u32, recover_cycles: u32) -> bool
    decreases s,
{
    match s {
        State::Good(g) => g.bad_cycles < cycles && (g.last_uuid is Some <==> g.last_duration
            is Some),
        State::Bad(b) => 1 <= b.cycles && b.good_cycles < recover_cycles,
        State::Error(e) => 1 <= e.cycles && !(*e.shadowed is Error) && state_wf(
            *e.shadowed,
            cycles,
            recover_cycles,
        ),
    }
}

/// Whether a `bad` event fires the bad action: on the transition into Bad,
/// and on each repeat wrap. From Error, as the shadowed state would.
pub open spec fn spec_bad_trigger(s: State, cycles: u32, repeat_cycles: u32) -> bool
    decreases s,
{
    match s {
        State::Good(g) => g.bad_cycles + 1 == cycles,
        State::Bad(b) => b.cycles == repeat_cycles,
        State::Error(e) => spec_bad_trigger(*e.shadowed, cycles, repeat_cycles),
    }
}

/// Whether a `good` event fires the recover action: exactly on the
/// transition back to Good. From Error, as the shadowed state would.
pub open spec fn spec_good_trigger(s: State, recover_cycles: u32) -> bool
    decreases s,
{
    match s {
        State::Good(_) => false,
        State::Bad(b) => b.good_cycles + 1 == recover_cycles,
        State::Error(e) => spec_good_trigger(*e.shadowed, recover_cycles),
    }
}

/// Whether an `error` event fires the error action: on entering Error, and
/// on each error-repeat wrap.
pub open spec fn spec_error_trigger(s: State, error_repeat_cycles: u32) -> bool {
    match s {
        State::Error(e) => e.cycles == error_repeat_cycles,
        _ => true,
    }
}

/// The state reached from `s` by a `bad` event observed at `now`, with
/// `uuid` as the fresh identifier of a newly entered bad episode.
pub open spec fn after_bad(
    s: State,
    cycles: u32,
    repeat_cycles: u32,
    s2: State,
    now: u64,
    uuid: String,
) -> bool
    decreases s,
{
    match s {
        State::Good(g) => if g.bad_cycles + 1 == cycles {
            s2 == State::Bad(
                BadState {
                    timestamp: now,
                    uuid,
                    last_duration: ssub(now, g.timestamp),
                    cycles: 1u32,
                    good_cycles: 0u32,
                },
            )
        } else {
            s2 == State::Good(
                GoodState {
                    timestamp: g.timestamp,
                    last_duration: g.last_duration,
                    last_uuid: g.last_uuid,
                    bad_cycles: (g.bad_cycles + 1) as u32,
                },
            )
        },
        State::Bad(b) => s2 == State::Bad(
            BadState {
                timestamp: b.timestamp,
                uuid: b.uuid,
                last_duration: b.last_duration,
                cycles: next_counter(b.cycles, repeat_cycles),
                good_cycles: 0u32,
            },
        ),
        State::Error(e) => after_bad(*e.shadowed, cycles, repeat_cycles, s2, now, uuid),
    }
}

/// The state reached from `s` by a `good` event observed at `now`.
pub open spec fn after_good(s: State, recover_cycles: u32, s2: State, now: u64) -> bool
    decreases s,
{
    match s {
        State::Good(g) => s2 == State::Good(g),
        State::Bad(b) => if b.good_cycles + 1 == recover_cycles {
            s2 == State::Good(
                GoodState {
                    timestamp: now,
                    last_duration: Some(ssub(now, b.timestamp)),
                    last_uuid: Some(b.uuid),
                    bad_cycles: 0u32,
                },
            )
        } else {
            s2 == State::Bad(
                BadState {
                    timestamp: b.timestamp,
                    uuid: b.uuid,
                    last_duration: b.last_duration,
                    cycles: if b.cycles == u32::MAX {
                        u32::MAX
                    } else {
                        (b.cycles + 1) as u32
                    },
                    good_cycles: (b.good_cycles + 1) as u32,
                },
            )
        },
        State::Error(e) => after_good(*e.shadowed, recover_cycles, s2, now),
    }
}

/// The state reached from `s` by an `error` event observed at `now`, with
/// `uuid` as the fresh identifier of a newly entered error episode.
pub open spec fn after_error(
    s: State,
    error_repeat_cycles: u32,
    s2: State,
    now: u64,
    uuid: String,
) -> bool {
    match s {
        State::Error(e) => match s2 {
            State::Error(e2) => e2.timestamp == e.timestamp && e2.uuid == e.uuid
                && e2.last_duration == e.last_duration && *e2.shadowed == *e.shadowed && e2.cycles
                == next_counter(e.cycles, error_repeat_cycles),
            _ => false,
        },
        State::Good(g) => match s2 {
            State::Error(e2) => e2.timestamp == now && e2.uuid == uuid && e2.last_duration == ssub(
                now,
                g.timestamp,
            ) && *e2.shadowed == s && e2.cycles == 1,
            _ => false,
        },
        State::Bad(b) => match s2 {
            State::Error(e2) => e2.timestamp == now && e2.uuid == uuid && e2.last_duration == ssub(
                now,
                b.timestamp,
            ) && *e2.shadowed == s && e2.cycles == 1,
            _ => false,
        },
    }
}

fn clone_opt_string(o: &Option<String>) -> (r: Option<String>)
    ensures
        r == *o,
{
    match o {
        Some(s) => Some(s.clone()),
        None => None,
    }
}

/// A structural copy of a state.
fn clone_state(s: &State) -> (r: State)
    ensures
        r == *s,
    decreases *s,
{
    match s {
        State::Good(g) => State::Good(
            GoodState {
                timestamp: g.timestamp,
                last_duration: g.last_duration,
                last_uuid: clone_opt_string(&g.last_uuid),
                bad_cycles: g.bad_cycles,
            },
        ),
        State::Bad(b) => State::Bad(
            BadState {
                timestamp: b.timestamp,
                uuid: b.uuid.clone(),
                last_duration: b.last_duration,
                cycles: b.cycles,
                good_cycles: b.good_cycles,
            },
        ),
        State::Error(e) => State::Error(
            ErrorState {
                timestamp: e.timestamp,
                uuid: e.uuid.clone(),
                last_duration: e.last_duration,
                shadowed: Box::new(clone_state(&*e.shadowed)),
                cycles: e.cycles,
            },
        ),
    }
}

/// The debouncing state machine of one alarm. `cycles` bad events enter
/// Bad, `recover_cycles` consecutive good events leave it; `repeat_cycles`
/// and `error_repeat_cycles` give the repeat cadence of the bad and error
/// actions (0: never repeat).
#[derive(Debug)]
#[verifier::ext_equal]
pub struct StateMachine {
    pub cycles: u32,
    pub repeat_cycles: u32,
    pub recover_cycles: u32,
    pub error_repeat_cycles: u32,
    pub state: State,
    pub log_id: String,
}

impl StateMachine {
    pub open spec fn wf(&self) -> bool {
        1 <= self.cycles && 1 <= self.recover_cycles && state_wf(
            self.state,
            self.cycles,
            self.recover_cycles,
        )
    }

    /// The configuration, for stating that a step leaves it unchanged.
    pub open spec fn same_config(&self, other: &StateMachine) -> bool {
        self.cycles == other.cycles && self.repeat_cycles == other.repeat_cycles
            && self.recover_cycles == other.recover_cycles && self.error_repeat_cycles
            == other.error_repeat_cycles && self.log_id == other.log_id
    }

    /// A fresh machine in the good state. `cycles` and `recover_cycles`
    /// must not be zero; the error message names the offending field.
    pub fn new(
        cycles: u32,
        repeat_cycles: u32,
        recover_cycles: u32,
        error_repeat_cycles: u32,
        log_id: String,
    ) -> (r: Result<Self, Error>)
        ensures
            r is Ok <==> (cycles != 0 && recover_cycles != 0),
            r matches Ok(m) ==> m.wf() && m.cycles == cycles && m.repeat_cycles == repeat_cycles
                && m.recover_cycles == recover_cycles && m.error_repeat_cycles
                == error_repeat_cycles && m.log_id == log_id && (m.state matches State::Good(g)
                && g.bad_cycles == 0 && g.last_duration is None && g.last_uuid is None),
            r matches Err(e) ==> e.0@ == (if cycles == 0 {
                "'cycles' cannot be 0."@
            } else {
                "'recover_cycles' cannot be 0."@
            }),
    {
        if cycles == 0 {
            Err(Error(String::from_str("'cycles' cannot be 0.")))
        } else if recover_cycles == 0 {
            Err(Error(String::from_str("'recover_cycles' cannot be 0.")))
        } else {
            Ok(
                StateMachine {
                    cycles,
                    repeat_cycles,
                    recover_cycles,
                    error_repeat_cycles,
                    state: State::Good(
                        GoodState {
                            timestamp: clock::now_epoch_secs(),
                            last_duration: None,
                            last_uuid: None,
                            bad_cycles: 0,
                        },
                    ),
                    log_id,
                },
            )
        }
    }

    /// Feeds a `bad` event. Returns `(trigger, trigger_error_recover)`:
    /// `trigger` asks for the bad action, `trigger_error_recover` is set
    /// exactly when the event made the machine leave the Error state.
    pub fn bad(&mut self) -> (r: (bool, bool))
        requires
            old(self).wf(),
        ensures
            final(self).wf(),
            old(self).same_config(final(self)),
            r.0 == spec_bad_trigger(old(self).state, old(self).cycles, old(self).repeat_cycles),
            r.1 == (old(self).state is Error),
            exists|now: u64, uuid: String|
                after_bad(
                    old(self).state,
                    old(self).cycles,
                    old(self).repeat_cycles,
                    final(self).state,
                    now,
                    uuid,
                ),
    {
        let now = clock::now_epoch_secs();
        let uuid = crate::uuid::new_uuid_v4();
        let (s2, t, ter) = Self::step_bad(
            &self.state,
            self.cycles,
            self.repeat_cycles,
            self.recover_cycles,
            now,
            uuid,
        );
        self.state = s2;
        (t, ter)
    }

    /// Feeds a `good` event. Returns `(trigger, trigger_error_recover)`:
    /// `trigger` asks for the recover action, `trigger_error_recover` is
    /// set exactly when the event made the machine leave the Error state.
    pub fn good(&mut self) -> (r: (bool, bool))
        requires
            old(self).wf(),
        ensures
            final(self).wf(),
            old(self).same_config(final(self)),
            r.0 == spec_good_trigger(old(self).state, old(self).recover_cycles),
            r.1 == (old(self).state is Error),
            exists|now: u64|
                after_good(
                    old(self).state,
                    old(self).recover_cycles,
                    final(self).state,
                    now,
                ),
    {
        let now = clock::now_epoch_secs();
        let (s2, t, ter) = Self::step_good(&self.state, self.cycles, self.recover_cycles, now);
        self.state = s2;
        (t, ter)
    }

    /// Feeds an `error` event. Returns the trigger for the error action.
    pub fn error(&mut self) -> (r: bool)
        requires
            old(self).wf(),
        ensures
            final(self).wf(),
            old(self).same_config(final(self)),
            r == spec_error_trigger(old(self).state, old(self).error_repeat_cycles),
            exists|now: u64, uuid: String|
                after_error(
                    old(self).state,
                    old(self).error_repeat_cycles,
                    final(self).state,
                    now,
                    uuid,
                ),
    {
        let now = clock::now_epoch_secs();
        let uuid = crate::uuid::new_uuid_v4();
        let (s2, t) = Self::step_error(
            &self.state,
            self.error_repeat_cycles,
            self.cycles,
            self.recover_cycles,
            now,
            uuid,
        );
        self.state = s2;
        t
    }

    fn step_bad(
        s: &State,
        cycles: u32,
        repeat_cycles: u32,
        recover_cycles: u32,
        now: u64,
        uuid: String,
    ) -> (r: (State, bool, bool))
        requires
            1 <= cycles,
            1 <= recover_cycles,
            state_wf(*s, cycles, recover_cycles),
        ensures
            state_wf(r.0, cycles, recover_cycles),
            after_bad(*s, cycles, repeat_cycles, r.0, now, uuid),
            r.1 == spec_bad_trigger(*s, cycles, repeat_cycles),
            r.2 == (*s is Error),
        decreases *s,
    {
        match s {
            State::Good(g) => {
                if g.bad_cycles + 1 == cycles {
                    (
                        State::Bad(
                            BadState {
                                timestamp: now,
                                uuid,
                                last_duration: if now >= g.timestamp {
                                    now - g.timestamp
                                } else {
                                    0
                                },
                                cycles: 1,
                                good_cycles: 0,
                            },
                        ),
                        true,
                        false,
                    )
                } else {
                    (
                        State::Good(
                            GoodState {
                                timestamp: g.timestamp,
                                last_duration: g.last_duration,
                                last_uuid: clone_opt_string(&g.last_uuid),
                                bad_cycles: g.bad_cycles + 1,
                            },
                        ),
                        false,
                        false,
                    )
                }
            },
            State::Bad(b) => {
                let trigger = b.cycles == repeat_cycles;
                let cycles2: u32 = if trigger {
                    1
                } else if b.cycles == u32::MAX {
                    u32::MAX
                } else {
                    b.cycles + 1
                };
                (
                    State::Bad(
                        BadState {
                            timestamp: b.timestamp,
                            uuid: b.uuid.clone(),
                            last_duration: b.last_duration,
                            cycles: cycles2,
                            good_cycles: 0,
                        },
                    ),
                    trigger,
                    false,
                )
            },
            State::Error(e) => {
                let (s2, t, _) = Self::step_bad(
                    &*e.shadowed,
                    cycles,
                    repeat_cycles,
                    recover_cycles,
                    now,
                    uuid,
                );
                (s2, t, true)
            },
        }
    }

    fn step_good(s: &State, cycles: u32, recover_cycles: u32, now: u64) -> (r: (
        State,
        bool,
        bool,
    ))
        requires
            1 <= cycles,
            1 <= recover_cycles,
            state_wf(*s, cycles, recover_cycles),
        ensures
            state_wf(r.0, cycles, recover_cycles),
            after_good(*s, recover_cycles, r.0, now),
            r.1 == spec_good_trigger(*s, recover_cycles),
            r.2 == (*s is Error),
        decreases *s,
    {
        match s {
            State::Good(g) => {
                (
                    State::Good(
                        GoodState {
                            timestamp: g.timestamp,
                            last_duration: g.last_duration,
                            last_uuid: clone_opt_string(&g.last_uuid),
                            bad_cycles: g.bad_cycles,
                        },
                    ),
                    false,
                    false,
                )
            },
            State::Bad(b) => {
                if b.good_cycles + 1 == recover_cycles {
                    (
                        State::Good(
                            GoodState {
                                timestamp: now,
                                last_duration: Some(
                                    if now >= b.timestamp {
                                        now - b.timestamp
                                    } else {
                                        0
                                    },
                                ),
                                last_uuid: Some(b.uuid.clone()),
                                bad_cycles: 0,
                            },
                        ),
                        true,
                        false,
                    )
                } else {
                    (
                        State::Bad(
                            BadState {
                                timestamp: b.timestamp,
                                uuid: b.uuid.clone(),
                                last_duration: b.last_duration,
                                cycles: if b.cycles == u32::MAX {
                                    u32::MAX
                                } else {
                                    b.cycles + 1
                                },
                                good_cycles: b.good_cycles + 1,
                            },
                        ),
                        false,
                        false,
                    )
                }
            },
            State::Error(e) => {
                let (s2, t, _) = Self::step_good(&*e.shadowed, cycles, recover_cycles, now);
                (s2, t, true)
            },
        }
    }

    fn step_error(
        s: &State,
        error_repeat_cycles: u32,
        cycles: u32,
        recover_cycles: u32,
        now: u64,
        uuid: String,
    ) -> (r: (State, bool))
        requires
            1 <= cycles,
            1 <= recover_cycles,
            state_wf(*s, cycles, recover_cycles),
        ensures
            state_wf(r.0, cycles, recover_cycles),
            after_error(*s, error_repeat_cycles, r.0, now, uuid),
            r.1 == spec_error_trigger(*s, error_repeat_cycles),
    {
        match s {
            State::Error(e) => {
                let trigger = e.cycles == error_repeat_cycles;
                let cycles2: u32 = if trigger {
                    1
                } else if e.cycles == u32::MAX {
                    u32::MAX
                } else {
                    e.cycles + 1
                };
                (
                    State::Error(
                        ErrorState {
                            timestamp: e.timestamp,
                            uuid: e.uuid.clone(),
                            last_duration: e.last_duration,
                            shadowed: Box::new(clone_state(&*e.shadowed)),
                            cycles: cycles2,
                        },
                    ),
                    trigger,
                )
            },
            State::Good(g) => {
                let last_duration = if now >= g.timestamp {
                    now - g.timestamp
                } else {
                    0
                };
                (
                    State::Error(
                        ErrorState {
                            timestamp: now,
                            uuid,
                            last_duration,
                            shadowed: Box::new(clone_state(s)),
                            cycles: 1,
                        },
                    ),
                    true,
                )
            },
            State::Bad(b) => {
                let last_duration = if now >= b.timestamp {
                    now - b.timestamp
                } else {
                    0
                };
                (
                    State::Error(
                        ErrorState {
                            timestamp: now,
                            uuid,
                            last_duration,
                            shadowed: Box::new(clone_state(s)),
                            cycles: 1,
                        },
                    ),
                    true,
                )
            },
        }
    }

    /// The placeholders this machine contributes: always `alarm_state`;
    /// the episode identifier, timestamp and previous-state duration where
    /// the state carries them (`error_uuid`/`error_timestamp` in Error).
    pub fn add_placeholders(&self, placeholders: &mut PlaceholderMap)
        requires
            self.wf(),
        ensures
            final(placeholders)@ == spec_fsm_placeholders(self.state, old(placeholders)@),
    {
        match &self.state {
            State::Good(g) => {
                placeholders.insert(String::from_str("alarm_state"), String::from_str("Good"));
                match (&g.last_uuid, &g.last_duration) {
                    (Some(u), Some(d)) => {
                        placeholders.insert(String::from_str("alarm_uuid"), u.clone());
                        placeholders.insert(
                            String::from_str("alarm_timestamp"),
                            clock::datetime_iso8601(g.timestamp),
                        );
                        placeholders.insert(
                            String::from_str("alarm_last_duration"),
                            text::u64_to_string(*d),
                        );
                        placeholders.insert(
                            String::from_str("alarm_last_duration_iso"),
                            crate::duration_iso8601(*d),
                        );
                    },
                    _ => {},
                }
            },
            State::Bad(b) => {
                placeholders.insert(String::from_str("alarm_state"), String::from_str("Bad"));
                placeholders.insert(String::from_str("alarm_uuid"), b.uuid.clone());
                placeholders.insert(
                    String::from_str("alarm_timestamp"),
                    clock::datetime_iso8601(b.timestamp),
                );
                placeholders.insert(
                    String::from_str("alarm_last_duration"),
                    text::u64_to_string(b.last_duration),
                );
                placeholders.insert(
                    String::from_str("alarm_last_duration_iso"),
                    crate::duration_iso8601(b.last_duration),
                );
            },
            State::Error(e) => {
                placeholders.insert(String::from_str("alarm_state"), String::from_str("Error"));
                placeholders.insert(String::from_str("error_uuid"), e.uuid.clone());
                placeholders.insert(
                    String::from_str("error_timestamp"),
                    clock::datetime_iso8601(e.timestamp),
                );
                placeholders.insert(
                    String::from_str("alarm_last_duration"),
                    text::u64_to_string(e.last_duration),
                );
                placeholders.insert(
                    String::from_str("alarm_last_duration_iso"),
                    crate::duration_iso8601(e.last_duration),
                );
            },
        }
    }
}

/// Law: the bad-state counters never decrease while the machine stays in
/// the bad state, and start at 1 and 0 when it is entered from the good
/// state. A `bad` event resets the good-event streak; with a repeat
/// cadence configured (`repeat_cycles > 0`) the event counter wraps to 1
/// on each repeat fire, so the monotonicity claim is made for machines
/// without one.
pub proof fn lemma_bad_counters_monotonic(
    s: State,
    cycles: u32,
    repeat_cycles: u32,
    s2: State,
    now: u64,
    uuid: String,
)
    requires
        repeat_cycles == 0,
        state_wf(s, cycles, u32::MAX),
        after_bad(s, cycles, repeat_cycles, s2, now, uuid),
    ensures
        s matches State::Bad(b) ==> (s2 matches State::Bad(b2) ==> b2.cycles >= b.cycles
            && b2.good_cycles == 0),
        s is Good && s2 is Bad ==> (s2 matches State::Bad(b2) ==> b2.cycles == 1 && b2.good_cycles
            == 0),
{
}

/// Law: a `good` event in the bad state advances both counters; neither
/// decreases.
pub proof fn lemma_good_counters_monotonic(s: State, recover_cycles: u32, s2: State, now: u64)
    requires
        state_wf(s, u32::MAX, recover_cycles),
        after_good(s, recover_cycles, s2, now),
    ensures
        s matches State::Bad(b) ==> (s2 matches State::Bad(b2) ==> b2.cycles >= b.cycles
            && b2.good_cycles == b.good_cycles + 1),
{
}

/// Law: the error-state counter never decreases while the machine stays
/// in the error state, and starts at 1 when it is entered. As with the
/// bad counter, a configured repeat cadence (`error_repeat_cycles > 0`)
/// wraps the counter to 1 on each repeat fire, so monotonicity is claimed
/// for machines without one.
pub proof fn lemma_error_counter_monotonic(
    s: State,
    error_repeat_cycles: u32,
    s2: State,
    now: u64,
    uuid: String,
)
    requires
        error_repeat_cycles == 0,
        state_wf(s, u32::MAX, u32::MAX),
        after_error(s, error_repeat_cycles, s2, now, uuid),
    ensures
        s matches State::Error(e) ==> (s2 matches State::Error(e2) ==> e2.cycles >= e.cycles),
        !(s is Error) ==> (s2 matches State::Error(e2) ==> e2.cycles == 1),
{
}

/// The placeholder map after the state machine has added its entries to
/// `p0`.
pub open spec fn spec_fsm_placeholders(s: State, p0: Map<Seq<char>, Seq<char>>) -> Map<
    Seq<char>,
    Seq<char>,
> {
    match s {
        State::Good(g) => {
            let base = p0.insert("alarm_state"@, "Good"@);
            match (g.last_uuid, g.last_duration) {
                (Some(u), Some(d)) => base.insert("alarm_uuid"@, u@).insert(
                    "alarm_timestamp"@,
                    clock::rfc3339_of(g.timestamp),
                ).insert("alarm_last_duration"@, text::spec_dec(d as nat)).insert(
                    "alarm_last_duration_iso"@,
                    crate::spec_duration_iso8601(d),
                ),
                _ => base,
            }
        },
        State::Bad(b) => p0.insert("alarm_state"@, "Bad"@).insert("alarm_uuid"@, b.uuid@).insert(
            "alarm_timestamp"@,
            clock::rfc3339_of(b.timestamp),
        ).insert("alarm_last_duration"@, text::spec_dec(b.last_duration as nat)).insert(
            "alarm_last_duration_iso"@,
            crate::spec_duration_iso8601(b.last_duration),
        ),
        State::Error(e) => p0.insert("alarm_state"@, "Error"@).insert("error_uuid"@, e.uuid@).insert(
            "error_timestamp"@,
            clock::rfc3339_of(e.timestamp),
        ).insert("alarm_last_duration"@, text::spec_dec(e.last_duration as nat)).insert(
            "alarm_last_duration_iso"@,
            crate::spec_duration_iso8601(e.last_duration),
        ),
    }
}

} // verus!
