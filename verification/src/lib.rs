//! The alarm engine of a lightweight host-monitoring daemon: measurement
//! values with validated domains, window filters, per-alarm debouncing
//! state machines with error shadowing, and the check driver that binds
//! data sources, filters, sinks and actions together. Every tick turns
//! plain probe readings into fully rendered action invocations; probing
//! and performing them is the host's work.

use vstd::prelude::*;

pub mod action;
pub mod alarm;
pub mod check;
pub mod clock;
pub mod config;
pub mod filter;
pub mod measurement;
pub mod placeholder;
pub mod process;
pub mod report;
pub mod text;
pub mod uuid;
pub mod window_buffer;

verus! {

/// The error type carried by every fallible operation of this crate:
/// a human-readable message.
#[derive(Debug, Clone)]
pub struct Error(pub String);

impl Error {
    /// The message held by this error, for callers that would otherwise
    /// rely on `Display`.
    pub fn message(&self) -> (r: &str)
        ensures
            r@ == self.0@,
    {
        self.0.as_str()
    }
}

/// The `User-Agent` value used for outgoing HTTP requests and mails.
pub fn user_agent() -> (r: String)
    ensures
        r@ == "MinMon/v0.1.0"@,
{
    String::from_str("MinMon/v0.1.0")
}

/// The ISO 8601 rendering of a whole-second duration, up to days: `P`,
/// a day count where there is one, then `T` and the non-zero
/// hour/minute/second parts; `PT0S` for zero. Days are the largest unit
/// because the length of months and years is not fixed.
pub open spec fn spec_duration_iso8601(secs: u64) -> Seq<char> {
    if secs == 0 {
        "PT0S"@
    } else {
        let days = secs / 86400;
        let rem = secs % 86400;
        let dpart = if days > 0 {
            "P"@ + crate::text::spec_dec(days as nat) + "D"@
        } else {
            "P"@
        };
        if rem == 0 {
            dpart
        } else {
            let h = rem / 3600;
            let rem2 = rem % 3600;
            let m = rem2 / 60;
            let s = rem2 % 60;
            let hpart = if h > 0 {
                crate::text::spec_dec(h as nat) + "H"@
            } else {
                Seq::<char>::empty()
            };
            let mpart = if m > 0 {
                crate::text::spec_dec(m as nat) + "M"@
            } else {
                Seq::<char>::empty()
            };
            let spart = if s > 0 {
                crate::text::spec_dec(s as nat) + "S"@
            } else {
                Seq::<char>::empty()
            };
            dpart + "T"@ + hpart + mpart + spart
        }
    }
}

/// The placeholder map every tick starts from, for the given uptimes in
/// whole seconds.
pub open spec fn spec_global_placeholders(system_uptime: u64, minmon_uptime: u64) -> Map<
    Seq<char>,
    Seq<char>,
> {
    Map::<Seq<char>, Seq<char>>::empty().insert(
        "system_uptime"@,
        text::spec_dec(system_uptime as nat),
    ).insert("system_uptime_iso"@, spec_duration_iso8601(system_uptime)).insert(
        "minmon_uptime"@,
        text::spec_dec(minmon_uptime as nat),
    ).insert("minmon_uptime_iso"@, spec_duration_iso8601(minmon_uptime))
}

/// The global placeholders: the host's uptime and this process's
/// uptime, plain and as ISO 8601 durations.
pub fn global_placeholders(system_uptime: u64, minmon_uptime: u64) -> (r:
    placeholder::PlaceholderMap)
    ensures
        r@ == spec_global_placeholders(system_uptime, minmon_uptime),
{
    let mut res = placeholder::PlaceholderMap::new();
    res.insert(String::from_str("system_uptime"), text::u64_to_string(system_uptime));
    res.insert(String::from_str("system_uptime_iso"), duration_iso8601(system_uptime));
    res.insert(String::from_str("minmon_uptime"), text::u64_to_string(minmon_uptime));
    res.insert(String::from_str("minmon_uptime_iso"), duration_iso8601(minmon_uptime));
    res
}

/// Copies every binding of `source` into `target`; `source` wins on
/// common keys.
pub fn merge_placeholders(
    target: &mut placeholder::PlaceholderMap,
    source: &placeholder::PlaceholderMap,
)
    ensures
        final(target)@ == old(target)@.union_prefer_right(source@),
{
    target.merge(source);
}

/// Substitutes `{{key}}` tokens in a template; unknown keys render as
/// empty.
pub fn fill_placeholders(template: &str, placeholders: &placeholder::PlaceholderMap) -> (r: String)
    ensures
        r@ == text::spec_render(template@, placeholders@),
{
    text::render(template, placeholders)
}

/// Reads the number in the `column`-th whitespace-separated column of
/// `line`.
pub fn get_number(error_message: &str, line: &str, column: usize) -> (r: Result<u64, Error>)
    ensures
        match text::nth_token(line@, column as nat) {
            None => r matches Err(e) && e.0@ == error_message@ + ": Column not found."@,
            Some((a, b)) => {
                let tok = line@.subrange(a, b);
                if text::is_u64_string(tok) {
                    r matches Ok(v) && v == text::dec_val(text::unsigned_digits(tok))
                } else {
                    r matches Err(e) && e.0@ == error_message@ + ": Could not parse number."@
                }
            },
        },
{
    text::get_number(error_message, line, column)
}

pub open spec fn spec_no_duplicate_action_names(s: Seq<config::Action>) -> bool {
    forall|i: int, j: int| 0 <= i < j < s.len() ==> s[i].name@ != s[j].name@
}

pub open spec fn spec_no_duplicate_event_names(s: Seq<config::ReportEvent>) -> bool {
    forall|i: int, j: int| 0 <= i < j < s.len() ==> s[i].name@ != s[j].name@
}

pub open spec fn spec_no_duplicate_check_names(s: Seq<config::Check>) -> bool {
    forall|i: int, j: int| 0 <= i < j < s.len() ==> s[i].name@ != s[j].name@
}

/// Whether every action configuration builds and no two share a name.
pub open spec fn spec_actions_config_ok(c: config::Config) -> bool {
    spec_no_duplicate_action_names(c.actions@) && (forall|i: int|
        0 <= i < c.actions@.len() ==> action::spec_action_config_ok(#[trigger] c.actions@[i]))
}

/// Whether one report event builds against the registry; a disabled
/// event only needs a fresh name.
pub open spec fn spec_report_event_ok(e: config::ReportEvent, actions: action::ActionMap) -> bool {
    e.disable || (e.name@.len() != 0 && check::spec_action_ref_ok(e.action@, actions))
}

/// Whether the report's schedule builds: not both forms at once, a
/// non-zero interval, and a parseable cron expression.
pub open spec fn spec_report_when_ok(w: config::ReportWhen) -> bool {
    &&& !(w.interval is Some && w.cron is Some)
    &&& (w.interval matches Some(iv) ==> iv != 0)
    &&& (w.cron matches Some(cr) ==> report::cron_ok(cr@))
}

/// Whether the whole report configuration builds.
pub open spec fn spec_report_config_ok(c: config::Report, actions: action::ActionMap) -> bool {
    &&& spec_no_duplicate_event_names(c.events@)
    &&& (forall|i: int|
        0 <= i < c.events@.len() ==> spec_report_event_ok(#[trigger] c.events@[i], actions))
    &&& spec_report_when_ok(c.when)
}

/// The enabled events of a report configuration, in order.
pub open spec fn spec_enabled_events(s: Seq<config::ReportEvent>) -> Seq<config::ReportEvent>
    decreases s.len(),
{
    if s.len() == 0 {
        Seq::empty()
    } else if s.last().disable {
        spec_enabled_events(s.drop_last())
    } else {
        spec_enabled_events(s.drop_last()).push(s.last())
    }
}

/// The enabled checks of a configuration, in order.
pub open spec fn spec_enabled_checks(s: Seq<config::Check>) -> Seq<config::Check>
    decreases s.len(),
{
    if s.len() == 0 {
        Seq::empty()
    } else if s.last().disable {
        spec_enabled_checks(s.drop_last())
    } else {
        spec_enabled_checks(s.drop_last()).push(s.last())
    }
}

/// Builds the action registry: every configured action under its name.
/// Succeeds exactly when no two actions share a name and every action
/// configuration passes its own checks; the registry then holds exactly
/// the configured names.
pub fn init_actions(config: &config::Config) -> (r: Result<action::ActionMap, Error>)
    ensures
        r is Ok <==> spec_actions_config_ok(*config),
        r matches Ok(m) ==> m.wf() && (forall|k: Seq<char>| #[trigger]
            m.spec_contains(k) <==> exists|i: int|
                0 <= i < config.actions@.len() && (#[trigger] config.actions@[i]).name@ == k),
{
    let mut res = action::ActionMap::new();
    let n = config.actions.len();
    let mut i: usize = 0;
    while i < n
        invariant
            n == config.actions@.len(),
            i <= n,
            res.wf(),
            forall|k: Seq<char>| #[trigger]
                res.spec_contains(k) <==> exists|j: int|
                    0 <= j < i && (#[trigger] config.actions@[j]).name@ == k,
            forall|p: int, q: int|
                0 <= p < q < i ==> config.actions@[p].name@ != config.actions@[q].name@,
            forall|j: int|
                0 <= j < i ==> action::spec_action_config_ok(#[trigger] config.actions@[j]),
        decreases n - i,
    {
        let action_config = &config.actions[i];
        if res.contains_key(action_config.name.as_str()) {
            proof {
                let j = choose|j: int|
                    0 <= j < i && (#[trigger] config.actions@[j]).name@ == action_config.name@;
                assert(!spec_no_duplicate_action_names(config.actions@));
            }
            let mut msg = String::from_str("Found duplicate action name: ");
            msg.append(action_config.name.as_str());
            return Err(Error(msg));
        }
        let a = match action::from_action_config(action_config) {
            Ok(a) => a,
            Err(e) => {
                return Err(e);
            },
        };
        res.insert(action_config.name.clone(), a);
        i = i + 1;
    }
    Ok(res)
}

/// Builds the report, or nothing where it is disabled.
pub fn init_report(config: &config::Config, actions: &action::ActionMap) -> (r: Result<
    Option<report::Report>,
    Error,
>)
    ensures
        r is Ok <==> (config.report.disable || spec_report_config_ok(config.report, *actions)),
        r matches Ok(o) ==> (o is None <==> config.report.disable),
        r matches Ok(o) ==> (o matches Some(rep) ==> rep.placeholders@
            == config.report.placeholders@),
{
    if config.report.disable {
        return Ok(None);
    }
    match from_report_config(&config.report, actions) {
        Ok(rep) => Ok(Some(rep)),
        Err(e) => Err(e),
    }
}

/// Builds the report from its configuration: every enabled event with
/// its action, in order. Succeeds exactly when no two events share a
/// name, every enabled event names a registered action, and the
/// schedule is valid.
pub fn from_report_config(
    report_config: &config::Report,
    actions: &action::ActionMap,
) -> (r: Result<report::Report, Error>)
    ensures
        r is Ok <==> spec_report_config_ok(*report_config, *actions),
        r matches Ok(rep) ==> ({
            let enabled = spec_enabled_events(report_config.events@);
            &&& rep.placeholders@ == report_config.placeholders@
            &&& rep.events@.len() == enabled.len()
            &&& (forall|i: int|
                0 <= i < rep.events@.len() ==> (#[trigger] rep.events@[i]).name@
                    == enabled[i].name@ && rep.events@[i].placeholders@ == enabled[i].placeholders@
                    && actions.spec_binds(enabled[i].action@, *rep.events@[i].action))
        }),
{
    let mut events: Vec<report::ReportEvent> = Vec::new();
    let mut used_names: Vec<String> = Vec::new();
    let n = report_config.events.len();
    let mut i: usize = 0;
    while i < n
        invariant
            n == report_config.events@.len(),
            i <= n,
            used_names@.len() == i,
            forall|q: int|
                0 <= q < i ==> (#[trigger] used_names@[q])@ == report_config.events@[q].name@,
            forall|p: int, q: int|
                0 <= p < q < i ==> report_config.events@[p].name@
                    != report_config.events@[q].name@,
            forall|q: int|
                0 <= q < i ==> spec_report_event_ok(#[trigger] report_config.events@[q], *actions),
            events@.len() == spec_enabled_events(report_config.events@.take(i as int)).len(),
            forall|q: int|
                0 <= q < events@.len() ==> (#[trigger] events@[q]).name@ == spec_enabled_events(
                    report_config.events@.take(i as int),
                )[q].name@ && events@[q].placeholders@ == spec_enabled_events(
                    report_config.events@.take(i as int),
                )[q].placeholders@ && actions.spec_binds(
                    spec_enabled_events(report_config.events@.take(i as int))[q].action@,
                    *events@[q].action,
                ),
        decreases n - i,
    {
        let event_config = &report_config.events[i];
        let mut duplicate = false;
        let u = used_names.len();
        let mut t2: usize = 0;
        while t2 < u
            invariant
                u == used_names@.len(),
                u == i,
                i < n == report_config.events@.len(),
                t2 <= u,
                event_config.name@ == report_config.events@[i as int].name@,
                forall|q: int|
                    0 <= q < i ==> (#[trigger] used_names@[q])@ == report_config.events@[q].name@,
                duplicate ==> exists|q: int|
                    0 <= q < i && (#[trigger] report_config.events@[q]).name@
                        == report_config.events@[i as int].name@,
                !duplicate ==> forall|q: int|
                    0 <= q < t2 ==> (#[trigger] report_config.events@[q]).name@
                        != report_config.events@[i as int].name@,
            decreases u - t2,
        {
            if text::str_eq(used_names[t2].as_str(), event_config.name.as_str()) {
                duplicate = true;
                proof {
                    assert(0 <= t2 < i && report_config.events@[t2 as int].name@
                        == report_config.events@[i as int].name@);
                }
            }
            t2 = t2 + 1;
        }
        if duplicate {
            proof {
                assert(!spec_no_duplicate_event_names(report_config.events@));
            }
            let mut msg = String::from_str("Found duplicate event name: ");
            msg.append(event_config.name.as_str());
            return Err(Error(msg));
        }
        used_names.push(event_config.name.clone());
        proof {
            assert(report_config.events@.take(i + 1).drop_last() == report_config.events@.take(
                i as int,
            ));
            assert(report_config.events@.take(i + 1).last() == report_config.events@[i as int]);
        }
        if !event_config.disable {
            let a = match action::get_action(&event_config.action, actions) {
                Ok(a) => a,
                Err(e) => {
                    proof {
                        assert(!spec_report_event_ok(
                            report_config.events@[i as int],
                            *actions,
                        ));
                    }
                    return Err(e);
                },
            };
            let event = match report::ReportEvent::new(
                event_config.name.clone(),
                event_config.placeholders.duplicate(),
                a,
            ) {
                Ok(ev) => ev,
                Err(e) => {
                    proof {
                        assert(!spec_report_event_ok(
                            report_config.events@[i as int],
                            *actions,
                        ));
                    }
                    return Err(e);
                },
            };
            events.push(event);
        }
        i = i + 1;
    }
    proof {
        assert(report_config.events@.take(n as int) == report_config.events@);
    }
    match report::Report::new(&report_config.when, report_config.placeholders.duplicate(), events) {
        Ok(rep) => Ok(rep),
        Err(e) => {
            proof {
                assert(!spec_report_when_ok(report_config.when));
            }
            Err(e)
        },
    }
}

/// Builds every enabled check, in order. Succeeds exactly when no two
/// checks share a name and every enabled check's configuration builds.
pub fn init_checks(config: &config::Config, actions: &action::ActionMap) -> (r: Result<
    Vec<check::CheckBase>,
    Error,
>)
    ensures
        r is Ok <==> (spec_no_duplicate_check_names(config.checks@) && (forall|i: int|
            0 <= i < config.checks@.len() ==> ((#[trigger] config.checks@[i]).disable
                || check::spec_check_config_ok(config.checks@[i], *actions)))),
        r matches Ok(cs) ==> ({
            let enabled = spec_enabled_checks(config.checks@);
            &&& cs@.len() == enabled.len()
            &&& (forall|i: int|
                0 <= i < cs@.len() ==> (#[trigger] cs@[i]).wf() && cs@[i].name@
                    == enabled[i].name@ && cs@[i].interval == enabled[i].interval)
            &&& (forall|i: int|
                0 <= i < cs@.len() ==> check::spec_check_matches(
                    #[trigger] cs@[i],
                    enabled[i],
                    *actions,
                ))
        }),
{
    let mut res: Vec<check::CheckBase> = Vec::new();
    let mut used_names: Vec<String> = Vec::new();
    let n = config.checks.len();
    let mut i: usize = 0;
    while i < n
        invariant
            n == config.checks@.len(),
            i <= n,
            used_names@.len() == i,
            forall|q: int|
                0 <= q < i ==> (#[trigger] used_names@[q])@ == config.checks@[q].name@,
            forall|p: int, q: int|
                0 <= p < q < i ==> config.checks@[p].name@ != config.checks@[q].name@,
            forall|q: int|
                0 <= q < i ==> ((#[trigger] config.checks@[q]).disable
                    || check::spec_check_config_ok(config.checks@[q], *actions)),
            res@.len() == spec_enabled_checks(config.checks@.take(i as int)).len(),
            forall|q: int|
                0 <= q < res@.len() ==> (#[trigger] res@[q]).wf() && res@[q].name@
                    == spec_enabled_checks(config.checks@.take(i as int))[q].name@ && res@[q].interval
                    == spec_enabled_checks(config.checks@.take(i as int))[q].interval,
            forall|q: int|
                0 <= q < res@.len() ==> check::spec_check_matches(
                    #[trigger] res@[q],
                    spec_enabled_checks(config.checks@.take(i as int))[q],
                    *actions,
                ),
        decreases n - i,
    {
        let check_config = &config.checks[i];
        let mut duplicate = false;
        let u = used_names.len();
        let mut t2: usize = 0;
        while t2 < u
            invariant
                u == used_names@.len(),
                u == i,
                i < n == config.checks@.len(),
                t2 <= u,
                check_config.name@ == config.checks@[i as int].name@,
                forall|q: int|
                    0 <= q < i ==> (#[trigger] used_names@[q])@ == config.checks@[q].name@,
                duplicate ==> exists|q: int|
                    0 <= q < i && (#[trigger] config.checks@[q]).name@
                        == config.checks@[i as int].name@,
                !duplicate ==> forall|q: int|
                    0 <= q < t2 ==> (#[trigger] config.checks@[q]).name@
                        != config.checks@[i as int].name@,
            decreases u - t2,
        {
            if text::str_eq(used_names[t2].as_str(), check_config.name.as_str()) {
                duplicate = true;
                proof {
                    assert(0 <= t2 < i && config.checks@[t2 as int].name@ == config.checks@[
                        i as int].name@);
                }
            }
            t2 = t2 + 1;
        }
        if duplicate {
            proof {
                assert(!spec_no_duplicate_check_names(config.checks@));
            }
            let mut msg = String::from_str("Found duplicate check name: ");
            msg.append(check_config.name.as_str());
            return Err(Error(msg));
        }
        used_names.push(check_config.name.clone());
        proof {
            assert(config.checks@.take(i + 1).drop_last() == config.checks@.take(i as int));
            assert(config.checks@.take(i + 1).last() == config.checks@[i as int]);
        }
        if !check_config.disable {
            let c = match check::from_check_config(check_config, actions) {
                Ok(c) => c,
                Err(e) => {
                    return Err(e);
                },
            };
            res.push(c);
        }
        i = i + 1;
    }
    proof {
        assert(config.checks@.take(n as int) == config.checks@);
    }
    Ok(res)
}

/// Whether a configuration names an action.
pub open spec fn spec_cfg_has_action(c: config::Config, k: Seq<char>) -> bool {
    exists|i: int| 0 <= i < c.actions@.len() && (#[trigger] c.actions@[i]).name@ == k
}

/// Whether a registry holds exactly the configuration's action names.
pub open spec fn spec_registry_matches(m: action::ActionMap, c: config::Config) -> bool {
    forall|k: Seq<char>| #[trigger] m.spec_contains(k) <==> spec_cfg_has_action(c, k)
}

/// Whether a whole configuration builds: the actions, the report (or
/// it is disabled) and every enabled check, against any registry that
/// holds exactly the configured action names.
pub open spec fn spec_config_ok(c: config::Config) -> bool {
    &&& spec_actions_config_ok(c)
    &&& spec_no_duplicate_check_names(c.checks@)
    &&& (forall|m: action::ActionMap| #[trigger]
        spec_registry_matches(m, c) ==> ({
            &&& (c.report.disable || spec_report_config_ok(c.report, m))
            &&& (forall|i: int|
                0 <= i < c.checks@.len() ==> ((#[trigger] c.checks@[i]).disable
                    || check::spec_check_config_ok(c.checks@[i], m)))
        }))
}

/// An event's buildability depends on the registry only through the
/// names it holds.
proof fn lemma_report_ok_contains_equiv(
    c: config::Report,
    m1: action::ActionMap,
    m2: action::ActionMap,
)
    requires
        forall|k: Seq<char>| #[trigger] m1.spec_contains(k) <==> m2.spec_contains(k),
    ensures
        spec_report_config_ok(c, m1) == spec_report_config_ok(c, m2),
{
    assert forall|i: int| 0 <= i < c.events@.len() implies (spec_report_event_ok(
        #[trigger] c.events@[i],
        m1,
    ) == spec_report_event_ok(c.events@[i], m2)) by {
        assert(m1.spec_contains(c.events@[i].action@) <==> m2.spec_contains(
            c.events@[i].action@,
        ));
    }
}

/// A check's buildability depends on the registry only through the
/// names it holds.
proof fn lemma_check_ok_contains_equiv(
    cc: config::Check,
    m1: action::ActionMap,
    m2: action::ActionMap,
)
    requires
        forall|k: Seq<char>| #[trigger] m1.spec_contains(k) <==> m2.spec_contains(k),
    ensures
        check::spec_check_config_ok(cc, m1) == check::spec_check_config_ok(cc, m2),
{
    assert forall|i: int| 0 <= i < cc.alarms@.len() implies (check::spec_alarm_config_ok(
        check::spec_source_kind(cc.type_),
        #[trigger] cc.alarms@[i],
        m1,
    ) == check::spec_alarm_config_ok(
        check::spec_source_kind(cc.type_),
        cc.alarms@[i],
        m2,
    )) by {
        let a = cc.alarms@[i];
        assert(m1.spec_contains(a.action@) <==> m2.spec_contains(a.action@));
        if let Some(n2) = a.recover_action {
            assert(m1.spec_contains(n2@) <==> m2.spec_contains(n2@));
        }
        if let Some(n2) = a.error_action {
            assert(m1.spec_contains(n2@) <==> m2.spec_contains(n2@));
        }
        if let Some(n2) = a.error_recover_action {
            assert(m1.spec_contains(n2@) <==> m2.spec_contains(n2@));
        }
    }
}

/// Builds the whole engine from a configuration: the action registry,
/// the report (where enabled) and every enabled check, in order.
/// Succeeds exactly when the whole configuration builds.
pub fn from_config(config: &config::Config) -> (r: Result<
    (Option<report::Report>, Vec<check::CheckBase>),
    Error,
>)
    ensures
        r is Ok <==> spec_config_ok(*config),
        r matches Ok(state) ==> ({
            let enabled = spec_enabled_checks(config.checks@);
            &&& (state.0 is None <==> config.report.disable)
            &&& (state.0 matches Some(rep) ==> rep.placeholders@ == config.report.placeholders@)
            &&& state.1@.len() == enabled.len()
            &&& (forall|i: int|
                0 <= i < state.1@.len() ==> (#[trigger] state.1@[i]).wf() && state.1@[i].name@
                    == enabled[i].name@ && state.1@[i].interval == enabled[i].interval)
            &&& (exists|m: action::ActionMap|
                #[trigger] spec_registry_matches(m, *config) && (forall|i: int|
                    0 <= i < state.1@.len() ==> check::spec_check_matches(
                        #[trigger] state.1@[i],
                        enabled[i],
                        m,
                    )))
        }),
{
    let actions = match init_actions(config) {
        Ok(a) => a,
        Err(e) => {
            return Err(e);
        },
    };
    proof {
        assert(spec_registry_matches(actions, *config));
    }
    let rep = match init_report(config, &actions) {
        Ok(rp) => rp,
        Err(e) => {
            proof {
                assert(!spec_config_ok(*config));
            }
            return Err(e);
        },
    };
    let checks = match init_checks(config, &actions) {
        Ok(cs) => cs,
        Err(e) => {
            proof {
                if spec_no_duplicate_check_names(config.checks@) {
                    assert(!(forall|i: int|
                        0 <= i < config.checks@.len() ==> ((#[trigger] config.checks@[i]).disable
                            || check::spec_check_config_ok(config.checks@[i], actions))));
                    assert(!spec_config_ok(*config));
                }
            }
            return Err(e);
        },
    };
    proof {
        assert forall|m: action::ActionMap| #[trigger]
            spec_registry_matches(m, *config) implies ({
            &&& (config.report.disable || spec_report_config_ok(config.report, m))
            &&& (forall|i: int|
                0 <= i < config.checks@.len() ==> ((#[trigger] config.checks@[i]).disable
                    || check::spec_check_config_ok(config.checks@[i], m)))
        }) by {
            assert(forall|k: Seq<char>| #[trigger]
                m.spec_contains(k) <==> actions.spec_contains(k));
            lemma_report_ok_contains_equiv(config.report, m, actions);
            assert forall|i: int|
                0 <= i < config.checks@.len() implies ((#[trigger] config.checks@[i]).disable
                || check::spec_check_config_ok(config.checks@[i], m)) by {
                lemma_check_ok_contains_equiv(config.checks@[i], m, actions);
            }
        }
    }
    Ok((rep, checks))
}

/// Formats a whole-second duration as ISO 8601, up to days.
pub fn duration_iso8601(secs: u64) -> (r: String)
    ensures
        r@ == spec_duration_iso8601(secs),
{
    if secs == 0 {
        return String::from_str("PT0S");
    }
    let days = secs / 86400;
    let rem = secs % 86400;
    let mut r = String::from_str("P");
    if days > 0 {
        let ds = crate::text::u64_to_string(days);
        r.append(ds.as_str());
        r.append("D");
    }
    if rem == 0 {
        proof {
            assert(r@ =~= spec_duration_iso8601(secs));
        }
        return r;
    }
    r.append("T");
    let h = rem / 3600;
    let rem2 = rem % 3600;
    let m = rem2 / 60;
    let s = rem2 % 60;
    if h > 0 {
        let hs = crate::text::u64_to_string(h);
        r.append(hs.as_str());
        r.append("H");
    }
    if m > 0 {
        let ms = crate::text::u64_to_string(m);
        r.append(ms.as_str());
        r.append("M");
    }
    if s > 0 {
        let ss = crate::text::u64_to_string(s);
        r.append(ss.as_str());
        r.append("S");
    }
    proof {
        assert(r@ =~= spec_duration_iso8601(secs));
    }
    r
}

} // verus!
