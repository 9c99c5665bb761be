//! The report: a periodic fan-out of configured events to named
//! actions, with no state machine in between.

use crate::action::{ActionBase, Invocation};
use crate::config;
use crate::placeholder::PlaceholderMap;
use crate::Error;
use std::sync::Arc;
use vstd::prelude::*;

verus! {

/// Whether the `cron` crate accepts a schedule expression; a fixed
/// function of the expression alone.
pub uninterp spec fn cron_ok(s: Seq<char>) -> bool;

/// Relies on `cron::Schedule::from_str`: whether the expression parses
/// as a cron schedule.
#[verifier::external_body]
fn cron_expression_ok(s: &str) -> (r: bool)
    ensures
        r == cron_ok(s@),
{
    <cron::Schedule as std::str::FromStr>::from_str(s).is_ok()
}

/// When the report fires: every so many seconds, or on a cron schedule
/// (whose occurrences the host computes).
#[derive(Debug)]
pub enum ReportWhen {
    Interval(u32),
    Cron(String),
}

/// One report event: a name, its placeholders, and the action it
/// triggers.
#[derive(Debug)]
pub struct ReportEvent {
    pub name: String,
    pub placeholders: PlaceholderMap,
    pub action: Arc<ActionBase>,
}

impl ReportEvent {
    /// An event; an empty name is rejected.
    pub fn new(name: String, placeholders: PlaceholderMap, action: Arc<ActionBase>) -> (r: Result<
        Self,
        Error,
    >)
        ensures
            r is Ok <==> name@.len() != 0,
            r matches Ok(e) ==> e.name == name && e.placeholders == placeholders && e.action
                == action,
            r matches Err(e) ==> e.0@ == "'name' cannot be empty."@,
    {
        if name.as_str().is_empty() {
            Err(Error(String::from_str("'name' cannot be empty.")))
        } else {
            Ok(ReportEvent { name, placeholders, action })
        }
    }
}

/// The report: when it fires, its own placeholders, and its events.
#[derive(Debug)]
pub struct Report {
    pub when: ReportWhen,
    pub placeholders: PlaceholderMap,
    pub events: Vec<ReportEvent>,
}

impl Report {
    /// A report. `interval` and `cron` cannot both be set; a zero
    /// interval and an unparseable cron expression are rejected; with
    /// neither given, the default interval applies.
    pub fn new(when: &config::ReportWhen, placeholders: PlaceholderMap, events: Vec<ReportEvent>)
        -> (r: Result<Self, Error>)
        ensures
            r is Ok <==> ({
                &&& !(when.interval is Some && when.cron is Some)
                &&& (when.interval matches Some(i) ==> i != 0)
                &&& (when.cron matches Some(c) ==> cron_ok(c@))
            }),
            r matches Ok(rep) ==> rep.placeholders == placeholders && rep.events == events && (
            match (when.interval, when.cron) {
                (Some(i), _) => rep.when matches ReportWhen::Interval(i2) && i2 == i,
                (None, Some(_)) => rep.when is Cron,
                (None, None) => rep.when matches ReportWhen::Interval(i2) && i2 == 604800,
            }),
            r matches Err(e) ==> e.0@ == (if when.interval is Some && when.cron is Some {
                "'interval' and 'cron' cannot be set both."@
            } else if when.interval matches Some(i) && i == 0 {
                "'interval' cannot be 0."@
            } else {
                "Could not parse cron expression."@
            }),
    {
        if when.interval.is_some() && when.cron.is_some() {
            Err(Error(String::from_str("'interval' and 'cron' cannot be set both.")))
        } else if match when.interval {
            Some(i) => i == 0,
            None => false,
        } {
            Err(Error(String::from_str("'interval' cannot be 0.")))
        } else {
            match when.interval {
                Some(i) => Ok(Report { when: ReportWhen::Interval(i), placeholders, events }),
                None => match &when.cron {
                    Some(c) => {
                        if cron_expression_ok(c.as_str()) {
                            Ok(Report { when: ReportWhen::Cron(c.clone()), placeholders, events })
                        } else {
                            Err(Error(String::from_str("Could not parse cron expression.")))
                        }
                    },
                    None => Ok(
                        Report {
                            when: ReportWhen::Interval(crate::config::default::report_interval()),
                            placeholders,
                            events,
                        },
                    ),
                },
            }
        }
    }

    /// Fires every event once: the global placeholders, the report's
    /// own, then per event its name and placeholders, through its
    /// action. The invocations come back in event order.
    pub fn trigger(&mut self, system_uptime: u64, minmon_uptime: u64) -> (r: Vec<Invocation>)
        ensures
            *final(self) == *old(self),
            r@.len() == old(self).events@.len(),
            forall|i: int|
                0 <= i < r@.len() ==> crate::alarm::inv_for(
                    *old(self).events@[i].action,
                    crate::spec_global_placeholders(system_uptime, minmon_uptime)
                        .union_prefer_right(old(self).placeholders@).insert(
                        "event_name"@,
                        old(self).events@[i].name@,
                    ),
                    old(self).events@[i].placeholders@,
                    #[trigger] r@[i],
                ),
    {
        let mut placeholders = crate::global_placeholders(system_uptime, minmon_uptime);
        placeholders.merge(&self.placeholders);
        let n = self.events.len();
        let mut out: Vec<Invocation> = Vec::new();
        for i in 0..n
            invariant
                n == self.events@.len(),
                out@.len() == i,
                placeholders@ == crate::spec_global_placeholders(
                    system_uptime,
                    minmon_uptime,
                ).union_prefer_right(self.placeholders@),
                forall|j: int|
                    0 <= j < i ==> crate::alarm::inv_for(
                        *self.events@[j].action,
                        crate::spec_global_placeholders(system_uptime, minmon_uptime)
                            .union_prefer_right(self.placeholders@).insert(
                            "event_name"@,
                            self.events@[j].name@,
                        ),
                        self.events@[j].placeholders@,
                        #[trigger] out@[j],
                    ),
        {
            let event = &self.events[i];
            let mut p = placeholders.duplicate();
            p.insert(String::from_str("event_name"), event.name.clone());
            p.merge(&event.placeholders);
            out.push(event.action.trigger(p));
        }
        out
    }
}

} // verus!
