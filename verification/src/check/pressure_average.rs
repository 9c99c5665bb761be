//! The pressure-stall data source: average stall percentages from the
//! host's pressure files (`some` and `full` lines with `avg10`, `avg60`
//! and `avg300` columns).

use crate::config;
use crate::measurement::Measurement;
use crate::text;
use crate::Error;
use vstd::prelude::*;

verus! {

use vstd::string::StrSliceExecFns;

/// Which stall line a pressure-file line reports.
#[derive(Clone, Copy, Debug, PartialEq, Eq, Structural)]
pub enum PressureLabel {
    SomeStall,
    FullStall,
}

/// One parsed pressure-file line: its label and the three averages,
/// truncated to whole percents (clipped at 255).
#[derive(Debug)]
pub struct PressureFileLine {
    pub label: PressureLabel,
    pub avg10: u8,
    pub avg60: u8,
    pub avg300: u8,
}

/// The position of the first `=` at or after `k`, or the length.
pub open spec fn spec_eq_pos(s: Seq<char>, k: int) -> int
    decreases s.len() - k,
{
    if k < 0 {
        0
    } else if k >= s.len() {
        s.len() as int
    } else if s[k] == '=' {
        k
    } else {
        spec_eq_pos(s, k + 1)
    }
}

/// The whole-percent value of an `avgN=…` column with the given name:
/// what precedes the first `=` must be the name, what follows must be a
/// simple decimal, which is truncated and clipped at 255.
pub open spec fn spec_avg_value(tok: Seq<char>, name: Seq<char>) -> Option<u8> {
    let e = spec_eq_pos(tok, 0);
    if e < tok.len() && tok.subrange(0, e) == name {
        let v = tok.subrange(e + 1, tok.len() as int);
        if text::is_simple_decimal(v) && text::dec_val(
            v.subrange(0, text::spec_point_pos(v, 0)),
        ) <= u64::MAX {
            Some(
                if text::simple_decimal_trunc(v) > 255 {
                    255u8
                } else {
                    text::simple_decimal_trunc(v) as u8
                },
            )
        } else {
            None
        }
    } else {
        None
    }
}

/// Parses one `avgN=…` column.
fn parse_avg_str(avg_str: &str, name: &str) -> (r: Result<u8, Error>)
    ensures
        match spec_avg_value(avg_str@, name@) {
            Some(v) => r matches Ok(v2) && v2 == v,
            None => r matches Err(e) && e.0@ == "Could not parse pressure file."@,
        },
{
    let n = avg_str.unicode_len();
    let mut e: usize = 0;
    while e < n && avg_str.get_char(e) != '='
        invariant
            e <= n,
            n == avg_str@.len(),
            spec_eq_pos(avg_str@, 0) == spec_eq_pos(avg_str@, e as int),
        decreases n - e,
    {
        e = e + 1;
    }
    proof {
        assert(e == spec_eq_pos(avg_str@, 0));
    }
    if e >= n {
        return Err(Error(String::from_str("Could not parse pressure file.")));
    }
    let head = avg_str.substring_char(0, e);
    if !text::str_eq(head, name) {
        proof {
            assert(avg_str@.subrange(0, e as int) != name@);
        }
        return Err(Error(String::from_str("Could not parse pressure file.")));
    }
    let tail = avg_str.substring_char(e + 1, n);
    match text::parse_decimal_trunc(tail) {
        Some(v) => Ok(
            if v > 255 {
                255u8
            } else {
                v as u8
            },
        ),
        None => Err(Error(String::from_str("Could not parse pressure file."))),
    }
}

/// Whether a pressure-file line parses: a `some` or `full` first
/// column, then readable `avg10`, `avg60` and `avg300` columns.
pub open spec fn spec_pressure_line_ok(line: Seq<char>) -> bool {
    &&& (match text::nth_token(line, 0) {
        Some((a, b)) => line.subrange(a, b) == "some"@ || line.subrange(a, b) == "full"@,
        None => false,
    })
    &&& (match text::nth_token(line, 1) {
        Some((a, b)) => spec_avg_value(line.subrange(a, b), "avg10"@) is Some,
        None => false,
    })
    &&& (match text::nth_token(line, 2) {
        Some((a, b)) => spec_avg_value(line.subrange(a, b), "avg60"@) is Some,
        None => false,
    })
    &&& (match text::nth_token(line, 3) {
        Some((a, b)) => spec_avg_value(line.subrange(a, b), "avg300"@) is Some,
        None => false,
    })
}

impl PressureFileLine {
    /// Parses one pressure-file line: a `some` or `full` label, then
    /// `avg10=…`, `avg60=…` and `avg300=…` columns; anything else is
    /// rejected.
    pub fn try_from_str(line: &str) -> (r: Result<Self, Error>)
        ensures
            r is Ok <==> spec_pressure_line_ok(line@),
            r matches Err(e) ==> e.0@ == "Could not parse pressure file."@,
            r matches Ok(l) ==> ({
                &&& (match text::nth_token(line@, 0) {
                    Some((a, b)) => (line@.subrange(a, b) == "some"@ && l.label
                        == PressureLabel::SomeStall) || (line@.subrange(a, b) == "full"@ && l.label
                        == PressureLabel::FullStall),
                    None => false,
                })
                &&& (match text::nth_token(line@, 1) {
                    Some((a, b)) => spec_avg_value(line@.subrange(a, b), "avg10"@) == Some(l.avg10),
                    None => false,
                })
                &&& (match text::nth_token(line@, 2) {
                    Some((a, b)) => spec_avg_value(line@.subrange(a, b), "avg60"@) == Some(l.avg60),
                    None => false,
                })
                &&& (match text::nth_token(line@, 3) {
                    Some((a, b)) => spec_avg_value(line@.subrange(a, b), "avg300"@) == Some(
                        l.avg300,
                    ),
                    None => false,
                })
            }),
    {
        let label = match text::nth_token_exec(line, 0) {
            Some((a, b)) => {
                let tok = line.substring_char(a, b);
                if text::str_eq(tok, "some") {
                    PressureLabel::SomeStall
                } else if text::str_eq(tok, "full") {
                    PressureLabel::FullStall
                } else {
                    return Err(Error(String::from_str("Could not parse pressure file.")));
                }
            },
            None => {
                return Err(Error(String::from_str("Could not parse pressure file.")));
            },
        };
        let avg10 = match text::nth_token_exec(line, 1) {
            Some((a, b)) => {
                match parse_avg_str(line.substring_char(a, b), "avg10") {
                    Ok(v) => v,
                    Err(e) => {
                        return Err(e);
                    },
                }
            },
            None => {
                return Err(Error(String::from_str("Could not parse pressure file.")));
            },
        };
        let avg60 = match text::nth_token_exec(line, 2) {
            Some((a, b)) => {
                match parse_avg_str(line.substring_char(a, b), "avg60") {
                    Ok(v) => v,
                    Err(e) => {
                        return Err(e);
                    },
                }
            },
            None => {
                return Err(Error(String::from_str("Could not parse pressure file.")));
            },
        };
        let avg300 = match text::nth_token_exec(line, 3) {
            Some((a, b)) => {
                match parse_avg_str(line.substring_char(a, b), "avg300") {
                    Ok(v) => v,
                    Err(e) => {
                        return Err(e);
                    },
                }
            },
            None => {
                return Err(Error(String::from_str("Could not parse pressure file.")));
            },
        };
        Ok(PressureFileLine { label, avg10, avg60, avg300 })
    }
}

/// The values of one pressure-file line: whether it is the `some`
/// line, and its three averages; absent where the line does not parse.
pub open spec fn spec_pressure_line_values(line: Seq<char>) -> Option<(bool, u8, u8, u8)> {
    if !spec_pressure_line_ok(line) {
        None
    } else {
        let is_some_line = match text::nth_token(line, 0) {
            Some((a, b)) => line.subrange(a, b) == "some"@,
            None => false,
        };
        let a10 = match text::nth_token(line, 1) {
            Some((a, b)) => match spec_avg_value(line.subrange(a, b), "avg10"@) {
                Some(v) => v,
                None => 0u8,
            },
            None => 0u8,
        };
        let a60 = match text::nth_token(line, 2) {
            Some((a, b)) => match spec_avg_value(line.subrange(a, b), "avg60"@) {
                Some(v) => v,
                None => 0u8,
            },
            None => 0u8,
        };
        let a300 = match text::nth_token(line, 3) {
            Some((a, b)) => match spec_avg_value(line.subrange(a, b), "avg300"@) {
                Some(v) => v,
                None => 0u8,
            },
            None => 0u8,
        };
        Some((is_some_line, a10, a60, a300))
    }
}

/// The whole pressure-file parse, walked line by line with the last
/// `some` and `full` values seen so far: every line must parse, the
/// last line of each label wins, and a `some` line must be there.
pub open spec fn spec_pressure_scan(
    s: Seq<char>,
    k: int,
    some_acc: Option<(u8, u8, u8)>,
    full_acc: Option<(u8, u8, u8)>,
) -> Option<((u8, u8, u8), Option<(u8, u8, u8)>)>
    decreases s.len() - k,
    via spec_pressure_scan_dec
{
    let k1 = if k < 0 {
        0
    } else {
        k
    };
    if k1 >= s.len() {
        match some_acc {
            Some(sv) => Some((sv, full_acc)),
            None => None,
        }
    } else {
        let line = s.subrange(k1, text::line_end(s, k1));
        match spec_pressure_line_values(line) {
            None => None,
            Some(lv) => {
                let e = text::line_end(s, k1);
                let k2 = if e < s.len() {
                    e + 1
                } else {
                    s.len() as int
                };
                if lv.0 {
                    spec_pressure_scan(s, k2, Some((lv.1, lv.2, lv.3)), full_acc)
                } else {
                    spec_pressure_scan(s, k2, some_acc, Some((lv.1, lv.2, lv.3)))
                }
            },
        }
    }
}

#[via_fn]
proof fn spec_pressure_scan_dec(
    s: Seq<char>,
    k: int,
    some_acc: Option<(u8, u8, u8)>,
    full_acc: Option<(u8, u8, u8)>,
) {
    let k1 = if k < 0 {
        0int
    } else {
        k
    };
    if k1 < s.len() {
        text::lemma_line_end_bounds(s, k1);
    }
}

/// The three averages of a parsed line.
pub open spec fn spec_line_tuple(l: PressureFileLine) -> (u8, u8, u8) {
    (l.avg10, l.avg60, l.avg300)
}

/// The averages of an optional parsed line.
pub open spec fn spec_opt_line_tuple(l: Option<PressureFileLine>) -> Option<(u8, u8, u8)> {
    match l {
        Some(v) => Some(spec_line_tuple(v)),
        None => None,
    }
}

/// One parsed pressure file: its `some` line and, where the file has
/// one, its `full` line.
#[derive(Debug)]
pub struct PressureFileContent {
    pub some_line: PressureFileLine,
    pub full_line: Option<PressureFileLine>,
}

impl PressureFileContent {
    /// Parses a pressure file: every line must parse, the last line of
    /// each label wins, and the `some` line must be there — exactly as
    /// `spec_pressure_scan` walks it.
    #[verifier::rlimit(100)]
    #[verifier::spinoff_prover]
    pub fn try_from_str(text_content: &str) -> (r: Result<Self, Error>)
        ensures
            match spec_pressure_scan(text_content@, 0, None, None) {
                Some(v) => r matches Ok(c) && c.some_line.label == PressureLabel::SomeStall
                    && spec_line_tuple(c.some_line) == v.0 && (match v.1 {
                    Some(f3) => c.full_line matches Some(fl) && fl.label
                        == PressureLabel::FullStall && spec_line_tuple(fl) == f3,
                    None => c.full_line is None,
                }),
                None => r matches Err(e) && e.0@ == "Could not parse pressure file."@,
            },
            r matches Ok(c) ==> c.some_line.label == PressureLabel::SomeStall && (c.full_line
                matches Some(f) ==> f.label == PressureLabel::FullStall),
    {
        let t = text_content;
        let n = t.unicode_len();
        let mut k: usize = 0;
        let mut some_line: Option<PressureFileLine> = None;
        let mut full_line: Option<PressureFileLine> = None;
        while k < n
            invariant
                k <= n,
                n == t@.len(),
                t@ == text_content@,
                spec_pressure_scan(t@, 0, None, None) == spec_pressure_scan(
                    t@,
                    k as int,
                    spec_opt_line_tuple(some_line),
                    spec_opt_line_tuple(full_line),
                ),
                some_line matches Some(l) ==> l.label == PressureLabel::SomeStall,
                full_line matches Some(l) ==> l.label == PressureLabel::FullStall,
            decreases n - k,
        {
            let ghost k0 = k as int;
            let ghost some0 = spec_opt_line_tuple(some_line);
            let ghost full0 = spec_opt_line_tuple(full_line);
            let e = text::line_end_exec(t, k);
            let line = t.substring_char(k, e);
            proof {
                assert(line@ == t@.subrange(k0, text::line_end(t@, k0)));
            }
            match PressureFileLine::try_from_str(line) {
                Ok(parsed) => {
                    proof {
                        reveal_strlit("some");
                        reveal_strlit("full");
                        assert("some"@[0] != "full"@[0]);
                        assert("some"@ != "full"@);
                        assert(spec_pressure_line_values(line@) == Some(
                            (
                                parsed.label == PressureLabel::SomeStall,
                                parsed.avg10,
                                parsed.avg60,
                                parsed.avg300,
                            ),
                        ));
                    }
                    match parsed.label {
                        PressureLabel::SomeStall => {
                            some_line = Some(
                                PressureFileLine {
                                    label: PressureLabel::SomeStall,
                                    avg10: parsed.avg10,
                                    avg60: parsed.avg60,
                                    avg300: parsed.avg300,
                                },
                            );
                        },
                        PressureLabel::FullStall => {
                            full_line = Some(
                                PressureFileLine {
                                    label: PressureLabel::FullStall,
                                    avg10: parsed.avg10,
                                    avg60: parsed.avg60,
                                    avg300: parsed.avg300,
                                },
                            );
                        },
                    }
                },
                Err(e2) => {
                    proof {
                        assert(spec_pressure_scan(t@, k0, some0, full0) is None);
                    }
                    return Err(e2);
                },
            }
            k = if e < n {
                e + 1
            } else {
                n
            };
            proof {
                assert(spec_pressure_scan(t@, k0, some0, full0) == spec_pressure_scan(
                    t@,
                    k as int,
                    spec_opt_line_tuple(some_line),
                    spec_opt_line_tuple(full_line),
                ));
            }
        }
        match some_line {
            Some(s) => Ok(PressureFileContent { some_line: s, full_line }),
            None => Err(Error(String::from_str("Could not parse pressure file."))),
        }
    }
}

/// The pressure data source: which files and stall lines to watch, and
/// which averages to report.
#[derive(Debug)]
pub struct PressureAverage {
    pub id: Vec<String>,
    pub cpu: bool,
    pub io: config::PressureChoice,
    pub memory: config::PressureChoice,
    pub avg10: bool,
    pub avg60: bool,
    pub avg300: bool,
}

/// How many averages a pressure configuration watches per stall line.
pub open spec fn spec_pressure_avgs(c: config::CheckPressureAverage) -> int {
    (if c.avg10 {
        1int
    } else {
        0int
    }) + (if c.avg60 {
        1int
    } else {
        0int
    }) + (if c.avg300 {
        1int
    } else {
        0int
    })
}

/// How many ids a pressure configuration produces: one per watched
/// stall line and average.
pub open spec fn spec_pressure_ids_len(c: config::CheckPressureAverage) -> int {
    (if c.cpu {
        spec_pressure_avgs(c)
    } else {
        0int
    }) + (match c.io {
        config::PressureChoice::Neither => 0int,
        config::PressureChoice::Both => 2 * spec_pressure_avgs(c),
        _ => spec_pressure_avgs(c),
    }) + (match c.memory {
        config::PressureChoice::Neither => 0int,
        config::PressureChoice::Both => 2 * spec_pressure_avgs(c),
        _ => spec_pressure_avgs(c),
    })
}

impl PressureAverage {
    /// How many averages are watched per stall line.
    pub open spec fn spec_avgs(&self) -> int {
        (if self.avg10 {
            1int
        } else {
            0int
        }) + (if self.avg60 {
            1int
        } else {
            0int
        }) + (if self.avg300 {
            1int
        } else {
            0int
        })
    }

    /// Builds the source. At least one file and at least one average
    /// must be enabled. The ids group each watched file's `some` block
    /// before its `full` block, each block in `avg10`, `avg60`,
    /// `avg300` order.
    pub fn from_config(c: &config::CheckPressureAverage) -> (r: Result<Self, Error>)
        ensures
            r is Ok <==> ((c.cpu || c.io != config::PressureChoice::Neither || c.memory
                != config::PressureChoice::Neither) && (c.avg10 || c.avg60 || c.avg300)),
            r matches Ok(s) ==> s.cpu == c.cpu && s.io == c.io && s.memory == c.memory && s.avg10
                == c.avg10 && s.avg60 == c.avg60 && s.avg300 == c.avg300 && s.id@.len()
                == spec_pressure_ids_len(*c),
            r matches Err(e) ==> e.0@ == (if !(c.cpu || c.io != config::PressureChoice::Neither
                || c.memory != config::PressureChoice::Neither) {
                "At least one of 'cpu', 'io', or 'memory' needs to be enabled."@
            } else {
                "At least one of 'avg10', 'avg60', or 'avg300' needs to be enabled."@
            }),
    {
        if !(c.cpu || !matches!(c.io, config::PressureChoice::Neither) || !matches!(
            c.memory,
            config::PressureChoice::Neither,
        )) {
            return Err(
                Error(
                    String::from_str("At least one of 'cpu', 'io', or 'memory' needs to be enabled."),
                ),
            );
        }
        if !c.avg10 && !c.avg60 && !c.avg300 {
            return Err(
                Error(
                    String::from_str(
                        "At least one of 'avg10', 'avg60', or 'avg300' needs to be enabled.",
                    ),
                ),
            );
        }
        let mut id: Vec<String> = Vec::new();
        if c.cpu {
            push_avg_ids(&mut id, "cpu/", c.avg10, c.avg60, c.avg300);
        }
        match c.io {
            config::PressureChoice::SomeStall => {
                push_avg_ids(&mut id, "io/some/", c.avg10, c.avg60, c.avg300);
            },
            config::PressureChoice::FullStall => {
                push_avg_ids(&mut id, "io/full/", c.avg10, c.avg60, c.avg300);
            },
            config::PressureChoice::Both => {
                push_avg_ids(&mut id, "io/some/", c.avg10, c.avg60, c.avg300);
                push_avg_ids(&mut id, "io/full/", c.avg10, c.avg60, c.avg300);
            },
            config::PressureChoice::Neither => {},
        }
        match c.memory {
            config::PressureChoice::SomeStall => {
                push_avg_ids(&mut id, "memory/some/", c.avg10, c.avg60, c.avg300);
            },
            config::PressureChoice::FullStall => {
                push_avg_ids(&mut id, "memory/full/", c.avg10, c.avg60, c.avg300);
            },
            config::PressureChoice::Both => {
                push_avg_ids(&mut id, "memory/some/", c.avg10, c.avg60, c.avg300);
                push_avg_ids(&mut id, "memory/full/", c.avg10, c.avg60, c.avg300);
            },
            config::PressureChoice::Neither => {},
        }
        Ok(
            PressureAverage {
                id,
                cpu: c.cpu,
                io: c.io,
                memory: c.memory,
                avg10: c.avg10,
                avg60: c.avg60,
                avg300: c.avg300,
            },
        )
    }

    /// The watched averages of one parsed line, as level measurements;
    /// an average above 100 is a sink-domain error for its id.
    pub fn add_data_from_line(
        &self,
        line: &PressureFileLine,
        res: &mut Vec<Result<Option<Measurement>, Error>>,
    )
        ensures
            final(res)@.len() == old(res)@.len() + self.spec_avgs(),
            forall|i: int| 0 <= i < old(res)@.len() ==> final(res)@[i] == old(res)@[i],
    {
        if self.avg10 {
            push_level(res, line.avg10);
        }
        if self.avg60 {
            push_level(res, line.avg60);
        }
        if self.avg300 {
            push_level(res, line.avg300);
        }
    }

    /// One copy of `error` per watched average.
    pub fn add_data_from_error(
        &self,
        error: &Error,
        res: &mut Vec<Result<Option<Measurement>, Error>>,
    )
        ensures
            final(res)@.len() == old(res)@.len() + self.spec_avgs(),
            forall|i: int| 0 <= i < old(res)@.len() ==> final(res)@[i] == old(res)@[i],
            forall|i: int|
                old(res)@.len() <= i < final(res)@.len() ==> ((#[trigger] final(res)@[i])
                    matches Err(e) && e.0@ == error.0@),
    {
        if self.avg10 {
            res.push(Err(Error(error.0.clone())));
        }
        if self.avg60 {
            res.push(Err(Error(error.0.clone())));
        }
        if self.avg300 {
            res.push(Err(Error(error.0.clone())));
        }
    }

    /// The measurements of one watched pressure file, from its parse
    /// outcome: the watched lines' averages in id order, errors standing
    /// in for lines the file does not carry or could not be read.
    pub fn add_data_from_content(
        &self,
        choice: config::PressureChoice,
        content: &Result<PressureFileContent, Error>,
        res: &mut Vec<Result<Option<Measurement>, Error>>,
    )
        ensures
            final(res)@.len() == old(res)@.len() + (match choice {
                config::PressureChoice::Neither => 0int,
                config::PressureChoice::Both => 2 * self.spec_avgs(),
                _ => self.spec_avgs(),
            }),
            forall|i: int| 0 <= i < old(res)@.len() ==> final(res)@[i] == old(res)@[i],
    {
        match choice {
            config::PressureChoice::Neither => {},
            _ => {
                match content {
                    Ok(pressure) => {
                        if matches!(choice, config::PressureChoice::SomeStall) || matches!(
                            choice,
                            config::PressureChoice::Both,
                        ) {
                            self.add_data_from_line(&pressure.some_line, res);
                        }
                        if matches!(choice, config::PressureChoice::FullStall) || matches!(
                            choice,
                            config::PressureChoice::Both,
                        ) {
                            match &pressure.full_line {
                                Some(full) => self.add_data_from_line(full, res),
                                None => self.add_data_from_error(
                                    &Error(String::from_str("Could not parse pressure file.")),
                                    res,
                                ),
                            }
                        }
                    },
                    Err(err) => {
                        self.add_data_from_error(err, res);
                        if matches!(choice, config::PressureChoice::Both) {
                            self.add_data_from_error(err, res);
                        }
                    },
                }
            },
        }
    }
}

/// Pushes one average as a level measurement, or the constructor's
/// error where it exceeds 100.
fn push_level(res: &mut Vec<Result<Option<Measurement>, Error>>, avg: u8)
    ensures
        final(res)@.len() == old(res)@.len() + 1,
        forall|i: int| 0 <= i < old(res)@.len() ==> final(res)@[i] == old(res)@[i],
        avg <= 100 ==> (final(res)@.last() matches Ok(Some(m)) && m
            matches Measurement::Level(l) && l@ == avg),
{
    match crate::measurement::Level::new(avg) {
        Ok(l) => res.push(Ok(Some(Measurement::Level(l)))),
        Err(e) => res.push(Err(e)),
    }
}

/// Pushes the watched `prefix + avgN` ids.
fn push_avg_ids(id: &mut Vec<String>, prefix: &str, avg10: bool, avg60: bool, avg300: bool)
    ensures
        final(id)@.len() == old(id)@.len() + (if avg10 {
            1int
        } else {
            0int
        }) + (if avg60 {
            1int
        } else {
            0int
        }) + (if avg300 {
            1int
        } else {
            0int
        }),
        forall|i: int| 0 <= i < old(id)@.len() ==> final(id)@[i] == old(id)@[i],
{
    if avg10 {
        let mut s = String::from_str(prefix);
        s.append("avg10");
        id.push(s);
    }
    if avg60 {
        let mut s = String::from_str(prefix);
        s.append("avg60");
        id.push(s);
    }
    if avg300 {
        let mut s = String::from_str(prefix);
        s.append("avg300");
        id.push(s);
    }
}

} // verus!
