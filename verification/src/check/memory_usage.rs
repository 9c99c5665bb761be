//! The memory/swap usage data source: reads the totals out of the
//! host's meminfo text and turns them into usage levels.

use crate::config;
use crate::measurement::Measurement;
use crate::text;
use crate::Error;
use vstd::prelude::*;

verus! {

use vstd::string::StrSliceExecFns;

/// The four meminfo fields this check reads, in kilobytes.
#[derive(Debug)]
pub struct MeminfoFileContent {
    pub mem_total: u64,
    pub mem_available: u64,
    pub swap_total: u64,
    pub swap_free: u64,
}

/// The value of the first column after the label of a meminfo line, if
/// the line carries the given label and a readable number.
pub open spec fn spec_meminfo_field(line: Seq<char>, label: Seq<char>) -> Option<u64> {
    if text::spec_starts_with(line, label) {
        match text::nth_token(line, 1) {
            Some((a, b)) => {
                let tok = line.subrange(a, b);
                if text::is_u64_string(tok) {
                    Some(text::dec_val(text::unsigned_digits(tok)) as u64)
                } else {
                    None
                }
            },
            None => None,
        }
    } else {
        None
    }
}

fn read_field(line: &str, label: &str, error_label: &str) -> (r: Result<Option<u64>, Error>)
    ensures
        text::spec_starts_with(line@, label@) ==> (match spec_meminfo_field(line@, label@) {
            Some(v) => r matches Ok(o) && o == Some(v),
            None => r is Err,
        }),
        !text::spec_starts_with(line@, label@) ==> (r matches Ok(o) && o is None),
{
    if text::starts_with(line, label) {
        match text::get_number(error_label, line, 1) {
            Ok(v) => Ok(Some(v)),
            Err(e) => Err(e),
        }
    } else {
        Ok(None)
    }
}

/// The whole meminfo parse, walked line by line from position `k` with
/// the fields found so far: a line carrying a label replaces that
/// label's value (the last line wins), a matching line whose value is
/// unreadable fails the parse, and at the end all four fields must have
/// been seen.
pub open spec fn spec_meminfo_scan(
    s: Seq<char>,
    k: int,
    mt: Option<u64>,
    ma: Option<u64>,
    st: Option<u64>,
    sf: Option<u64>,
) -> Option<(u64, u64, u64, u64)>
    decreases s.len() - k,
    via spec_meminfo_scan_dec
{
    let k1 = if k < 0 {
        0
    } else {
        k
    };
    if k1 >= s.len() {
        match (mt, ma, st, sf) {
            (Some(a), Some(b), Some(c), Some(d)) => Some((a, b, c, d)),
            _ => None,
        }
    } else {
        let line = spec_line_at(s, k1);
        if (text::spec_starts_with(line, "MemTotal"@) && spec_meminfo_field(line, "MemTotal"@)
            is None) || (text::spec_starts_with(line, "MemAvailable"@) && spec_meminfo_field(
            line,
            "MemAvailable"@,
        ) is None) || (text::spec_starts_with(line, "SwapTotal"@) && spec_meminfo_field(
            line,
            "SwapTotal"@,
        ) is None) || (text::spec_starts_with(line, "SwapFree"@) && spec_meminfo_field(
            line,
            "SwapFree"@,
        ) is None) {
            None
        } else {
            let e = text::line_end(s, k1);
            let k2 = if e < s.len() {
                e + 1
            } else {
                s.len() as int
            };
            spec_meminfo_scan(
                s,
                k2,
                if text::spec_starts_with(line, "MemTotal"@) {
                    spec_meminfo_field(line, "MemTotal"@)
                } else {
                    mt
                },
                if text::spec_starts_with(line, "MemAvailable"@) {
                    spec_meminfo_field(line, "MemAvailable"@)
                } else {
                    ma
                },
                if text::spec_starts_with(line, "SwapTotal"@) {
                    spec_meminfo_field(line, "SwapTotal"@)
                } else {
                    st
                },
                if text::spec_starts_with(line, "SwapFree"@) {
                    spec_meminfo_field(line, "SwapFree"@)
                } else {
                    sf
                },
            )
        }
    }
}

#[via_fn]
proof fn spec_meminfo_scan_dec(
    s: Seq<char>,
    k: int,
    mt: Option<u64>,
    ma: Option<u64>,
    st: Option<u64>,
    sf: Option<u64>,
) {
    let k1 = if k < 0 {
        0int
    } else {
        k
    };
    if k1 < s.len() {
        text::lemma_line_end_bounds(s, k1);
    }
}

impl MeminfoFileContent {
    /// Parses a meminfo text: the last `MemTotal`, `MemAvailable`,
    /// `SwapTotal` and `SwapFree` lines win; the parse fails exactly
    /// when a matching line's value is unreadable or one of the four
    /// fields never appears, as `spec_meminfo_scan` walks it.
    #[verifier::rlimit(100)]
    #[verifier::spinoff_prover]
    pub fn try_from_str(text_content: &str) -> (r: Result<Self, Error>)
        ensures
            match spec_meminfo_scan(text_content@, 0, None, None, None, None) {
                Some(v) => r matches Ok(c) && c.mem_total == v.0 && c.mem_available == v.1
                    && c.swap_total == v.2 && c.swap_free == v.3,
                None => r is Err,
            },
            r matches Ok(c) ==> ({
                &&& exists|i: int| #[trigger]
                    spec_meminfo_field_at(text_content@, i, "MemTotal"@) == Some(c.mem_total)
                &&& exists|i: int| #[trigger]
                    spec_meminfo_field_at(text_content@, i, "MemAvailable"@) == Some(
                        c.mem_available,
                    )
                &&& exists|i: int| #[trigger]
                    spec_meminfo_field_at(text_content@, i, "SwapTotal"@) == Some(c.swap_total)
                &&& exists|i: int| #[trigger]
                    spec_meminfo_field_at(text_content@, i, "SwapFree"@) == Some(c.swap_free)
            }),
    {
        let t = text_content;
        let n = t.unicode_len();
        let mut k: usize = 0;
        let mut mem_total: Option<u64> = None;
        let mut mem_available: Option<u64> = None;
        let mut swap_total: Option<u64> = None;
        let mut swap_free: Option<u64> = None;
        while k < n
            invariant
                k <= n,
                n == t@.len(),
                t@ == text_content@,
                spec_meminfo_scan(t@, 0, None, None, None, None) == spec_meminfo_scan(
                    t@,
                    k as int,
                    mem_total,
                    mem_available,
                    swap_total,
                    swap_free,
                ),
                mem_total matches Some(v) ==> exists|i: int| #[trigger]
                    spec_meminfo_field_at(t@, i, "MemTotal"@) == Some(v),
                mem_available matches Some(v) ==> exists|i: int| #[trigger]
                    spec_meminfo_field_at(t@, i, "MemAvailable"@) == Some(v),
                swap_total matches Some(v) ==> exists|i: int| #[trigger]
                    spec_meminfo_field_at(t@, i, "SwapTotal"@) == Some(v),
                swap_free matches Some(v) ==> exists|i: int| #[trigger]
                    spec_meminfo_field_at(t@, i, "SwapFree"@) == Some(v),
            decreases n - k,
        {
            let ghost k0 = k as int;
            let ghost accs0 = (mem_total, mem_available, swap_total, swap_free);
            let e = text::line_end_exec(t, k);
            let line = t.substring_char(k, e);
            proof {
                assert(line@ == spec_line_at(t@, k as int));
            }
            match read_field(line, "MemTotal", "Could not read MemTotal from meminfo") {
                Ok(Some(v)) => {
                    mem_total = Some(v);
                    proof {
                        assert(spec_meminfo_field_at(t@, k as int, "MemTotal"@) == Some(v));
                    }
                },
                Ok(None) => {},
                Err(err) => {
                    proof {
                        assert(spec_meminfo_scan(t@, k0, accs0.0, accs0.1, accs0.2, accs0.3)
                            is None);
                        assert(spec_meminfo_scan(t@, 0, None, None, None, None) is None);
                    }
                    return Err(err);
                },
            }
            match read_field(line, "MemAvailable", "Could not read MemAvailable from meminfo") {
                Ok(Some(v)) => {
                    mem_available = Some(v);
                    proof {
                        assert(spec_meminfo_field_at(t@, k as int, "MemAvailable"@) == Some(v));
                    }
                },
                Ok(None) => {},
                Err(err) => {
                    proof {
                        assert(spec_meminfo_scan(t@, k0, accs0.0, accs0.1, accs0.2, accs0.3)
                            is None);
                        assert(spec_meminfo_scan(t@, 0, None, None, None, None) is None);
                    }
                    return Err(err);
                },
            }
            match read_field(line, "SwapTotal", "Could not read SwapTotal from meminfo") {
                Ok(Some(v)) => {
                    swap_total = Some(v);
                    proof {
                        assert(spec_meminfo_field_at(t@, k as int, "SwapTotal"@) == Some(v));
                    }
                },
                Ok(None) => {},
                Err(err) => {
                    proof {
                        assert(spec_meminfo_scan(t@, k0, accs0.0, accs0.1, accs0.2, accs0.3)
                            is None);
                        assert(spec_meminfo_scan(t@, 0, None, None, None, None) is None);
                    }
                    return Err(err);
                },
            }
            match read_field(line, "SwapFree", "Could not read SwapFree from meminfo") {
                Ok(Some(v)) => {
                    swap_free = Some(v);
                    proof {
                        assert(spec_meminfo_field_at(t@, k as int, "SwapFree"@) == Some(v));
                    }
                },
                Ok(None) => {},
                Err(err) => {
                    proof {
                        assert(spec_meminfo_scan(t@, k0, accs0.0, accs0.1, accs0.2, accs0.3)
                            is None);
                        assert(spec_meminfo_scan(t@, 0, None, None, None, None) is None);
                    }
                    return Err(err);
                },
            }
            k = if e < n {
                e + 1
            } else {
                n
            };
            proof {
                assert(k <= n);
                assert(spec_meminfo_scan(t@, k0, accs0.0, accs0.1, accs0.2, accs0.3)
                    == spec_meminfo_scan(
                    t@,
                    k as int,
                    mem_total,
                    mem_available,
                    swap_total,
                    swap_free,
                ));
            }
        }
        match (mem_total, mem_available, swap_total, swap_free) {
            (Some(mem_total), Some(mem_available), Some(swap_total), Some(swap_free)) => Ok(
                MeminfoFileContent { mem_total, mem_available, swap_total, swap_free },
            ),
            _ => Err(Error(String::from_str("Could not parse meminfo file."))),
        }
    }
}

/// The line of `s` that starts at position `i` (up to the next line
/// break).
pub open spec fn spec_line_at(s: Seq<char>, i: int) -> Seq<char> {
    s.subrange(
        if 0 <= i <= s.len() {
            i
        } else {
            0
        },
        text::line_end(
            s,
            if 0 <= i <= s.len() {
                i
            } else {
                0
            },
        ),
    )
}

/// The labelled field read from the line starting at position `i`.
pub open spec fn spec_meminfo_field_at(s: Seq<char>, i: int, label: Seq<char>) -> Option<u64> {
    spec_meminfo_field(spec_line_at(s, i), label)
}

/// The integer usage percentage of `total` kilobytes of which
/// `available` are still free: never above 100.
pub open spec fn spec_usage_level(total: u64, available: u64) -> int {
    let used = if available <= total {
        total - available
    } else {
        0
    };
    used * 100 / (total as int)
}

/// The usage level of a memory pool with a non-zero total.
pub fn usage_level(total: u64, available: u64) -> (r: u8)
    requires
        total != 0,
    ensures
        r == spec_usage_level(total, available),
        r <= 100,
{
    let used: u64 = if available <= total {
        total - available
    } else {
        0
    };
    let level = ((used as u128) * 100 / (total as u128)) as u64;
    proof {
        assert((used as int) * 100 <= (total as int) * 100) by (nonlinear_arith)
            requires
                used <= total,
        ;
        vstd::arithmetic::div_mod::lemma_div_is_ordered(
            (used as int) * 100,
            (total as int) * 100,
            total as int,
        );
        vstd::arithmetic::div_mod::lemma_div_multiples_vanish(100, total as int);
        assert((total as int) * 100 == (total as int) * 100);
        assert(((total as int) * 100) / (total as int) == 100);
    }
    level as u8
}

/// The memory/swap usage data source: which pools to watch, and the ids
/// they report under.
#[derive(Debug)]
pub struct MemoryUsage {
    pub id: Vec<String>,
    pub memory: bool,
    pub swap: bool,
}

impl MemoryUsage {
    /// Builds the source; at least one pool must be enabled.
    pub fn from_config(c: &config::CheckMemoryUsage) -> (r: Result<Self, Error>)
        ensures
            r is Ok <==> (c.memory || c.swap),
            r matches Ok(s) ==> s.memory == c.memory && s.swap == c.swap && s.id@.len() == (
            if c.memory {
                1int
            } else {
                0int
            }) + (if c.swap {
                1int
            } else {
                0int
            }),
            r matches Err(e) ==> e.0@ == "Either 'memory' or 'swap' or both need to be enabled."@,
    {
        if !c.memory && !c.swap {
            Err(Error(String::from_str("Either 'memory' or 'swap' or both need to be enabled.")))
        } else {
            let mut id: Vec<String> = Vec::new();
            if c.memory {
                id.push(String::from_str("Memory"));
            }
            if c.swap {
                id.push(String::from_str("Swap"));
            }
            Ok(MemoryUsage { id, memory: c.memory, swap: c.swap })
        }
    }

    /// One tick's measurements from a parsed meminfo: the usage level of
    /// each enabled pool, and an error for a pool whose total is zero.
    pub fn compute(&self, meminfo: &MeminfoFileContent) -> (r: Vec<
        Result<Option<Measurement>, Error>,
    >)
        ensures
            r@.len() == (if self.memory {
                1int
            } else {
                0int
            }) + (if self.swap {
                1int
            } else {
                0int
            }),
            self.memory ==> (if meminfo.mem_total != 0 {
                r@[0] matches Ok(Some(m)) && m matches Measurement::Level(l) && l@
                    == spec_usage_level(meminfo.mem_total, meminfo.mem_available)
            } else {
                r@[0] matches Err(e) && e.0@ == "Could not read memory usage."@
            }),
            self.swap ==> ({
                let j = if self.memory {
                    1int
                } else {
                    0int
                };
                if meminfo.swap_total != 0 {
                    r@[j] matches Ok(Some(m)) && m matches Measurement::Level(l) && l@
                        == spec_usage_level(meminfo.swap_total, meminfo.swap_free)
                } else {
                    r@[j] matches Err(e) && e.0@ == "Could not read swap usage."@
                }
            }),
    {
        let mut res: Vec<Result<Option<Measurement>, Error>> = Vec::new();
        if self.memory {
            if meminfo.mem_total != 0 {
                let level = usage_level(meminfo.mem_total, meminfo.mem_available);
                match crate::measurement::Level::new(level) {
                    Ok(l) => res.push(Ok(Some(Measurement::Level(l)))),
                    Err(e) => res.push(Err(e)),
                }
            } else {
                res.push(Err(Error(String::from_str("Could not read memory usage."))));
            }
        }
        if self.swap {
            if meminfo.swap_total != 0 {
                let level = usage_level(meminfo.swap_total, meminfo.swap_free);
                match crate::measurement::Level::new(level) {
                    Ok(l) => res.push(Ok(Some(Measurement::Level(l)))),
                    Err(e) => res.push(Err(e)),
                }
            } else {
                res.push(Err(Error(String::from_str("Could not read swap usage."))));
            }
        }
        res
    }
}

} // verus!
