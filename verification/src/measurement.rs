//! Measurement value objects: each sampled kind validates its domain on
//! construction and formats itself with its unit.

use crate::text;
use crate::Error;
use vstd::prelude::*;

verus! {

/// A usage level in percent, at most 100.
#[derive(Clone, Copy, Debug)]
pub struct Level {
    data: u8,
}

impl View for Level {
    type V = u8;

    closed spec fn view(&self) -> u8 {
        self.data
    }
}

impl Level {
    /// Law: every `Level` instance holds a value of at most 100.
    #[verifier::type_invariant]
    pub closed spec fn inv(self) -> bool {
        self.data <= 100
    }

    /// A level; rejected above 100.
    pub fn new(data: u8) -> (r: Result<Self, Error>)
        ensures
            r is Ok <==> data <= 100,
            r matches Ok(l) ==> l@ == data,
            r matches Err(e) ==> e.0@ == "'level' cannot be greater than 100."@,
    {
        if data > 100 {
            Err(Error(String::from_str("'level' cannot be greater than 100.")))
        } else {
            Ok(Level { data })
        }
    }

    /// A level already known to be in range.
    pub(crate) fn from_valid(data: u8) -> (r: Self)
        requires
            data <= 100,
        ensures
            r@ == data,
    {
        Level { data }
    }

    pub fn data(&self) -> (r: u8)
        ensures
            r == self@,
            r <= 100,
    {
        proof {
            use_type_invariant(self);
        }
        self.data
    }

    pub fn unit() -> (r: &'static str)
        ensures
            r@ == "%"@,
    {
        "%"
    }

    /// The value with its unit, as `Display` would give it.
    pub fn to_display_string(&self) -> (r: String)
        ensures
            r@ == text::spec_dec(self@ as nat) + "%"@,
    {
        let mut s = text::u64_to_string(self.data as u64);
        s.append("%");
        s
    }
}

/// A byte count.
#[derive(Clone, Copy, Debug)]
pub struct DataSize {
    data: u64,
}

impl View for DataSize {
    type V = u64;

    closed spec fn view(&self) -> u64 {
        self.data
    }
}

/// The scale index for a pretty-printed size: how often the value is
/// divided by `base`, capped at 3 (the last named unit).
pub open spec fn spec_scale_steps(data: u64, base: u64) -> nat {
    if data < base {
        0
    } else if data < base * base {
        1
    } else if data < base * base * base {
        2
    } else {
        3
    }
}

/// The thousandths of `data / div`, rounded half to even.
pub open spec fn spec_thousandths(data: u64, div: u64) -> nat
    recommends
        div >= 1,
{
    let q = data * 1000 / (div as int);
    let r = data * 1000 % (div as int);
    if 2 * r > div {
        (q + 1) as nat
    } else if 2 * r < div {
        q as nat
    } else if q % 2 == 1 {
        (q + 1) as nat
    } else {
        q as nat
    }
}

/// A non-zero three-digit fraction with its trailing zeros trimmed.
pub open spec fn spec_frac3(f: nat) -> Seq<char>
    recommends
        1 <= f <= 999,
{
    let h = f / 100;
    let t = f / 10 % 10;
    let o = f % 10;
    if o > 0 {
        seq![text::spec_digit(h), text::spec_digit(t), text::spec_digit(o)]
    } else if t > 0 {
        seq![text::spec_digit(h), text::spec_digit(t)]
    } else {
        seq![text::spec_digit(h)]
    }
}

/// A size scaled into the largest unit it reaches, printed to at most
/// three decimal places (exact rational rounding, half to even), with
/// trailing zeros and a bare decimal point dropped.
pub open spec fn spec_size_string(
    data: u64,
    base: u64,
    u0: Seq<char>,
    u1: Seq<char>,
    u2: Seq<char>,
    u3: Seq<char>,
) -> Seq<char>
    recommends
        base >= 2,
{
    let k = spec_scale_steps(data, base);
    let div = if k == 0 {
        1
    } else if k == 1 {
        base as int
    } else if k == 2 {
        base * base
    } else {
        base * base * base
    };
    let unit = if k == 0 {
        u0
    } else if k == 1 {
        u1
    } else if k == 2 {
        u2
    } else {
        u3
    };
    let th = spec_thousandths(data, div as u64);
    let whole = th / 1000;
    let frac = th % 1000;
    if frac == 0 {
        text::spec_dec(whole) + unit
    } else {
        text::spec_dec(whole) + "."@ + spec_frac3(frac) + unit
    }
}

/// The thousandths of `data / div`, rounded half to even, for the fixed
/// divisors used by the size strings.
fn thousandths(data: u64, div: u64) -> (r: u128)
    requires
        1 <= div,
    ensures
        r == spec_thousandths(data, div),
{
    let n: u128 = (data as u128) * 1000;
    let q: u128 = n / (div as u128);
    let rem: u128 = n % (div as u128);
    if 2 * rem > div as u128 {
        q + 1
    } else if 2 * rem < div as u128 {
        q
    } else if q % 2 == 1 {
        q + 1
    } else {
        q
    }
}

/// The digits of a scaled size: the whole part, and the non-zero
/// fraction after a point.
fn pretty_thousandths(th: u128) -> (r: String)
    ensures
        th % 1000 == 0 ==> r@ == text::spec_dec((th / 1000) as nat),
        th % 1000 != 0 ==> r@ == text::spec_dec((th / 1000) as nat) + "."@ + spec_frac3(
            (th % 1000) as nat,
        ),
{
    let whole: u128 = th / 1000;
    let frac: u64 = (th % 1000) as u64;
    let mut s = text::u128_to_string(whole);
    if frac > 0 {
        s.append(".");
        let h = (frac / 100) as u8;
        let t = (frac / 10 % 10) as u8;
        let o = (frac % 10) as u8;
        if o > 0 {
            s.append(digit_str(h));
            s.append(digit_str(t));
            s.append(digit_str(o));
            proof {
                assert(s@ =~= text::spec_dec((th / 1000) as nat) + "."@ + spec_frac3(
                    (th % 1000) as nat,
                ));
            }
        } else if t > 0 {
            s.append(digit_str(h));
            s.append(digit_str(t));
            proof {
                assert(s@ =~= text::spec_dec((th / 1000) as nat) + "."@ + spec_frac3(
                    (th % 1000) as nat,
                ));
            }
        } else {
            s.append(digit_str(h));
            proof {
                assert(s@ =~= text::spec_dec((th / 1000) as nat) + "."@ + spec_frac3(
                    (th % 1000) as nat,
                ));
            }
        }
    }
    s
}

fn size_string(data: u64, base: u64, u0: &str, u1: &str, u2: &str, u3: &str) -> (r: String)
    requires
        base == 1024 || base == 1000,
    ensures
        r@ == spec_size_string(data, base, u0@, u1@, u2@, u3@),
{
    let b2 = base * base;
    let b3 = b2 * base;
    let (div, unit): (u64, &str) = if data < base {
        (1, u0)
    } else if data < b2 {
        (base, u1)
    } else if data < b3 {
        (b2, u2)
    } else {
        (b3, u3)
    };
    let ghost k = spec_scale_steps(data, base);
    proof {
        if data < base {
            assert(k == 0 && div == 1 && unit@ == u0@);
        } else if data < b2 {
            assert(k == 1 && div == base && unit@ == u1@);
        } else if data < b3 {
            assert(k == 2 && div == base * base && unit@ == u2@);
        } else {
            assert(k == 3 && div == base * base * base && unit@ == u3@);
        }
    }
    let th = thousandths(data, div);
    let mut s = pretty_thousandths(th);
    s.append(unit);
    proof {
        if th % 1000 == 0 {
            assert(s@ == text::spec_dec((th / 1000) as nat) + unit@);
        } else {
            assert(s@ =~= text::spec_dec((th / 1000) as nat) + "."@ + spec_frac3(
                (th % 1000) as nat,
            ) + unit@);
        }
        assert(s@ == spec_size_string(data, base, u0@, u1@, u2@, u3@));
    }
    s
}

/// The one-character string for a decimal digit.
fn digit_str(d: u8) -> (r: &'static str)
    requires
        d < 10,
    ensures
        r@ =~= seq![text::spec_digit(d as nat)],
{
    proof {
        reveal_strlit("0");
        reveal_strlit("1");
        reveal_strlit("2");
        reveal_strlit("3");
        reveal_strlit("4");
        reveal_strlit("5");
        reveal_strlit("6");
        reveal_strlit("7");
        reveal_strlit("8");
        reveal_strlit("9");
    }
    if d == 0 {
        "0"
    } else if d == 1 {
        "1"
    } else if d == 2 {
        "2"
    } else if d == 3 {
        "3"
    } else if d == 4 {
        "4"
    } else if d == 5 {
        "5"
    } else if d == 6 {
        "6"
    } else if d == 7 {
        "7"
    } else if d == 8 {
        "8"
    } else {
        "9"
    }
}

impl DataSize {
    /// A byte count; every value is accepted.
    pub fn new(data: u64) -> (r: Result<Self, Error>)
        ensures
            r matches Ok(d) && d@ == data,
    {
        Ok(DataSize { data })
    }

    /// A byte count from an already-computed value.
    pub(crate) fn from_valid(data: u64) -> (r: Self)
        ensures
            r@ == data,
    {
        DataSize { data }
    }

    pub fn data(&self) -> (r: u64)
        ensures
            r == self@,
    {
        self.data
    }

    pub fn unit() -> (r: &'static str)
        ensures
            r@ == "B"@,
    {
        "B"
    }

    /// The value with its unit, as `Display` would give it.
    pub fn to_display_string(&self) -> (r: String)
        ensures
            r@ == text::spec_dec(self@ as nat) + "B"@,
    {
        let mut s = text::u64_to_string(self.data);
        s.append("B");
        s
    }

    /// The size scaled into binary units (KiB, MiB, GiB).
    pub fn as_string_binary(&self) -> (r: String)
        ensures
            r@ == spec_size_string(self@, 1024, "B"@, "KiB"@, "MiB"@, "GiB"@),
    {
        size_string(self.data, 1024, "B", "KiB", "MiB", "GiB")
    }

    /// The size scaled into decimal units (kB, MB, GB).
    pub fn as_string_decimal(&self) -> (r: String)
        ensures
            r@ == spec_size_string(self@, 1000, "B"@, "kB"@, "MB"@, "GB"@),
    {
        size_string(self.data, 1000, "B", "kB", "MB", "GB")
    }
}

/// A process exit code.
#[derive(Clone, Copy, Debug)]
pub struct StatusCode {
    data: u8,
}

impl View for StatusCode {
    type V = u8;

    closed spec fn view(&self) -> u8 {
        self.data
    }
}

impl StatusCode {
    /// A status code; every value is accepted.
    pub fn new(data: u8) -> (r: Result<Self, Error>)
        ensures
            r matches Ok(c) && c@ == data,
    {
        Ok(StatusCode { data })
    }

    pub fn data(&self) -> (r: u8)
        ensures
            r == self@,
    {
        self.data
    }

    pub fn unit() -> (r: &'static str)
        ensures
            r@ == ""@,
    {
        ""
    }

    /// The value, as `Display` would give it.
    pub fn to_display_string(&self) -> (r: String)
        ensures
            r@ == text::spec_dec(self@ as nat),
    {
        text::u64_to_string(self.data as u64)
    }
}

/// A temperature in degrees Celsius, at least -273.
#[derive(Clone, Copy, Debug)]
pub struct Temperature {
    data: i16,
}

impl View for Temperature {
    type V = i16;

    closed spec fn view(&self) -> i16 {
        self.data
    }
}

impl Temperature {
    /// Law: every `Temperature` instance holds a value of at least -273.
    #[verifier::type_invariant]
    pub closed spec fn inv(self) -> bool {
        self.data >= -273
    }

    /// A temperature; rejected below -273.
    pub fn new(data: i16) -> (r: Result<Self, Error>)
        ensures
            r is Ok <==> data >= -273,
            r matches Ok(t) ==> t@ == data,
            r matches Err(e) ==> e.0@ == "'temperature' cannot be less than -273\u{b0}C."@,
    {
        if data < -273 {
            Err(Error(String::from_str("'temperature' cannot be less than -273\u{b0}C.")))
        } else {
            Ok(Temperature { data })
        }
    }

    /// A temperature already known to be in range.
    pub(crate) fn from_valid(data: i16) -> (r: Self)
        requires
            data >= -273,
        ensures
            r@ == data,
    {
        Temperature { data }
    }

    pub fn data(&self) -> (r: i16)
        ensures
            r == self@,
            r >= -273,
    {
        proof {
            use_type_invariant(self);
        }
        self.data
    }

    pub fn unit() -> (r: &'static str)
        ensures
            r@ == "\u{b0}C"@,
    {
        "\u{b0}C"
    }

    /// The value with its unit, as `Display` would give it.
    pub fn to_display_string(&self) -> (r: String)
        ensures
            r@ == text::spec_dec_signed(self@ as int) + "\u{b0}C"@,
    {
        let mut s = text::i64_to_string(self.data as i64);
        s.append("\u{b0}C");
        s
    }
}

/// A signed integer reading.
#[derive(Clone, Copy, Debug)]
pub struct Integer {
    data: i64,
}

impl View for Integer {
    type V = i64;

    closed spec fn view(&self) -> i64 {
        self.data
    }
}

impl Integer {
    /// An integer; every value is accepted.
    pub fn new(data: i64) -> (r: Result<Self, Error>)
        ensures
            r matches Ok(i) && i@ == data,
    {
        Ok(Integer { data })
    }

    /// An integer from an already-computed value.
    pub(crate) fn from_valid(data: i64) -> (r: Self)
        ensures
            r@ == data,
    {
        Integer { data }
    }

    pub fn data(&self) -> (r: i64)
        ensures
            r == self@,
    {
        self.data
    }

    pub fn unit() -> (r: &'static str)
        ensures
            r@ == ""@,
    {
        ""
    }

    /// The value, as `Display` would give it.
    pub fn to_display_string(&self) -> (r: String)
        ensures
            r@ == text::spec_dec_signed(self@ as int),
    {
        text::i64_to_string(self.data)
    }
}

/// A binary state: `true` is the good reading.
#[derive(Clone, Copy, Debug)]
pub struct BinaryState {
    data: bool,
}

impl View for BinaryState {
    type V = bool;

    closed spec fn view(&self) -> bool {
        self.data
    }
}

impl BinaryState {
    /// A binary state; every value is accepted.
    pub fn new(data: bool) -> (r: Result<Self, Error>)
        ensures
            r matches Ok(b) && b@ == data,
    {
        Ok(BinaryState { data })
    }

    pub fn data(&self) -> (r: bool)
        ensures
            r == self@,
    {
        self.data
    }

    pub fn unit() -> (r: &'static str)
        ensures
            r@ == ""@,
    {
        ""
    }

    /// The value, as `Display` would give it.
    pub fn to_display_string(&self) -> (r: String)
        ensures
            self@ ==> r@ == "true"@,
            !self@ ==> r@ == "false"@,
    {
        if self.data {
            String::from_str("true")
        } else {
            String::from_str("false")
        }
    }
}

/// One measurement of any kind: the tagged variant that the filters, the
/// window buffer and the check driver operate on.
#[derive(Clone, Copy, Debug)]
pub enum Measurement {
    Level(Level),
    DataSize(DataSize),
    StatusCode(StatusCode),
    Temperature(Temperature),
    Integer(Integer),
    BinaryState(BinaryState),
}

/// The kind tag of a measurement.
#[derive(Clone, Copy, Debug, PartialEq, Eq, Structural)]
pub enum MeasurementKind {
    Level,
    DataSize,
    StatusCode,
    Temperature,
    Integer,
    BinaryState,
}

impl Measurement {
    pub open spec fn spec_kind(&self) -> MeasurementKind {
        match self {
            Measurement::Level(_) => MeasurementKind::Level,
            Measurement::DataSize(_) => MeasurementKind::DataSize,
            Measurement::StatusCode(_) => MeasurementKind::StatusCode,
            Measurement::Temperature(_) => MeasurementKind::Temperature,
            Measurement::Integer(_) => MeasurementKind::Integer,
            Measurement::BinaryState(_) => MeasurementKind::BinaryState,
        }
    }

    pub fn kind(&self) -> (r: MeasurementKind)
        ensures
            r == self.spec_kind(),
    {
        match self {
            Measurement::Level(_) => MeasurementKind::Level,
            Measurement::DataSize(_) => MeasurementKind::DataSize,
            Measurement::StatusCode(_) => MeasurementKind::StatusCode,
            Measurement::Temperature(_) => MeasurementKind::Temperature,
            Measurement::Integer(_) => MeasurementKind::Integer,
            Measurement::BinaryState(_) => MeasurementKind::BinaryState,
        }
    }

    /// The numeric value of a measurement, for the window reducers.
    /// A binary state counts as 0 or 1.
    pub open spec fn spec_value(&self) -> int {
        match self {
            Measurement::Level(l) => l@ as int,
            Measurement::DataSize(d) => d@ as int,
            Measurement::StatusCode(c) => c@ as int,
            Measurement::Temperature(t) => t@ as int,
            Measurement::Integer(i) => i@ as int,
            Measurement::BinaryState(b) => if b@ {
                1int
            } else {
                0int
            },
        }
    }

    /// The smallest and largest numeric value a measurement of the kind
    /// can hold.
    pub open spec fn kind_lo(k: MeasurementKind) -> int {
        match k {
            MeasurementKind::Level => 0,
            MeasurementKind::DataSize => 0,
            MeasurementKind::StatusCode => 0,
            MeasurementKind::Temperature => -273,
            MeasurementKind::Integer => i64::MIN as int,
            MeasurementKind::BinaryState => 0,
        }
    }

    pub open spec fn kind_hi(k: MeasurementKind) -> int {
        match k {
            MeasurementKind::Level => 100,
            MeasurementKind::DataSize => u64::MAX as int,
            MeasurementKind::StatusCode => 255,
            MeasurementKind::Temperature => i16::MAX as int,
            MeasurementKind::Integer => i64::MAX as int,
            MeasurementKind::BinaryState => 1,
        }
    }

    /// The lower bound of a kind, as a runtime value.
    pub fn kind_lo_val(k: MeasurementKind) -> (r: i128)
        ensures
            r == Self::kind_lo(k),
    {
        match k {
            MeasurementKind::Level => 0,
            MeasurementKind::DataSize => 0,
            MeasurementKind::StatusCode => 0,
            MeasurementKind::Temperature => -273,
            MeasurementKind::Integer => i64::MIN as i128,
            MeasurementKind::BinaryState => 0,
        }
    }

    /// The upper bound of a kind, as a runtime value.
    pub fn kind_hi_val(k: MeasurementKind) -> (r: i128)
        ensures
            r == Self::kind_hi(k),
    {
        match k {
            MeasurementKind::Level => 100,
            MeasurementKind::DataSize => u64::MAX as i128,
            MeasurementKind::StatusCode => 255,
            MeasurementKind::Temperature => i16::MAX as i128,
            MeasurementKind::Integer => i64::MAX as i128,
            MeasurementKind::BinaryState => 1,
        }
    }

    /// The numeric value, within the bounds of the measurement's kind.
    pub fn value_i128(&self) -> (r: i128)
        ensures
            r == self.spec_value(),
            Self::kind_lo(self.spec_kind()) <= r <= Self::kind_hi(self.spec_kind()),
    {
        match self {
            Measurement::Level(l) => l.data() as i128,
            Measurement::DataSize(d) => d.data() as i128,
            Measurement::StatusCode(c) => c.data() as i128,
            Measurement::Temperature(t) => t.data() as i128,
            Measurement::Integer(i) => i.data() as i128,
            Measurement::BinaryState(b) => if b.data() {
                1
            } else {
                0
            },
        }
    }

    /// The value with its unit, as the wrapped measurement displays it.
    pub fn to_display_string(&self) -> (r: String)
        ensures
            r@ == self.spec_display(),
    {
        match self {
            Measurement::Level(l) => l.to_display_string(),
            Measurement::DataSize(d) => d.to_display_string(),
            Measurement::StatusCode(c) => c.to_display_string(),
            Measurement::Temperature(t) => t.to_display_string(),
            Measurement::Integer(i) => i.to_display_string(),
            Measurement::BinaryState(b) => b.to_display_string(),
        }
    }

    pub open spec fn spec_display(&self) -> Seq<char> {
        match self {
            Measurement::Level(l) => text::spec_dec(l@ as nat) + "%"@,
            Measurement::DataSize(d) => text::spec_dec(d@ as nat) + "B"@,
            Measurement::StatusCode(c) => text::spec_dec(c@ as nat),
            Measurement::Temperature(t) => text::spec_dec_signed(t@ as int) + "\u{b0}C"@,
            Measurement::Integer(i) => text::spec_dec_signed(i@ as int),
            Measurement::BinaryState(b) => if b@ {
                "true"@
            } else {
                "false"@
            },
        }
    }
}

} // verus!
