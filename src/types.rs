//! Value types of the transit API: lines, stations, arrival estimates.
use vstd::prelude::*;
use vstd::string::{StringExecFns, StringSliceAdditionalSpecFns};

verus! {

/// A rail line, by the code the API gives it.
#[derive(Debug, Clone, Copy, PartialEq, Eq, Structural)]
pub enum LineKind {
    GN,
    BL,
    SV,
    RD,
    OR,
    YL,
    NO,
}

/// The display name of a line.
pub open spec fn line_name(k: LineKind) -> Seq<char> {
    match k {
        LineKind::GN => "green"@,
        LineKind::BL => "bue"@,
        LineKind::SV => "silver"@,
        LineKind::RD => "red"@,
        LineKind::OR => "orange"@,
        LineKind::YL => "yellow"@,
        LineKind::NO => "no passengers"@,
    }
}

/// The two-letter code shown for a line.
pub open spec fn line_code(k: LineKind) -> Seq<char> {
    match k {
        LineKind::GN => "GR"@,
        LineKind::BL => "BL"@,
        LineKind::SV => "SV"@,
        LineKind::RD => "RD"@,
        LineKind::OR => "OR"@,
        LineKind::YL => "YL"@,
        LineKind::NO => "NO"@,
    }
}

impl LineKind {
    /// The display name of the line.
    pub fn name(&self) -> (r: &'static str)
        ensures
            r@ == line_name(*self),
    {
        match self {
            LineKind::GN => "green",
            LineKind::BL => "bue",
            LineKind::SV => "silver",
            LineKind::RD => "red",
            LineKind::OR => "orange",
            LineKind::YL => "yellow",
            LineKind::NO => "no passengers",
        }
    }

    /// The two-letter code shown for the line.
    pub fn code(&self) -> (r: &'static str)
        ensures
            r@ == line_code(*self),
    {
        match self {
            LineKind::GN => "GR",
            LineKind::BL => "BL",
            LineKind::SV => "SV",
            LineKind::RD => "RD",
            LineKind::OR => "OR",
            LineKind::YL => "YL",
            LineKind::NO => "NO",
        }
    }
}

/// A station, by its code.
#[derive(Debug, Clone, Copy, PartialEq, Eq, Structural)]
pub enum Station {
    A01,
    A02,
    A03,
    A04,
    A05,
    A06,
    A07,
    A08,
    A09,
    A10,
    A11,
    A12,
    A13,
    A14,
    A15,
    B01,
    B02,
    B03,
    B04,
    B05,
    B06,
    B07,
    B08,
    B09,
    B10,
    B11,
    B35,
    C01,
    C02,
    C03,
    C04,
    C05,
    C06,
    C07,
    C08,
    C09,
    C10,
    C11,
    C12,
    C13,
    C14,
    C15,
    D01,
    D02,
    D03,
    D04,
    D05,
    D06,
    D07,
    D08,
    D09,
    D10,
    D11,
    D12,
    D13,
    E01,
    E02,
    E03,
    E04,
    E05,
    E06,
    E07,
    E08,
    E09,
    E10,
    F01,
    F02,
    F03,
    F04,
    F05,
    F06,
    F07,
    F08,
    F09,
    F10,
    F11,
    G01,
    G02,
    G03,
    G04,
    G05,
    J02,
    J03,
    K01,
    K02,
    K03,
    K04,
    K05,
    K06,
    K07,
    K08,
    N01,
    N02,
    N03,
    N04,
    N06,
    N07,
    N08,
    N09,
    N10,
    N11,
    N12,
}

/// The code of a station, as the API writes it.
pub open spec fn station_code(s: Station) -> Seq<char> {
    match s {
        Station::A01 => "A01"@,
        Station::A02 => "A02"@,
        Station::A03 => "A03"@,
        Station::A04 => "A04"@,
        Station::A05 => "A05"@,
        Station::A06 => "A06"@,
        Station::A07 => "A07"@,
        Station::A08 => "A08"@,
        Station::A09 => "A09"@,
        Station::A10 => "A10"@,
        Station::A11 => "A11"@,
        Station::A12 => "A12"@,
        Station::A13 => "A13"@,
        Station::A14 => "A14"@,
        Station::A15 => "A15"@,
        Station::B01 => "B01"@,
        Station::B02 => "B02"@,
        Station::B03 => "B03"@,
        Station::B04 => "B04"@,
        Station::B05 => "B05"@,
        Station::B06 => "B06"@,
        Station::B07 => "B07"@,
        Station::B08 => "B08"@,
        Station::B09 => "B09"@,
        Station::B10 => "B10"@,
        Station::B11 => "B11"@,
        Station::B35 => "B35"@,
        Station::C01 => "C01"@,
        Station::C02 => "C02"@,
        Station::C03 => "C03"@,
        Station::C04 => "C04"@,
        Station::C05 => "C05"@,
        Station::C06 => "C06"@,
        Station::C07 => "C07"@,
        Station::C08 => "C08"@,
        Station::C09 => "C09"@,
        Station::C10 => "C10"@,
        Station::C11 => "C11"@,
        Station::C12 => "C12"@,
        Station::C13 => "C13"@,
        Station::C14 => "C14"@,
        Station::C15 => "C15"@,
        Station::D01 => "D01"@,
        Station::D02 => "D02"@,
        Station::D03 => "D03"@,
        Station::D04 => "D04"@,
        Station::D05 => "D05"@,
        Station::D06 => "D06"@,
        Station::D07 => "D07"@,
        Station::D08 => "D08"@,
        Station::D09 => "D09"@,
        Station::D10 => "D10"@,
        Station::D11 => "D11"@,
        Station::D12 => "D12"@,
        Station::D13 => "D13"@,
        Station::E01 => "E01"@,
        Station::E02 => "E02"@,
        Station::E03 => "E03"@,
        Station::E04 => "E04"@,
        Station::E05 => "E05"@,
        Station::E06 => "E06"@,
        Station::E07 => "E07"@,
        Station::E08 => "E08"@,
        Station::E09 => "E09"@,
        Station::E10 => "E10"@,
        Station::F01 => "F01"@,
        Station::F02 => "F02"@,
        Station::F03 => "F03"@,
        Station::F04 => "F04"@,
        Station::F05 => "F05"@,
        Station::F06 => "F06"@,
        Station::F07 => "F07"@,
        Station::F08 => "F08"@,
        Station::F09 => "F09"@,
        Station::F10 => "F10"@,
        Station::F11 => "F11"@,
        Station::G01 => "G01"@,
        Station::G02 => "G02"@,
        Station::G03 => "G03"@,
        Station::G04 => "G04"@,
        Station::G05 => "G05"@,
        Station::J02 => "J02"@,
        Station::J03 => "J03"@,
        Station::K01 => "K01"@,
        Station::K02 => "K02"@,
        Station::K03 => "K03"@,
        Station::K04 => "K04"@,
        Station::K05 => "K05"@,
        Station::K06 => "K06"@,
        Station::K07 => "K07"@,
        Station::K08 => "K08"@,
        Station::N01 => "N01"@,
        Station::N02 => "N02"@,
        Station::N03 => "N03"@,
        Station::N04 => "N04"@,
        Station::N06 => "N06"@,
        Station::N07 => "N07"@,
        Station::N08 => "N08"@,
        Station::N09 => "N09"@,
        Station::N10 => "N10"@,
        Station::N11 => "N11"@,
        Station::N12 => "N12"@,
    }
}

impl Station {
    /// The station's code, as the API writes it.
    pub fn code(&self) -> (r: &'static str)
        ensures
            r@ == station_code(*self),
    {
        match self {
            Station::A01 => "A01",
            Station::A02 => "A02",
            Station::A03 => "A03",
            Station::A04 => "A04",
            Station::A05 => "A05",
            Station::A06 => "A06",
            Station::A07 => "A07",
            Station::A08 => "A08",
            Station::A09 => "A09",
            Station::A10 => "A10",
            Station::A11 => "A11",
            Station::A12 => "A12",
            Station::A13 => "A13",
            Station::A14 => "A14",
            Station::A15 => "A15",
            Station::B01 => "B01",
            Station::B02 => "B02",
            Station::B03 => "B03",
            Station::B04 => "B04",
            Station::B05 => "B05",
            Station::B06 => "B06",
            Station::B07 => "B07",
            Station::B08 => "B08",
            Station::B09 => "B09",
            Station::B10 => "B10",
            Station::B11 => "B11",
            Station::B35 => "B35",
            Station::C01 => "C01",
            Station::C02 => "C02",
            Station::C03 => "C03",
            Station::C04 => "C04",
            Station::C05 => "C05",
            Station::C06 => "C06",
            Station::C07 => "C07",
            Station::C08 => "C08",
            Station::C09 => "C09",
            Station::C10 => "C10",
            Station::C11 => "C11",
            Station::C12 => "C12",
            Station::C13 => "C13",
            Station::C14 => "C14",
            Station::C15 => "C15",
            Station::D01 => "D01",
            Station::D02 => "D02",
            Station::D03 => "D03",
            Station::D04 => "D04",
            Station::D05 => "D05",
            Station::D06 => "D06",
            Station::D07 => "D07",
            Station::D08 => "D08",
            Station::D09 => "D09",
            Station::D10 => "D10",
            Station::D11 => "D11",
            Station::D12 => "D12",
            Station::D13 => "D13",
            Station::E01 => "E01",
            Station::E02 => "E02",
            Station::E03 => "E03",
            Station::E04 => "E04",
            Station::E05 => "E05",
            Station::E06 => "E06",
            Station::E07 => "E07",
            Station::E08 => "E08",
            Station::E09 => "E09",
            Station::E10 => "E10",
            Station::F01 => "F01",
            Station::F02 => "F02",
            Station::F03 => "F03",
            Station::F04 => "F04",
            Station::F05 => "F05",
            Station::F06 => "F06",
            Station::F07 => "F07",
            Station::F08 => "F08",
            Station::F09 => "F09",
            Station::F10 => "F10",
            Station::F11 => "F11",
            Station::G01 => "G01",
            Station::G02 => "G02",
            Station::G03 => "G03",
            Station::G04 => "G04",
            Station::G05 => "G05",
            Station::J02 => "J02",
            Station::J03 => "J03",
            Station::K01 => "K01",
            Station::K02 => "K02",
            Station::K03 => "K03",
            Station::K04 => "K04",
            Station::K05 => "K05",
            Station::K06 => "K06",
            Station::K07 => "K07",
            Station::K08 => "K08",
            Station::N01 => "N01",
            Station::N02 => "N02",
            Station::N03 => "N03",
            Station::N04 => "N04",
            Station::N06 => "N06",
            Station::N07 => "N07",
            Station::N08 => "N08",
            Station::N09 => "N09",
            Station::N10 => "N10",
            Station::N11 => "N11",
            Station::N12 => "N12",
        }
    }
}

/// A line with the stations at its two ends.
#[derive(Debug, Clone, Copy, PartialEq, Eq, Structural)]
pub struct Line {
    pub kind: LineKind,
    pub end_station_code: Station,
    pub start_station_code: Station,
}

/// The decimal digit `d` as a character.
pub open spec fn digit_char(d: nat) -> char {
    seq!['0', '1', '2', '3', '4', '5', '6', '7', '8', '9'][d as int]
}

/// `n` written in decimal, without leading zeros.
pub open spec fn decimal(n: nat) -> Seq<char>
    decreases n,
{
    if n < 10 {
        seq![digit_char(n)]
    } else {
        decimal(n / 10).push(digit_char(n % 10))
    }
}

fn digit_text(d: u8) -> (r: &'static str)
    requires
        d < 10,
    ensures
        r@ == seq![digit_char(d as nat)],
{
    proof {
        reveal_strlit("0");
        reveal_strlit("1");
        reveal_strlit("2");
        reveal_strlit("3");
        reveal_strlit("4");
        reveal_strlit("5");
        reveal_strlit("6");
        reveal_strlit("7");
        reveal_strlit("8");
        reveal_strlit("9");
    }
    let r = if d == 0 {
        "0"
    } else if d == 1 {
        "1"
    } else if d == 2 {
        "2"
    } else if d == 3 {
        "3"
    } else if d == 4 {
        "4"
    } else if d == 5 {
        "5"
    } else if d == 6 {
        "6"
    } else if d == 7 {
        "7"
    } else if d == 8 {
        "8"
    } else {
        "9"
    };
    assert(r@ =~= seq![digit_char(d as nat)]);
    r
}

/// Appends `n` in decimal.
fn push_decimal(out: &mut String, n: u8)
    ensures
        final(out)@ == old(out)@ + decimal(n as nat),
{
    proof {
        reveal_with_fuel(decimal, 3);
    }
    if n >= 100 {
        out.append(digit_text(n / 100));
    }
    if n >= 10 {
        out.append(digit_text(n / 10 % 10));
    }
    out.append(digit_text(n % 10));
    assert(out@ =~= old(out)@ + decimal(n as nat));
}

/// The number of cars of a train.
#[derive(Debug, Clone, Copy, PartialEq, Eq, Structural)]
pub struct TrainCar(pub u8);

impl TrainCar {
    /// The number of cars, in decimal.
    pub fn to_string(&self) -> (r: String)
        ensures
            r@ == decimal(self.0 as nat),
    {
        let mut s = String::new();
        push_decimal(&mut s, self.0);
        s
    }
}

/// When a train reaches the platform.
#[derive(Debug, Clone, Copy, PartialEq, Eq, Structural)]
pub enum Eta {
    /// In this many minutes.
    Minutes(u8),
    /// Arriving now.
    Arriving,
    /// Boarding now.
    Boarding,
}

/// How an arrival estimate is shown.
pub open spec fn eta_text(e: Eta) -> Seq<char> {
    match e {
        Eta::Minutes(m) => decimal(m as nat) + "m"@,
        Eta::Arriving => "ARR"@,
        Eta::Boarding => "BRD"@,
    }
}

impl Eta {
    /// The estimate as shown: minutes followed by `m`, or `ARR`, or `BRD`.
    pub fn to_string(&self) -> (r: String)
        ensures
            r@ == eta_text(*self),
    {
        match self {
            Eta::Minutes(m) => {
                let mut s = String::new();
                push_decimal(&mut s, *m);
                s.append("m");
                s
            },
            Eta::Arriving => String::from_str("ARR"),
            Eta::Boarding => String::from_str("BRD"),
        }
    }
}

/// The name of a station, as the API gives it.
#[derive(Debug)]
pub struct StationName(pub String);

/// One predicted arrival.
#[derive(Debug)]
pub struct NextTrain {
    pub cars: Option<TrainCar>,
    pub destination: StationName,
    pub destination_code: Option<Station>,
    pub destination_name: Option<StationName>,
    pub line: Option<LineKind>,
    pub location_code: Station,
    pub location_name: StationName,
    pub min: Option<Eta>,
}

/// The one-line summary of a predicted arrival: line code in brackets (blank
/// when unknown), car count in parentheses when known, destination, and the
/// estimate after a dash when known.
pub open spec fn train_summary(t: NextTrain) -> Seq<char> {
    (match t.line {
        Some(l) => "["@ + line_code(l) + "] "@,
        None => "[  ] "@,
    }) + (match t.cars {
        Some(c) => "("@ + decimal(c.0 as nat) + ") "@,
        None => Seq::empty(),
    }) + t.destination.0@ + " "@ + (match t.min {
        Some(m) => "- "@ + eta_text(m),
        None => Seq::empty(),
    })
}

impl NextTrain {
    /// Appends the one-line summary of the arrival to `buf`.
    pub fn write_debug_display(&self, buf: &mut String)
        ensures
            final(buf)@ == old(buf)@ + train_summary(*self),
    {
        match self.line {
            Some(l) => {
                buf.append("[");
                buf.append(l.code());
                buf.append("] ");
            },
            None => {
                buf.append("[  ] ");
            },
        }
        match self.cars {
            Some(c) => {
                buf.append("(");
                let n = c.to_string();
                buf.append(n.as_str());
                buf.append(") ");
            },
            None => {},
        }
        buf.append(self.destination.0.as_str());
        buf.append(" ");
        match self.min {
            Some(m) => {
                buf.append("- ");
                let e = m.to_string();
                buf.append(e.as_str());
            },
            None => {},
        }
        assert(buf@ =~= old(buf)@ + train_summary(*self));
    }
}

/// The predicted arrivals at a station.
#[derive(Debug)]
pub struct NextTrainsResponse {
    pub trains: Vec<NextTrain>,
}

/// Largest station name, in bytes.
pub const STATION_NAME_MAX_LEN: usize = 32;

/// The value of a non-empty run of decimal digits.
pub open spec fn digits_value(d: Seq<char>) -> nat
    decreases d.len(),
{
    if d.len() == 0 {
        0
    } else {
        digits_value(d.drop_last()) * 10 + (d.last() as u32 - '0' as u32) as nat
    }
}

/// What reading `s` as a `u8` gives: an optional `+`, then one or more
/// decimal digits whose value is at most 255.
pub open spec fn parse_u8_spec(s: Seq<char>) -> Option<u8> {
    let d = if s.len() > 0 && s[0] == '+' {
        s.drop_first()
    } else {
        s
    };
    if d.len() > 0 && (forall|i: int| 0 <= i < d.len() ==> '0' <= #[trigger] d[i] <= '9')
        && digits_value(d) <= u8::MAX {
        Some(digits_value(d) as u8)
    } else {
        None
    }
}

/// Relies on `<u8 as FromStr>::from_str`: an optional `+` and decimal digits
/// whose value fits, and nothing else, give that value.
#[verifier::external_body]
fn parse_u8(s: &str) -> (r: Option<u8>)
    ensures
        r == parse_u8_spec(s@),
{
    s.parse::<u8>().ok()
}

/// Relies on `<str as PartialEq>::eq`: two strings are equal when their
/// characters are.
#[verifier::external_body]
fn str_eq(a: &str, b: &str) -> (r: bool)
    ensures
        r == (a@ == b@),
{
    a == b
}

/// The arrival estimate the API writes as `s`: `ARR`, `BRD`, or minutes.
pub open spec fn eta_parse_spec(s: Seq<char>) -> Option<Eta> {
    if s == "ARR"@ {
        Some(Eta::Arriving)
    } else if s == "BRD"@ {
        Some(Eta::Boarding)
    } else {
        match parse_u8_spec(s) {
            Some(m) => Some(Eta::Minutes(m)),
            None => None,
        }
    }
}

impl TrainCar {
    /// Reads a car count as the API writes it.
    pub fn parse(s: &str) -> (r: Option<TrainCar>)
        ensures
            r == match parse_u8_spec(s@) {
                Some(n) => Some(TrainCar(n)),
                None => None::<TrainCar>,
            },
    {
        match parse_u8(s) {
            Some(n) => Some(TrainCar(n)),
            None => None,
        }
    }
}

impl Eta {
    /// Reads an arrival estimate as the API writes it.
    pub fn parse(s: &str) -> (r: Option<Eta>)
        ensures
            r == eta_parse_spec(s@),
    {
        if str_eq(s, "ARR") {
            Some(Eta::Arriving)
        } else if str_eq(s, "BRD") {
            Some(Eta::Boarding)
        } else {
            match parse_u8(s) {
                Some(m) => Some(Eta::Minutes(m)),
                None => None,
            }
        }
    }
}

impl StationName {
    /// A station name, when it is at most [`STATION_NAME_MAX_LEN`] bytes.
    pub fn parse(s: &str) -> (r: Option<StationName>)
        ensures
            r is Some <==> s.spec_bytes().len() <= STATION_NAME_MAX_LEN,
            r matches Some(n) ==> n.0@ == s@,
    {
        if s.as_bytes().len() > STATION_NAME_MAX_LEN {
            None
        } else {
            Some(StationName(String::from_str(s)))
        }
    }
}

impl Station {
    /// The station with code `s`, if any.
    pub fn from_code(s: &str) -> (r: Option<Station>)
        ensures
            r matches Some(st) ==> station_code(st) == s@,
            r is None ==> forall|st: Station| station_code(st) != s@,
    {
        if str_eq(s, "A01") {
            Some(Station::A01)
        } else if str_eq(s, "A02") {
            Some(Station::A02)
        } else if str_eq(s, "A03") {
            Some(Station::A03)
        } else if str_eq(s, "A04") {
            Some(Station::A04)
        } else if str_eq(s, "A05") {
            Some(Station::A05)
        } else if str_eq(s, "A06") {
            Some(Station::A06)
        } else if str_eq(s, "A07") {
            Some(Station::A07)
        } else if str_eq(s, "A08") {
            Some(Station::A08)
        } else if str_eq(s, "A09") {
            Some(Station::A09)
        } else if str_eq(s, "A10") {
            Some(Station::A10)
        } else if str_eq(s, "A11") {
            Some(Station::A11)
        } else if str_eq(s, "A12") {
            Some(Station::A12)
        } else if str_eq(s, "A13") {
            Some(Station::A13)
        } else if str_eq(s, "A14") {
            Some(Station::A14)
        } else if str_eq(s, "A15") {
            Some(Station::A15)
        } else if str_eq(s, "B01") {
            Some(Station::B01)
        } else if str_eq(s, "B02") {
            Some(Station::B02)
        } else if str_eq(s, "B03") {
            Some(Station::B03)
        } else if str_eq(s, "B04") {
            Some(Station::B04)
        } else if str_eq(s, "B05") {
            Some(Station::B05)
        } else if str_eq(s, "B06") {
            Some(Station::B06)
        } else if str_eq(s, "B07") {
            Some(Station::B07)
        } else if str_eq(s, "B08") {
            Some(Station::B08)
        } else if str_eq(s, "B09") {
            Some(Station::B09)
        } else if str_eq(s, "B10") {
            Some(Station::B10)
        } else if str_eq(s, "B11") {
            Some(Station::B11)
        } else if str_eq(s, "B35") {
            Some(Station::B35)
        } else if str_eq(s, "C01") {
            Some(Station::C01)
        } else if str_eq(s, "C02") {
            Some(Station::C02)
        } else if str_eq(s, "C03") {
            Some(Station::C03)
        } else if str_eq(s, "C04") {
            Some(Station::C04)
        } else if str_eq(s, "C05") {
            Some(Station::C05)
        } else if str_eq(s, "C06") {
            Some(Station::C06)
        } else if str_eq(s, "C07") {
            Some(Station::C07)
        } else if str_eq(s, "C08") {
            Some(Station::C08)
        } else if str_eq(s, "C09") {
            Some(Station::C09)
        } else if str_eq(s, "C10") {
            Some(Station::C10)
        } else if str_eq(s, "C11") {
            Some(Station::C11)
        } else if str_eq(s, "C12") {
            Some(Station::C12)
        } else if str_eq(s, "C13") {
            Some(Station::C13)
        } else if str_eq(s, "C14") {
            Some(Station::C14)
        } else if str_eq(s, "C15") {
            Some(Station::C15)
        } else if str_eq(s, "D01") {
            Some(Station::D01)
        } else if str_eq(s, "D02") {
            Some(Station::D02)
        } else if str_eq(s, "D03") {
            Some(Station::D03)
        } else if str_eq(s, "D04") {
            Some(Station::D04)
        } else if str_eq(s, "D05") {
            Some(Station::D05)
        } else if str_eq(s, "D06") {
            Some(Station::D06)
        } else if str_eq(s, "D07") {
            Some(Station::D07)
        } else if str_eq(s, "D08") {
            Some(Station::D08)
        } else if str_eq(s, "D09") {
            Some(Station::D09)
        } else if str_eq(s, "D10") {
            Some(Station::D10)
        } else if str_eq(s, "D11") {
            Some(Station::D11)
        } else if str_eq(s, "D12") {
            Some(Station::D12)
        } else if str_eq(s, "D13") {
            Some(Station::D13)
        } else if str_eq(s, "E01") {
            Some(Station::E01)
        } else if str_eq(s, "E02") {
            Some(Station::E02)
        } else if str_eq(s, "E03") {
            Some(Station::E03)
        } else if str_eq(s, "E04") {
            Some(Station::E04)
        } else if str_eq(s, "E05") {
            Some(Station::E05)
        } else if str_eq(s, "E06") {
            Some(Station::E06)
        } else if str_eq(s, "E07") {
            Some(Station::E07)
        } else if str_eq(s, "E08") {
            Some(Station::E08)
        } else if str_eq(s, "E09") {
            Some(Station::E09)
        } else if str_eq(s, "E10") {
            Some(Station::E10)
        } else if str_eq(s, "F01") {
            Some(Station::F01)
        } else if str_eq(s, "F02") {
            Some(Station::F02)
        } else if str_eq(s, "F03") {
            Some(Station::F03)
        } else if str_eq(s, "F04") {
            Some(Station::F04)
        } else if str_eq(s, "F05") {
            Some(Station::F05)
        } else if str_eq(s, "F06") {
            Some(Station::F06)
        } else if str_eq(s, "F07") {
            Some(Station::F07)
        } else if str_eq(s, "F08") {
            Some(Station::F08)
        } else if str_eq(s, "F09") {
            Some(Station::F09)
        } else if str_eq(s, "F10") {
            Some(Station::F10)
        } else if str_eq(s, "F11") {
            Some(Station::F11)
        } else if str_eq(s, "G01") {
            Some(Station::G01)
        } else if str_eq(s, "G02") {
            Some(Station::G02)
        } else if str_eq(s, "G03") {
            Some(Station::G03)
        } else if str_eq(s, "G04") {
            Some(Station::G04)
        } else if str_eq(s, "G05") {
            Some(Station::G05)
        } else if str_eq(s, "J02") {
            Some(Station::J02)
        } else if str_eq(s, "J03") {
            Some(Station::J03)
        } else if str_eq(s, "K01") {
            Some(Station::K01)
        } else if str_eq(s, "K02") {
            Some(Station::K02)
        } else if str_eq(s, "K03") {
            Some(Station::K03)
        } else if str_eq(s, "K04") {
            Some(Station::K04)
        } else if str_eq(s, "K05") {
            Some(Station::K05)
        } else if str_eq(s, "K06") {
            Some(Station::K06)
        } else if str_eq(s, "K07") {
            Some(Station::K07)
        } else if str_eq(s, "K08") {
            Some(Station::K08)
        } else if str_eq(s, "N01") {
            Some(Station::N01)
        } else if str_eq(s, "N02") {
            Some(Station::N02)
        } else if str_eq(s, "N03") {
            Some(Station::N03)
        } else if str_eq(s, "N04") {
            Some(Station::N04)
        } else if str_eq(s, "N06") {
            Some(Station::N06)
        } else if str_eq(s, "N07") {
            Some(Station::N07)
        } else if str_eq(s, "N08") {
            Some(Station::N08)
        } else if str_eq(s, "N09") {
            Some(Station::N09)
        } else if str_eq(s, "N10") {
            Some(Station::N10)
        } else if str_eq(s, "N11") {
            Some(Station::N11)
        } else if str_eq(s, "N12") {
            Some(Station::N12)
        } else {
            None
        }
    }
}

/// The name of a line's variant, as the API writes it.
pub open spec fn line_variant(k: LineKind) -> Seq<char> {
    match k {
        LineKind::GN => "GN"@,
        LineKind::BL => "BL"@,
        LineKind::SV => "SV"@,
        LineKind::RD => "RD"@,
        LineKind::OR => "OR"@,
        LineKind::YL => "YL"@,
        LineKind::NO => "NO"@,
    }
}

impl LineKind {
    /// The line whose variant name is `s`, if any.
    pub fn from_variant(s: &str) -> (r: Option<LineKind>)
        ensures
            r matches Some(k) ==> line_variant(k) == s@,
            r is None ==> forall|k: LineKind| line_variant(k) != s@,
    {
        if str_eq(s, "GN") {
            Some(LineKind::GN)
        } else if str_eq(s, "BL") {
            Some(LineKind::BL)
        } else if str_eq(s, "SV") {
            Some(LineKind::SV)
        } else if str_eq(s, "RD") {
            Some(LineKind::RD)
        } else if str_eq(s, "OR") {
            Some(LineKind::OR)
        } else if str_eq(s, "YL") {
            Some(LineKind::YL)
        } else if str_eq(s, "NO") {
            Some(LineKind::NO)
        } else {
            None
        }
    }
}

} // verus!
