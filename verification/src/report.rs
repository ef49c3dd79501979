//! The structured crash report: its construction at fault time and its
//! deterministic text encoding, with a proved encode/decode round trip.

use vstd::prelude::*;

use crate::chars::{chars_to_string, str_to_chars};
use crate::codec::{field_line, parse_field, parse_field_from, push_field_line};
use crate::stack::{capture_frames, format_backtrace, CAPTURE_SKIP_FRAMES};

verus! {

/// What triggered the report. Only faults of the panic class exist today;
/// the tag anticipates other triggers.
#[derive(Clone, Copy, PartialEq, Eq, Structural, Debug)]
pub enum Method {
    Panic,
}

/// The mathematical content of a report: each field's characters.
pub ghost struct ReportData {
    pub name: Seq<char>,
    pub operating_system: Seq<char>,
    pub crate_version: Seq<char>,
    pub explanation: Seq<char>,
    pub cause: Seq<char>,
    pub method: Method,
    pub backtrace: Seq<char>,
}

/// A fault report: immutable once constructed, serialized and printed,
/// never mutated.
#[derive(Debug)]
pub struct Report {
    pub name: String,
    pub operating_system: String,
    pub crate_version: String,
    pub explanation: String,
    pub cause: String,
    pub method: Method,
    pub backtrace: String,
}

impl View for Report {
    type V = ReportData;

    open spec fn view(&self) -> ReportData {
        ReportData {
            name: self.name@,
            operating_system: self.operating_system@,
            crate_version: self.crate_version@,
            explanation: self.explanation@,
            cause: self.cause@,
            method: self.method,
            backtrace: self.backtrace@,
        }
    }
}

/// The full text encoding of a report: one field line per field, in a
/// fixed order.
pub open spec fn encode_spec(d: ReportData) -> Seq<char> {
    field_line("name"@, d.name) + field_line("operating_system"@, d.operating_system) + field_line(
        "crate_version"@,
        d.crate_version,
    ) + field_line("explanation"@, d.explanation) + field_line("cause"@, d.cause) + field_line(
        "method"@,
        "Panic"@,
    ) + field_line("backtrace"@, d.backtrace)
}

/// The report a text decodes to, if it is exactly an encoded report.
pub open spec fn decode_spec(s: Seq<char>) -> Option<ReportData> {
    match parse_field(s, "name"@) {
        Some((name, s1)) => match parse_field(s1, "operating_system"@) {
            Some((operating_system, s2)) => match parse_field(s2, "crate_version"@) {
                Some((crate_version, s3)) => match parse_field(s3, "explanation"@) {
                    Some((explanation, s4)) => match parse_field(s4, "cause"@) {
                        Some((cause, s5)) => match parse_field(s5, "method"@) {
                            Some((m, s6)) => if m == "Panic"@ {
                                match parse_field(s6, "backtrace"@) {
                                    Some((backtrace, s7)) => if s7.len() == 0 {
                                        Some(
                                            ReportData {
                                                name,
                                                operating_system,
                                                crate_version,
                                                explanation,
                                                cause,
                                                method: Method::Panic,
                                                backtrace,
                                            },
                                        )
                                    } else {
                                        None
                                    },
                                    None => None,
                                }
                            } else {
                                None
                            },
                            None => None,
                        },
                        None => None,
                    },
                    None => None,
                },
                None => None,
            },
            None => None,
        },
        None => None,
    }
}

/// Decoding inverts encoding: every report's encoded text decodes back to
/// exactly that report.
pub proof fn lemma_encode_decode(d: ReportData)
    ensures
        decode_spec(encode_spec(d)) == Some(d),
{
    let l1 = field_line("name"@, d.name);
    let l2 = field_line("operating_system"@, d.operating_system);
    let l3 = field_line("crate_version"@, d.crate_version);
    let l4 = field_line("explanation"@, d.explanation);
    let l5 = field_line("cause"@, d.cause);
    let l6 = field_line("method"@, "Panic"@);
    let l7 = field_line("backtrace"@, d.backtrace);
    let r1 = l2 + (l3 + (l4 + (l5 + (l6 + l7))));
    let r2 = l3 + (l4 + (l5 + (l6 + l7)));
    let r3 = l4 + (l5 + (l6 + l7));
    let r4 = l5 + (l6 + l7);
    let r5 = l6 + l7;
    assert(encode_spec(d) =~= l1 + r1);
    crate::codec::lemma_parse_field_line("name"@, d.name, r1);
    assert(r1 =~= l2 + r2);
    crate::codec::lemma_parse_field_line("operating_system"@, d.operating_system, r2);
    assert(r2 =~= l3 + r3);
    crate::codec::lemma_parse_field_line("crate_version"@, d.crate_version, r3);
    assert(r3 =~= l4 + r4);
    crate::codec::lemma_parse_field_line("explanation"@, d.explanation, r4);
    assert(r4 =~= l5 + r5);
    crate::codec::lemma_parse_field_line("cause"@, d.cause, r5);
    assert(r5 =~= l6 + l7);
    crate::codec::lemma_parse_field_line("method"@, "Panic"@, l7);
    assert(l7 =~= l7 + Seq::<char>::empty());
    crate::codec::lemma_parse_field_line("backtrace"@, d.backtrace, Seq::<char>::empty());
    let m = d.method;
    match m {
        Method::Panic => {
            assert(d.method == Method::Panic);
        },
    }
}

/// Relies on `os_info::get` and its `Display` rendering: a human-readable
/// descriptor of the running operating system. What it reads depends on
/// the machine, so nothing more is stated.
#[verifier::external_body]
fn os_descriptor() -> (r: String) {
    format!("{}", os_info::get())
}

impl Report {
    /// Builds a report from the fault's context. The operating-system
    /// descriptor and the stack trace are read from the environment here,
    /// at capture time; every other field is exactly what was passed in.
    pub fn new(name: &str, version: &str, method: Method, explanation: String, cause: String) -> (r:
        Report)
        ensures
            r@.name == name@,
            r@.crate_version == version@,
            r@.method == method,
            r@.explanation == explanation@,
            r@.cause == cause@,
    {
        let operating_system = os_descriptor();
        let frames = capture_frames();
        let backtrace = format_backtrace(&frames, CAPTURE_SKIP_FRAMES);
        Report {
            name: name.to_owned(),
            operating_system,
            crate_version: version.to_owned(),
            explanation,
            cause,
            method,
            backtrace,
        }
    }

    /// The deterministic text encoding of this report. The encoding of a
    /// flat, string-only record cannot fail, so the result is always
    /// present; the optional shape leaves room for richer encodings.
    pub fn serialize(&self) -> (r: Option<String>)
        ensures
            r matches Some(s) && s@ == encode_spec(self@),
    {
        let mut out: Vec<char> = Vec::new();
        push_field_line(&mut out, "name", self.name.as_str());
        push_field_line(&mut out, "operating_system", self.operating_system.as_str());
        push_field_line(&mut out, "crate_version", self.crate_version.as_str());
        push_field_line(&mut out, "explanation", self.explanation.as_str());
        push_field_line(&mut out, "cause", self.cause.as_str());
        push_field_line(&mut out, "method", "Panic");
        push_field_line(&mut out, "backtrace", self.backtrace.as_str());
        proof {
            assert(out@ =~= encode_spec(self@));
        }
        Some(chars_to_string(&out))
    }

    /// Decodes a report from its text encoding: exactly the texts the
    /// encoder produces are accepted.
    pub fn deserialize(text: &str) -> (r: Option<Report>)
        ensures
            match r {
                Some(rep) => decode_spec(text@) == Some(rep@),
                None => decode_spec(text@) is None,
            },
    {
        let s = str_to_chars(text);
        proof {
            assert(s@.skip(0) =~= s@);
        }
        let p1 = match parse_field_from(&s, 0, "name") {
            Some(p) => p,
            None => {
                return None;
            },
        };
        let p2 = match parse_field_from(&s, p1.1, "operating_system") {
            Some(p) => p,
            None => {
                return None;
            },
        };
        let p3 = match parse_field_from(&s, p2.1, "crate_version") {
            Some(p) => p,
            None => {
                return None;
            },
        };
        let p4 = match parse_field_from(&s, p3.1, "explanation") {
            Some(p) => p,
            None => {
                return None;
            },
        };
        let p5 = match parse_field_from(&s, p4.1, "cause") {
            Some(p) => p,
            None => {
                return None;
            },
        };
        let p6 = match parse_field_from(&s, p5.1, "method") {
            Some(p) => p,
            None => {
                return None;
            },
        };
        if !crate::codec::chars_eq_lit(&p6.0, "Panic") {
            return None;
        }
        let p7 = match parse_field_from(&s, p6.1, "backtrace") {
            Some(p) => p,
            None => {
                return None;
            },
        };
        if p7.1 < s.len() {
            proof {
                assert(s@.skip(p7.1 as int).len() > 0);
            }
            return None;
        }
        let rep = Report {
            name: chars_to_string(&p1.0),
            operating_system: chars_to_string(&p2.0),
            crate_version: chars_to_string(&p3.0),
            explanation: chars_to_string(&p4.0),
            cause: chars_to_string(&p5.0),
            method: Method::Panic,
            backtrace: chars_to_string(&p7.0),
        };
        proof {
            assert(decode_spec(text@) == Some(rep@));
        }
        Some(rep)
    }
}

} // verus!
