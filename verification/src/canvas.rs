//! The caller-facing shape of a circuit: nodes and edges as the canvas
//! supplies them, with every magnitude still plain text.  Validation into
//! typed values happens when a schematic is compiled.

use vstd::prelude::*;

use crate::position::Position;
use crate::simulation::opt_text;
use crate::text::ws_tokens;

verus! {

/// A time-domain waveform as the canvas supplies it: every field is
/// optional text, validated later.
#[derive(Debug, Clone)]
pub enum TimeDomainConfig {
    Dc { value: Option<String> },
    Pulse {
        initial_value: Option<String>,
        final_value: Option<String>,
        delay: Option<String>,
        rise_time: Option<String>,
        fall_time: Option<String>,
        pulse_width: Option<String>,
        period: Option<String>,
    },
    Sin {
        offset: Option<String>,
        amplitude: Option<String>,
        frequency: Option<String>,
        delay: Option<String>,
        damping_factor: Option<String>,
    },
    Exp {
        initial_value: Option<String>,
        final_value: Option<String>,
        rise_delay: Option<String>,
        rise_time: Option<String>,
        fall_delay: Option<String>,
        fall_time: Option<String>,
    },
    Sffm {
        offset: Option<String>,
        amplitude: Option<String>,
        carrier_frequency: Option<String>,
        modulation_index: Option<i16>,
        signal_frequency: Option<String>,
    },
    Am {
        amplitude: Option<String>,
        offset: Option<String>,
        modulating_frequency: Option<String>,
        carrier_frequency: Option<String>,
        delay: Option<String>,
    },
}

/// A small-signal descriptor as the canvas supplies it.
#[derive(Debug, Clone)]
pub struct SmallSignalConfig {
    pub amplitude: String,
    pub phase: Option<String>,
}

/// A transistor device model as the canvas supplies it: every parameter
/// is optional text.
#[derive(Debug, Clone)]
pub struct BjtModel {
    pub name: String,
    pub polarity: BjtPolarity,
    pub is: Option<String>,
    pub xti: Option<String>,
    pub eg: Option<String>,
    pub vaf: Option<String>,
    pub bf: Option<String>,
    pub ise: Option<String>,
    pub ne: Option<String>,
    pub ikf: Option<String>,
    pub nk: Option<String>,
    pub xtb: Option<String>,
    pub br: Option<String>,
    pub isc: Option<String>,
    pub nc: Option<String>,
    pub ikr: Option<String>,
    pub rc: Option<String>,
    pub cjc: Option<String>,
    pub mjc: Option<String>,
    pub vjc: Option<String>,
    pub fc: Option<String>,
    pub cje: Option<String>,
    pub mje: Option<String>,
    pub vje: Option<String>,
    pub tr: Option<String>,
    pub tf: Option<String>,
    pub itf: Option<String>,
    pub xtf: Option<String>,
    pub vtf: Option<String>,
    pub rb: Option<String>,
}

#[derive(Debug, Clone)]
pub enum BjtPolarity {
    NPN,
    PNP,
}

/// What one canvas node is: an element with its configuration, a named
/// electrical node, or a ground marker.
#[derive(Debug, Clone)]
pub enum NodeData {
    R { value: Option<String>, name: String, position: Position },
    C { value: Option<String>, name: String, position: Position },
    L { value: Option<String>, name: String, position: Position },
    V {
        name: String,
        time_domain: Option<TimeDomainConfig>,
        small_signal: Option<SmallSignalConfig>,
        position: Position,
    },
    I {
        name: String,
        time_domain: Option<TimeDomainConfig>,
        small_signal: Option<SmallSignalConfig>,
        position: Position,
    },
    E { value: Option<String>, name: String, position: Position },
    F { value: Option<String>, name: String, src: Option<String>, position: Position },
    G { value: Option<String>, name: String, position: Position },
    H { value: Option<String>, name: String, src: Option<String>, position: Position },
    Q { name: String, model: Option<BjtModel>, position: Position },
    Node { name: String, position: Position },
    Gnd { position: Position },
}

#[derive(Debug, Clone)]
pub struct CanvasNode {
    pub id: String,
    pub rotation: i32,
    pub data: NodeData,
}

#[derive(Debug, Clone)]
pub struct CanvasEdge {
    pub target: String,
    pub source: String,
    pub source_port: String,
    pub target_port: String,
    pub target_alias: Option<String>,
}

/// The dialect text of a canvas waveform: the kind keyword and each
/// present field, dropped from the first absent one on.
pub open spec fn gsp_text(c: &TimeDomainConfig) -> Seq<char> {
    match c {
        TimeDomainConfig::Am { amplitude, offset, modulating_frequency, carrier_frequency, delay } => {
            "AM"@ + opt_text(
                true,
                amplitude,
                opt_text(
                    offset is Some,
                    offset,
                    opt_text(
                        modulating_frequency is Some,
                        modulating_frequency,
                        opt_text(
                            carrier_frequency is Some,
                            carrier_frequency,
                            opt_text(delay is Some, delay, ""@),
                        ),
                    ),
                ),
            )
        },
        TimeDomainConfig::Dc { value } => "DC"@ + opt_text(true, value, ""@),
        TimeDomainConfig::Exp {
            initial_value,
            final_value,
            rise_delay,
            rise_time,
            fall_delay,
            fall_time,
        } => "EXP"@ + opt_text(
            true,
            initial_value,
            opt_text(
                final_value is Some,
                final_value,
                opt_text(
                    rise_delay is Some,
                    rise_delay,
                    opt_text(
                        rise_time is Some,
                        rise_time,
                        opt_text(
                            fall_delay is Some,
                            fall_delay,
                            opt_text(fall_time is Some, fall_time, ""@),
                        ),
                    ),
                ),
            ),
        ),
        TimeDomainConfig::Pulse {
            initial_value,
            final_value,
            delay,
            rise_time,
            fall_time,
            pulse_width,
            period,
        } => "PULSE"@ + opt_text(
            true,
            initial_value,
            opt_text(
                final_value is Some,
                final_value,
                opt_text(
                    delay is Some,
                    delay,
                    opt_text(
                        rise_time is Some,
                        rise_time,
                        opt_text(
                            fall_time is Some,
                            fall_time,
                            opt_text(
                                pulse_width is Some,
                                pulse_width,
                                opt_text(period is Some, period, ""@),
                            ),
                        ),
                    ),
                ),
            ),
        ),
        TimeDomainConfig::Sffm {
            offset,
            amplitude,
            carrier_frequency,
            modulation_index,
            signal_frequency,
        } => "SFFM"@ + opt_text(
            true,
            offset,
            opt_text(
                amplitude is Some,
                amplitude,
                opt_text(
                    carrier_frequency is Some,
                    carrier_frequency,
                    (match modulation_index {
                        Some(mi) => " "@ + crate::text::int_rep(*mi as int) + opt_text(
                            signal_frequency is Some,
                            signal_frequency,
                            ""@,
                        ),
                        None => ""@,
                    }),
                ),
            ),
        ),
        TimeDomainConfig::Sin { offset, amplitude, frequency, delay, damping_factor } => "SINE"@
            + opt_text(
            true,
            offset,
            opt_text(
                amplitude is Some,
                amplitude,
                opt_text(
                    frequency is Some,
                    frequency,
                    opt_text(
                        delay is Some,
                        delay,
                        opt_text(damping_factor is Some, damping_factor, ""@),
                    ),
                ),
            ),
        ),
    }
}

fn push_opt(out: &mut String, o: &Option<String>)
    ensures
        final(out)@ == old(out)@ + (match o {
            Some(s) => " "@ + s@,
            None => Seq::empty(),
        }),
{
    if let Some(s) = o {
        out.append(" ");
        out.append(s.as_str());
    }
    assert(out@ =~= old(out)@ + (match o {
        Some(s) => " "@ + s@,
        None => Seq::<char>::empty(),
    }));
}

#[verifier::rlimit(100)]
fn gsp_five(kw: &'static str, a: &Option<String>, b: &Option<String>, c: &Option<String>, d: &Option<String>, e: &Option<String>) -> (r: String)
    ensures
        r@ == kw@ + opt_text(
            true,
            a,
            opt_text(
                b is Some,
                b,
                opt_text(c is Some, c, opt_text(d is Some, d, opt_text(e is Some, e, ""@))),
            ),
        ),
{
    proof {
        reveal_strlit("");
    }
    let mut out = String::from_str(kw);
    if let Some(x) = a {
        out.append(" ");
        out.append(x.as_str());
        if let Some(x) = b {
            out.append(" ");
            out.append(x.as_str());
            if let Some(x) = c {
                out.append(" ");
                out.append(x.as_str());
                if let Some(x) = d {
                    out.append(" ");
                    out.append(x.as_str());
                    if let Some(x) = e {
                        out.append(" ");
                        out.append(x.as_str());
                    }
                }
            }
        }
    }
    assert(out@ =~= kw@ + opt_text(
        true,
        a,
        opt_text(
            b is Some,
            b,
            opt_text(c is Some, c, opt_text(d is Some, d, opt_text(e is Some, e, ""@))),
        ),
    ));
    out
}

#[verifier::rlimit(100)]
fn gsp_six(kw: &'static str, a: &Option<String>, b: &Option<String>, c: &Option<String>, d: &Option<String>, e: &Option<String>, f: &Option<String>) -> (r: String)
    ensures
        r@ == kw@ + opt_text(
            true,
            a,
            opt_text(
                b is Some,
                b,
                opt_text(
                    c is Some,
                    c,
                    opt_text(d is Some, d, opt_text(e is Some, e, opt_text(f is Some, f, ""@))),
                ),
            ),
        ),
{
    proof {
        reveal_strlit("");
    }
    let mut out = String::from_str(kw);
    if let Some(x) = a {
        out.append(" ");
        out.append(x.as_str());
        if let Some(x) = b {
            out.append(" ");
            out.append(x.as_str());
            if let Some(x) = c {
                out.append(" ");
                out.append(x.as_str());
                if let Some(x) = d {
                    out.append(" ");
                    out.append(x.as_str());
                    if let Some(x) = e {
                        out.append(" ");
                        out.append(x.as_str());
                        if let Some(x) = f {
                            out.append(" ");
                            out.append(x.as_str());
                        }
                    }
                }
            }
        }
    }
    assert(out@ =~= kw@ + opt_text(
        true,
        a,
        opt_text(
            b is Some,
            b,
            opt_text(
                c is Some,
                c,
                opt_text(d is Some, d, opt_text(e is Some, e, opt_text(f is Some, f, ""@))),
            ),
        ),
    ));
    out
}

#[verifier::rlimit(100)]
fn gsp_seven(kw: &'static str, a: &Option<String>, b: &Option<String>, c: &Option<String>, d: &Option<String>, e: &Option<String>, f: &Option<String>, g: &Option<String>) -> (r: String)
    ensures
        r@ == kw@ + opt_text(
            true,
            a,
            opt_text(
                b is Some,
                b,
                opt_text(
                    c is Some,
                    c,
                    opt_text(
                        d is Some,
                        d,
                        opt_text(e is Some, e, opt_text(f is Some, f, opt_text(g is Some, g, ""@))),
                    ),
                ),
            ),
        ),
{
    proof {
        reveal_strlit("");
    }
    let mut out = String::from_str(kw);
    if let Some(x) = a {
        out.append(" ");
        out.append(x.as_str());
        if let Some(x) = b {
            out.append(" ");
            out.append(x.as_str());
            if let Some(x) = c {
                out.append(" ");
                out.append(x.as_str());
                if let Some(x) = d {
                    out.append(" ");
                    out.append(x.as_str());
                    if let Some(x) = e {
                        out.append(" ");
                        out.append(x.as_str());
                        if let Some(x) = f {
                            out.append(" ");
                            out.append(x.as_str());
                            if let Some(x) = g {
                                out.append(" ");
                                out.append(x.as_str());
                            }
                        }
                    }
                }
            }
        }
    }
    assert(out@ =~= kw@ + opt_text(
        true,
        a,
        opt_text(
            b is Some,
            b,
            opt_text(
                c is Some,
                c,
                opt_text(
                    d is Some,
                    d,
                    opt_text(e is Some, e, opt_text(f is Some, f, opt_text(g is Some, g, ""@))),
                ),
            ),
        ),
    ));
    out
}

#[verifier::rlimit(100)]
fn gsp_sffm(offset: &Option<String>, amplitude: &Option<String>, carrier_frequency: &Option<String>, modulation_index: &Option<i16>, signal_frequency: &Option<String>) -> (r: String)
    ensures
        r@ == "SFFM"@ + opt_text(
            true,
            offset,
            opt_text(
                amplitude is Some,
                amplitude,
                opt_text(
                    carrier_frequency is Some,
                    carrier_frequency,
                    (match modulation_index {
                        Some(mi) => " "@ + crate::text::int_rep(*mi as int) + opt_text(
                            signal_frequency is Some,
                            signal_frequency,
                            ""@,
                        ),
                        None => ""@,
                    }),
                ),
            ),
        ),
{
    proof {
        reveal_strlit("");
    }
    let mut out = String::from_str("SFFM");
    if let Some(a) = offset {
        out.append(" ");
        out.append(a.as_str());
        if let Some(b) = amplitude {
            out.append(" ");
            out.append(b.as_str());
            if let Some(c) = carrier_frequency {
                out.append(" ");
                out.append(c.as_str());
                if let Some(mi) = modulation_index {
                    out.append(" ");
                    let mt = crate::text::fmt_i16(*mi);
                    out.append(mt.as_str());
                    if let Some(e) = signal_frequency {
                        out.append(" ");
                        out.append(e.as_str());
                    }
                }
            }
        }
    }
    assert(out@ =~= "SFFM"@ + opt_text(
        true,
        offset,
        opt_text(
            amplitude is Some,
            amplitude,
            opt_text(
                carrier_frequency is Some,
                carrier_frequency,
                (match modulation_index {
                    Some(mi) => " "@ + crate::text::int_rep(*mi as int) + opt_text(
                        signal_frequency is Some,
                        signal_frequency,
                        ""@,
                    ),
                    None => ""@,
                }),
            ),
        ),
    ));
    out
}

impl TimeDomainConfig {
    /// Renders the waveform in the dialect's keyword-and-fields form.
    pub fn to_gsp_string(&self) -> (r: String)
        ensures
            r@ == gsp_text(self),
    {
        proof {
            reveal_strlit("");
        }
        match self {
            TimeDomainConfig::Am {
                amplitude,
                offset,
                modulating_frequency,
                carrier_frequency,
                delay,
            } => gsp_five("AM", amplitude, offset, modulating_frequency, carrier_frequency, delay),
            TimeDomainConfig::Dc { value } => {
                let mut out = String::from_str("DC");
                push_opt(&mut out, value);
                assert(out@ =~= gsp_text(self));
                out
            },
            TimeDomainConfig::Exp {
                initial_value,
                final_value,
                rise_delay,
                rise_time,
                fall_delay,
                fall_time,
            } => gsp_six(
                "EXP",
                initial_value,
                final_value,
                rise_delay,
                rise_time,
                fall_delay,
                fall_time,
            ),
            TimeDomainConfig::Pulse {
                initial_value,
                final_value,
                delay,
                rise_time,
                fall_time,
                pulse_width,
                period,
            } => gsp_seven(
                "PULSE",
                initial_value,
                final_value,
                delay,
                rise_time,
                fall_time,
                pulse_width,
                period,
            ),
            TimeDomainConfig::Sffm {
                offset,
                amplitude,
                carrier_frequency,
                modulation_index,
                signal_frequency,
            } => gsp_sffm(offset, amplitude, carrier_frequency, modulation_index, signal_frequency),
            TimeDomainConfig::Sin { offset, amplitude, frequency, delay, damping_factor } => {
                gsp_five("SINE", offset, amplitude, frequency, delay, damping_factor)
            },
        }
    }
}

/// A field read from whitespace token `i`, when there is one.
pub open spec fn wtok(toks: Seq<Seq<char>>, i: int) -> Option<Seq<char>> {
    if 0 <= i < toks.len() {
        Some(toks[i])
    } else {
        None
    }
}

pub open spec fn wtok_is(o: &Option<String>, toks: Seq<Seq<char>>, i: int) -> bool {
    match o {
        Some(s) => 0 <= i < toks.len() && s@ == toks[i],
        None => i >= toks.len(),
    }
}

/// How a waveform is read from a kind keyword and its space-separated
/// fields, token by token.
pub open spec fn tdc_from_tokens_ok(
    kind: Seq<char>,
    value: Seq<char>,
    r: &Option<TimeDomainConfig>,
) -> bool {
    let t = ws_tokens(value);
    if crate::text::ci_matches(kind, "pulse"@) {
        r matches Some(
            TimeDomainConfig::Pulse {
                initial_value,
                final_value,
                delay,
                rise_time,
                fall_time,
                pulse_width,
                period,
            },
        ) && wtok_is(&initial_value, t, 0) && wtok_is(&final_value, t, 1) && wtok_is(&delay, t, 2)
            && wtok_is(&rise_time, t, 3) && wtok_is(&fall_time, t, 4) && wtok_is(&pulse_width, t, 5)
            && wtok_is(&period, t, 6)
    } else if crate::text::ci_matches(kind, "sine"@) {
        r matches Some(
            TimeDomainConfig::Sin { offset, amplitude, frequency, delay, damping_factor },
        ) && wtok_is(&offset, t, 0) && wtok_is(&amplitude, t, 1) && wtok_is(&frequency, t, 2)
            && wtok_is(&delay, t, 3) && wtok_is(&damping_factor, t, 4)
    } else if crate::text::ci_matches(kind, "exp"@) {
        r matches Some(
            TimeDomainConfig::Exp {
                initial_value,
                final_value,
                rise_delay,
                rise_time,
                fall_delay,
                fall_time,
            },
        ) && wtok_is(&initial_value, t, 0) && wtok_is(&final_value, t, 1) && wtok_is(
            &rise_delay,
            t,
            2,
        ) && wtok_is(&rise_time, t, 3) && wtok_is(&fall_delay, t, 4) && wtok_is(&fall_time, t, 5)
    } else if crate::text::ci_matches(kind, "sffm"@) {
        r matches Some(
            TimeDomainConfig::Sffm {
                offset,
                amplitude,
                carrier_frequency,
                modulation_index,
                signal_frequency,
            },
        ) && wtok_is(&offset, t, 0) && wtok_is(&amplitude, t, 1) && wtok_is(&carrier_frequency, t, 2)
            && (match modulation_index {
            Some(mi) => 3 < t.len() && crate::text::is_int_literal(t[3]) && mi as int
                == crate::text::int_literal_val(t[3]),
            None => !(3 < t.len() && crate::text::is_int_literal(t[3]) && i16::MIN
                <= crate::text::int_literal_val(t[3]) <= i16::MAX),
        }) && wtok_is(&signal_frequency, t, 4)
    } else if crate::text::ci_matches(kind, "am"@) {
        r matches Some(
            TimeDomainConfig::Am {
                amplitude,
                offset,
                modulating_frequency,
                carrier_frequency,
                delay,
            },
        ) && wtok_is(&amplitude, t, 0) && wtok_is(&offset, t, 1) && wtok_is(
            &modulating_frequency,
            t,
            2,
        ) && wtok_is(&carrier_frequency, t, 3) && wtok_is(&delay, t, 4)
    } else if crate::text::ci_matches(kind, "dc"@) {
        r matches Some(TimeDomainConfig::Dc { value: v }) && (v matches Some(zero) && zero@
            == "0"@)
    } else {
        r is None
    }
}

fn wtok_take(tokens: &Vec<String>, i: usize) -> (r: Option<String>)
    ensures
        wtok_is(&r, tokens@.map_values(|t: String| t@), i as int),
{
    if i < tokens.len() {
        Some(tokens[i].clone())
    } else {
        None
    }
}

impl TimeDomainConfig {
    /// Reads a waveform from its kind keyword and a space-separated
    /// field list; an unrecognized keyword reads as nothing.  A `dc`
    /// keyword, whose value would not be a magnitude, falls back to
    /// zero; an FM modulation index that does not read as a 16-bit
    /// integer is dropped.
    pub fn from_space_separated_string(kind: &str, value: &str) -> (r: Option<TimeDomainConfig>)
        ensures
            tdc_from_tokens_ok(kind@, value@, &r),
    {
        let tokens = crate::text::split_ws(value);
        if crate::text::eq_ignore_case(kind, "pulse") {
            Some(
                TimeDomainConfig::Pulse {
                    initial_value: wtok_take(&tokens, 0),
                    final_value: wtok_take(&tokens, 1),
                    delay: wtok_take(&tokens, 2),
                    rise_time: wtok_take(&tokens, 3),
                    fall_time: wtok_take(&tokens, 4),
                    pulse_width: wtok_take(&tokens, 5),
                    period: wtok_take(&tokens, 6),
                },
            )
        } else if crate::text::eq_ignore_case(kind, "sine") {
            Some(
                TimeDomainConfig::Sin {
                    offset: wtok_take(&tokens, 0),
                    amplitude: wtok_take(&tokens, 1),
                    frequency: wtok_take(&tokens, 2),
                    delay: wtok_take(&tokens, 3),
                    damping_factor: wtok_take(&tokens, 4),
                },
            )
        } else if crate::text::eq_ignore_case(kind, "exp") {
            Some(
                TimeDomainConfig::Exp {
                    initial_value: wtok_take(&tokens, 0),
                    final_value: wtok_take(&tokens, 1),
                    rise_delay: wtok_take(&tokens, 2),
                    rise_time: wtok_take(&tokens, 3),
                    fall_delay: wtok_take(&tokens, 4),
                    fall_time: wtok_take(&tokens, 5),
                },
            )
        } else if crate::text::eq_ignore_case(kind, "sffm") {
            let modulation_index = match wtok_take(&tokens, 3) {
                Some(t) => crate::text::parse_i16(t.as_str()),
                None => None,
            };
            Some(
                TimeDomainConfig::Sffm {
                    offset: wtok_take(&tokens, 0),
                    amplitude: wtok_take(&tokens, 1),
                    carrier_frequency: wtok_take(&tokens, 2),
                    modulation_index,
                    signal_frequency: wtok_take(&tokens, 4),
                },
            )
        } else if crate::text::eq_ignore_case(kind, "am") {
            Some(
                TimeDomainConfig::Am {
                    amplitude: wtok_take(&tokens, 0),
                    offset: wtok_take(&tokens, 1),
                    modulating_frequency: wtok_take(&tokens, 2),
                    carrier_frequency: wtok_take(&tokens, 3),
                    delay: wtok_take(&tokens, 4),
                },
            )
        } else if crate::text::eq_ignore_case(kind, "dc") {
            Some(TimeDomainConfig::Dc { value: Some(String::from_str("0")) })
        } else {
            None
        }
    }

    /// Reads a waveform from one dialect value: the kind up to the
    /// first space, the fields after it; a value without a space reads
    /// as nothing.
    pub fn from_gsp_value_string(value: &str) -> (r: Option<TimeDomainConfig>)
        ensures
            ({
                let k = crate::text::seg_len(value@, 0, ' ') as int;
                if value@.len() == 0 || k >= value@.len() {
                    r is None
                } else {
                    tdc_from_tokens_ok(value@.take(k), value@.skip(k + 1), &r)
                }
            }),
    {
        let n = value.unicode_len();
        if n == 0 {
            proof {
                crate::text::lemma_seg_len_value(value@, 0, 0, ' ');
            }
            return None;
        }
        match crate::text::find_char(value, ' ') {
            Some(k) => {
                proof {
                    crate::text::lemma_seg_len_value(value@, 0, k as int, ' ');
                }
                let kind = value.substring_char(0, k);
                let attributes = value.substring_char(k + 1, n);
                assert(kind@ =~= value@.take(k as int));
                assert(attributes@ =~= value@.skip(k + 1));
                Self::from_space_separated_string(kind, attributes)
            },
            None => {
                proof {
                    crate::text::lemma_seg_len_value(value@, 0, value@.len() as int, ' ');
                }
                None
            },
        }
    }
}

impl TimeDomainConfig {
    /// Reads a waveform from one legacy-dialect value: a bare magnitude
    /// is a constant waveform; anything else is a kind keyword with a
    /// parenthesized field list, the closing marks dropped.
    pub fn from_asc_value_string(value: &str) -> (r: Option<TimeDomainConfig>)
        ensures
            ({
                let k = crate::text::seg_len(value@, 0, '(') as int;
                if value@.len() == 0 || value@ == "\"\""@ {
                    r is None
                } else {
                    match crate::unit::parse_model(value@) {
                        Some(uv) => r matches Some(TimeDomainConfig::Dc { value: v }) && (
                        v matches Some(text) && text@ == crate::unit::format_spec(uv)),
                        None => {
                            if k < value@.len() {
                                tdc_from_tokens_ok(
                                    value@.take(k),
                                    crate::text::replace_seq(value@.skip(k + 1), ")"@, ""@),
                                    &r,
                                )
                            } else {
                                r is None
                            }
                        },
                    }
                }
            }),
    {
        let n = value.unicode_len();
        if n == 0 || crate::text::str_eq(value, "\"\"") {
            return None;
        }
        match crate::unit::UnitOfMagnitude::from(String::from_str(value)) {
            Ok(unit) => Some(TimeDomainConfig::Dc { value: Some(unit.format()) }),
            Err(_) => {
                proof {
                    reveal_strlit(")");
                }
                let k = match crate::text::find_char(value, '(') {
                    Some(k) => k,
                    None => {
                        proof {
                            crate::text::lemma_seg_len_value(value@, 0, value@.len() as int, '(');
                        }
                        return None;
                    },
                };
                proof {
                    crate::text::lemma_seg_len_value(value@, 0, k as int, '(');
                }
                let kind = value.substring_char(0, k);
                let rest = value.substring_char(k + 1, n);
                assert(kind@ =~= value@.take(k as int));
                assert(rest@ =~= value@.skip(k + 1));
                let attributes = crate::text::replace_all(rest, ")", "");
                Self::from_space_separated_string(kind, attributes.as_str())
            },
        }
    }
}

impl BjtModel {
    /// Validates every parameter of this canvas model into a typed
    /// device model.
    pub fn to_domain(&self) -> (r: crate::element::BjtModel)
        ensures
            crate::element::bjt_parsed_ok(&r, self),
    {
        crate::element::BjtModel::from_canvas(self)
    }
}

impl BjtPolarity {
    pub fn to_domain(&self) -> (r: crate::element::BjtPolarity)
        ensures
            r is Npn <==> self is NPN,
    {
        match self {
            BjtPolarity::NPN => crate::element::BjtPolarity::Npn,
            BjtPolarity::PNP => crate::element::BjtPolarity::Pnp,
        }
    }
}

/// How a small-signal descriptor is read from a token list: the leading
/// marker is skipped, a missing amplitude falls back to zero, and a
/// third token is the phase.
pub open spec fn ssc_from_tokens_ok(value: Seq<char>, r: &SmallSignalConfig) -> bool {
    let t = ws_tokens(value);
    &&& r.amplitude@ == (if t.len() > 1 {
        t[1]
    } else {
        "0"@
    })
    &&& wtok_is(&r.phase, t, 2)
}

impl SmallSignalConfig {
    /// Renders the descriptor as its dialect text.
    pub fn to_gsp_string(&self) -> (r: String)
        ensures
            r@ == "AC "@ + self.amplitude@ + (match self.phase {
                Some(p) => " "@ + p@,
                None => Seq::empty(),
            }),
    {
        let mut out = String::from_str("AC ");
        out.append(self.amplitude.as_str());
        if let Some(p) = &self.phase {
            out.append(" ");
            out.append(p.as_str());
        }
        assert(out@ =~= "AC "@ + self.amplitude@ + (match self.phase {
            Some(p) => " "@ + p@,
            None => Seq::<char>::empty(),
        }));
        out
    }

    /// Reads a descriptor from one dialect value; an empty value reads
    /// as nothing.
    pub fn from_gsp_value_string(value: &str) -> (r: Option<SmallSignalConfig>)
        ensures
            match r {
                Some(c) => value@.len() > 0 && ssc_from_tokens_ok(value@, &c),
                None => value@.len() == 0,
            },
    {
        let n = value.unicode_len();
        if n == 0 {
            return None;
        }
        Some(Self::from_asc_value_string(value))
    }

    /// Reads a descriptor from a token list whose first token is the
    /// `AC` marker; a missing amplitude falls back to zero.
    pub fn from_asc_value_string(value: &str) -> (r: SmallSignalConfig)
        ensures
            ssc_from_tokens_ok(value@, &r),
    {
        let tokens = crate::text::split_ws(value);
        let amplitude = match wtok_take(&tokens, 1) {
            Some(a) => a,
            None => String::from_str("0"),
        };
        let phase = wtok_take(&tokens, 2);
        SmallSignalConfig { amplitude, phase }
    }
}

} // verus!
