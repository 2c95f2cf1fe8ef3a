//! The typed circuit elements a schematic holds: waveform descriptors,
//! small-signal descriptors, transistor device models and the element
//! variants themselves, each knowing its own netlist rendering.

use vstd::prelude::*;

use crate::canvas;
use crate::simulator_error::SimulatorError;
use crate::text::int_rep;
use crate::unit::{format_spec, parse_model, UnitOfMagnitude};

verus! {

/// A validated time-domain waveform: required magnitudes are typed, and
/// each optional tail field is kept only while every field before it was
/// supplied.
#[derive(Debug, Clone)]
pub enum TimeDomainConfig {
    Dc { value: UnitOfMagnitude },
    Pulse {
        initial_value: UnitOfMagnitude,
        final_value: UnitOfMagnitude,
        delay: Option<UnitOfMagnitude>,
        rise_time: Option<UnitOfMagnitude>,
        fall_time: Option<UnitOfMagnitude>,
        pulse_width: Option<UnitOfMagnitude>,
        period: Option<UnitOfMagnitude>,
    },
    Sin {
        offset: UnitOfMagnitude,
        amplitude: UnitOfMagnitude,
        frequency: Option<UnitOfMagnitude>,
        delay: Option<UnitOfMagnitude>,
        damping_factor: Option<UnitOfMagnitude>,
    },
    Exp {
        initial_value: UnitOfMagnitude,
        final_value: UnitOfMagnitude,
        rise_delay: Option<UnitOfMagnitude>,
        rise_time: Option<UnitOfMagnitude>,
        fall_delay: Option<UnitOfMagnitude>,
        fall_time: Option<UnitOfMagnitude>,
    },
    Sffm {
        offset: UnitOfMagnitude,
        amplitude: UnitOfMagnitude,
        carrier_frequency: Option<UnitOfMagnitude>,
        modulation_index: Option<i16>,
        signal_frequency: Option<UnitOfMagnitude>,
    },
    Am {
        amplitude: UnitOfMagnitude,
        offset: UnitOfMagnitude,
        modulating_frequency: UnitOfMagnitude,
        carrier_frequency: Option<UnitOfMagnitude>,
        delay: Option<UnitOfMagnitude>,
    },
}

/// The text of one magnitude.
pub open spec fn unit_text(u: &UnitOfMagnitude) -> Seq<char> {
    format_spec(u@)
}

/// A space and the text of a magnitude, when it is present.
pub open spec fn opt_unit_text(o: &Option<UnitOfMagnitude>, tail: Seq<char>) -> Seq<char> {
    match o {
        Some(u) => " "@ + unit_text(u) + tail,
        None => Seq::empty(),
    }
}

/// The netlist text of a waveform descriptor.
pub open spec fn tdc_text(c: &TimeDomainConfig) -> Seq<char> {
    match c {
        TimeDomainConfig::Dc { value } => "DC "@ + unit_text(value),
        TimeDomainConfig::Pulse {
            initial_value,
            final_value,
            delay,
            rise_time,
            fall_time,
            pulse_width,
            period,
        } => "PULSE("@ + unit_text(initial_value) + " "@ + unit_text(final_value) + opt_unit_text(
            delay,
            opt_unit_text(
                rise_time,
                opt_unit_text(fall_time, opt_unit_text(pulse_width, opt_unit_text(period, ""@))),
            ),
        ) + ")"@,
        TimeDomainConfig::Sin { offset, amplitude, frequency, delay, damping_factor } => "SIN("@
            + unit_text(offset) + " "@ + unit_text(amplitude) + opt_unit_text(
            frequency,
            opt_unit_text(delay, opt_unit_text(damping_factor, ""@)),
        ) + ")"@,
        TimeDomainConfig::Exp {
            initial_value,
            final_value,
            rise_delay,
            rise_time,
            fall_delay,
            fall_time,
        } => "EXP("@ + unit_text(initial_value) + " "@ + unit_text(final_value) + opt_unit_text(
            rise_delay,
            opt_unit_text(rise_time, opt_unit_text(fall_delay, opt_unit_text(fall_time, ""@))),
        ) + ")"@,
        TimeDomainConfig::Sffm {
            offset,
            amplitude,
            carrier_frequency,
            modulation_index,
            signal_frequency,
        } => "SFFM("@ + unit_text(offset) + " "@ + unit_text(amplitude) + (match carrier_frequency {
            Some(cf) => " "@ + unit_text(cf) + (match modulation_index {
                Some(mi) => " "@ + int_rep(*mi as int) + opt_unit_text(signal_frequency, ""@),
                None => Seq::empty(),
            }),
            None => Seq::empty(),
        }) + ")"@,
        TimeDomainConfig::Am { amplitude, offset, modulating_frequency, carrier_frequency, delay } => "AM("@
            + unit_text(amplitude) + " "@ + unit_text(offset) + " "@ + unit_text(
            modulating_frequency,
        ) + opt_unit_text(carrier_frequency, opt_unit_text(delay, ""@)) + ")"@,
    }
}

/// A canvas field that must be present and parse: how its outcome maps to
/// the function's result is shared by every required magnitude.
pub open spec fn req_missing(cs: &Option<String>) -> bool {
    cs is None
}

pub open spec fn req_bad(cs: &Option<String>) -> bool {
    match cs {
        Some(s) => parse_model(s@) is None,
        None => false,
    }
}

pub open spec fn req_is(cs: &Option<String>, u: &UnitOfMagnitude) -> bool {
    match cs {
        Some(s) => parse_model(s@) == Some(u@),
        None => false,
    }
}

/// A malformed-field rejection naming the given field.
pub open spec fn is_malformed<T>(r: &Result<T, SimulatorError>, field: Seq<char>) -> bool {
    match r {
        Err(SimulatorError::MalformedSimulationConfig(f)) => f@ == field,
        _ => false,
    }
}

/// A magnitude-parse rejection.
pub open spec fn is_unit_err<T>(r: &Result<T, SimulatorError>) -> bool {
    match r {
        Err(SimulatorError::UnitError(e)) => e is InvalidUnitOfMagnitude,
        _ => false,
    }
}

/// An optional chain field: kept and parsed only while enabled.
pub open spec fn chain_is(enabled: bool, cs: &Option<String>, ru: &Option<UnitOfMagnitude>) -> bool {
    if enabled {
        match (cs, ru) {
            (Some(s), Some(u)) => parse_model(s@) == Some(u@),
            (None, None) => true,
            _ => false,
        }
    } else {
        ru is None
    }
}

/// Some enabled chain field failed to parse.
pub open spec fn chain_bad(enabled: bool, cs: &Option<String>) -> bool {
    enabled && req_bad(cs)
}

/// A required field that is present and parses.
pub open spec fn req_fine(cs: &Option<String>) -> bool {
    !req_missing(cs) && !req_bad(cs)
}

/// Whether a canvas waveform validates without error.
pub open spec fn tdc_accepts(c: &canvas::TimeDomainConfig) -> bool {
    match c {
        canvas::TimeDomainConfig::Dc { value } => req_fine(value),
        canvas::TimeDomainConfig::Pulse {
            initial_value,
            final_value,
            delay,
            rise_time,
            fall_time,
            pulse_width,
            period,
        } => req_fine(initial_value) && req_fine(final_value) && !(chain_bad(true, delay)
            || chain_bad(delay is Some, rise_time) || chain_bad(
            delay is Some && rise_time is Some,
            fall_time,
        ) || chain_bad(delay is Some && rise_time is Some && fall_time is Some, pulse_width)
            || chain_bad(
            delay is Some && rise_time is Some && fall_time is Some && pulse_width is Some,
            period,
        )),
        canvas::TimeDomainConfig::Sin { offset, amplitude, frequency, delay, damping_factor } => {
            req_fine(offset) && req_fine(amplitude) && !(chain_bad(true, frequency) || chain_bad(
                frequency is Some,
                delay,
            ) || chain_bad(frequency is Some && delay is Some, damping_factor))
        },
        canvas::TimeDomainConfig::Exp {
            initial_value,
            final_value,
            rise_delay,
            rise_time,
            fall_delay,
            fall_time,
        } => req_fine(initial_value) && req_fine(final_value) && !(chain_bad(true, rise_delay)
            || chain_bad(rise_delay is Some, rise_time) || chain_bad(
            rise_delay is Some && rise_time is Some,
            fall_delay,
        ) || chain_bad(rise_delay is Some && rise_time is Some && fall_delay is Some, fall_time)),
        canvas::TimeDomainConfig::Sffm {
            offset,
            amplitude,
            carrier_frequency,
            modulation_index,
            signal_frequency,
        } => req_fine(offset) && req_fine(amplitude) && !(chain_bad(true, carrier_frequency)
            || chain_bad(carrier_frequency is Some && modulation_index is Some, signal_frequency)),
        canvas::TimeDomainConfig::Am {
            amplitude,
            offset,
            modulating_frequency,
            carrier_frequency,
            delay,
        } => req_fine(offset) && req_fine(amplitude) && req_fine(modulating_frequency) && !(
        chain_bad(true, carrier_frequency) || chain_bad(carrier_frequency is Some, delay)),
    }
}

/// Whether a canvas small-signal descriptor validates without error.
pub open spec fn ssc_accepts(c: &canvas::SmallSignalConfig) -> bool {
    parse_model(c.amplitude@) is Some && !chain_bad(true, &c.phase)
}

impl TimeDomainConfig {
    /// Validates a canvas waveform.  Required fields that are absent
    /// reject the configuration naming the field; any magnitude that
    /// fails to parse rejects it as a unit error; optional tail fields
    /// are kept only while every field before them was supplied.
    pub fn from_canvas(c: canvas::TimeDomainConfig) -> (r: Result<TimeDomainConfig, SimulatorError>)
        ensures
            tdc_from_canvas_ok(&c, &r),
    {
        match c {
            canvas::TimeDomainConfig::Dc { value } => {
                let value = require_unit(value, "DC value")?;
                Ok(TimeDomainConfig::Dc { value })
            },
            canvas::TimeDomainConfig::Pulse {
                initial_value,
                final_value,
                delay,
                rise_time,
                fall_time,
                pulse_width,
                period,
            } => {
                let initial_value = require_unit(initial_value, "PULSE initial value")?;
                let final_value = require_unit(final_value, "PULSE final value")?;
                let delay = chain_unit(delay)?;
                let rise_time = if delay.is_some() {
                    chain_unit(rise_time)?
                } else {
                    None
                };
                let fall_time = if rise_time.is_some() {
                    chain_unit(fall_time)?
                } else {
                    None
                };
                let pulse_width = if fall_time.is_some() {
                    chain_unit(pulse_width)?
                } else {
                    None
                };
                let period = if pulse_width.is_some() {
                    chain_unit(period)?
                } else {
                    None
                };
                Ok(
                    TimeDomainConfig::Pulse {
                        initial_value,
                        final_value,
                        delay,
                        rise_time,
                        fall_time,
                        pulse_width,
                        period,
                    },
                )
            },
            canvas::TimeDomainConfig::Sin { offset, amplitude, frequency, delay, damping_factor } => {
                let offset = require_unit(offset, "SIN offset")?;
                let amplitude = require_unit(amplitude, "SIN amplitude")?;
                let frequency = chain_unit(frequency)?;
                let delay = if frequency.is_some() {
                    chain_unit(delay)?
                } else {
                    None
                };
                let damping_factor = if delay.is_some() {
                    chain_unit(damping_factor)?
                } else {
                    None
                };
                Ok(TimeDomainConfig::Sin { offset, amplitude, frequency, delay, damping_factor })
            },
            canvas::TimeDomainConfig::Exp {
                initial_value,
                final_value,
                rise_delay,
                rise_time,
                fall_delay,
                fall_time,
            } => {
                let initial_value = require_unit(initial_value, "EXP initial value")?;
                let final_value = require_unit(final_value, "EXP final value")?;
                let rise_delay = chain_unit(rise_delay)?;
                let rise_time = if rise_delay.is_some() {
                    chain_unit(rise_time)?
                } else {
                    None
                };
                let fall_delay = if rise_time.is_some() {
                    chain_unit(fall_delay)?
                } else {
                    None
                };
                let fall_time = if fall_delay.is_some() {
                    chain_unit(fall_time)?
                } else {
                    None
                };
                Ok(
                    TimeDomainConfig::Exp {
                        initial_value,
                        final_value,
                        rise_delay,
                        rise_time,
                        fall_delay,
                        fall_time,
                    },
                )
            },
            canvas::TimeDomainConfig::Sffm {
                offset,
                amplitude,
                carrier_frequency,
                modulation_index,
                signal_frequency,
            } => {
                let offset = require_unit(offset, "SFFM offset")?;
                let amplitude = require_unit(amplitude, "SFFM amplitude")?;
                let carrier_frequency = chain_unit(carrier_frequency)?;
                let modulation_index = if carrier_frequency.is_some() {
                    modulation_index
                } else {
                    None
                };
                let signal_frequency = if modulation_index.is_some() {
                    chain_unit(signal_frequency)?
                } else {
                    None
                };
                Ok(
                    TimeDomainConfig::Sffm {
                        offset,
                        amplitude,
                        carrier_frequency,
                        modulation_index,
                        signal_frequency,
                    },
                )
            },
            canvas::TimeDomainConfig::Am {
                amplitude,
                offset,
                modulating_frequency,
                carrier_frequency,
                delay,
            } => {
                let offset = require_unit(offset, "AM offset")?;
                let amplitude = require_unit(amplitude, "AM amplitude")?;
                let modulating_frequency = require_unit(
                    modulating_frequency,
                    "AM modulating frequency",
                )?;
                let carrier_frequency = chain_unit(carrier_frequency)?;
                let delay = if carrier_frequency.is_some() {
                    chain_unit(delay)?
                } else {
                    None
                };
                Ok(
                    TimeDomainConfig::Am {
                        amplitude,
                        offset,
                        modulating_frequency,
                        carrier_frequency,
                        delay,
                    },
                )
            },
        }
    }

    /// Renders the waveform descriptor as netlist text.
    #[verifier::rlimit(100)]
    pub fn format(&self) -> (r: String)
        ensures
            r@ == tdc_text(self),
    {
        proof {
            reveal_strlit("");
        }
        match self {
            TimeDomainConfig::Dc { value } => {
                let mut out = String::from_str("DC ");
                append_unit(&mut out, value);
                assert(out@ =~= tdc_text(self));
                out
            },
            TimeDomainConfig::Pulse {
                initial_value,
                final_value,
                delay,
                rise_time,
                fall_time,
                pulse_width,
                period,
            } => {
                let mut out = String::from_str("PULSE(");
                append_unit(&mut out, initial_value);
                out.append(" ");
                append_unit(&mut out, final_value);
                if let Some(d) = delay {
                    out.append(" ");
                    append_unit(&mut out, d);
                    if let Some(rt) = rise_time {
                        out.append(" ");
                        append_unit(&mut out, rt);
                        if let Some(ft) = fall_time {
                            out.append(" ");
                            append_unit(&mut out, ft);
                            if let Some(pw) = pulse_width {
                                out.append(" ");
                                append_unit(&mut out, pw);
                                if let Some(p) = period {
                                    out.append(" ");
                                    append_unit(&mut out, p);
                                }
                            }
                        }
                    }
                }
                out.append(")");
                assert(out@ =~= tdc_text(self));
                out
            },
            TimeDomainConfig::Sin { offset, amplitude, frequency, delay, damping_factor } => {
                let mut out = String::from_str("SIN(");
                append_unit(&mut out, offset);
                out.append(" ");
                append_unit(&mut out, amplitude);
                if let Some(f) = frequency {
                    out.append(" ");
                    append_unit(&mut out, f);
                    if let Some(d) = delay {
                        out.append(" ");
                        append_unit(&mut out, d);
                        if let Some(df) = damping_factor {
                            out.append(" ");
                            append_unit(&mut out, df);
                        }
                    }
                }
                out.append(")");
                assert(out@ =~= tdc_text(self));
                out
            },
            TimeDomainConfig::Exp {
                initial_value,
                final_value,
                rise_delay,
                rise_time,
                fall_delay,
                fall_time,
            } => {
                let mut out = String::from_str("EXP(");
                append_unit(&mut out, initial_value);
                out.append(" ");
                append_unit(&mut out, final_value);
                if let Some(rd) = rise_delay {
                    out.append(" ");
                    append_unit(&mut out, rd);
                    if let Some(rt) = rise_time {
                        out.append(" ");
                        append_unit(&mut out, rt);
                        if let Some(fd) = fall_delay {
                            out.append(" ");
                            append_unit(&mut out, fd);
                            if let Some(ft) = fall_time {
                                out.append(" ");
                                append_unit(&mut out, ft);
                            }
                        }
                    }
                }
                out.append(")");
                assert(out@ =~= tdc_text(self));
                out
            },
            TimeDomainConfig::Sffm {
                offset,
                amplitude,
                carrier_frequency,
                modulation_index,
                signal_frequency,
            } => {
                let mut out = String::from_str("SFFM(");
                append_unit(&mut out, offset);
                out.append(" ");
                append_unit(&mut out, amplitude);
                if let Some(cf) = carrier_frequency {
                    out.append(" ");
                    append_unit(&mut out, cf);
                    if let Some(mi) = modulation_index {
                        out.append(" ");
                        let mi_text = crate::text::fmt_i16(*mi);
                        out.append(mi_text.as_str());
                        if let Some(sf) = signal_frequency {
                            out.append(" ");
                            append_unit(&mut out, sf);
                        }
                    }
                }
                out.append(")");
                assert(out@ =~= tdc_text(self));
                out
            },
            TimeDomainConfig::Am {
                amplitude,
                offset,
                modulating_frequency,
                carrier_frequency,
                delay,
            } => {
                let mut out = String::from_str("AM(");
                append_unit(&mut out, amplitude);
                out.append(" ");
                append_unit(&mut out, offset);
                out.append(" ");
                append_unit(&mut out, modulating_frequency);
                if let Some(cf) = carrier_frequency {
                    out.append(" ");
                    append_unit(&mut out, cf);
                    if let Some(d) = delay {
                        out.append(" ");
                        append_unit(&mut out, d);
                    }
                }
                out.append(")");
                assert(out@ =~= tdc_text(self));
                out
            },
        }
    }
}

/// How a canvas waveform maps to a validated one, field for field, in the
/// order the fields are checked.
pub open spec fn tdc_from_canvas_ok(
    c: &canvas::TimeDomainConfig,
    r: &Result<TimeDomainConfig, SimulatorError>,
) -> bool {
    match c {
        canvas::TimeDomainConfig::Dc { value } => {
            if req_missing(value) {
                is_malformed(r, "DC value"@)
            } else if req_bad(value) {
                is_unit_err(r)
            } else {
                r matches Ok(TimeDomainConfig::Dc { value: u }) && req_is(value, &u)
            }
        },
        canvas::TimeDomainConfig::Pulse {
            initial_value,
            final_value,
            delay,
            rise_time,
            fall_time,
            pulse_width,
            period,
        } => {
            if req_missing(initial_value) {
                is_malformed(r, "PULSE initial value"@)
            } else if req_bad(initial_value) {
                is_unit_err(r)
            } else if req_missing(final_value) {
                is_malformed(r, "PULSE final value"@)
            } else if req_bad(final_value) {
                is_unit_err(r)
            } else if chain_bad(true, delay) || chain_bad(delay is Some, rise_time) || chain_bad(
                delay is Some && rise_time is Some,
                fall_time,
            ) || chain_bad(delay is Some && rise_time is Some && fall_time is Some, pulse_width)
                || chain_bad(
                delay is Some && rise_time is Some && fall_time is Some && pulse_width is Some,
                period,
            ) {
                is_unit_err(r)
            } else {
                r matches Ok(
                    TimeDomainConfig::Pulse {
                        initial_value: iv,
                        final_value: fv,
                        delay: d,
                        rise_time: rt,
                        fall_time: ft,
                        pulse_width: pw,
                        period: p,
                    },
                ) && req_is(initial_value, &iv) && req_is(final_value, &fv) && chain_is(
                    true,
                    delay,
                    &d,
                ) && chain_is(d is Some, rise_time, &rt) && chain_is(rt is Some, fall_time, &ft)
                    && chain_is(ft is Some, pulse_width, &pw) && chain_is(pw is Some, period, &p)
            }
        },
        canvas::TimeDomainConfig::Sin { offset, amplitude, frequency, delay, damping_factor } => {
            if req_missing(offset) {
                is_malformed(r, "SIN offset"@)
            } else if req_bad(offset) {
                is_unit_err(r)
            } else if req_missing(amplitude) {
                is_malformed(r, "SIN amplitude"@)
            } else if req_bad(amplitude) {
                is_unit_err(r)
            } else if chain_bad(true, frequency) || chain_bad(frequency is Some, delay)
                || chain_bad(frequency is Some && delay is Some, damping_factor) {
                is_unit_err(r)
            } else {
                r matches Ok(
                    TimeDomainConfig::Sin {
                        offset: o,
                        amplitude: a,
                        frequency: f,
                        delay: d,
                        damping_factor: df,
                    },
                ) && req_is(offset, &o) && req_is(amplitude, &a) && chain_is(true, frequency, &f)
                    && chain_is(f is Some, delay, &d) && chain_is(d is Some, damping_factor, &df)
            }
        },
        canvas::TimeDomainConfig::Exp {
            initial_value,
            final_value,
            rise_delay,
            rise_time,
            fall_delay,
            fall_time,
        } => {
            if req_missing(initial_value) {
                is_malformed(r, "EXP initial value"@)
            } else if req_bad(initial_value) {
                is_unit_err(r)
            } else if req_missing(final_value) {
                is_malformed(r, "EXP final value"@)
            } else if req_bad(final_value) {
                is_unit_err(r)
            } else if chain_bad(true, rise_delay) || chain_bad(rise_delay is Some, rise_time)
                || chain_bad(rise_delay is Some && rise_time is Some, fall_delay) || chain_bad(
                rise_delay is Some && rise_time is Some && fall_delay is Some,
                fall_time,
            ) {
                is_unit_err(r)
            } else {
                r matches Ok(
                    TimeDomainConfig::Exp {
                        initial_value: iv,
                        final_value: fv,
                        rise_delay: rd,
                        rise_time: rt,
                        fall_delay: fd,
                        fall_time: ft,
                    },
                ) && req_is(initial_value, &iv) && req_is(final_value, &fv) && chain_is(
                    true,
                    rise_delay,
                    &rd,
                ) && chain_is(rd is Some, rise_time, &rt) && chain_is(rt is Some, fall_delay, &fd)
                    && chain_is(fd is Some, fall_time, &ft)
            }
        },
        canvas::TimeDomainConfig::Sffm {
            offset,
            amplitude,
            carrier_frequency,
            modulation_index,
            signal_frequency,
        } => {
            if req_missing(offset) {
                is_malformed(r, "SFFM offset"@)
            } else if req_bad(offset) {
                is_unit_err(r)
            } else if req_missing(amplitude) {
                is_malformed(r, "SFFM amplitude"@)
            } else if req_bad(amplitude) {
                is_unit_err(r)
            } else if chain_bad(true, carrier_frequency) || chain_bad(
                carrier_frequency is Some && modulation_index is Some,
                signal_frequency,
            ) {
                is_unit_err(r)
            } else {
                r matches Ok(
                    TimeDomainConfig::Sffm {
                        offset: o,
                        amplitude: a,
                        carrier_frequency: cf,
                        modulation_index: mi,
                        signal_frequency: sf,
                    },
                ) && req_is(offset, &o) && req_is(amplitude, &a) && chain_is(
                    true,
                    carrier_frequency,
                    &cf,
                ) && mi == (if cf is Some {
                    *modulation_index
                } else {
                    None
                }) && chain_is(cf is Some && mi is Some, signal_frequency, &sf)
            }
        },
        canvas::TimeDomainConfig::Am {
            amplitude,
            offset,
            modulating_frequency,
            carrier_frequency,
            delay,
        } => {
            if req_missing(offset) {
                is_malformed(r, "AM offset"@)
            } else if req_bad(offset) {
                is_unit_err(r)
            } else if req_missing(amplitude) {
                is_malformed(r, "AM amplitude"@)
            } else if req_bad(amplitude) {
                is_unit_err(r)
            } else if req_missing(modulating_frequency) {
                is_malformed(r, "AM modulating frequency"@)
            } else if req_bad(modulating_frequency) {
                is_unit_err(r)
            } else if chain_bad(true, carrier_frequency) || chain_bad(
                carrier_frequency is Some,
                delay,
            ) {
                is_unit_err(r)
            } else {
                r matches Ok(
                    TimeDomainConfig::Am {
                        amplitude: a,
                        offset: o,
                        modulating_frequency: mf,
                        carrier_frequency: cf,
                        delay: d,
                    },
                ) && req_is(amplitude, &a) && req_is(offset, &o) && req_is(modulating_frequency, &mf)
                    && chain_is(true, carrier_frequency, &cf) && chain_is(cf is Some, delay, &d)
            }
        },
    }
}

/// Validates a required magnitude field: absent rejects with the field's
/// name, unparsable rejects as a unit error.
fn require_unit(cs: Option<String>, field: &str) -> (r: Result<UnitOfMagnitude, SimulatorError>)
    ensures
        match r {
            Ok(u) => req_is(&cs, &u),
            Err(e) => {
                if cs is None {
                    e matches SimulatorError::MalformedSimulationConfig(f) && f@ == field@
                } else {
                    req_bad(&cs) && (e matches SimulatorError::UnitError(ue) && ue
                        is InvalidUnitOfMagnitude)
                }
            },
        },
{
    match cs {
        Some(s) => match UnitOfMagnitude::from(s) {
            Ok(u) => Ok(u),
            Err(e) => Err(SimulatorError::UnitError(e)),
        },
        None => Err(SimulatorError::MalformedSimulationConfig(String::from_str(field))),
    }
}

/// Validates an optional chain magnitude: absent stays absent, unparsable
/// rejects as a unit error.
fn chain_unit(cs: Option<String>) -> (r: Result<Option<UnitOfMagnitude>, SimulatorError>)
    ensures
        match r {
            Ok(o) => chain_is(true, &cs, &o),
            Err(e) => req_bad(&cs) && (e matches SimulatorError::UnitError(ue) && ue
                is InvalidUnitOfMagnitude),
        },
{
    match cs {
        Some(s) => match UnitOfMagnitude::from(s) {
            Ok(u) => Ok(Some(u)),
            Err(e) => Err(SimulatorError::UnitError(e)),
        },
        None => Ok(None),
    }
}

/// Appends one magnitude's text.
fn append_unit(out: &mut String, u: &UnitOfMagnitude)
    ensures
        final(out)@ == old(out)@ + unit_text(u),
{
    let t = u.format();
    out.append(t.as_str());
}

/// A validated small-signal descriptor.
#[derive(Debug, Clone)]
pub struct SmallSignalConfig {
    pub amplitude: UnitOfMagnitude,
    pub phase: Option<UnitOfMagnitude>,
}

/// The netlist text of a small-signal descriptor.
pub open spec fn ssc_text(c: &SmallSignalConfig) -> Seq<char> {
    "AC "@ + unit_text(&c.amplitude) + opt_unit_text(&c.phase, ""@)
}

impl SmallSignalConfig {
    /// Validates a canvas small-signal descriptor: the amplitude must
    /// parse, the phase is kept when present and parsable.
    pub fn from_canvas(c: canvas::SmallSignalConfig) -> (r: Result<SmallSignalConfig, SimulatorError>)
        ensures
            ({
                if parse_model(c.amplitude@) is None || chain_bad(true, &c.phase) {
                    is_unit_err(&r)
                } else {
                    r matches Ok(s) && parse_model(c.amplitude@) == Some(s.amplitude@) && chain_is(
                        true,
                        &c.phase,
                        &s.phase,
                    )
                }
            }),
    {
        let amplitude = match UnitOfMagnitude::from(c.amplitude) {
            Ok(u) => u,
            Err(e) => {
                return Err(SimulatorError::UnitError(e));
            },
        };
        let phase = chain_unit(c.phase)?;
        Ok(SmallSignalConfig { amplitude, phase })
    }

    /// Renders the small-signal descriptor as netlist text.
    pub fn format(&self) -> (r: String)
        ensures
            r@ == ssc_text(self),
    {
        proof {
            reveal_strlit("");
        }
        let mut out = String::from_str("AC ");
        append_unit(&mut out, &self.amplitude);
        if let Some(p) = &self.phase {
            out.append(" ");
            append_unit(&mut out, p);
        }
        assert(out@ =~= ssc_text(self));
        out
    }
}

#[derive(Debug, Clone)]
pub enum BjtPolarity {
    Npn,
    Pnp,
}

/// The text of a transistor polarity.
pub open spec fn polarity_text(p: &BjtPolarity) -> Seq<char> {
    match p {
        BjtPolarity::Npn => "NPN"@,
        BjtPolarity::Pnp => "PNP"@,
    }
}

impl BjtPolarity {
    pub fn format(&self) -> (r: String)
        ensures
            r@ == polarity_text(self),
    {
        match self {
            BjtPolarity::Npn => String::from_str("NPN"),
            BjtPolarity::Pnp => String::from_str("PNP"),
        }
    }

    pub fn to_canvas(&self) -> (r: canvas::BjtPolarity)
        ensures
            r is NPN <==> self is Npn,
    {
        match self {
            BjtPolarity::Npn => canvas::BjtPolarity::NPN,
            BjtPolarity::Pnp => canvas::BjtPolarity::PNP,
        }
    }
}

/// A transistor device model with validated parameters.
#[derive(Debug, Clone)]
pub struct BjtModel {
    pub name: String,
    pub polarity: BjtPolarity,
    pub is: Option<UnitOfMagnitude>,
    pub xti: Option<UnitOfMagnitude>,
    pub eg: Option<UnitOfMagnitude>,
    pub vaf: Option<UnitOfMagnitude>,
    pub bf: Option<UnitOfMagnitude>,
    pub ise: Option<UnitOfMagnitude>,
    pub ne: Option<UnitOfMagnitude>,
    pub ikf: Option<UnitOfMagnitude>,
    pub nk: Option<UnitOfMagnitude>,
    pub xtb: Option<UnitOfMagnitude>,
    pub br: Option<UnitOfMagnitude>,
    pub isc: Option<UnitOfMagnitude>,
    pub nc: Option<UnitOfMagnitude>,
    pub ikr: Option<UnitOfMagnitude>,
    pub rc: Option<UnitOfMagnitude>,
    pub cjc: Option<UnitOfMagnitude>,
    pub mjc: Option<UnitOfMagnitude>,
    pub vjc: Option<UnitOfMagnitude>,
    pub fc: Option<UnitOfMagnitude>,
    pub cje: Option<UnitOfMagnitude>,
    pub mje: Option<UnitOfMagnitude>,
    pub vje: Option<UnitOfMagnitude>,
    pub tr: Option<UnitOfMagnitude>,
    pub tf: Option<UnitOfMagnitude>,
    pub itf: Option<UnitOfMagnitude>,
    pub xtf: Option<UnitOfMagnitude>,
    pub vtf: Option<UnitOfMagnitude>,
    pub rb: Option<UnitOfMagnitude>,
}

/// A present parameter formats to its text; an absent one stays absent.
pub open spec fn formatted_opt(cs: &Option<String>, ru: &Option<UnitOfMagnitude>) -> bool {
    match (cs, ru) {
        (Some(s), Some(u)) => s@ == unit_text(u),
        (None, None) => true,
        _ => false,
    }
}

/// A present parameter is kept exactly when its text parses; an absent
/// one stays absent.
pub open spec fn parsed_opt(ru: &Option<UnitOfMagnitude>, cs: &Option<String>) -> bool {
    match cs {
        Some(s) => match ru {
            Some(u) => parse_model(s@) == Some(u@),
            None => parse_model(s@) is None,
        },
        None => ru is None,
    }
}

/// A whole device model validated from the canvas, parameter by
/// parameter.
pub open spec fn bjt_parsed_ok(rm: &BjtModel, cm: &canvas::BjtModel) -> bool {
    &&& rm.name@ == cm.name@
    &&& (rm.polarity is Npn <==> cm.polarity is NPN)
    &&& parsed_opt(&rm.is, &cm.is)
    &&& parsed_opt(&rm.xti, &cm.xti)
    &&& parsed_opt(&rm.eg, &cm.eg)
    &&& parsed_opt(&rm.vaf, &cm.vaf)
    &&& parsed_opt(&rm.bf, &cm.bf)
    &&& parsed_opt(&rm.ise, &cm.ise)
    &&& parsed_opt(&rm.ne, &cm.ne)
    &&& parsed_opt(&rm.ikf, &cm.ikf)
    &&& parsed_opt(&rm.nk, &cm.nk)
    &&& parsed_opt(&rm.xtb, &cm.xtb)
    &&& parsed_opt(&rm.br, &cm.br)
    &&& parsed_opt(&rm.isc, &cm.isc)
    &&& parsed_opt(&rm.nc, &cm.nc)
    &&& parsed_opt(&rm.ikr, &cm.ikr)
    &&& parsed_opt(&rm.rc, &cm.rc)
    &&& parsed_opt(&rm.cjc, &cm.cjc)
    &&& parsed_opt(&rm.mjc, &cm.mjc)
    &&& parsed_opt(&rm.vjc, &cm.vjc)
    &&& parsed_opt(&rm.fc, &cm.fc)
    &&& parsed_opt(&rm.cje, &cm.cje)
    &&& parsed_opt(&rm.mje, &cm.mje)
    &&& parsed_opt(&rm.vje, &cm.vje)
    &&& parsed_opt(&rm.tr, &cm.tr)
    &&& parsed_opt(&rm.tf, &cm.tf)
    &&& parsed_opt(&rm.itf, &cm.itf)
    &&& parsed_opt(&rm.xtf, &cm.xtf)
    &&& parsed_opt(&rm.vtf, &cm.vtf)
    &&& parsed_opt(&rm.rb, &cm.rb)
}

fn fmt_opt(o: &Option<UnitOfMagnitude>) -> (r: Option<String>)
    ensures
        formatted_opt(&r, o),
{
    match o {
        Some(u) => Some(u.format()),
        None => None,
    }
}

fn parse_opt(cs: &Option<String>) -> (r: Option<UnitOfMagnitude>)
    ensures
        parsed_opt(&r, cs),
{
    match cs {
        Some(s) => match UnitOfMagnitude::from(s.clone()) {
            Ok(u) => Some(u),
            Err(_) => None,
        },
        None => None,
    }
}

/// One rendered model parameter: `NAME=value ` when present, nothing when
/// absent.
pub open spec fn param_seg(name: Seq<char>, o: &Option<UnitOfMagnitude>) -> Seq<char> {
    match o {
        Some(u) => name + "="@ + unit_text(u) + " "@,
        None => Seq::empty(),
    }
}

fn append_param(out: &mut String, name: &str, o: &Option<UnitOfMagnitude>)
    ensures
        final(out)@ == old(out)@ + param_seg(name@, o),
{
    match o {
        Some(u) => {
            out.append(name);
            out.append("=");
            append_unit(out, u);
            out.append(" ");
            assert(out@ =~= old(out)@ + param_seg(name@, o));
        },
        None => {
            assert(out@ =~= old(out)@ + param_seg(name@, o));
        },
    }
}

/// The first quarter of the rendered parameter list.
pub open spec fn bjt_params_a(m: &BjtModel) -> Seq<char> {
    param_seg("IS"@, &m.is) + param_seg("XTI"@, &m.xti) + param_seg("EG"@, &m.eg) + param_seg(
        "VAF"@,
        &m.vaf,
    ) + param_seg("BF"@, &m.bf) + param_seg("ISE"@, &m.ise) + param_seg("NE"@, &m.ne)
}

pub open spec fn bjt_params_b(m: &BjtModel) -> Seq<char> {
    param_seg("IKF"@, &m.ikf) + param_seg("NK"@, &m.nk) + param_seg("XTB"@, &m.xtb) + param_seg(
        "BR"@,
        &m.br,
    ) + param_seg("ISC"@, &m.isc) + param_seg("NC"@, &m.nc) + param_seg("IKR"@, &m.ikr)
}

pub open spec fn bjt_params_c(m: &BjtModel) -> Seq<char> {
    param_seg("RC"@, &m.rc) + param_seg("CJC"@, &m.cjc) + param_seg("MJC"@, &m.mjc) + param_seg(
        "VJC"@,
        &m.vjc,
    ) + param_seg("FC"@, &m.fc) + param_seg("CJE"@, &m.cje) + param_seg("MJE"@, &m.mje)
}

pub open spec fn bjt_params_d(m: &BjtModel) -> Seq<char> {
    param_seg("VJE"@, &m.vje) + param_seg("TR"@, &m.tr) + param_seg("TF"@, &m.tf) + param_seg(
        "ITF"@,
        &m.itf,
    ) + param_seg("XTF"@, &m.xtf) + param_seg("VTF"@, &m.vtf) + param_seg("RB"@, &m.rb)
}

/// The whole rendered parameter list, each parameter followed by one
/// space.
pub open spec fn bjt_params(m: &BjtModel) -> Seq<char> {
    bjt_params_a(m) + bjt_params_b(m) + bjt_params_c(m) + bjt_params_d(m)
}

/// The `.model` directive of a device model: the header, the parameter
/// list without its trailing separator, and the closing line break.
pub open spec fn bjt_text(m: &BjtModel) -> Seq<char> {
    let header = ".model "@ + m.name@ + " "@ + polarity_text(&m.polarity) + "("@;
    let params = bjt_params(m);
    header + (if params.len() > 0 {
        params.take(params.len() - 1)
    } else {
        params
    }) + ")\n"@
}

impl BjtModel {
    /// Renders every parameter back to the canvas shape.
    pub fn to_canvas(&self) -> (r: canvas::BjtModel)
        ensures
            r.name@ == self.name@,
            r.polarity is NPN <==> self.polarity is Npn,
            formatted_opt(&r.is, &self.is),
            formatted_opt(&r.xti, &self.xti),
            formatted_opt(&r.eg, &self.eg),
            formatted_opt(&r.vaf, &self.vaf),
            formatted_opt(&r.bf, &self.bf),
            formatted_opt(&r.ise, &self.ise),
            formatted_opt(&r.ne, &self.ne),
            formatted_opt(&r.ikf, &self.ikf),
            formatted_opt(&r.nk, &self.nk),
            formatted_opt(&r.xtb, &self.xtb),
            formatted_opt(&r.br, &self.br),
            formatted_opt(&r.isc, &self.isc),
            formatted_opt(&r.nc, &self.nc),
            formatted_opt(&r.ikr, &self.ikr),
            formatted_opt(&r.rc, &self.rc),
            formatted_opt(&r.cjc, &self.cjc),
            formatted_opt(&r.mjc, &self.mjc),
            formatted_opt(&r.vjc, &self.vjc),
            formatted_opt(&r.fc, &self.fc),
            formatted_opt(&r.cje, &self.cje),
            formatted_opt(&r.mje, &self.mje),
            formatted_opt(&r.vje, &self.vje),
            formatted_opt(&r.tr, &self.tr),
            formatted_opt(&r.tf, &self.tf),
            formatted_opt(&r.itf, &self.itf),
            formatted_opt(&r.xtf, &self.xtf),
            formatted_opt(&r.vtf, &self.vtf),
            formatted_opt(&r.rb, &self.rb),
    {
        canvas::BjtModel {
            name: self.name.clone(),
            polarity: self.polarity.to_canvas(),
            is: fmt_opt(&self.is),
            xti: fmt_opt(&self.xti),
            eg: fmt_opt(&self.eg),
            vaf: fmt_opt(&self.vaf),
            bf: fmt_opt(&self.bf),
            ise: fmt_opt(&self.ise),
            ne: fmt_opt(&self.ne),
            ikf: fmt_opt(&self.ikf),
            nk: fmt_opt(&self.nk),
            xtb: fmt_opt(&self.xtb),
            br: fmt_opt(&self.br),
            isc: fmt_opt(&self.isc),
            nc: fmt_opt(&self.nc),
            ikr: fmt_opt(&self.ikr),
            rc: fmt_opt(&self.rc),
            cjc: fmt_opt(&self.cjc),
            mjc: fmt_opt(&self.mjc),
            vjc: fmt_opt(&self.vjc),
            fc: fmt_opt(&self.fc),
            cje: fmt_opt(&self.cje),
            mje: fmt_opt(&self.mje),
            vje: fmt_opt(&self.vje),
            tr: fmt_opt(&self.tr),
            tf: fmt_opt(&self.tf),
            itf: fmt_opt(&self.itf),
            xtf: fmt_opt(&self.xtf),
            vtf: fmt_opt(&self.vtf),
            rb: fmt_opt(&self.rb),
        }
    }

    /// Validates every parameter of a canvas model; a parameter whose
    /// text does not parse is dropped rather than rejected.
    pub fn from_canvas(canvas_model: &canvas::BjtModel) -> (r: BjtModel)
        ensures
            r.name@ == canvas_model.name@,
            r.polarity is Npn <==> canvas_model.polarity is NPN,
            parsed_opt(&r.is, &canvas_model.is),
            parsed_opt(&r.xti, &canvas_model.xti),
            parsed_opt(&r.eg, &canvas_model.eg),
            parsed_opt(&r.vaf, &canvas_model.vaf),
            parsed_opt(&r.bf, &canvas_model.bf),
            parsed_opt(&r.ise, &canvas_model.ise),
            parsed_opt(&r.ne, &canvas_model.ne),
            parsed_opt(&r.ikf, &canvas_model.ikf),
            parsed_opt(&r.nk, &canvas_model.nk),
            parsed_opt(&r.xtb, &canvas_model.xtb),
            parsed_opt(&r.br, &canvas_model.br),
            parsed_opt(&r.isc, &canvas_model.isc),
            parsed_opt(&r.nc, &canvas_model.nc),
            parsed_opt(&r.ikr, &canvas_model.ikr),
            parsed_opt(&r.rc, &canvas_model.rc),
            parsed_opt(&r.cjc, &canvas_model.cjc),
            parsed_opt(&r.mjc, &canvas_model.mjc),
            parsed_opt(&r.vjc, &canvas_model.vjc),
            parsed_opt(&r.fc, &canvas_model.fc),
            parsed_opt(&r.cje, &canvas_model.cje),
            parsed_opt(&r.mje, &canvas_model.mje),
            parsed_opt(&r.vje, &canvas_model.vje),
            parsed_opt(&r.tr, &canvas_model.tr),
            parsed_opt(&r.tf, &canvas_model.tf),
            parsed_opt(&r.itf, &canvas_model.itf),
            parsed_opt(&r.xtf, &canvas_model.xtf),
            parsed_opt(&r.vtf, &canvas_model.vtf),
            parsed_opt(&r.rb, &canvas_model.rb),
    {
        BjtModel {
            name: canvas_model.name.clone(),
            polarity: match canvas_model.polarity {
                canvas::BjtPolarity::NPN => BjtPolarity::Npn,
                canvas::BjtPolarity::PNP => BjtPolarity::Pnp,
            },
            is: parse_opt(&canvas_model.is),
            xti: parse_opt(&canvas_model.xti),
            eg: parse_opt(&canvas_model.eg),
            vaf: parse_opt(&canvas_model.vaf),
            bf: parse_opt(&canvas_model.bf),
            ise: parse_opt(&canvas_model.ise),
            ne: parse_opt(&canvas_model.ne),
            ikf: parse_opt(&canvas_model.ikf),
            nk: parse_opt(&canvas_model.nk),
            xtb: parse_opt(&canvas_model.xtb),
            br: parse_opt(&canvas_model.br),
            isc: parse_opt(&canvas_model.isc),
            nc: parse_opt(&canvas_model.nc),
            ikr: parse_opt(&canvas_model.ikr),
            rc: parse_opt(&canvas_model.rc),
            cjc: parse_opt(&canvas_model.cjc),
            mjc: parse_opt(&canvas_model.mjc),
            vjc: parse_opt(&canvas_model.vjc),
            fc: parse_opt(&canvas_model.fc),
            cje: parse_opt(&canvas_model.cje),
            mje: parse_opt(&canvas_model.mje),
            vje: parse_opt(&canvas_model.vje),
            tr: parse_opt(&canvas_model.tr),
            tf: parse_opt(&canvas_model.tf),
            itf: parse_opt(&canvas_model.itf),
            xtf: parse_opt(&canvas_model.xtf),
            vtf: parse_opt(&canvas_model.vtf),
            rb: parse_opt(&canvas_model.rb),
        }
    }

    /// Renders the model as its `.model` directive.
    #[verifier::rlimit(100)]
    pub fn format(&self) -> (r: String)
        ensures
            r@ == bjt_text(self),
    {
        let mut params = String::new();
        append_param(&mut params, "IS", &self.is);
        append_param(&mut params, "XTI", &self.xti);
        append_param(&mut params, "EG", &self.eg);
        append_param(&mut params, "VAF", &self.vaf);
        append_param(&mut params, "BF", &self.bf);
        append_param(&mut params, "ISE", &self.ise);
        append_param(&mut params, "NE", &self.ne);
        assert(params@ =~= bjt_params_a(self));
        let mut params_b = String::new();
        append_param(&mut params_b, "IKF", &self.ikf);
        append_param(&mut params_b, "NK", &self.nk);
        append_param(&mut params_b, "XTB", &self.xtb);
        append_param(&mut params_b, "BR", &self.br);
        append_param(&mut params_b, "ISC", &self.isc);
        append_param(&mut params_b, "NC", &self.nc);
        append_param(&mut params_b, "IKR", &self.ikr);
        assert(params_b@ =~= bjt_params_b(self));
        let mut params_c = String::new();
        append_param(&mut params_c, "RC", &self.rc);
        append_param(&mut params_c, "CJC", &self.cjc);
        append_param(&mut params_c, "MJC", &self.mjc);
        append_param(&mut params_c, "VJC", &self.vjc);
        append_param(&mut params_c, "FC", &self.fc);
        append_param(&mut params_c, "CJE", &self.cje);
        append_param(&mut params_c, "MJE", &self.mje);
        assert(params_c@ =~= bjt_params_c(self));
        let mut params_d = String::new();
        append_param(&mut params_d, "VJE", &self.vje);
        append_param(&mut params_d, "TR", &self.tr);
        append_param(&mut params_d, "TF", &self.tf);
        append_param(&mut params_d, "ITF", &self.itf);
        append_param(&mut params_d, "XTF", &self.xtf);
        append_param(&mut params_d, "VTF", &self.vtf);
        append_param(&mut params_d, "RB", &self.rb);
        assert(params_d@ =~= bjt_params_d(self));
        params.append(params_b.as_str());
        params.append(params_c.as_str());
        params.append(params_d.as_str());
        assert(params@ =~= bjt_params(self));

        let mut out = String::from_str(".model ");
        out.append(self.name.as_str());
        out.append(" ");
        let pol = self.polarity.format();
        out.append(pol.as_str());
        out.append("(");
        let plen = params.as_str().unicode_len();
        if plen > 0 {
            let trimmed = params.as_str().substring_char(0, plen - 1);
            out.append(trimmed);
        }
        out.append(")\n");
        assert(out@ =~= bjt_text(self));
        out
    }
}

/// A node name with its ground aliases applied.
pub open spec fn in_aliases(g: Seq<String>, n: Seq<char>) -> bool {
    exists|i: int| 0 <= i < g.len() && #[trigger] g[i]@ == n
}

/// The canonical rendering of a node name: a ground alias becomes the
/// engine's ground name, anything else is kept.
pub open spec fn resolved(g: Seq<String>, n: Seq<char>) -> Seq<char> {
    if in_aliases(g, n) {
        "gnd"@
    } else {
        n
    }
}

/// Renders one node name, applying the ground aliases.
#[verifier::loop_isolation(false)]
fn resolve_node(n: &String, g: &Vec<String>) -> (r: String)
    ensures
        r@ == resolved(g@, n@),
{
    let len = g.len();
    let mut i: usize = 0;
    while i < len
        invariant
            0 <= i <= len == g@.len(),
            forall|j: int| 0 <= j < i ==> #[trigger] g@[j]@ != n@,
        decreases len - i,
    {
        if crate::text::str_eq(g[i].as_str(), n.as_str()) {
            return String::from_str("gnd");
        }
        i += 1;
    }
    n.clone()
}

/// One circuit element, holding its name, its terminal node names and
/// its validated configuration.
#[derive(Debug, Clone)]
pub enum Element {
    R(String, UnitOfMagnitude, String, String),
    C(String, UnitOfMagnitude, String, String),
    L(String, UnitOfMagnitude, String, String),
    V(String, Option<TimeDomainConfig>, Option<SmallSignalConfig>, String, String),
    I(String, Option<TimeDomainConfig>, Option<SmallSignalConfig>, String, String),
    E(String, UnitOfMagnitude, String, String, String, String),
    F(String, UnitOfMagnitude, String, String, String),
    G(String, UnitOfMagnitude, String, String, String, String),
    H(String, UnitOfMagnitude, String, String, String),
    Q(String, String, String, String, BjtModel),
}

/// The netlist line of one element, ground aliases applied to every
/// terminal; a transistor also carries its `.model` directive.
pub open spec fn element_line(e: &Element, g: Seq<String>) -> Seq<char> {
    match e {
        Element::R(name, value, n1, n2) => "R"@ + name@ + " "@ + resolved(g, n1@) + " "@ + resolved(
            g,
            n2@,
        ) + " "@ + unit_text(value) + "\n"@,
        Element::C(name, value, n1, n2) => "C"@ + name@ + " "@ + resolved(g, n1@) + " "@ + resolved(
            g,
            n2@,
        ) + " "@ + unit_text(value) + "\n"@,
        Element::L(name, value, n1, n2) => "L"@ + name@ + " "@ + resolved(g, n1@) + " "@ + resolved(
            g,
            n2@,
        ) + " "@ + unit_text(value) + "\n"@,
        Element::V(name, tdc, ssc, n1, n2) => "V"@ + name@ + " "@ + resolved(g, n1@) + " "@
            + resolved(g, n2@) + (match tdc {
            Some(t) => " "@ + tdc_text(t),
            None => Seq::empty(),
        }) + (match ssc {
            Some(s) => " "@ + ssc_text(s),
            None => Seq::empty(),
        }) + "\n"@,
        Element::I(name, tdc, ssc, n1, n2) => "I"@ + name@ + " "@ + resolved(g, n1@) + " "@
            + resolved(g, n2@) + (match tdc {
            Some(t) => " "@ + tdc_text(t),
            None => Seq::empty(),
        }) + (match ssc {
            Some(s) => " "@ + ssc_text(s),
            None => Seq::empty(),
        }) + "\n"@,
        Element::E(name, value, n1, n2, cn1, cn2) => "E"@ + name@ + " "@ + resolved(g, n1@) + " "@
            + resolved(g, n2@) + " "@ + resolved(g, cn1@) + " "@ + resolved(g, cn2@) + " "@
            + unit_text(value) + "\n"@,
        Element::F(name, value, n1, n2, src) => "F"@ + name@ + " "@ + resolved(g, n1@) + " "@
            + resolved(g, n2@) + " "@ + resolved(g, src@) + " "@ + unit_text(value) + "\n"@,
        Element::G(name, value, n1, n2, cn1, cn2) => "G"@ + name@ + " "@ + resolved(g, n1@) + " "@
            + resolved(g, n2@) + " "@ + resolved(g, cn1@) + " "@ + resolved(g, cn2@) + " "@
            + unit_text(value) + "\n"@,
        Element::H(name, value, n1, n2, src) => "H"@ + name@ + " "@ + resolved(g, n1@) + " "@
            + resolved(g, n2@) + " "@ + resolved(g, src@) + " "@ + unit_text(value) + "\n"@,
        Element::Q(name, c_node, b_node, e_node, model) => "Q"@ + name@ + " "@ + resolved(g, c_node@)
            + " "@ + resolved(g, b_node@) + " "@ + resolved(g, e_node@) + " "@ + model.name@ + "\n"@
            + bjt_text(model),
    }
}

impl Element {
    /// Renders a list of node names, applying the ground aliases to each.
    #[verifier::loop_isolation(false)]
    pub fn replace_ground_alias(nodes: &Vec<String>, ground_alias: &Vec<String>) -> (r: Vec<String>)
        ensures
            r@.len() == nodes@.len(),
            forall|i: int| 0 <= i < r@.len() ==> #[trigger] r@[i]@ == resolved(
                ground_alias@,
                nodes@[i]@,
            ),
    {
        let mut out: Vec<String> = Vec::new();
        let len = nodes.len();
        let mut i: usize = 0;
        while i < len
            invariant
                0 <= i <= len,
                out@.len() == i,
                forall|j: int| 0 <= j < i ==> #[trigger] out@[j]@ == resolved(
                    ground_alias@,
                    nodes@[j]@,
                ),
            decreases len - i,
        {
            out.push(resolve_node(&nodes[i], ground_alias));
            i += 1;
        }
        out
    }

    /// Renders the element as its netlist line, substituting the
    /// canonical ground name for any aliased terminal.
    #[verifier::rlimit(100)]
    pub fn get_netlist_representation(&self, ground_alias: &Vec<String>) -> (r: Result<
        String,
        SimulatorError,
    >)
        ensures
            r matches Ok(line) && line@ == element_line(self, ground_alias@),
    {
        proof {
            reveal_strlit("");
        }
        match self {
            Element::R(name, value, n1, n2) => {
                let mut out = String::from_str("R");
                out.append(name.as_str());
                out.append(" ");
                let a = resolve_node(n1, ground_alias);
                out.append(a.as_str());
                out.append(" ");
                let b = resolve_node(n2, ground_alias);
                out.append(b.as_str());
                out.append(" ");
                append_unit(&mut out, value);
                out.append("\n");
                assert(out@ =~= element_line(self, ground_alias@));
                Ok(out)
            },
            Element::C(name, value, n1, n2) => {
                let mut out = String::from_str("C");
                out.append(name.as_str());
                out.append(" ");
                let a = resolve_node(n1, ground_alias);
                out.append(a.as_str());
                out.append(" ");
                let b = resolve_node(n2, ground_alias);
                out.append(b.as_str());
                out.append(" ");
                append_unit(&mut out, value);
                out.append("\n");
                assert(out@ =~= element_line(self, ground_alias@));
                Ok(out)
            },
            Element::L(name, value, n1, n2) => {
                let mut out = String::from_str("L");
                out.append(name.as_str());
                out.append(" ");
                let a = resolve_node(n1, ground_alias);
                out.append(a.as_str());
                out.append(" ");
                let b = resolve_node(n2, ground_alias);
                out.append(b.as_str());
                out.append(" ");
                append_unit(&mut out, value);
                out.append("\n");
                assert(out@ =~= element_line(self, ground_alias@));
                Ok(out)
            },
            Element::V(name, tdc, ssc, n1, n2) => {
                let mut out = String::from_str("V");
                out.append(name.as_str());
                out.append(" ");
                let a = resolve_node(n1, ground_alias);
                out.append(a.as_str());
                out.append(" ");
                let b = resolve_node(n2, ground_alias);
                out.append(b.as_str());
                if let Some(t) = tdc {
                    out.append(" ");
                    let ts = t.format();
                    out.append(ts.as_str());
                }
                if let Some(s) = ssc {
                    out.append(" ");
                    let ss = s.format();
                    out.append(ss.as_str());
                }
                out.append("\n");
                assert(out@ =~= element_line(self, ground_alias@));
                Ok(out)
            },
            Element::I(name, tdc, ssc, n1, n2) => {
                let mut out = String::from_str("I");
                out.append(name.as_str());
                out.append(" ");
                let a = resolve_node(n1, ground_alias);
                out.append(a.as_str());
                out.append(" ");
                let b = resolve_node(n2, ground_alias);
                out.append(b.as_str());
                if let Some(t) = tdc {
                    out.append(" ");
                    let ts = t.format();
                    out.append(ts.as_str());
                }
                if let Some(s) = ssc {
                    out.append(" ");
                    let ss = s.format();
                    out.append(ss.as_str());
                }
                out.append("\n");
                assert(out@ =~= element_line(self, ground_alias@));
                Ok(out)
            },
            Element::E(name, value, n1, n2, cn1, cn2) => {
                let mut out = String::from_str("E");
                out.append(name.as_str());
                out.append(" ");
                let a = resolve_node(n1, ground_alias);
                out.append(a.as_str());
                out.append(" ");
                let b = resolve_node(n2, ground_alias);
                out.append(b.as_str());
                out.append(" ");
                let ca = resolve_node(cn1, ground_alias);
                out.append(ca.as_str());
                out.append(" ");
                let cb = resolve_node(cn2, ground_alias);
                out.append(cb.as_str());
                out.append(" ");
                append_unit(&mut out, value);
                out.append("\n");
                assert(out@ =~= element_line(self, ground_alias@));
                Ok(out)
            },
            Element::F(name, value, n1, n2, src) => {
                let mut out = String::from_str("F");
                out.append(name.as_str());
                out.append(" ");
                let a = resolve_node(n1, ground_alias);
                out.append(a.as_str());
                out.append(" ");
                let b = resolve_node(n2, ground_alias);
                out.append(b.as_str());
                out.append(" ");
                let sr = resolve_node(src, ground_alias);
                out.append(sr.as_str());
                out.append(" ");
                append_unit(&mut out, value);
                out.append("\n");
                assert(out@ =~= element_line(self, ground_alias@));
                Ok(out)
            },
            Element::G(name, value, n1, n2, cn1, cn2) => {
                let mut out = String::from_str("G");
                out.append(name.as_str());
                out.append(" ");
                let a = resolve_node(n1, ground_alias);
                out.append(a.as_str());
                out.append(" ");
                let b = resolve_node(n2, ground_alias);
                out.append(b.as_str());
                out.append(" ");
                let ca = resolve_node(cn1, ground_alias);
                out.append(ca.as_str());
                out.append(" ");
                let cb = resolve_node(cn2, ground_alias);
                out.append(cb.as_str());
                out.append(" ");
                append_unit(&mut out, value);
                out.append("\n");
                assert(out@ =~= element_line(self, ground_alias@));
                Ok(out)
            },
            Element::H(name, value, n1, n2, src) => {
                let mut out = String::from_str("H");
                out.append(name.as_str());
                out.append(" ");
                let a = resolve_node(n1, ground_alias);
                out.append(a.as_str());
                out.append(" ");
                let b = resolve_node(n2, ground_alias);
                out.append(b.as_str());
                out.append(" ");
                let sr = resolve_node(src, ground_alias);
                out.append(sr.as_str());
                out.append(" ");
                append_unit(&mut out, value);
                out.append("\n");
                assert(out@ =~= element_line(self, ground_alias@));
                Ok(out)
            },
            Element::Q(name, c_node, b_node, e_node, model) => {
                let mut out = String::from_str("Q");
                out.append(name.as_str());
                out.append(" ");
                let a = resolve_node(c_node, ground_alias);
                out.append(a.as_str());
                out.append(" ");
                let b = resolve_node(b_node, ground_alias);
                out.append(b.as_str());
                out.append(" ");
                let e = resolve_node(e_node, ground_alias);
                out.append(e.as_str());
                out.append(" ");
                out.append(model.name.as_str());
                out.append("\n");
                let md = model.format();
                out.append(md.as_str());
                assert(out@ =~= element_line(self, ground_alias@));
                Ok(out)
            },
        }
    }
}

/// Validation is a function of the canvas text: two accepted waveforms
/// read from the same canvas configuration render identically.
#[verifier::rlimit(100)]
pub proof fn lemma_tdc_text_determined(
    c: &canvas::TimeDomainConfig,
    t1: &TimeDomainConfig,
    t2: &TimeDomainConfig,
)
    requires
        tdc_from_canvas_ok(c, &Ok(*t1)),
        tdc_from_canvas_ok(c, &Ok(*t2)),
    ensures
        tdc_text(t1) == tdc_text(t2),
{
    match (t1, t2) {
        (
            TimeDomainConfig::Pulse { delay: d1, rise_time: rt1, fall_time: ft1, pulse_width: pw1, .. },
            TimeDomainConfig::Pulse { delay: d2, rise_time: rt2, fall_time: ft2, pulse_width: pw2, .. },
        ) => {
            assert(d1 is Some <==> d2 is Some);
            assert(rt1 is Some <==> rt2 is Some);
            assert(ft1 is Some <==> ft2 is Some);
            assert(pw1 is Some <==> pw2 is Some);
        },
        (
            TimeDomainConfig::Sin { frequency: f1, delay: d1, .. },
            TimeDomainConfig::Sin { frequency: f2, delay: d2, .. },
        ) => {
            assert(f1 is Some <==> f2 is Some);
            assert(d1 is Some <==> d2 is Some);
        },
        (
            TimeDomainConfig::Exp { rise_delay: rd1, rise_time: rt1, fall_delay: fd1, .. },
            TimeDomainConfig::Exp { rise_delay: rd2, rise_time: rt2, fall_delay: fd2, .. },
        ) => {
            assert(rd1 is Some <==> rd2 is Some);
            assert(rt1 is Some <==> rt2 is Some);
            assert(fd1 is Some <==> fd2 is Some);
        },
        (
            TimeDomainConfig::Sffm { carrier_frequency: cf1, modulation_index: mi1, .. },
            TimeDomainConfig::Sffm { carrier_frequency: cf2, modulation_index: mi2, .. },
        ) => {
            assert(cf1 is Some <==> cf2 is Some);
            assert(mi1 == mi2);
        },
        (
            TimeDomainConfig::Am { carrier_frequency: cf1, .. },
            TimeDomainConfig::Am { carrier_frequency: cf2, .. },
        ) => {
            assert(cf1 is Some <==> cf2 is Some);
        },
        _ => {},
    }
}

/// Two accepted small-signal descriptors read from the same canvas
/// configuration render identically.
pub proof fn lemma_ssc_text_determined(
    c: &canvas::SmallSignalConfig,
    s1: &SmallSignalConfig,
    s2: &SmallSignalConfig,
)
    requires
        parse_model(c.amplitude@) == Some(s1.amplitude@),
        parse_model(c.amplitude@) == Some(s2.amplitude@),
        chain_is(true, &c.phase, &s1.phase),
        chain_is(true, &c.phase, &s2.phase),
    ensures
        ssc_text(s1) == ssc_text(s2),
{
}

/// Two device models validated from the same canvas model render
/// identically.
#[verifier::rlimit(100)]
pub proof fn lemma_bjt_text_determined(cm: &canvas::BjtModel, m1: &BjtModel, m2: &BjtModel)
    requires
        bjt_parsed_ok(m1, cm),
        bjt_parsed_ok(m2, cm),
    ensures
        bjt_text(m1) == bjt_text(m2),
{
    assert(param_seg("IS"@, &m1.is) == param_seg("IS"@, &m2.is));
    assert(param_seg("XTI"@, &m1.xti) == param_seg("XTI"@, &m2.xti));
    assert(param_seg("EG"@, &m1.eg) == param_seg("EG"@, &m2.eg));
    assert(param_seg("VAF"@, &m1.vaf) == param_seg("VAF"@, &m2.vaf));
    assert(param_seg("BF"@, &m1.bf) == param_seg("BF"@, &m2.bf));
    assert(param_seg("ISE"@, &m1.ise) == param_seg("ISE"@, &m2.ise));
    assert(param_seg("NE"@, &m1.ne) == param_seg("NE"@, &m2.ne));
    assert(param_seg("IKF"@, &m1.ikf) == param_seg("IKF"@, &m2.ikf));
    assert(param_seg("NK"@, &m1.nk) == param_seg("NK"@, &m2.nk));
    assert(param_seg("XTB"@, &m1.xtb) == param_seg("XTB"@, &m2.xtb));
    assert(param_seg("BR"@, &m1.br) == param_seg("BR"@, &m2.br));
    assert(param_seg("ISC"@, &m1.isc) == param_seg("ISC"@, &m2.isc));
    assert(param_seg("NC"@, &m1.nc) == param_seg("NC"@, &m2.nc));
    assert(param_seg("IKR"@, &m1.ikr) == param_seg("IKR"@, &m2.ikr));
    assert(param_seg("RC"@, &m1.rc) == param_seg("RC"@, &m2.rc));
    assert(param_seg("CJC"@, &m1.cjc) == param_seg("CJC"@, &m2.cjc));
    assert(param_seg("MJC"@, &m1.mjc) == param_seg("MJC"@, &m2.mjc));
    assert(param_seg("VJC"@, &m1.vjc) == param_seg("VJC"@, &m2.vjc));
    assert(param_seg("FC"@, &m1.fc) == param_seg("FC"@, &m2.fc));
    assert(param_seg("CJE"@, &m1.cje) == param_seg("CJE"@, &m2.cje));
    assert(param_seg("MJE"@, &m1.mje) == param_seg("MJE"@, &m2.mje));
    assert(param_seg("VJE"@, &m1.vje) == param_seg("VJE"@, &m2.vje));
    assert(param_seg("TR"@, &m1.tr) == param_seg("TR"@, &m2.tr));
    assert(param_seg("TF"@, &m1.tf) == param_seg("TF"@, &m2.tf));
    assert(param_seg("ITF"@, &m1.itf) == param_seg("ITF"@, &m2.itf));
    assert(param_seg("XTF"@, &m1.xtf) == param_seg("XTF"@, &m2.xtf));
    assert(param_seg("VTF"@, &m1.vtf) == param_seg("VTF"@, &m2.vtf));
    assert(param_seg("RB"@, &m1.rb) == param_seg("RB"@, &m2.rb));
    assert(bjt_params(m1) == bjt_params(m2));
}

} // verus!
