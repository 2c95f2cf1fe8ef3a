//! Simulation requests: the wire shape whose numeric fields are plain
//! engineering-notation text, and the validated analysis that a worker
//! formats into the netlist's analysis directive.

use vstd::prelude::*;

use crate::simulator_error::SimulatorError;
use crate::text::{int_rep, fmt_i32, split_char, split_fields, str_eq};
use crate::unit::UnitOfMagnitude;

verus! {

#[derive(Debug, Clone)]
pub enum FrequencyVariation {
    Dec,
    Oct,
    Lin,
}

pub open spec fn variation_text(v: &FrequencyVariation) -> Seq<char> {
    match v {
        FrequencyVariation::Dec => "dec"@,
        FrequencyVariation::Oct => "oct"@,
        FrequencyVariation::Lin => "lin"@,
    }
}

impl FrequencyVariation {
    pub fn format(&self) -> (r: String)
        ensures
            r@ == variation_text(self),
    {
        match self {
            FrequencyVariation::Dec => String::from_str("dec"),
            FrequencyVariation::Oct => String::from_str("oct"),
            FrequencyVariation::Lin => String::from_str("lin"),
        }
    }
}

/// Which variation a token denotes, if any.
pub open spec fn variation_of(t: Seq<char>) -> Option<FrequencyVariation> {
    if t == "dec"@ {
        Some(FrequencyVariation::Dec)
    } else if t == "oct"@ {
        Some(FrequencyVariation::Oct)
    } else if t == "lin"@ {
        Some(FrequencyVariation::Lin)
    } else {
        None
    }
}

fn parse_variation(t: &str) -> (r: Option<FrequencyVariation>)
    ensures
        r == variation_of(t@),
{
    if str_eq(t, "dec") {
        Some(FrequencyVariation::Dec)
    } else if str_eq(t, "oct") {
        Some(FrequencyVariation::Oct)
    } else if str_eq(t, "lin") {
        Some(FrequencyVariation::Lin)
    } else {
        None
    }
}

#[derive(Debug, Clone)]
pub enum TransferFunction {
    Vol,
    Cur,
}

pub open spec fn transfer_text(v: &TransferFunction) -> Seq<char> {
    match v {
        TransferFunction::Vol => "vol"@,
        TransferFunction::Cur => "cur"@,
    }
}

impl TransferFunction {
    pub fn format(&self) -> (r: String)
        ensures
            r@ == transfer_text(self),
    {
        match self {
            TransferFunction::Vol => String::from_str("vol"),
            TransferFunction::Cur => String::from_str("cur"),
        }
    }
}

pub open spec fn transfer_of(t: Seq<char>) -> Option<TransferFunction> {
    if t == "vol"@ {
        Some(TransferFunction::Vol)
    } else if t == "cur"@ {
        Some(TransferFunction::Cur)
    } else {
        None
    }
}

fn parse_transfer(t: &str) -> (r: Option<TransferFunction>)
    ensures
        r == transfer_of(t@),
{
    if str_eq(t, "vol") {
        Some(TransferFunction::Vol)
    } else if str_eq(t, "cur") {
        Some(TransferFunction::Cur)
    } else {
        None
    }
}

#[derive(Debug, Clone)]
pub enum PoleZerAnalysis {
    Pol,
    Zer,
    Pz,
}

pub open spec fn pole_zero_text(v: &PoleZerAnalysis) -> Seq<char> {
    match v {
        PoleZerAnalysis::Pol => "pol"@,
        PoleZerAnalysis::Zer => "zer"@,
        PoleZerAnalysis::Pz => "pz"@,
    }
}

impl PoleZerAnalysis {
    pub fn format(&self) -> (r: String)
        ensures
            r@ == pole_zero_text(self),
    {
        match self {
            PoleZerAnalysis::Pol => String::from_str("pol"),
            PoleZerAnalysis::Zer => String::from_str("zer"),
            PoleZerAnalysis::Pz => String::from_str("pz"),
        }
    }
}

pub open spec fn pole_zero_of(t: Seq<char>) -> Option<PoleZerAnalysis> {
    if t == "pol"@ {
        Some(PoleZerAnalysis::Pol)
    } else if t == "zer"@ {
        Some(PoleZerAnalysis::Zer)
    } else if t == "pz"@ {
        Some(PoleZerAnalysis::Pz)
    } else {
        None
    }
}

fn parse_pole_zero(t: &str) -> (r: Option<PoleZerAnalysis>)
    ensures
        r == pole_zero_of(t@),
{
    if str_eq(t, "pol") {
        Some(PoleZerAnalysis::Pol)
    } else if str_eq(t, "zer") {
        Some(PoleZerAnalysis::Zer)
    } else if str_eq(t, "pz") {
        Some(PoleZerAnalysis::Pz)
    } else {
        None
    }
}

#[derive(Debug, Clone)]
pub enum CurrentOrVoltage {
    V,
    I,
}

pub open spec fn current_or_voltage_text(v: &CurrentOrVoltage) -> Seq<char> {
    match v {
        CurrentOrVoltage::V => "V"@,
        CurrentOrVoltage::I => "I"@,
    }
}

impl CurrentOrVoltage {
    /// Renders an output probe, `V(name)` or `I(name)`.
    pub fn format(&self, output: &str) -> (r: String)
        ensures
            r@ == current_or_voltage_text(self) + "("@ + output@ + ")"@,
    {
        let mut out = match self {
            CurrentOrVoltage::V => String::from_str("V"),
            CurrentOrVoltage::I => String::from_str("I"),
        };
        out.append("(");
        out.append(output);
        out.append(")");
        assert(out@ =~= current_or_voltage_text(self) + "("@ + output@ + ")"@);
        out
    }
}

pub open spec fn current_or_voltage_of(t: Seq<char>) -> Option<CurrentOrVoltage> {
    if t == "V"@ {
        Some(CurrentOrVoltage::V)
    } else if t == "I"@ {
        Some(CurrentOrVoltage::I)
    } else {
        None
    }
}

#[derive(Debug, Clone)]
pub enum SensitivityAnalysisType {
    Ac,
    Dc,
}

pub open spec fn sensitivity_text(v: &SensitivityAnalysisType) -> Seq<char> {
    match v {
        SensitivityAnalysisType::Ac => "AC"@,
        SensitivityAnalysisType::Dc => "DC"@,
    }
}

impl SensitivityAnalysisType {
    pub fn format(&self) -> (r: String)
        ensures
            r@ == sensitivity_text(self),
    {
        match self {
            SensitivityAnalysisType::Ac => String::from_str("AC"),
            SensitivityAnalysisType::Dc => String::from_str("DC"),
        }
    }
}

pub open spec fn sensitivity_of(t: Seq<char>) -> Option<SensitivityAnalysisType> {
    if t == "ac"@ {
        Some(SensitivityAnalysisType::Ac)
    } else if t == "dc"@ {
        Some(SensitivityAnalysisType::Dc)
    } else {
        None
    }
}

/// The wire shape of one analysis request: every field is optional and
/// numeric fields are engineering-notation text.
#[derive(Debug, Clone)]
pub enum SimulationConfig {
    Tran {
        tstep: Option<String>,
        tstop: Option<String>,
        tstart: Option<String>,
        tmax: Option<String>,
        uic: Option<bool>,
    },
    Op {},
    Ac {
        fstart: Option<String>,
        fstop: Option<String>,
        variation: Option<FrequencyVariation>,
        nx: Option<i32>,
    },
    Dc {
        srcnam: Option<String>,
        vstart: Option<String>,
        vstop: Option<String>,
        vincr: Option<String>,
        src2: Option<String>,
        start2: Option<String>,
        stop2: Option<String>,
        incr2: Option<String>,
    },
    Disto {
        fstart: Option<String>,
        fstop: Option<String>,
        variation: Option<FrequencyVariation>,
        nx: Option<i32>,
        f2overf1: Option<String>,
    },
    Noise {
        output: Option<String>,
        oref: Option<String>,
        src: Option<String>,
        variation: Option<FrequencyVariation>,
        pts: Option<i32>,
        fstart: Option<String>,
        fstop: Option<String>,
        pts_per_summary: Option<i32>,
    },
    Pz {
        node1: Option<String>,
        node2: Option<String>,
        node3: Option<String>,
        node4: Option<String>,
        transfer_function: Option<TransferFunction>,
        analysis_type: Option<PoleZerAnalysis>,
    },
    Sens {
        output_type: Option<CurrentOrVoltage>,
        output: Option<String>,
        analysis_type: Option<SensitivityAnalysisType>,
        fstart: Option<String>,
        fstop: Option<String>,
        variation: Option<FrequencyVariation>,
        nx: Option<i32>,
    },
}

/// A space and a text field, when present and enabled.
pub open spec fn opt_text(enabled: bool, o: &Option<String>, tail: Seq<char>) -> Seq<char> {
    if enabled {
        match o {
            Some(s) => " "@ + s@ + tail,
            None => Seq::empty(),
        }
    } else {
        Seq::empty()
    }
}

/// The summary text of a request's parameters, each present field after
/// the last absent one dropped, as the request echoes itself.
pub open spec fn config_values_text(c: &SimulationConfig) -> Seq<char> {
    match c {
        SimulationConfig::Tran { tstep, tstop, tstart, tmax, uic } => "TRAN"@ + opt_text(
            true,
            tstep,
            opt_text(
                tstop is Some,
                tstop,
                opt_text(
                    tstart is Some,
                    tstart,
                    opt_text(
                        tmax is Some,
                        tmax,
                        if uic == Some(true) {
                            " uic"@
                        } else {
                            ""@
                        },
                    ),
                ),
            ),
        ),
        SimulationConfig::Op {  } => "OP"@,
        SimulationConfig::Ac { fstart, fstop, variation, nx } => "AC"@ + opt_text(
            true,
            fstart,
            opt_text(
                fstop is Some,
                fstop,
                (match (variation, nx) {
                    (Some(v), Some(n)) => " "@ + variation_text(v) + " "@ + int_rep(*n as int),
                    (Some(v), None) => " "@ + variation_text(v),
                    _ => ""@,
                }),
            ),
        ),
        SimulationConfig::Dc { srcnam, vstart, vstop, vincr, src2, start2, stop2, incr2 } => "DC"@
            + opt_text(
            true,
            srcnam,
            opt_text(
                vstart is Some,
                vstart,
                opt_text(
                    vstop is Some,
                    vstop,
                    opt_text(
                        vincr is Some,
                        vincr,
                        opt_text(
                            src2 is Some,
                            src2,
                            opt_text(
                                start2 is Some,
                                start2,
                                opt_text(stop2 is Some, stop2, opt_text(incr2 is Some, incr2, ""@)),
                            ),
                        ),
                    ),
                ),
            ),
        ),
        SimulationConfig::Disto { fstart, fstop, variation, nx, f2overf1 } => "DISTO"@ + opt_text(
            true,
            fstart,
            opt_text(
                fstop is Some,
                fstop,
                (match (variation, nx) {
                    (Some(v), Some(n)) => " "@ + variation_text(v) + " "@ + int_rep(*n as int)
                        + opt_text(true, f2overf1, ""@),
                    (Some(v), None) => " "@ + variation_text(v),
                    _ => ""@,
                }),
            ),
        ),
        SimulationConfig::Noise {
            output,
            oref,
            src,
            variation,
            pts,
            fstart,
            fstop,
            pts_per_summary,
        } => "NOISE"@ + opt_text(
            true,
            output,
            opt_text(
                src is Some,
                src,
                (match (variation, pts) {
                    (Some(v), Some(p)) => " "@ + variation_text(v) + " "@ + int_rep(*p as int)
                        + opt_text(
                        true,
                        fstart,
                        opt_text(
                            fstop is Some,
                            fstop,
                            (match pts_per_summary {
                                Some(pps) => " "@ + int_rep(*pps as int),
                                None => ""@,
                            }),
                        ),
                    ),
                    (Some(v), None) => " "@ + variation_text(v),
                    _ => ""@,
                }),
            ),
        ),
        SimulationConfig::Pz { node1, node2, node3, node4, transfer_function, analysis_type } => {
            "PZ"@ + opt_text(
                true,
                node1,
                opt_text(
                    node2 is Some,
                    node2,
                    opt_text(
                        node3 is Some,
                        node3,
                        opt_text(
                            node4 is Some,
                            node4,
                            (match (transfer_function, analysis_type) {
                                (Some(tf), Some(at)) => " "@ + transfer_text(tf) + " "@
                                    + pole_zero_text(at),
                                (Some(tf), None) => " "@ + transfer_text(tf),
                                _ => ""@,
                            }),
                        ),
                    ),
                ),
            )
        },
        SimulationConfig::Sens { output_type, output, analysis_type, fstart, fstop, variation, nx } => {
            "SENS"@ + (match output_type {
                Some(ot) => " "@ + current_or_voltage_text(ot) + opt_text(
                    true,
                    output,
                    (match analysis_type {
                        Some(at) => " "@ + sensitivity_text(at) + opt_text(
                            true,
                            fstart,
                            opt_text(
                                fstop is Some,
                                fstop,
                                (match (variation, nx) {
                                    (Some(v), Some(n)) => " "@ + variation_text(v) + " "@ + int_rep(
                                        *n as int,
                                    ),
                                    (Some(v), None) => " "@ + variation_text(v),
                                    _ => ""@,
                                }),
                            ),
                        ),
                        None => ""@,
                    }),
                ),
                None => ""@,
            })
        },
    }
}

/// The keyword of each analysis kind.
pub open spec fn config_kind_text(c: &SimulationConfig) -> Seq<char> {
    match c {
        SimulationConfig::Tran { .. } => "TRAN"@,
        SimulationConfig::Op { .. } => "OP"@,
        SimulationConfig::Ac { .. } => "AC"@,
        SimulationConfig::Dc { .. } => "DC"@,
        SimulationConfig::Disto { .. } => "DISTO"@,
        SimulationConfig::Noise { .. } => "NOISE"@,
        SimulationConfig::Pz { .. } => "PZ"@,
        SimulationConfig::Sens { .. } => "SENS"@,
    }
}

impl SimulationConfig {
    fn append_opt(out: &mut String, o: &Option<String>)
        ensures
            final(out)@ == old(out)@ + (match o {
                Some(s) => " "@ + s@,
                None => Seq::empty(),
            }),
    {
        if let Some(s) = o {
            out.append(" ");
            out.append(s.as_str());
        }
        assert(out@ =~= old(out)@ + (match o {
            Some(s) => " "@ + s@,
            None => Seq::<char>::empty(),
        }));
    }

    /// Echoes the request's keyword and parameters.
    pub fn values_to_string(&self) -> (r: String)
        ensures
            r@ == config_values_text(self),
    {
        match self {
            SimulationConfig::Tran { tstep, tstop, tstart, tmax, uic } => values_tran(
                tstep,
                tstop,
                tstart,
                tmax,
                uic,
            ),
            SimulationConfig::Op {  } => {
                let out = String::from_str("OP");
                assert(out@ =~= config_values_text(self));
                out
            },
            SimulationConfig::Ac { fstart, fstop, variation, nx } => values_ac(
                fstart,
                fstop,
                variation,
                nx,
            ),
            SimulationConfig::Dc { srcnam, vstart, vstop, vincr, src2, start2, stop2, incr2 } => {
                values_dc(srcnam, vstart, vstop, vincr, src2, start2, stop2, incr2)
            },
            SimulationConfig::Disto { fstart, fstop, variation, nx, f2overf1 } => values_disto(
                fstart,
                fstop,
                variation,
                nx,
                f2overf1,
            ),
            SimulationConfig::Noise {
                output,
                oref,
                src,
                variation,
                pts,
                fstart,
                fstop,
                pts_per_summary,
            } => values_noise(output, oref, src, variation, pts, fstart, fstop, pts_per_summary),
            SimulationConfig::Pz { node1, node2, node3, node4, transfer_function, analysis_type } => {
                values_pz(node1, node2, node3, node4, transfer_function, analysis_type)
            },
            SimulationConfig::Sens {
                output_type,
                output,
                analysis_type,
                fstart,
                fstop,
                variation,
                nx,
            } => values_sens(output_type, output, analysis_type, fstart, fstop, variation, nx),
        }
    }

    /// The request's analysis keyword.
    pub fn get_kind(&self) -> (r: String)
        ensures
            r@ == config_kind_text(self),
    {
        match self {
            SimulationConfig::Tran { .. } => String::from_str("TRAN"),
            SimulationConfig::Op { .. } => String::from_str("OP"),
            SimulationConfig::Ac { .. } => String::from_str("AC"),
            SimulationConfig::Dc { .. } => String::from_str("DC"),
            SimulationConfig::Disto { .. } => String::from_str("DISTO"),
            SimulationConfig::Noise { .. } => String::from_str("NOISE"),
            SimulationConfig::Pz { .. } => String::from_str("PZ"),
            SimulationConfig::Sens { .. } => String::from_str("SENS"),
        }
    }
}

#[verifier::rlimit(100)]
fn values_tran(
    tstep: &Option<String>,
    tstop: &Option<String>,
    tstart: &Option<String>,
    tmax: &Option<String>,
    uic: &Option<bool>,
) -> (r: String)
    ensures
        r@ == "TRAN"@ + opt_text(
            true,
            tstep,
            opt_text(
                tstop is Some,
                tstop,
                opt_text(
                    tstart is Some,
                    tstart,
                    opt_text(
                        tmax is Some,
                        tmax,
                        if *uic == Some(true) {
                            " uic"@
                        } else {
                            ""@
                        },
                    ),
                ),
            ),
        ),
{
    proof {
        reveal_strlit("");
    }
    let mut out = String::from_str("TRAN");
    if let Some(a) = tstep {
        out.append(" ");
        out.append(a.as_str());
        if let Some(b) = tstop {
            out.append(" ");
            out.append(b.as_str());
            if let Some(c) = tstart {
                out.append(" ");
                out.append(c.as_str());
                if let Some(d) = tmax {
                    out.append(" ");
                    out.append(d.as_str());
                    if let Some(true) = uic {
                        out.append(" uic");
                    }
                }
            }
        }
    }
    assert(out@ =~= "TRAN"@ + opt_text(
        true,
        tstep,
        opt_text(
            tstop is Some,
            tstop,
            opt_text(
                tstart is Some,
                tstart,
                opt_text(
                    tmax is Some,
                    tmax,
                    if *uic == Some(true) {
                        " uic"@
                    } else {
                        ""@
                    },
                ),
            ),
        ),
    ));
    out
}

#[verifier::rlimit(100)]
fn values_ac(
    fstart: &Option<String>,
    fstop: &Option<String>,
    variation: &Option<FrequencyVariation>,
    nx: &Option<i32>,
) -> (r: String)
    ensures
        r@ == "AC"@ + opt_text(
            true,
            fstart,
            opt_text(
                fstop is Some,
                fstop,
                (match (variation, nx) {
                    (Some(v), Some(n)) => " "@ + variation_text(v) + " "@ + int_rep(*n as int),
                    (Some(v), None) => " "@ + variation_text(v),
                    _ => ""@,
                }),
            ),
        ),
{
    proof {
        reveal_strlit("");
    }
    let mut out = String::from_str("AC");
    if let Some(a) = fstart {
        out.append(" ");
        out.append(a.as_str());
        if let Some(b) = fstop {
            out.append(" ");
            out.append(b.as_str());
            if let Some(v) = variation {
                out.append(" ");
                let vt = v.format();
                out.append(vt.as_str());
                if let Some(n) = nx {
                    out.append(" ");
                    let nt = fmt_i32(*n);
                    out.append(nt.as_str());
                }
            }
        }
    }
    assert(out@ =~= "AC"@ + opt_text(
        true,
        fstart,
        opt_text(
            fstop is Some,
            fstop,
            (match (variation, nx) {
                (Some(v), Some(n)) => " "@ + variation_text(v) + " "@ + int_rep(*n as int),
                (Some(v), None) => " "@ + variation_text(v),
                _ => ""@,
            }),
        ),
    ));
    out
}

#[verifier::rlimit(100)]
fn values_dc(
    srcnam: &Option<String>,
    vstart: &Option<String>,
    vstop: &Option<String>,
    vincr: &Option<String>,
    src2: &Option<String>,
    start2: &Option<String>,
    stop2: &Option<String>,
    incr2: &Option<String>,
) -> (r: String)
    ensures
        r@ == "DC"@ + opt_text(
            true,
            srcnam,
            opt_text(
                vstart is Some,
                vstart,
                opt_text(
                    vstop is Some,
                    vstop,
                    opt_text(
                        vincr is Some,
                        vincr,
                        opt_text(
                            src2 is Some,
                            src2,
                            opt_text(
                                start2 is Some,
                                start2,
                                opt_text(stop2 is Some, stop2, opt_text(incr2 is Some, incr2, ""@)),
                            ),
                        ),
                    ),
                ),
            ),
        ),
{
    proof {
        reveal_strlit("");
    }
    let mut out = String::from_str("DC");
    if let Some(a) = srcnam {
        out.append(" ");
        out.append(a.as_str());
        if let Some(b) = vstart {
            out.append(" ");
            out.append(b.as_str());
            if let Some(c) = vstop {
                out.append(" ");
                out.append(c.as_str());
                if let Some(d) = vincr {
                    out.append(" ");
                    out.append(d.as_str());
                    if let Some(e) = src2 {
                        out.append(" ");
                        out.append(e.as_str());
                        if let Some(f) = start2 {
                            out.append(" ");
                            out.append(f.as_str());
                            if let Some(g) = stop2 {
                                out.append(" ");
                                out.append(g.as_str());
                                if let Some(h) = incr2 {
                                    out.append(" ");
                                    out.append(h.as_str());
                                }
                            }
                        }
                    }
                }
            }
        }
    }
    assert(out@ =~= "DC"@ + opt_text(
        true,
        srcnam,
        opt_text(
            vstart is Some,
            vstart,
            opt_text(
                vstop is Some,
                vstop,
                opt_text(
                    vincr is Some,
                    vincr,
                    opt_text(
                        src2 is Some,
                        src2,
                        opt_text(
                            start2 is Some,
                            start2,
                            opt_text(stop2 is Some, stop2, opt_text(incr2 is Some, incr2, ""@)),
                        ),
                    ),
                ),
            ),
        ),
    ));
    out
}

#[verifier::rlimit(100)]
fn values_disto(
    fstart: &Option<String>,
    fstop: &Option<String>,
    variation: &Option<FrequencyVariation>,
    nx: &Option<i32>,
    f2overf1: &Option<String>,
) -> (r: String)
    ensures
        r@ == "DISTO"@ + opt_text(
            true,
            fstart,
            opt_text(
                fstop is Some,
                fstop,
                (match (variation, nx) {
                    (Some(v), Some(n)) => " "@ + variation_text(v) + " "@ + int_rep(*n as int)
                        + opt_text(true, f2overf1, ""@),
                    (Some(v), None) => " "@ + variation_text(v),
                    _ => ""@,
                }),
            ),
        ),
{
    proof {
        reveal_strlit("");
    }
    let mut out = String::from_str("DISTO");
    if let Some(a) = fstart {
        out.append(" ");
        out.append(a.as_str());
        if let Some(b) = fstop {
            out.append(" ");
            out.append(b.as_str());
            if let Some(v) = variation {
                out.append(" ");
                let vt = v.format();
                out.append(vt.as_str());
                if let Some(n) = nx {
                    out.append(" ");
                    let nt = fmt_i32(*n);
                    out.append(nt.as_str());
                    if let Some(f) = f2overf1 {
                        out.append(" ");
                        out.append(f.as_str());
                    }
                }
            }
        }
    }
    assert(out@ =~= "DISTO"@ + opt_text(
        true,
        fstart,
        opt_text(
            fstop is Some,
            fstop,
            (match (variation, nx) {
                (Some(v), Some(n)) => " "@ + variation_text(v) + " "@ + int_rep(*n as int)
                    + opt_text(true, f2overf1, ""@),
                (Some(v), None) => " "@ + variation_text(v),
                _ => ""@,
            }),
        ),
    ));
    out
}

#[verifier::rlimit(100)]
fn values_noise(
    output: &Option<String>,
    oref: &Option<String>,
    src: &Option<String>,
    variation: &Option<FrequencyVariation>,
    pts: &Option<i32>,
    fstart: &Option<String>,
    fstop: &Option<String>,
    pts_per_summary: &Option<i32>,
) -> (r: String)
    ensures
        r@ == "NOISE"@ + opt_text(
            true,
            output,
            opt_text(
                src is Some,
                src,
                (match (variation, pts) {
                    (Some(v), Some(p)) => " "@ + variation_text(v) + " "@ + int_rep(*p as int)
                        + opt_text(
                        true,
                        fstart,
                        opt_text(
                            fstop is Some,
                            fstop,
                            (match pts_per_summary {
                                Some(pps) => " "@ + int_rep(*pps as int),
                                None => ""@,
                            }),
                        ),
                    ),
                    (Some(v), None) => " "@ + variation_text(v),
                    _ => ""@,
                }),
            ),
        ),
{
    proof {
        reveal_strlit("");
    }
    let mut out = String::from_str("NOISE");
    if let Some(a) = output {
        out.append(" ");
        out.append(a.as_str());
        if let Some(b) = src {
            out.append(" ");
            out.append(b.as_str());
            if let Some(v) = variation {
                out.append(" ");
                let vt = v.format();
                out.append(vt.as_str());
                if let Some(p) = pts {
                    out.append(" ");
                    let pt = fmt_i32(*p);
                    out.append(pt.as_str());
                    if let Some(c) = fstart {
                        out.append(" ");
                        out.append(c.as_str());
                        if let Some(d) = fstop {
                            out.append(" ");
                            out.append(d.as_str());
                            if let Some(pps) = pts_per_summary {
                                out.append(" ");
                                let ppt = fmt_i32(*pps);
                                out.append(ppt.as_str());
                            }
                        }
                    }
                }
            }
        }
    }
    assert(out@ =~= "NOISE"@ + opt_text(
        true,
        output,
        opt_text(
            src is Some,
            src,
            (match (variation, pts) {
                (Some(v), Some(p)) => " "@ + variation_text(v) + " "@ + int_rep(*p as int)
                    + opt_text(
                    true,
                    fstart,
                    opt_text(
                        fstop is Some,
                        fstop,
                        (match pts_per_summary {
                            Some(pps) => " "@ + int_rep(*pps as int),
                            None => ""@,
                        }),
                    ),
                ),
                (Some(v), None) => " "@ + variation_text(v),
                _ => ""@,
            }),
        ),
    ));
    out
}

#[verifier::rlimit(100)]
fn values_pz(
    node1: &Option<String>,
    node2: &Option<String>,
    node3: &Option<String>,
    node4: &Option<String>,
    transfer_function: &Option<TransferFunction>,
    analysis_type: &Option<PoleZerAnalysis>,
) -> (r: String)
    ensures
        r@ == "PZ"@ + opt_text(
            true,
            node1,
            opt_text(
                node2 is Some,
                node2,
                opt_text(
                    node3 is Some,
                    node3,
                    opt_text(
                        node4 is Some,
                        node4,
                        (match (transfer_function, analysis_type) {
                            (Some(tf), Some(at)) => " "@ + transfer_text(tf) + " "@
                                + pole_zero_text(at),
                            (Some(tf), None) => " "@ + transfer_text(tf),
                            _ => ""@,
                        }),
                    ),
                ),
            ),
        ),
{
    proof {
        reveal_strlit("");
    }
    let mut out = String::from_str("PZ");
    if let Some(a) = node1 {
        out.append(" ");
        out.append(a.as_str());
        if let Some(b) = node2 {
            out.append(" ");
            out.append(b.as_str());
            if let Some(c) = node3 {
                out.append(" ");
                out.append(c.as_str());
                if let Some(d) = node4 {
                    out.append(" ");
                    out.append(d.as_str());
                    if let Some(tf) = transfer_function {
                        out.append(" ");
                        let tt = tf.format();
                        out.append(tt.as_str());
                        if let Some(at) = analysis_type {
                            out.append(" ");
                            let att = at.format();
                            out.append(att.as_str());
                        }
                    }
                }
            }
        }
    }
    assert(out@ =~= "PZ"@ + opt_text(
        true,
        node1,
        opt_text(
            node2 is Some,
            node2,
            opt_text(
                node3 is Some,
                node3,
                opt_text(
                    node4 is Some,
                    node4,
                    (match (transfer_function, analysis_type) {
                        (Some(tf), Some(at)) => " "@ + transfer_text(tf) + " "@ + pole_zero_text(
                            at,
                        ),
                        (Some(tf), None) => " "@ + transfer_text(tf),
                        _ => ""@,
                    }),
                ),
            ),
        ),
    ));
    out
}

#[verifier::rlimit(100)]
fn values_sens_tail(
    output: &Option<String>,
    analysis_type: &Option<SensitivityAnalysisType>,
    fstart: &Option<String>,
    fstop: &Option<String>,
    variation: &Option<FrequencyVariation>,
    nx: &Option<i32>,
) -> (r: String)
    ensures
        r@ == opt_text(
            true,
            output,
            (match analysis_type {
                Some(at) => " "@ + sensitivity_text(at) + opt_text(
                    true,
                    fstart,
                    opt_text(
                        fstop is Some,
                        fstop,
                        (match (variation, nx) {
                            (Some(v), Some(n)) => " "@ + variation_text(v) + " "@ + int_rep(
                                *n as int,
                            ),
                            (Some(v), None) => " "@ + variation_text(v),
                            _ => ""@,
                        }),
                    ),
                ),
                None => ""@,
            }),
        ),
{
    proof {
        reveal_strlit("");
    }
    let mut out = String::new();
    if let Some(o) = output {
        out.append(" ");
        out.append(o.as_str());
        if let Some(at) = analysis_type {
            out.append(" ");
            let att = at.format();
            out.append(att.as_str());
            if let Some(a) = fstart {
                out.append(" ");
                out.append(a.as_str());
                if let Some(b) = fstop {
                    out.append(" ");
                    out.append(b.as_str());
                    if let Some(v) = variation {
                        out.append(" ");
                        let vt = v.format();
                        out.append(vt.as_str());
                        if let Some(n) = nx {
                            out.append(" ");
                            let nt = fmt_i32(*n);
                            out.append(nt.as_str());
                        }
                    }
                }
            }
        }
    }
    assert(out@ =~= opt_text(
        true,
        output,
        (match analysis_type {
            Some(at) => " "@ + sensitivity_text(at) + opt_text(
                true,
                fstart,
                opt_text(
                    fstop is Some,
                    fstop,
                    (match (variation, nx) {
                        (Some(v), Some(n)) => " "@ + variation_text(v) + " "@ + int_rep(*n as int),
                        (Some(v), None) => " "@ + variation_text(v),
                        _ => ""@,
                    }),
                ),
            ),
            None => ""@,
        }),
    ));
    out
}

fn values_sens(
    output_type: &Option<CurrentOrVoltage>,
    output: &Option<String>,
    analysis_type: &Option<SensitivityAnalysisType>,
    fstart: &Option<String>,
    fstop: &Option<String>,
    variation: &Option<FrequencyVariation>,
    nx: &Option<i32>,
) -> (r: String)
    ensures
        r@ == "SENS"@ + (match output_type {
            Some(ot) => " "@ + current_or_voltage_text(ot) + opt_text(
                true,
                output,
                (match analysis_type {
                    Some(at) => " "@ + sensitivity_text(at) + opt_text(
                        true,
                        fstart,
                        opt_text(
                            fstop is Some,
                            fstop,
                            (match (variation, nx) {
                                (Some(v), Some(n)) => " "@ + variation_text(v) + " "@ + int_rep(
                                    *n as int,
                                ),
                                (Some(v), None) => " "@ + variation_text(v),
                                _ => ""@,
                            }),
                        ),
                    ),
                    None => ""@,
                }),
            ),
            None => ""@,
        }),
{
    proof {
        reveal_strlit("");
    }
    let mut out = String::from_str("SENS");
    if let Some(ot) = output_type {
        out.append(" ");
        let ott = match ot {
            CurrentOrVoltage::V => String::from_str("V"),
            CurrentOrVoltage::I => String::from_str("I"),
        };
        out.append(ott.as_str());
        let tail = values_sens_tail(output, analysis_type, fstart, fstop, variation, nx);
        out.append(tail.as_str());
    }
    assert(out@ =~= "SENS"@ + (match output_type {
        Some(ot) => " "@ + current_or_voltage_text(ot) + opt_text(
            true,
            output,
            (match analysis_type {
                Some(at) => " "@ + sensitivity_text(at) + opt_text(
                    true,
                    fstart,
                    opt_text(
                        fstop is Some,
                        fstop,
                        (match (variation, nx) {
                            (Some(v), Some(n)) => " "@ + variation_text(v) + " "@ + int_rep(
                                *n as int,
                            ),
                            (Some(v), None) => " "@ + variation_text(v),
                            _ => ""@,
                        }),
                    ),
                ),
                None => ""@,
            }),
        ),
        None => ""@,
    }));
    out
}

// ---------------------------------------------------------------------------
// Reading a request off the wire
// ---------------------------------------------------------------------------

/// A text field read from token `i`, when there is one.
pub open spec fn tok_is(o: &Option<String>, f: Seq<Seq<char>>, i: int) -> bool {
    match o {
        Some(s) => 0 <= i < f.len() && s@ == f[i],
        None => i >= f.len(),
    }
}

/// An integer field read from token `i`, when there is one.
pub open spec fn tok_i32_is(o: &Option<i32>, f: Seq<Seq<char>>, i: int) -> bool {
    match o {
        Some(v) => 0 <= i < f.len() && crate::text::is_int_literal(f[i]) && v as int
            == crate::text::int_literal_val(f[i]),
        None => i >= f.len(),
    }
}

/// Token `i` exists but is not a 32-bit integer literal.
pub open spec fn tok_i32_bad(f: Seq<Seq<char>>, i: int) -> bool {
    0 <= i < f.len() && (!crate::text::is_int_literal(f[i]) || crate::text::int_literal_val(f[i])
        < i32::MIN || crate::text::int_literal_val(f[i]) > i32::MAX)
}

fn take_tok(tokens: &Vec<String>, i: usize) -> (r: Option<String>)
    ensures
        tok_is(&r, tokens@.map_values(|t: String| t@), i as int),
{
    if i < tokens.len() {
        Some(tokens[i].clone())
    } else {
        None
    }
}

fn take_tok_i32(tokens: &Vec<String>, i: usize) -> (r: Result<Option<i32>, ()>)
    ensures
        match r {
            Ok(o) => tok_is(&None::<String>, tokens@.map_values(|t: String| t@), i as int)
                && o is None || tok_i32_is(&o, tokens@.map_values(|t: String| t@), i as int),
            Err(_) => tok_i32_bad(tokens@.map_values(|t: String| t@), i as int),
        },
{
    if i < tokens.len() {
        match crate::text::parse_i32(tokens[i].as_str()) {
            Some(v) => Ok(Some(v)),
            None => Err(()),
        }
    } else {
        Ok(None)
    }
}

/// How a keyword and a space-separated parameter list are read into a
/// request, field by field in the order the fields are checked.
pub open spec fn from_tuple_ok(
    kind: Seq<char>,
    config: Seq<char>,
    r: &Result<SimulationConfig, SimulatorError>,
) -> bool {
    let f = split_fields(config, ' ');
    if kind == "TRAN"@ {
        r matches Ok(SimulationConfig::Tran { tstep, tstop, tstart, tmax, uic }) && tok_is(
            &tstep,
            f,
            0,
        ) && tok_is(&tstop, f, 1) && tok_is(&tstart, f, 2) && tok_is(&tmax, f, 3) && (match uic {
            Some(b) => 4 < f.len() && b == (f[4] == "uic"@),
            None => 4 >= f.len(),
        })
    } else if kind == "OP"@ {
        r matches Ok(SimulationConfig::Op {  })
    } else if kind == "AC"@ {
        if 2 < f.len() && variation_of(f[2]) is None {
            crate::element::is_malformed(r, "variation"@)
        } else if tok_i32_bad(f, 3) {
            crate::element::is_malformed(r, "nx"@)
        } else {
            r matches Ok(SimulationConfig::Ac { fstart, fstop, variation, nx }) && tok_is(
                &fstart,
                f,
                0,
            ) && tok_is(&fstop, f, 1) && (match variation {
                Some(v) => 2 < f.len() && variation_of(f[2]) == Some(*v),
                None => 2 >= f.len(),
            }) && tok_i32_is(&nx, f, 3)
        }
    } else if kind == "DC"@ {
        r matches Ok(
            SimulationConfig::Dc { srcnam, vstart, vstop, vincr, src2, start2, stop2, incr2 },
        ) && tok_is(&srcnam, f, 0) && tok_is(&vstart, f, 1) && tok_is(&vstop, f, 2) && tok_is(
            &vincr,
            f,
            3,
        ) && tok_is(&src2, f, 4) && tok_is(&start2, f, 5) && tok_is(&stop2, f, 6) && tok_is(
            &incr2,
            f,
            7,
        )
    } else if kind == "DISTO"@ {
        if 2 < f.len() && variation_of(f[2]) is None {
            crate::element::is_malformed(r, "variation"@)
        } else if tok_i32_bad(f, 3) {
            crate::element::is_malformed(r, "nx"@)
        } else {
            r matches Ok(SimulationConfig::Disto { fstart, fstop, variation, nx, f2overf1 })
                && tok_is(&fstart, f, 0) && tok_is(&fstop, f, 1) && (match variation {
                Some(v) => 2 < f.len() && variation_of(f[2]) == Some(*v),
                None => 2 >= f.len(),
            }) && tok_i32_is(&nx, f, 3) && tok_is(&f2overf1, f, 4)
        }
    } else if kind == "NOISE"@ {
        if 3 < f.len() && variation_of(f[3]) is None {
            crate::element::is_malformed(r, "variation"@)
        } else if tok_i32_bad(f, 4) {
            crate::element::is_malformed(r, "pts"@)
        } else if tok_i32_bad(f, 7) {
            crate::element::is_malformed(r, "pts_per_summary"@)
        } else {
            r matches Ok(
                SimulationConfig::Noise {
                    output,
                    oref,
                    src,
                    variation,
                    pts,
                    fstart,
                    fstop,
                    pts_per_summary,
                },
            ) && tok_is(&output, f, 0) && tok_is(&oref, f, 1) && tok_is(&src, f, 2) && (
            match variation {
                Some(v) => 3 < f.len() && variation_of(f[3]) == Some(*v),
                None => 3 >= f.len(),
            }) && tok_i32_is(&pts, f, 4) && tok_is(&fstart, f, 5) && tok_is(&fstop, f, 6)
                && tok_i32_is(&pts_per_summary, f, 7)
        }
    } else if kind == "PZ"@ {
        if 4 < f.len() && transfer_of(f[4]) is None {
            crate::element::is_malformed(r, "transfer_function"@)
        } else if 5 < f.len() && pole_zero_of(f[5]) is None {
            crate::element::is_malformed(r, "analysis_type"@)
        } else {
            r matches Ok(
                SimulationConfig::Pz { node1, node2, node3, node4, transfer_function, analysis_type },
            ) && tok_is(&node1, f, 0) && tok_is(&node2, f, 1) && tok_is(&node3, f, 2) && tok_is(
                &node4,
                f,
                3,
            ) && (match transfer_function {
                Some(tf) => 4 < f.len() && transfer_of(f[4]) == Some(*tf),
                None => 4 >= f.len(),
            }) && (match analysis_type {
                Some(at) => 5 < f.len() && pole_zero_of(f[5]) == Some(*at),
                None => 5 >= f.len(),
            })
        }
    } else if kind == "SENS"@ {
        if 0 < f.len() && current_or_voltage_of(f[0]) is None {
            crate::element::is_malformed(r, "output_type"@)
        } else if 2 < f.len() && sensitivity_of(f[2]) is None {
            crate::element::is_malformed(r, "analysis_type"@)
        } else if 5 < f.len() && variation_of(f[5]) is None {
            crate::element::is_malformed(r, "variation"@)
        } else if tok_i32_bad(f, 6) {
            crate::element::is_malformed(r, "nx"@)
        } else {
            r matches Ok(
                SimulationConfig::Sens {
                    output_type,
                    output,
                    analysis_type,
                    fstart,
                    fstop,
                    variation,
                    nx,
                },
            ) && (match output_type {
                Some(ot) => 0 < f.len() && current_or_voltage_of(f[0]) == Some(*ot),
                None => 0 >= f.len(),
            }) && tok_is(&output, f, 1) && (match analysis_type {
                Some(at) => 2 < f.len() && sensitivity_of(f[2]) == Some(*at),
                None => 2 >= f.len(),
            }) && tok_is(&fstart, f, 3) && tok_is(&fstop, f, 4) && (match variation {
                Some(v) => 5 < f.len() && variation_of(f[5]) == Some(*v),
                None => 5 >= f.len(),
            }) && tok_i32_is(&nx, f, 6)
        }
    } else {
        crate::element::is_malformed(r, kind)
    }
}

impl SimulationConfig {
    /// Reads a request from its keyword and its space-separated
    /// parameter list.  An unknown keyword, or a parameter outside its
    /// field's vocabulary, rejects the request naming the field.
    #[verifier::rlimit(100)]
    pub fn from_tuple(kind_and_config: (&str, &str)) -> (r: Result<SimulationConfig, SimulatorError>)
        ensures
            from_tuple_ok(kind_and_config.0@, kind_and_config.1@, &r),
    {
        let (kind, config) = kind_and_config;
        let tokens = split_char(config, ' ');
        let ghost f = tokens@.map_values(|t: String| t@);
        if str_eq(kind, "TRAN") {
            let uic_tok = take_tok(&tokens, 4);
            let uic = match uic_tok {
                Some(t) => Some(str_eq(t.as_str(), "uic")),
                None => None,
            };
            Ok(
                SimulationConfig::Tran {
                    tstep: take_tok(&tokens, 0),
                    tstop: take_tok(&tokens, 1),
                    tstart: take_tok(&tokens, 2),
                    tmax: take_tok(&tokens, 3),
                    uic,
                },
            )
        } else if str_eq(kind, "OP") {
            Ok(SimulationConfig::Op {  })
        } else if str_eq(kind, "AC") {
            let variation = match take_tok(&tokens, 2) {
                Some(t) => match parse_variation(t.as_str()) {
                    Some(v) => Some(v),
                    None => {
                        return Err(
                            SimulatorError::MalformedSimulationConfig(String::from_str("variation")),
                        );
                    },
                },
                None => None,
            };
            let nx = match take_tok_i32(&tokens, 3) {
                Ok(o) => o,
                Err(_) => {
                    return Err(SimulatorError::MalformedSimulationConfig(String::from_str("nx")));
                },
            };
            Ok(
                SimulationConfig::Ac {
                    fstart: take_tok(&tokens, 0),
                    fstop: take_tok(&tokens, 1),
                    variation,
                    nx,
                },
            )
        } else if str_eq(kind, "DC") {
            Ok(
                SimulationConfig::Dc {
                    srcnam: take_tok(&tokens, 0),
                    vstart: take_tok(&tokens, 1),
                    vstop: take_tok(&tokens, 2),
                    vincr: take_tok(&tokens, 3),
                    src2: take_tok(&tokens, 4),
                    start2: take_tok(&tokens, 5),
                    stop2: take_tok(&tokens, 6),
                    incr2: take_tok(&tokens, 7),
                },
            )
        } else if str_eq(kind, "DISTO") {
            let variation = match take_tok(&tokens, 2) {
                Some(t) => match parse_variation(t.as_str()) {
                    Some(v) => Some(v),
                    None => {
                        return Err(
                            SimulatorError::MalformedSimulationConfig(String::from_str("variation")),
                        );
                    },
                },
                None => None,
            };
            let nx = match take_tok_i32(&tokens, 3) {
                Ok(o) => o,
                Err(_) => {
                    return Err(SimulatorError::MalformedSimulationConfig(String::from_str("nx")));
                },
            };
            Ok(
                SimulationConfig::Disto {
                    fstart: take_tok(&tokens, 0),
                    fstop: take_tok(&tokens, 1),
                    variation,
                    nx,
                    f2overf1: take_tok(&tokens, 4),
                },
            )
        } else if str_eq(kind, "NOISE") {
            let variation = match take_tok(&tokens, 3) {
                Some(t) => match parse_variation(t.as_str()) {
                    Some(v) => Some(v),
                    None => {
                        return Err(
                            SimulatorError::MalformedSimulationConfig(String::from_str("variation")),
                        );
                    },
                },
                None => None,
            };
            let pts = match take_tok_i32(&tokens, 4) {
                Ok(o) => o,
                Err(_) => {
                    return Err(SimulatorError::MalformedSimulationConfig(String::from_str("pts")));
                },
            };
            let pts_per_summary = match take_tok_i32(&tokens, 7) {
                Ok(o) => o,
                Err(_) => {
                    return Err(
                        SimulatorError::MalformedSimulationConfig(
                            String::from_str("pts_per_summary"),
                        ),
                    );
                },
            };
            Ok(
                SimulationConfig::Noise {
                    output: take_tok(&tokens, 0),
                    oref: take_tok(&tokens, 1),
                    src: take_tok(&tokens, 2),
                    variation,
                    pts,
                    fstart: take_tok(&tokens, 5),
                    fstop: take_tok(&tokens, 6),
                    pts_per_summary,
                },
            )
        } else if str_eq(kind, "PZ") {
            let transfer_function = match take_tok(&tokens, 4) {
                Some(t) => match parse_transfer(t.as_str()) {
                    Some(tf) => Some(tf),
                    None => {
                        return Err(
                            SimulatorError::MalformedSimulationConfig(
                                String::from_str("transfer_function"),
                            ),
                        );
                    },
                },
                None => None,
            };
            let analysis_type = match take_tok(&tokens, 5) {
                Some(t) => match parse_pole_zero(t.as_str()) {
                    Some(at) => Some(at),
                    None => {
                        return Err(
                            SimulatorError::MalformedSimulationConfig(
                                String::from_str("analysis_type"),
                            ),
                        );
                    },
                },
                None => None,
            };
            Ok(
                SimulationConfig::Pz {
                    node1: take_tok(&tokens, 0),
                    node2: take_tok(&tokens, 1),
                    node3: take_tok(&tokens, 2),
                    node4: take_tok(&tokens, 3),
                    transfer_function,
                    analysis_type,
                },
            )
        } else if str_eq(kind, "SENS") {
            let output_type = match take_tok(&tokens, 0) {
                Some(t) => {
                    if str_eq(t.as_str(), "V") {
                        Some(CurrentOrVoltage::V)
                    } else if str_eq(t.as_str(), "I") {
                        Some(CurrentOrVoltage::I)
                    } else {
                        return Err(
                            SimulatorError::MalformedSimulationConfig(
                                String::from_str("output_type"),
                            ),
                        );
                    }
                },
                None => None,
            };
            let analysis_type = match take_tok(&tokens, 2) {
                Some(t) => {
                    if str_eq(t.as_str(), "ac") {
                        Some(SensitivityAnalysisType::Ac)
                    } else if str_eq(t.as_str(), "dc") {
                        Some(SensitivityAnalysisType::Dc)
                    } else {
                        return Err(
                            SimulatorError::MalformedSimulationConfig(
                                String::from_str("analysis_type"),
                            ),
                        );
                    }
                },
                None => None,
            };
            let variation = match take_tok(&tokens, 5) {
                Some(t) => match parse_variation(t.as_str()) {
                    Some(v) => Some(v),
                    None => {
                        return Err(
                            SimulatorError::MalformedSimulationConfig(String::from_str("variation")),
                        );
                    },
                },
                None => None,
            };
            let nx = match take_tok_i32(&tokens, 6) {
                Ok(o) => o,
                Err(_) => {
                    return Err(SimulatorError::MalformedSimulationConfig(String::from_str("nx")));
                },
            };
            Ok(
                SimulationConfig::Sens {
                    output_type,
                    output: take_tok(&tokens, 1),
                    analysis_type,
                    fstart: take_tok(&tokens, 3),
                    fstop: take_tok(&tokens, 4),
                    variation,
                    nx,
                },
            )
        } else {
            Err(SimulatorError::MalformedSimulationConfig(String::from_str(kind)))
        }
    }
}

// ---------------------------------------------------------------------------
// The validated analysis and its directive
// ---------------------------------------------------------------------------

/// A space and a magnitude's text, when present and enabled.
pub open spec fn opt_u(enabled: bool, o: &Option<UnitOfMagnitude>, tail: Seq<char>) -> Seq<char> {
    if enabled {
        match o {
            Some(u) => " "@ + crate::element::unit_text(u) + tail,
            None => Seq::empty(),
        }
    } else {
        Seq::empty()
    }
}

/// A validated analysis: the numeric sweep bounds are typed magnitudes.
#[derive(Debug, Clone)]
pub enum Simulation {
    Tran {
        tstep: Option<UnitOfMagnitude>,
        tstop: Option<UnitOfMagnitude>,
        tstart: Option<UnitOfMagnitude>,
        tmax: Option<UnitOfMagnitude>,
        uic: Option<bool>,
    },
    Op,
    Ac {
        fstart: Option<UnitOfMagnitude>,
        fstop: Option<UnitOfMagnitude>,
        variation: Option<FrequencyVariation>,
        nx: Option<i32>,
    },
    Dc {
        srcnam: Option<String>,
        vstart: Option<UnitOfMagnitude>,
        vstop: Option<UnitOfMagnitude>,
        vincr: Option<UnitOfMagnitude>,
        src2: Option<String>,
        start2: Option<UnitOfMagnitude>,
        stop2: Option<UnitOfMagnitude>,
        incr2: Option<UnitOfMagnitude>,
    },
    Disto {
        fstart: Option<UnitOfMagnitude>,
        fstop: Option<UnitOfMagnitude>,
        variation: Option<FrequencyVariation>,
        nx: Option<i32>,
        f2overf1: Option<String>,
    },
    Noise {
        output: Option<String>,
        oref: Option<String>,
        src: Option<String>,
        variation: Option<FrequencyVariation>,
        pts: Option<i32>,
        fstart: Option<UnitOfMagnitude>,
        fstop: Option<UnitOfMagnitude>,
        pts_per_summary: Option<i32>,
    },
    Pz {
        node1: Option<String>,
        node2: Option<String>,
        node3: Option<String>,
        node4: Option<String>,
        transfer_function: Option<TransferFunction>,
        analysis_type: Option<PoleZerAnalysis>,
    },
    Sens {
        output_type: Option<CurrentOrVoltage>,
        output: Option<String>,
        analysis_type: Option<SensitivityAnalysisType>,
        fstart: Option<UnitOfMagnitude>,
        fstop: Option<UnitOfMagnitude>,
        variation: Option<FrequencyVariation>,
        nx: Option<i32>,
    },
}

/// The analysis directive of a validated analysis: one `.`-keyword line,
/// parameters dropped from the first absent one on.
pub open spec fn sim_text(s: &Simulation) -> Seq<char> {
    match s {
        Simulation::Op => ".op\n"@,
        Simulation::Tran { tstep, tstop, tstart, tmax, uic } => ".tran"@ + opt_u(
            true,
            tstep,
            opt_u(
                tstop is Some,
                tstop,
                opt_u(
                    tstart is Some,
                    tstart,
                    opt_u(
                        tmax is Some,
                        tmax,
                        if *uic == Some(true) {
                            " uic"@
                        } else {
                            ""@
                        },
                    ),
                ),
            ),
        ) + "\n"@,
        Simulation::Dc { srcnam, vstart, vstop, vincr, src2, start2, stop2, incr2 } => ".dc"@
            + opt_text(
            true,
            srcnam,
            opt_u(
                vstart is Some,
                vstart,
                opt_u(
                    vstop is Some,
                    vstop,
                    opt_u(
                        vincr is Some,
                        vincr,
                        opt_text(
                            src2 is Some,
                            src2,
                            opt_u(
                                start2 is Some,
                                start2,
                                opt_u(stop2 is Some, stop2, opt_u(incr2 is Some, incr2, ""@)),
                            ),
                        ),
                    ),
                ),
            ),
        ) + "\n"@,
        Simulation::Ac { fstart, fstop, variation, nx } => ".ac"@ + (match variation {
            Some(v) => " "@ + variation_text(v) + (match nx {
                Some(n) => " "@ + int_rep(*n as int) + opt_u(
                    true,
                    fstart,
                    opt_u(fstop is Some, fstop, ""@),
                ),
                None => ""@,
            }),
            None => ""@,
        }) + "\n"@,
        Simulation::Noise { output, oref, src, variation, pts, fstart, fstop, pts_per_summary } => {
            ".noise"@ + (match output {
                Some(o) => (match oref {
                    Some(orf) => " v("@ + o@ + ","@ + orf@ + ")"@,
                    None => " v("@ + o@ + ")"@,
                }) + opt_text(
                    true,
                    src,
                    (match (variation, pts) {
                        (Some(v), Some(pt)) => " "@ + variation_text(v) + " "@ + int_rep(
                            *pt as int,
                        ) + opt_u(
                            true,
                            fstart,
                            opt_u(
                                fstop is Some,
                                fstop,
                                (match pts_per_summary {
                                    Some(pps) => " "@ + int_rep(*pps as int),
                                    None => ""@,
                                }),
                            ),
                        ),
                        (Some(v), None) => " "@ + variation_text(v),
                        _ => ""@,
                    }),
                ),
                None => ""@,
            }) + "\n"@
        },
        Simulation::Disto { fstart, fstop, variation, nx, f2overf1 } => ".disto"@ + (
        match variation {
            Some(v) => " "@ + variation_text(v) + (match nx {
                Some(n) => " "@ + int_rep(*n as int) + opt_u(
                    true,
                    fstart,
                    opt_u(fstop is Some, fstop, opt_text(fstop is Some, f2overf1, ""@)),
                ),
                None => ""@,
            }),
            None => ""@,
        }) + "\n"@,
        Simulation::Pz { node1, node2, node3, node4, transfer_function, analysis_type } => ".pz"@
            + opt_text(
            true,
            node1,
            opt_text(
                node2 is Some,
                node2,
                opt_text(
                    node3 is Some,
                    node3,
                    opt_text(
                        node4 is Some,
                        node4,
                        (match (transfer_function, analysis_type) {
                            (Some(tf), Some(at)) => " "@ + transfer_text(tf) + " "@
                                + pole_zero_text(at),
                            (Some(tf), None) => " "@ + transfer_text(tf),
                            _ => ""@,
                        }),
                    ),
                ),
            ),
        ) + "\n"@,
        Simulation::Sens { output_type, output, analysis_type, fstart, fstop, variation, nx } => {
            ".sens"@ + (match analysis_type {
                Some(SensitivityAnalysisType::Dc) => (match (output_type, output) {
                    (Some(ot), Some(o)) => " "@ + current_or_voltage_text(ot) + "("@ + o@ + ")"@,
                    _ => ""@,
                }),
                Some(SensitivityAnalysisType::Ac) => (match (output_type, output) {
                    (Some(ot), Some(o)) => " "@ + current_or_voltage_text(ot) + "("@ + o@ + ")"@
                        + (match (variation, nx, fstart, fstop) {
                        (Some(v), Some(n), Some(fa), Some(fb)) => " "@ + variation_text(v) + " "@
                            + int_rep(*n as int) + " "@ + crate::element::unit_text(fa) + " "@
                            + crate::element::unit_text(fb),
                        _ => ""@,
                    }),
                    _ => ""@,
                }),
                None => ""@,
            }) + "\n"@
        },
    }
}

/// The analysis names the engine reports progress for.
pub open spec fn known_analysis_names() -> Seq<Seq<char>> {
    seq!["tran"@, "op"@, "ac"@, "dc"@, "disto"@, "noise"@]
}

impl Simulation {
    /// The analysis names the engine reports progress for.
    pub fn available_simulations() -> (r: Vec<String>)
        ensures
            r@.map_values(|t: String| t@) == known_analysis_names(),
    {
        let mut r: Vec<String> = Vec::new();
        r.push(String::from_str("tran"));
        r.push(String::from_str("op"));
        r.push(String::from_str("ac"));
        r.push(String::from_str("dc"));
        r.push(String::from_str("disto"));
        r.push(String::from_str("noise"));
        proof {
            assert(r@.map_values(|t: String| t@) =~= known_analysis_names());
        }
        r
    }

    /// Renders the analysis directive.
    pub fn format(&self) -> (r: String)
        ensures
            r@ == sim_text(self),
    {
        match self {
            Simulation::Op => {
                let out = String::from_str(".op\n");
                assert(out@ =~= sim_text(self));
                out
            },
            Simulation::Tran { tstep, tstop, tstart, tmax, uic } => sim_fmt_tran(
                tstep,
                tstop,
                tstart,
                tmax,
                uic,
            ),
            Simulation::Dc { srcnam, vstart, vstop, vincr, src2, start2, stop2, incr2 } => {
                sim_fmt_dc(srcnam, vstart, vstop, vincr, src2, start2, stop2, incr2)
            },
            Simulation::Ac { fstart, fstop, variation, nx } => sim_fmt_ac(
                fstart,
                fstop,
                variation,
                nx,
            ),
            Simulation::Noise {
                output,
                oref,
                src,
                variation,
                pts,
                fstart,
                fstop,
                pts_per_summary,
            } => sim_fmt_noise(output, oref, src, variation, pts, fstart, fstop, pts_per_summary),
            Simulation::Disto { fstart, fstop, variation, nx, f2overf1 } => sim_fmt_disto(
                fstart,
                fstop,
                variation,
                nx,
                f2overf1,
            ),
            Simulation::Pz { node1, node2, node3, node4, transfer_function, analysis_type } => {
                sim_fmt_pz(node1, node2, node3, node4, transfer_function, analysis_type)
            },
            Simulation::Sens { output_type, output, analysis_type, fstart, fstop, variation, nx } => {
                sim_fmt_sens(output_type, output, analysis_type, fstart, fstop, variation, nx)
            },
        }
    }
}

fn append_u(out: &mut String, u: &UnitOfMagnitude)
    ensures
        final(out)@ == old(out)@ + " "@ + crate::element::unit_text(u),
{
    out.append(" ");
    let t = u.format();
    out.append(t.as_str());
    assert(out@ =~= old(out)@ + " "@ + crate::element::unit_text(u));
}

#[verifier::rlimit(100)]
fn sim_fmt_tran(
    tstep: &Option<UnitOfMagnitude>,
    tstop: &Option<UnitOfMagnitude>,
    tstart: &Option<UnitOfMagnitude>,
    tmax: &Option<UnitOfMagnitude>,
    uic: &Option<bool>,
) -> (r: String)
    ensures
        r@ == ".tran"@ + opt_u(
            true,
            tstep,
            opt_u(
                tstop is Some,
                tstop,
                opt_u(
                    tstart is Some,
                    tstart,
                    opt_u(
                        tmax is Some,
                        tmax,
                        if *uic == Some(true) {
                            " uic"@
                        } else {
                            ""@
                        },
                    ),
                ),
            ),
        ) + "\n"@,
{
    proof {
        reveal_strlit("");
    }
    let mut out = String::from_str(".tran");
    if let Some(a) = tstep {
        append_u(&mut out, a);
        if let Some(b) = tstop {
            append_u(&mut out, b);
            if let Some(c) = tstart {
                append_u(&mut out, c);
                if let Some(d) = tmax {
                    append_u(&mut out, d);
                    if let Some(true) = uic {
                        out.append(" uic");
                    }
                }
            }
        }
    }
    out.append("\n");
    assert(out@ =~= ".tran"@ + opt_u(
        true,
        tstep,
        opt_u(
            tstop is Some,
            tstop,
            opt_u(
                tstart is Some,
                tstart,
                opt_u(
                    tmax is Some,
                    tmax,
                    if *uic == Some(true) {
                        " uic"@
                    } else {
                        ""@
                    },
                ),
            ),
        ),
    ) + "\n"@);
    out
}

#[verifier::rlimit(100)]
fn sim_fmt_dc(
    srcnam: &Option<String>,
    vstart: &Option<UnitOfMagnitude>,
    vstop: &Option<UnitOfMagnitude>,
    vincr: &Option<UnitOfMagnitude>,
    src2: &Option<String>,
    start2: &Option<UnitOfMagnitude>,
    stop2: &Option<UnitOfMagnitude>,
    incr2: &Option<UnitOfMagnitude>,
) -> (r: String)
    ensures
        r@ == ".dc"@ + opt_text(
            true,
            srcnam,
            opt_u(
                vstart is Some,
                vstart,
                opt_u(
                    vstop is Some,
                    vstop,
                    opt_u(
                        vincr is Some,
                        vincr,
                        opt_text(
                            src2 is Some,
                            src2,
                            opt_u(
                                start2 is Some,
                                start2,
                                opt_u(stop2 is Some, stop2, opt_u(incr2 is Some, incr2, ""@)),
                            ),
                        ),
                    ),
                ),
            ),
        ) + "\n"@,
{
    proof {
        reveal_strlit("");
    }
    let mut out = String::from_str(".dc");
    if let Some(a) = srcnam {
        out.append(" ");
        out.append(a.as_str());
        if let Some(b) = vstart {
            append_u(&mut out, b);
            if let Some(c) = vstop {
                append_u(&mut out, c);
                if let Some(d) = vincr {
                    append_u(&mut out, d);
                    if let Some(e) = src2 {
                        out.append(" ");
                        out.append(e.as_str());
                        if let Some(f) = start2 {
                            append_u(&mut out, f);
                            if let Some(g) = stop2 {
                                append_u(&mut out, g);
                                if let Some(h) = incr2 {
                                    append_u(&mut out, h);
                                }
                            }
                        }
                    }
                }
            }
        }
    }
    out.append("\n");
    assert(out@ =~= ".dc"@ + opt_text(
        true,
        srcnam,
        opt_u(
            vstart is Some,
            vstart,
            opt_u(
                vstop is Some,
                vstop,
                opt_u(
                    vincr is Some,
                    vincr,
                    opt_text(
                        src2 is Some,
                        src2,
                        opt_u(
                            start2 is Some,
                            start2,
                            opt_u(stop2 is Some, stop2, opt_u(incr2 is Some, incr2, ""@)),
                        ),
                    ),
                ),
            ),
        ),
    ) + "\n"@);
    out
}

#[verifier::rlimit(100)]
fn sim_fmt_ac(
    fstart: &Option<UnitOfMagnitude>,
    fstop: &Option<UnitOfMagnitude>,
    variation: &Option<FrequencyVariation>,
    nx: &Option<i32>,
) -> (r: String)
    ensures
        r@ == ".ac"@ + (match variation {
            Some(v) => " "@ + variation_text(v) + (match nx {
                Some(n) => " "@ + int_rep(*n as int) + opt_u(
                    true,
                    fstart,
                    opt_u(fstop is Some, fstop, ""@),
                ),
                None => ""@,
            }),
            None => ""@,
        }) + "\n"@,
{
    proof {
        reveal_strlit("");
    }
    let mut out = String::from_str(".ac");
    if let Some(v) = variation {
        out.append(" ");
        let vt = v.format();
        out.append(vt.as_str());
        if let Some(n) = nx {
            out.append(" ");
            let nt = fmt_i32(*n);
            out.append(nt.as_str());
            if let Some(a) = fstart {
                append_u(&mut out, a);
                if let Some(b) = fstop {
                    append_u(&mut out, b);
                }
            }
        }
    }
    out.append("\n");
    assert(out@ =~= ".ac"@ + (match variation {
        Some(v) => " "@ + variation_text(v) + (match nx {
            Some(n) => " "@ + int_rep(*n as int) + opt_u(
                true,
                fstart,
                opt_u(fstop is Some, fstop, ""@),
            ),
            None => ""@,
        }),
        None => ""@,
    }) + "\n"@);
    out
}

#[verifier::rlimit(100)]
fn sim_fmt_noise_tail(
    src: &Option<String>,
    variation: &Option<FrequencyVariation>,
    pts: &Option<i32>,
    fstart: &Option<UnitOfMagnitude>,
    fstop: &Option<UnitOfMagnitude>,
    pts_per_summary: &Option<i32>,
) -> (r: String)
    ensures
        r@ == opt_text(
            true,
            src,
            (match (variation, pts) {
                (Some(v), Some(pt)) => " "@ + variation_text(v) + " "@ + int_rep(*pt as int)
                    + opt_u(
                    true,
                    fstart,
                    opt_u(
                        fstop is Some,
                        fstop,
                        (match pts_per_summary {
                            Some(pps) => " "@ + int_rep(*pps as int),
                            None => ""@,
                        }),
                    ),
                ),
                (Some(v), None) => " "@ + variation_text(v),
                _ => ""@,
            }),
        ),
{
    proof {
        reveal_strlit("");
    }
    let mut out = String::new();
    if let Some(s) = src {
        out.append(" ");
        out.append(s.as_str());
        if let Some(v) = variation {
            out.append(" ");
            let vt = v.format();
            out.append(vt.as_str());
            if let Some(pt) = pts {
                out.append(" ");
                let ptt = fmt_i32(*pt);
                out.append(ptt.as_str());
                if let Some(a) = fstart {
                    append_u(&mut out, a);
                    if let Some(b) = fstop {
                        append_u(&mut out, b);
                        if let Some(pps) = pts_per_summary {
                            out.append(" ");
                            let ppt = fmt_i32(*pps);
                            out.append(ppt.as_str());
                        }
                    }
                }
            }
        }
    }
    assert(out@ =~= opt_text(
        true,
        src,
        (match (variation, pts) {
            (Some(v), Some(pt)) => " "@ + variation_text(v) + " "@ + int_rep(*pt as int) + opt_u(
                true,
                fstart,
                opt_u(
                    fstop is Some,
                    fstop,
                    (match pts_per_summary {
                        Some(pps) => " "@ + int_rep(*pps as int),
                        None => ""@,
                    }),
                ),
            ),
            (Some(v), None) => " "@ + variation_text(v),
            _ => ""@,
        }),
    ));
    out
}

#[verifier::rlimit(100)]
fn sim_fmt_noise(
    output: &Option<String>,
    oref: &Option<String>,
    src: &Option<String>,
    variation: &Option<FrequencyVariation>,
    pts: &Option<i32>,
    fstart: &Option<UnitOfMagnitude>,
    fstop: &Option<UnitOfMagnitude>,
    pts_per_summary: &Option<i32>,
) -> (r: String)
    ensures
        r@ == ".noise"@ + (match output {
            Some(o) => (match oref {
                Some(orf) => " v("@ + o@ + ","@ + orf@ + ")"@,
                None => " v("@ + o@ + ")"@,
            }) + opt_text(
                true,
                src,
                (match (variation, pts) {
                    (Some(v), Some(pt)) => " "@ + variation_text(v) + " "@ + int_rep(*pt as int)
                        + opt_u(
                        true,
                        fstart,
                        opt_u(
                            fstop is Some,
                            fstop,
                            (match pts_per_summary {
                                Some(pps) => " "@ + int_rep(*pps as int),
                                None => ""@,
                            }),
                        ),
                    ),
                    (Some(v), None) => " "@ + variation_text(v),
                    _ => ""@,
                }),
            ),
            None => ""@,
        }) + "\n"@,
{
    proof {
        reveal_strlit("");
    }
    let mut out = String::from_str(".noise");
    if let Some(o) = output {
        if let Some(orf) = oref {
            out.append(" v(");
            out.append(o.as_str());
            out.append(",");
            out.append(orf.as_str());
            out.append(")");
        } else {
            out.append(" v(");
            out.append(o.as_str());
            out.append(")");
        }
        let tail = sim_fmt_noise_tail(src, variation, pts, fstart, fstop, pts_per_summary);
        out.append(tail.as_str());
    }
    out.append("\n");
    assert(out@ =~= ".noise"@ + (match output {
        Some(o) => (match oref {
            Some(orf) => " v("@ + o@ + ","@ + orf@ + ")"@,
            None => " v("@ + o@ + ")"@,
        }) + opt_text(
            true,
            src,
            (match (variation, pts) {
                (Some(v), Some(pt)) => " "@ + variation_text(v) + " "@ + int_rep(*pt as int)
                    + opt_u(
                    true,
                    fstart,
                    opt_u(
                        fstop is Some,
                        fstop,
                        (match pts_per_summary {
                            Some(pps) => " "@ + int_rep(*pps as int),
                            None => ""@,
                        }),
                    ),
                ),
                (Some(v), None) => " "@ + variation_text(v),
                _ => ""@,
            }),
        ),
        None => ""@,
    }) + "\n"@);
    out
}

#[verifier::rlimit(100)]
fn sim_fmt_disto(
    fstart: &Option<UnitOfMagnitude>,
    fstop: &Option<UnitOfMagnitude>,
    variation: &Option<FrequencyVariation>,
    nx: &Option<i32>,
    f2overf1: &Option<String>,
) -> (r: String)
    ensures
        r@ == ".disto"@ + (match variation {
            Some(v) => " "@ + variation_text(v) + (match nx {
                Some(n) => " "@ + int_rep(*n as int) + opt_u(
                    true,
                    fstart,
                    opt_u(fstop is Some, fstop, opt_text(fstop is Some, f2overf1, ""@)),
                ),
                None => ""@,
            }),
            None => ""@,
        }) + "\n"@,
{
    proof {
        reveal_strlit("");
    }
    let mut out = String::from_str(".disto");
    if let Some(v) = variation {
        out.append(" ");
        let vt = v.format();
        out.append(vt.as_str());
        if let Some(n) = nx {
            out.append(" ");
            let nt = fmt_i32(*n);
            out.append(nt.as_str());
            if let Some(a) = fstart {
                append_u(&mut out, a);
                if let Some(b) = fstop {
                    append_u(&mut out, b);
                    if let Some(f) = f2overf1 {
                        out.append(" ");
                        out.append(f.as_str());
                    }
                }
            }
        }
    }
    out.append("\n");
    assert(out@ =~= ".disto"@ + (match variation {
        Some(v) => " "@ + variation_text(v) + (match nx {
            Some(n) => " "@ + int_rep(*n as int) + opt_u(
                true,
                fstart,
                opt_u(fstop is Some, fstop, opt_text(fstop is Some, f2overf1, ""@)),
            ),
            None => ""@,
        }),
        None => ""@,
    }) + "\n"@);
    out
}

#[verifier::rlimit(100)]
fn sim_fmt_pz(
    node1: &Option<String>,
    node2: &Option<String>,
    node3: &Option<String>,
    node4: &Option<String>,
    transfer_function: &Option<TransferFunction>,
    analysis_type: &Option<PoleZerAnalysis>,
) -> (r: String)
    ensures
        r@ == ".pz"@ + opt_text(
            true,
            node1,
            opt_text(
                node2 is Some,
                node2,
                opt_text(
                    node3 is Some,
                    node3,
                    opt_text(
                        node4 is Some,
                        node4,
                        (match (transfer_function, analysis_type) {
                            (Some(tf), Some(at)) => " "@ + transfer_text(tf) + " "@
                                + pole_zero_text(at),
                            (Some(tf), None) => " "@ + transfer_text(tf),
                            _ => ""@,
                        }),
                    ),
                ),
            ),
        ) + "\n"@,
{
    proof {
        reveal_strlit("");
    }
    let mut out = String::from_str(".pz");
    if let Some(a) = node1 {
        out.append(" ");
        out.append(a.as_str());
        if let Some(b) = node2 {
            out.append(" ");
            out.append(b.as_str());
            if let Some(c) = node3 {
                out.append(" ");
                out.append(c.as_str());
                if let Some(d) = node4 {
                    out.append(" ");
                    out.append(d.as_str());
                    if let Some(tf) = transfer_function {
                        out.append(" ");
                        let tt = tf.format();
                        out.append(tt.as_str());
                        if let Some(at) = analysis_type {
                            out.append(" ");
                            let att = at.format();
                            out.append(att.as_str());
                        }
                    }
                }
            }
        }
    }
    out.append("\n");
    assert(out@ =~= ".pz"@ + opt_text(
        true,
        node1,
        opt_text(
            node2 is Some,
            node2,
            opt_text(
                node3 is Some,
                node3,
                opt_text(
                    node4 is Some,
                    node4,
                    (match (transfer_function, analysis_type) {
                        (Some(tf), Some(at)) => " "@ + transfer_text(tf) + " "@ + pole_zero_text(
                            at,
                        ),
                        (Some(tf), None) => " "@ + transfer_text(tf),
                        _ => ""@,
                    }),
                ),
            ),
        ),
    ) + "\n"@);
    out
}

#[verifier::rlimit(100)]
fn sim_fmt_sens(
    output_type: &Option<CurrentOrVoltage>,
    output: &Option<String>,
    analysis_type: &Option<SensitivityAnalysisType>,
    fstart: &Option<UnitOfMagnitude>,
    fstop: &Option<UnitOfMagnitude>,
    variation: &Option<FrequencyVariation>,
    nx: &Option<i32>,
) -> (r: String)
    ensures
        r@ == ".sens"@ + (match analysis_type {
            Some(SensitivityAnalysisType::Dc) => (match (output_type, output) {
                (Some(ot), Some(o)) => " "@ + current_or_voltage_text(ot) + "("@ + o@ + ")"@,
                _ => ""@,
            }),
            Some(SensitivityAnalysisType::Ac) => (match (output_type, output) {
                (Some(ot), Some(o)) => " "@ + current_or_voltage_text(ot) + "("@ + o@ + ")"@ + (
                match (variation, nx, fstart, fstop) {
                    (Some(v), Some(n), Some(fa), Some(fb)) => " "@ + variation_text(v) + " "@
                        + int_rep(*n as int) + " "@ + crate::element::unit_text(fa) + " "@
                        + crate::element::unit_text(fb),
                    _ => ""@,
                }),
                _ => ""@,
            }),
            None => ""@,
        }) + "\n"@,
{
    proof {
        reveal_strlit("");
    }
    let mut out = String::from_str(".sens");
    if let Some(at) = analysis_type {
        match at {
            SensitivityAnalysisType::Dc => {
                if let (Some(ot), Some(o)) = (output_type.as_ref(), output.as_ref()) {
                    out.append(" ");
                    let probe = ot.format(o.as_str());
                    out.append(probe.as_str());
                }
            },
            SensitivityAnalysisType::Ac => {
                if let (Some(ot), Some(o)) = (output_type.as_ref(), output.as_ref()) {
                    out.append(" ");
                    let probe = ot.format(o.as_str());
                    out.append(probe.as_str());
                    if let (Some(v), Some(n), Some(fa), Some(fb)) = (
                        variation.as_ref(),
                        nx.as_ref(),
                        fstart.as_ref(),
                        fstop.as_ref(),
                    ) {
                        out.append(" ");
                        let vt = v.format();
                        out.append(vt.as_str());
                        out.append(" ");
                        let nt = fmt_i32(*n);
                        out.append(nt.as_str());
                        append_u(&mut out, fa);
                        append_u(&mut out, fb);
                    }
                }
            },
        }
    }
    out.append("\n");
    assert(out@ =~= ".sens"@ + (match analysis_type {
        Some(SensitivityAnalysisType::Dc) => (match (output_type, output) {
            (Some(ot), Some(o)) => " "@ + current_or_voltage_text(ot) + "("@ + o@ + ")"@,
            _ => ""@,
        }),
        Some(SensitivityAnalysisType::Ac) => (match (output_type, output) {
            (Some(ot), Some(o)) => " "@ + current_or_voltage_text(ot) + "("@ + o@ + ")"@ + (
            match (variation, nx, fstart, fstop) {
                (Some(v), Some(n), Some(fa), Some(fb)) => " "@ + variation_text(v) + " "@ + int_rep(
                    *n as int,
                ) + " "@ + crate::element::unit_text(fa) + " "@ + crate::element::unit_text(fb),
                _ => ""@,
            }),
            _ => ""@,
        }),
        None => ""@,
    }) + "\n"@);
    out
}

// ---------------------------------------------------------------------------
// Validating a request into an analysis
// ---------------------------------------------------------------------------

/// Validates one optional magnitude field, naming the field on failure.
fn conv_unit(o: &Option<String>, field: &str) -> (r: Result<Option<UnitOfMagnitude>, SimulatorError>)
    ensures
        match r {
            Ok(ro) => crate::element::chain_is(true, o, &ro),
            Err(e) => crate::element::req_bad(o) && (e
                matches SimulatorError::MalformedSimulationConfig(f) && f@ == field@),
        },
{
    match o {
        Some(s) => match UnitOfMagnitude::from(s.clone()) {
            Ok(u) => Ok(Some(u)),
            Err(_) => Err(SimulatorError::MalformedSimulationConfig(String::from_str(field))),
        },
        None => Ok(None),
    }
}

/// How a wire request validates into an analysis: every magnitude field
/// must parse, checked in field order, and a sensitivity request must
/// name its analysis kind, an AC one with its whole sweep.
pub open spec fn from_config_ok(c: &SimulationConfig, r: &Result<Simulation, SimulatorError>) -> bool {
    match c {
        SimulationConfig::Op {  } => r matches Ok(Simulation::Op),
        SimulationConfig::Tran { tstep, tstop, tstart, tmax, uic } => {
            if crate::element::req_bad(tstep) {
                crate::element::is_malformed(r, "tstep"@)
            } else if crate::element::req_bad(tstop) {
                crate::element::is_malformed(r, "tstop"@)
            } else if crate::element::req_bad(tstart) {
                crate::element::is_malformed(r, "tstart"@)
            } else if crate::element::req_bad(tmax) {
                crate::element::is_malformed(r, "tmax"@)
            } else {
                r matches Ok(Simulation::Tran { tstep: a, tstop: b, tstart: c2, tmax: d, uic: u })
                    && crate::element::chain_is(true, tstep, &a) && crate::element::chain_is(
                    true,
                    tstop,
                    &b,
                ) && crate::element::chain_is(true, tstart, &c2) && crate::element::chain_is(
                    true,
                    tmax,
                    &d,
                ) && u == *uic
            }
        },
        SimulationConfig::Ac { fstart, fstop, variation, nx } => {
            if crate::element::req_bad(fstart) {
                crate::element::is_malformed(r, "fstart"@)
            } else if crate::element::req_bad(fstop) {
                crate::element::is_malformed(r, "fstop"@)
            } else {
                r matches Ok(Simulation::Ac { fstart: a, fstop: b, variation: v, nx: n })
                    && crate::element::chain_is(true, fstart, &a) && crate::element::chain_is(
                    true,
                    fstop,
                    &b,
                ) && v == *variation && n == *nx
            }
        },
        SimulationConfig::Disto { fstart, fstop, variation, nx, f2overf1 } => {
            if crate::element::req_bad(fstart) {
                crate::element::is_malformed(r, "fstart"@)
            } else if crate::element::req_bad(fstop) {
                crate::element::is_malformed(r, "fstop"@)
            } else {
                r matches Ok(
                    Simulation::Disto { fstart: a, fstop: b, variation: v, nx: n, f2overf1: f },
                ) && crate::element::chain_is(true, fstart, &a) && crate::element::chain_is(
                    true,
                    fstop,
                    &b,
                ) && v == *variation && n == *nx && f == *f2overf1
            }
        },
        SimulationConfig::Noise {
            output,
            oref,
            src,
            variation,
            pts,
            fstart,
            fstop,
            pts_per_summary,
        } => {
            if crate::element::req_bad(fstart) {
                crate::element::is_malformed(r, "fstart"@)
            } else if crate::element::req_bad(fstop) {
                crate::element::is_malformed(r, "fstop"@)
            } else {
                r matches Ok(
                    Simulation::Noise {
                        output: o,
                        oref: orf,
                        src: s,
                        variation: v,
                        pts: p,
                        fstart: a,
                        fstop: b,
                        pts_per_summary: pps,
                    },
                ) && o == *output && orf == *oref && s == *src && v == *variation && p == *pts
                    && crate::element::chain_is(true, fstart, &a) && crate::element::chain_is(
                    true,
                    fstop,
                    &b,
                ) && pps == *pts_per_summary
            }
        },
        SimulationConfig::Dc { srcnam, vstart, vstop, vincr, src2, start2, stop2, incr2 } => {
            if crate::element::req_bad(vstart) {
                crate::element::is_malformed(r, "vstart"@)
            } else if crate::element::req_bad(vstop) {
                crate::element::is_malformed(r, "vstop"@)
            } else if crate::element::req_bad(vincr) {
                crate::element::is_malformed(r, "vincr"@)
            } else if crate::element::req_bad(start2) {
                crate::element::is_malformed(r, "start2"@)
            } else if crate::element::req_bad(stop2) {
                crate::element::is_malformed(r, "stop2"@)
            } else if crate::element::req_bad(incr2) {
                crate::element::is_malformed(r, "incr2"@)
            } else {
                r matches Ok(
                    Simulation::Dc {
                        srcnam: sn,
                        vstart: a,
                        vstop: b,
                        vincr: c2,
                        src2: s2,
                        start2: d,
                        stop2: e,
                        incr2: f,
                    },
                ) && sn == *srcnam && crate::element::chain_is(true, vstart, &a)
                    && crate::element::chain_is(true, vstop, &b) && crate::element::chain_is(
                    true,
                    vincr,
                    &c2,
                ) && s2 == *src2 && crate::element::chain_is(true, start2, &d)
                    && crate::element::chain_is(true, stop2, &e) && crate::element::chain_is(
                    true,
                    incr2,
                    &f,
                )
            }
        },
        SimulationConfig::Pz { node1, node2, node3, node4, transfer_function, analysis_type } => {
            r matches Ok(
                Simulation::Pz {
                    node1: a,
                    node2: b,
                    node3: c2,
                    node4: d,
                    transfer_function: tf,
                    analysis_type: at,
                },
            ) && a == *node1 && b == *node2 && c2 == *node3 && d == *node4 && tf
                == *transfer_function && at == *analysis_type
        },
        SimulationConfig::Sens { output_type, output, analysis_type, fstart, fstop, variation, nx } => {
            match analysis_type {
                None => crate::element::is_malformed(r, "analysis_type"@),
                Some(SensitivityAnalysisType::Dc) => r matches Ok(
                    Simulation::Sens {
                        output_type: ot,
                        output: o,
                        analysis_type: at,
                        fstart: a,
                        fstop: b,
                        variation: v,
                        nx: n,
                    },
                ) && ot == *output_type && o == *output && (at matches Some(
                    SensitivityAnalysisType::Dc,
                )) && a is None && b is None && v is None && n is None,
                Some(SensitivityAnalysisType::Ac) => {
                    if fstart is None || fstop is None || variation is None || nx is None {
                        crate::element::is_malformed(r, "sens ac parameters"@)
                    } else if crate::element::req_bad(fstart) {
                        crate::element::is_malformed(r, "fstart"@)
                    } else if crate::element::req_bad(fstop) {
                        crate::element::is_malformed(r, "fstop"@)
                    } else {
                        r matches Ok(
                            Simulation::Sens {
                                output_type: ot,
                                output: o,
                                analysis_type: at,
                                fstart: a,
                                fstop: b,
                                variation: v,
                                nx: n,
                            },
                        ) && ot == *output_type && o == *output && (at matches Some(
                            SensitivityAnalysisType::Ac,
                        )) && crate::element::chain_is(true, fstart, &a) && a is Some
                            && crate::element::chain_is(true, fstop, &b) && b is Some && v
                            == *variation && n == *nx
                    }
                },
            }
        },
    }
}

impl Simulation {
    /// Validates a wire request into an analysis, naming the first field
    /// that fails.
    #[verifier::rlimit(100)]
    pub fn from_config(config: SimulationConfig) -> (r: Result<Simulation, SimulatorError>)
        ensures
            from_config_ok(&config, &r),
    {
        match config {
            SimulationConfig::Op {  } => Ok(Simulation::Op),
            SimulationConfig::Tran { tstep, tstop, tstart, tmax, uic } => {
                let a = conv_unit(&tstep, "tstep")?;
                let b = conv_unit(&tstop, "tstop")?;
                let c = conv_unit(&tstart, "tstart")?;
                let d = conv_unit(&tmax, "tmax")?;
                Ok(Simulation::Tran { tstep: a, tstop: b, tstart: c, tmax: d, uic })
            },
            SimulationConfig::Ac { fstart, fstop, variation, nx } => {
                let a = conv_unit(&fstart, "fstart")?;
                let b = conv_unit(&fstop, "fstop")?;
                Ok(Simulation::Ac { fstart: a, fstop: b, variation, nx })
            },
            SimulationConfig::Disto { fstart, fstop, variation, nx, f2overf1 } => {
                let a = conv_unit(&fstart, "fstart")?;
                let b = conv_unit(&fstop, "fstop")?;
                Ok(Simulation::Disto { fstart: a, fstop: b, variation, nx, f2overf1 })
            },
            SimulationConfig::Noise {
                output,
                oref,
                src,
                variation,
                pts,
                fstart,
                fstop,
                pts_per_summary,
            } => {
                let a = conv_unit(&fstart, "fstart")?;
                let b = conv_unit(&fstop, "fstop")?;
                Ok(
                    Simulation::Noise {
                        output,
                        oref,
                        src,
                        variation,
                        pts,
                        fstart: a,
                        fstop: b,
                        pts_per_summary,
                    },
                )
            },
            SimulationConfig::Dc { srcnam, vstart, vstop, vincr, src2, start2, stop2, incr2 } => {
                let a = conv_unit(&vstart, "vstart")?;
                let b = conv_unit(&vstop, "vstop")?;
                let c = conv_unit(&vincr, "vincr")?;
                let d = conv_unit(&start2, "start2")?;
                let e = conv_unit(&stop2, "stop2")?;
                let f = conv_unit(&incr2, "incr2")?;
                Ok(
                    Simulation::Dc {
                        srcnam,
                        vstart: a,
                        vstop: b,
                        vincr: c,
                        src2,
                        start2: d,
                        stop2: e,
                        incr2: f,
                    },
                )
            },
            SimulationConfig::Pz { node1, node2, node3, node4, transfer_function, analysis_type } => {
                Ok(Simulation::Pz { node1, node2, node3, node4, transfer_function, analysis_type })
            },
            SimulationConfig::Sens {
                output_type,
                output,
                analysis_type,
                fstart,
                fstop,
                variation,
                nx,
            } => match analysis_type {
                None => Err(
                    SimulatorError::MalformedSimulationConfig(String::from_str("analysis_type")),
                ),
                Some(SensitivityAnalysisType::Dc) => Ok(
                    Simulation::Sens {
                        output_type,
                        output,
                        analysis_type: Some(SensitivityAnalysisType::Dc),
                        fstart: None,
                        fstop: None,
                        variation: None,
                        nx: None,
                    },
                ),
                Some(SensitivityAnalysisType::Ac) => {
                    if fstart.is_none() || fstop.is_none() || variation.is_none() || nx.is_none() {
                        return Err(
                            SimulatorError::MalformedSimulationConfig(
                                String::from_str("sens ac parameters"),
                            ),
                        );
                    }
                    let a = conv_unit(&fstart, "fstart")?;
                    let b = conv_unit(&fstop, "fstop")?;
                    Ok(
                        Simulation::Sens {
                            output_type,
                            output,
                            analysis_type: Some(SensitivityAnalysisType::Ac),
                            fstart: a,
                            fstop: b,
                            variation,
                            nx,
                        },
                    )
                },
            },
        }
    }
}

} // verus!
