//! The symbol vocabulary of the LTSpice-style schematic dialect: rotations,
//! symbol kinds, transforms and symbol attributes, together with the port
//! geometry of each supported symbol.

use vstd::prelude::*;

use crate::position::Position;
use crate::text::{ci_matches, contains_seq, contains_str, eq_ignore_case, replace_all,
    replace_seq, seg_len, str_eq};

verus! {

#[derive(Debug, Clone)]
pub enum Rotation {
    Zero,
    Ninety,
    OneEighty,
    TwoSeventy,
}

impl Rotation {
    /// Reads a rotation from its angle in degrees; anything unrecognized
    /// is the zero rotation.
    pub fn from_number(n: i32) -> (r: Self)
        ensures
            r == (if n == 90 {
                Rotation::Ninety
            } else if n == 180 {
                Rotation::OneEighty
            } else if n == 270 {
                Rotation::TwoSeventy
            } else {
                Rotation::Zero
            }),
    {
        match n {
            90 => Rotation::Ninety,
            180 => Rotation::OneEighty,
            270 => Rotation::TwoSeventy,
            _ => Rotation::Zero,
        }
    }

    /// The angle of the rotation in degrees.
    pub fn as_number(&self) -> (r: i32)
        ensures
            r == (match self {
                Rotation::Zero => 0int,
                Rotation::Ninety => 90int,
                Rotation::OneEighty => 180int,
                Rotation::TwoSeventy => 270int,
            }),
    {
        match self {
            Rotation::Zero => 0,
            Rotation::Ninety => 90,
            Rotation::OneEighty => 180,
            Rotation::TwoSeventy => 270,
        }
    }
}

#[derive(Debug, Clone)]
pub enum SymType {
    Cap,
    Res,
    Ind,
    Voltage,
    Current,
    Ground,
    Npn,
    Pnp,
}

/// Which symbol kind a name denotes, compared without regard to case;
/// anything unrecognized is read as a ground symbol.
pub open spec fn sym_type_model(s: Seq<char>) -> SymType {
    if ci_matches(s, "cap"@) {
        SymType::Cap
    } else if ci_matches(s, "res"@) {
        SymType::Res
    } else if ci_matches(s, "ind"@) {
        SymType::Ind
    } else if ci_matches(s, "voltage"@) {
        SymType::Voltage
    } else if ci_matches(s, "current"@) {
        SymType::Current
    } else if ci_matches(s, "npn"@) {
        SymType::Npn
    } else if ci_matches(s, "pnp"@) {
        SymType::Pnp
    } else {
        SymType::Ground
    }
}

impl SymType {
    pub fn from_str(s: &str) -> (r: Self)
        ensures
            r == sym_type_model(s@),
    {
        if eq_ignore_case(s, "cap") {
            SymType::Cap
        } else if eq_ignore_case(s, "res") {
            SymType::Res
        } else if eq_ignore_case(s, "ind") {
            SymType::Ind
        } else if eq_ignore_case(s, "voltage") {
            SymType::Voltage
        } else if eq_ignore_case(s, "current") {
            SymType::Current
        } else if eq_ignore_case(s, "npn") {
            SymType::Npn
        } else if eq_ignore_case(s, "pnp") {
            SymType::Pnp
        } else {
            SymType::Ground
        }
    }
}

/// Which rotation a transform text denotes once mirror markers are gone;
/// anything unrecognized keeps the zero rotation.
pub open spec fn rotation_model(s: Seq<char>) -> Rotation {
    if s == "R0"@ {
        Rotation::Zero
    } else if s == "R90"@ {
        Rotation::Ninety
    } else if s == "R180"@ {
        Rotation::OneEighty
    } else if s == "R270"@ {
        Rotation::TwoSeventy
    } else {
        Rotation::Zero
    }
}

#[derive(Debug, Clone)]
pub struct SymTransform {
    pub rotation: Rotation,
    pub mirrored: bool,
}

impl SymTransform {
    pub fn new() -> (r: Self)
        ensures
            r.rotation is Zero,
            !r.mirrored,
    {
        Self { rotation: Rotation::Zero, mirrored: false }
    }

    /// Reads a transform such as `R90` or `MR180`: a mirror marker `M`
    /// anywhere, and the rotation from the remaining text.
    pub fn from_str(s: &str) -> (r: Self)
        ensures
            r.mirrored == contains_seq(s@, "M"@),
            r.rotation == rotation_model(replace_seq(s@, "M"@, ""@)),
    {
        let mirrored = contains_str(s, "M");
        proof {
            reveal_strlit("M");
        }
        let cleaned = replace_all(s, "M", "");
        let rotation = if str_eq(cleaned.as_str(), "R0") {
            Rotation::Zero
        } else if str_eq(cleaned.as_str(), "R90") {
            Rotation::Ninety
        } else if str_eq(cleaned.as_str(), "R180") {
            Rotation::OneEighty
        } else if str_eq(cleaned.as_str(), "R270") {
            Rotation::TwoSeventy
        } else {
            Rotation::Zero
        };
        SymTransform { rotation, mirrored }
    }
}

#[derive(Debug, Clone)]
pub enum SymbolAttribute {
    InstName(String),
    SpiceModel(String),
    Value(String),
    Value2(String),
    SpiceLine(String),
    SpiceLine2(String),
}

/// How one attribute line is read: the `SYMATTR ` marker is removed, the
/// first space splits the attribute name from its value, and a recognized
/// name picks the variant holding that value.
pub open spec fn symbol_attribute_ok(s: Seq<char>, r: Option<SymbolAttribute>) -> bool {
    let t = replace_seq(s, "SYMATTR "@, ""@);
    let k = seg_len(t, 0, ' ') as int;
    if k < t.len() {
        let name = t.take(k);
        let value = t.skip(k + 1);
        match r {
            Some(SymbolAttribute::InstName(v)) => name == "InstName"@ && v@ == value,
            Some(SymbolAttribute::SpiceModel(v)) => name == "SpiceModel"@ && v@ == value,
            Some(SymbolAttribute::Value(v)) => name == "Value"@ && v@ == value,
            Some(SymbolAttribute::Value2(v)) => name == "Value2"@ && v@ == value,
            Some(SymbolAttribute::SpiceLine(v)) => name == "SpiceLine"@ && v@ == value,
            Some(SymbolAttribute::SpiceLine2(v)) => name == "SpiceLine2"@ && v@ == value,
            None => name != "InstName"@ && name != "SpiceModel"@ && name != "Value"@ && name
                != "Value2"@ && name != "SpiceLine"@ && name != "SpiceLine2"@,
        }
    } else {
        r is None
    }
}

impl SymbolAttribute {
    pub fn from_str(s: &str) -> (r: Option<Self>)
        ensures
            symbol_attribute_ok(s@, r),
    {
        proof {
            reveal_strlit("SYMATTR ");
        }
        let attribute = replace_all(s, "SYMATTR ", "");
        let t = attribute.as_str();
        let ghost tv = t@;
        let k = crate::text::find_char(t, ' ');
        match k {
            Some(k) => {
                proof {
                    crate::text::lemma_seg_len_value(tv, 0, k as int, ' ');
                }
                let name = t.substring_char(0, k);
                let n = t.unicode_len();
                let value = t.substring_char(k + 1, n);
                assert(name@ =~= tv.take(k as int));
                assert(value@ =~= tv.skip(k + 1));
                if str_eq(name, "InstName") {
                    Some(SymbolAttribute::InstName(String::from_str(value)))
                } else if str_eq(name, "SpiceModel") {
                    Some(SymbolAttribute::SpiceModel(String::from_str(value)))
                } else if str_eq(name, "Value") {
                    Some(SymbolAttribute::Value(String::from_str(value)))
                } else if str_eq(name, "Value2") {
                    Some(SymbolAttribute::Value2(String::from_str(value)))
                } else if str_eq(name, "SpiceLine") {
                    Some(SymbolAttribute::SpiceLine(String::from_str(value)))
                } else if str_eq(name, "SpiceLine2") {
                    Some(SymbolAttribute::SpiceLine2(String::from_str(value)))
                } else {
                    None
                }
            },
            None => {
                proof {
                    crate::text::lemma_seg_len_value(tv, 0, tv.len() as int, ' ');
                }
                None
            },
        }
    }
}

/// The port geometry of one symbol: its ports in netlist order, the
/// offset to the symbol origin, and its default rotation.
pub enum LTSpicePorts {
    Resistor(Position, Position, Position, Rotation),
    Capacitor(Position, Position, Position, Rotation),
    Inductor(Position, Position, Position, Rotation),
    Ground(Position),
    Bjt(Position, Position, Position, Position, Rotation),
    VoltagePowerSupply(Position, Position, Position, Rotation),
    CurrentPowerSupply(Position, Position, Position, Rotation),
}

/// The value of one `key=value` parameter among the tokens, compared
/// without regard to case; when a key repeats, the last one wins.
pub open spec fn param_value(toks: Seq<Seq<char>>, key: Seq<char>) -> Option<Seq<char>>
    decreases toks.len(),
{
    if toks.len() == 0 {
        None
    } else {
        let t = toks.last();
        let k = seg_len(t, 0, '=') as int;
        if k < t.len() && ci_matches(t.take(k), key) {
            Some(t.skip(k + 1))
        } else {
            param_value(toks.drop_last(), key)
        }
    }
}

/// A device-model parameter is kept exactly when its text is present
/// and parses as a magnitude.
pub open spec fn param_unit_ok(
    ru: &Option<crate::unit::UnitOfMagnitude>,
    ov: Option<Seq<char>>,
) -> bool {
    match ov {
        Some(txt) => match crate::unit::parse_model(txt) {
            Some(v) => ru matches Some(u) && u@ == v,
            None => ru is None,
        },
        None => ru is None,
    }
}

/// How a whole `.model` directive is read: the text before the first
/// parenthesis must hold the directive word, a name and a polarity; the
/// text after it holds the `key=value` parameters, closing marks
/// dropped.
pub open spec fn bjt_directive_ok(model: Seq<char>, r: &Option<crate::element::BjtModel>) -> bool {
    let fields = crate::text::split_fields(model, '(');
    if fields.len() < 2 {
        r is None
    } else {
        let t0 = crate::text::ws_tokens(fields[0]);
        if t0.len() < 3 {
            r is None
        } else {
            let well_formed = ci_matches(t0[0], ".model"@) && t0[1].len() > 0 && (ci_matches(
                t0[2],
                "npn"@,
            ) || ci_matches(t0[2], "pnp"@));
            if !well_formed {
                r is None
            } else {
                let p = crate::text::ws_tokens(
                    crate::text::replace_seq(fields[1], ")"@, ""@),
                );
                r matches Some(m) && m.name@ == t0[1] && (m.polarity is Npn <==> ci_matches(
                    t0[2],
                    "npn"@,
                )) && param_unit_ok(&m.is, param_value(p, "is"@)) && param_unit_ok(
                    &m.xti,
                    param_value(p, "xti"@),
                ) && param_unit_ok(&m.eg, param_value(p, "eg"@)) && param_unit_ok(
                    &m.vaf,
                    param_value(p, "vaf"@),
                ) && param_unit_ok(&m.bf, param_value(p, "bf"@)) && param_unit_ok(
                    &m.ise,
                    param_value(p, "ise"@),
                ) && param_unit_ok(&m.ne, param_value(p, "ne"@)) && param_unit_ok(
                    &m.ikf,
                    param_value(p, "ikf"@),
                ) && param_unit_ok(&m.nk, param_value(p, "nk"@)) && param_unit_ok(
                    &m.xtb,
                    param_value(p, "xtb"@),
                ) && param_unit_ok(&m.br, param_value(p, "br"@)) && param_unit_ok(
                    &m.isc,
                    param_value(p, "isc"@),
                ) && param_unit_ok(&m.nc, param_value(p, "nc"@)) && param_unit_ok(
                    &m.ikr,
                    param_value(p, "ikr"@),
                ) && param_unit_ok(&m.rc, param_value(p, "rc"@)) && param_unit_ok(
                    &m.cjc,
                    param_value(p, "cjc"@),
                ) && param_unit_ok(&m.mjc, param_value(p, "mjc"@)) && param_unit_ok(
                    &m.vjc,
                    param_value(p, "vjc"@),
                ) && param_unit_ok(&m.fc, param_value(p, "fc"@)) && param_unit_ok(
                    &m.cje,
                    param_value(p, "cje"@),
                ) && param_unit_ok(&m.mje, param_value(p, "mje"@)) && param_unit_ok(
                    &m.vje,
                    param_value(p, "vje"@),
                ) && param_unit_ok(&m.tr, param_value(p, "tr"@)) && param_unit_ok(
                    &m.tf,
                    param_value(p, "tf"@),
                ) && param_unit_ok(&m.itf, param_value(p, "itf"@)) && param_unit_ok(
                    &m.xtf,
                    param_value(p, "xtf"@),
                ) && param_unit_ok(&m.vtf, param_value(p, "vtf"@)) && param_unit_ok(
                    &m.rb,
                    param_value(p, "rb"@),
                )
            }
        }
    }
}

#[verifier::loop_isolation(false)]
fn find_param(tokens: &Vec<String>, key: &str) -> (r: Option<String>)
    ensures
        match r {
            Some(s) => param_value(tokens@.map_values(|t: String| t@), key@) == Some(s@),
            None => param_value(tokens@.map_values(|t: String| t@), key@) is None,
        },
{
    let ghost toks = tokens@.map_values(|t: String| t@);
    let mut i: usize = tokens.len();
    proof {
        assert(toks.take(tokens.len() as int) =~= toks);
    }
    while i > 0
        invariant
            0 <= i <= tokens.len(),
            param_value(toks, key@) == param_value(toks.take(i as int), key@),
        decreases i,
    {
        proof {
            assert(toks.take(i as int).last() == toks[i - 1]);
            assert(toks.take(i as int).drop_last() =~= toks.take(i - 1));
        }
        let t = tokens[i - 1].as_str();
        let n = t.unicode_len();
        match crate::text::find_char(t, '=') {
            Some(k) => {
                proof {
                    crate::text::lemma_seg_len_value(t@, 0, k as int, '=');
                }
                let head = t.substring_char(0, k);
                assert(head@ =~= t@.take(k as int));
                if eq_ignore_case(head, key) {
                    let tail = t.substring_char(k + 1, n);
                    assert(tail@ =~= t@.skip(k + 1));
                    return Some(String::from_str(tail));
                }
            },
            None => {
                proof {
                    crate::text::lemma_seg_len_value(t@, 0, t@.len() as int, '=');
                }
            },
        }
        i -= 1;
    }
    None
}

fn param_unit(tokens: &Vec<String>, key: &str) -> (r: Option<crate::unit::UnitOfMagnitude>)
    ensures
        param_unit_ok(&r, param_value(tokens@.map_values(|t: String| t@), key@)),
{
    match find_param(tokens, key) {
        Some(s) => match crate::unit::UnitOfMagnitude::from(s) {
            Ok(u) => Some(u),
            Err(_) => None,
        },
        None => None,
    }
}

/// Reads a whole `.model` directive into a typed device model: the
/// directive word, the model name and its polarity before the first
/// parenthesis, and each recognized `key=value` parameter after it.
#[verifier::rlimit(100)]
pub fn bjt_model_to_domain(model: &str) -> (r: Option<crate::element::BjtModel>)
    ensures
        bjt_directive_ok(model@, &r),
{
    let fields = crate::text::split_char(model, '(');
    if fields.len() < 2 {
        return None;
    }
    proof {
        assert(fields@.map_values(|t: String| t@)[0] == fields@[0]@);
        assert(fields@.map_values(|t: String| t@)[1] == fields@[1]@);
    }
    let head_tokens = crate::text::split_ws(fields[0].as_str());
    if head_tokens.len() < 3 {
        return None;
    }
    proof {
        assert(head_tokens@.map_values(|t: String| t@)[0] == head_tokens@[0]@);
        assert(head_tokens@.map_values(|t: String| t@)[1] == head_tokens@[1]@);
        assert(head_tokens@.map_values(|t: String| t@)[2] == head_tokens@[2]@);
        reveal_strlit(")");
    }
    let directive = head_tokens[0].as_str();
    let name = head_tokens[1].as_str();
    let polarity = head_tokens[2].as_str();
    let is_npn = eq_ignore_case(polarity, "npn");
    let is_pnp = eq_ignore_case(polarity, "pnp");
    if !(eq_ignore_case(directive, ".model") && name.unicode_len() > 0 && (is_npn || is_pnp)) {
        return None;
    }
    let clean = crate::text::replace_all(fields[1].as_str(), ")", "");
    let p = crate::text::split_ws(clean.as_str());
    Some(
        crate::element::BjtModel {
            name: String::from_str(name),
            polarity: if is_npn {
                crate::element::BjtPolarity::Npn
            } else {
                crate::element::BjtPolarity::Pnp
            },
            is: param_unit(&p, "is"),
            xti: param_unit(&p, "xti"),
            eg: param_unit(&p, "eg"),
            vaf: param_unit(&p, "vaf"),
            bf: param_unit(&p, "bf"),
            ise: param_unit(&p, "ise"),
            ne: param_unit(&p, "ne"),
            ikf: param_unit(&p, "ikf"),
            nk: param_unit(&p, "nk"),
            xtb: param_unit(&p, "xtb"),
            br: param_unit(&p, "br"),
            isc: param_unit(&p, "isc"),
            nc: param_unit(&p, "nc"),
            ikr: param_unit(&p, "ikr"),
            rc: param_unit(&p, "rc"),
            cjc: param_unit(&p, "cjc"),
            mjc: param_unit(&p, "mjc"),
            vjc: param_unit(&p, "vjc"),
            fc: param_unit(&p, "fc"),
            cje: param_unit(&p, "cje"),
            mje: param_unit(&p, "mje"),
            vje: param_unit(&p, "vje"),
            tr: param_unit(&p, "tr"),
            tf: param_unit(&p, "tf"),
            itf: param_unit(&p, "itf"),
            xtf: param_unit(&p, "xtf"),
            vtf: param_unit(&p, "vtf"),
            rb: param_unit(&p, "rb"),
        },
    )
}

} // verus!
