//! Engineering-notation unit values: a numeric magnitude together with a
//! decimal prefix, parsed from and formatted to text such as `4.7K` or
//! `100n`.  Parsing tries the recognized suffixes in a fixed priority
//! order, the most specific spelling first, and falls back to a bare
//! numeric literal; formatting appends the canonical suffix spelling.

use vstd::prelude::*;

use crate::text::{check_numeric, ci_matches, is_numeric, lower_char, lemma_numeric_chars,
    lemma_numeric_last, is_digit};

verus! {

#[derive(Clone, Copy, PartialEq, Eq, Structural, Debug)]
pub enum Prefix {
    Tera,
    Giga,
    Mega,
    Kilo,
    Mil,
    Mili,
    Micro,
    Nano,
    Pico,
    Femto,
    Base,
}

/// The mathematical model of a unit value: a prefix and the text of its
/// numeric magnitude.
#[verifier::ext_equal]
pub ghost struct UnitView {
    pub prefix: Prefix,
    pub base: Seq<char>,
}

#[derive(Debug)]
pub enum UnitOfMagnitudeError {
    FailedToParseBase,
    IncorrectValuePassed,
    InvalidUnitOfMagnitude,
    IncorrectMagnitudePassed,
}

/// A magnitude with a decimal prefix.  Each variant stores the text of the
/// numeric base value; a well-formed value's text satisfies the
/// numeric-literal grammar.
#[derive(Clone, Debug)]
pub enum UnitOfMagnitude {
    Tera(String),
    Giga(String),
    Mega(String),
    Kilo(String),
    Mil(String),
    Mili(String),
    Micro(String),
    Nano(String),
    Pico(String),
    Femto(String),
    Base(String),
}

impl View for UnitOfMagnitude {
    type V = UnitView;

    open spec fn view(&self) -> UnitView {
        match self {
            UnitOfMagnitude::Tera(b) => UnitView { prefix: Prefix::Tera, base: b@ },
            UnitOfMagnitude::Giga(b) => UnitView { prefix: Prefix::Giga, base: b@ },
            UnitOfMagnitude::Mega(b) => UnitView { prefix: Prefix::Mega, base: b@ },
            UnitOfMagnitude::Kilo(b) => UnitView { prefix: Prefix::Kilo, base: b@ },
            UnitOfMagnitude::Mil(b) => UnitView { prefix: Prefix::Mil, base: b@ },
            UnitOfMagnitude::Mili(b) => UnitView { prefix: Prefix::Mili, base: b@ },
            UnitOfMagnitude::Micro(b) => UnitView { prefix: Prefix::Micro, base: b@ },
            UnitOfMagnitude::Nano(b) => UnitView { prefix: Prefix::Nano, base: b@ },
            UnitOfMagnitude::Pico(b) => UnitView { prefix: Prefix::Pico, base: b@ },
            UnitOfMagnitude::Femto(b) => UnitView { prefix: Prefix::Femto, base: b@ },
            UnitOfMagnitude::Base(b) => UnitView { prefix: Prefix::Base, base: b@ },
        }
    }
}

/// The canonical suffix spelling of each prefix.
pub open spec fn suffix_chars(p: Prefix) -> Seq<char> {
    match p {
        Prefix::Tera => seq!['T'],
        Prefix::Giga => seq!['G'],
        Prefix::Mega => seq!['M', 'e', 'g'],
        Prefix::Kilo => seq!['K'],
        Prefix::Mil => seq!['m', 'i', 'l'],
        Prefix::Mili => seq!['m'],
        Prefix::Micro => seq!['u'],
        Prefix::Nano => seq!['n'],
        Prefix::Pico => seq!['p'],
        Prefix::Femto => seq!['f'],
        Prefix::Base => Seq::empty(),
    }
}

/// The input ends, up to ASCII case, with the given suffix, and what
/// precedes the suffix is a numeric literal.
pub open spec fn suffix_fits(s: Seq<char>, suf: Seq<char>) -> bool {
    &&& s.len() >= suf.len()
    &&& ci_matches(s.skip(s.len() - suf.len()), suf)
    &&& is_numeric(s.take(s.len() - suf.len()))
}

pub open spec fn head_of(s: Seq<char>, suf: Seq<char>) -> Seq<char> {
    s.take(s.len() - suf.len())
}

/// What parsing returns on a given input: suffixes are tried in priority
/// order, then the bare numeric fallback; `None` when nothing matches.
pub open spec fn parse_model(s: Seq<char>) -> Option<UnitView> {
    if suffix_fits(s, suffix_chars(Prefix::Tera)) {
        Some(UnitView { prefix: Prefix::Tera, base: head_of(s, suffix_chars(Prefix::Tera)) })
    } else if suffix_fits(s, suffix_chars(Prefix::Giga)) {
        Some(UnitView { prefix: Prefix::Giga, base: head_of(s, suffix_chars(Prefix::Giga)) })
    } else if suffix_fits(s, suffix_chars(Prefix::Mega)) {
        Some(UnitView { prefix: Prefix::Mega, base: head_of(s, suffix_chars(Prefix::Mega)) })
    } else if suffix_fits(s, suffix_chars(Prefix::Kilo)) {
        Some(UnitView { prefix: Prefix::Kilo, base: head_of(s, suffix_chars(Prefix::Kilo)) })
    } else if suffix_fits(s, suffix_chars(Prefix::Mil)) {
        Some(UnitView { prefix: Prefix::Mil, base: head_of(s, suffix_chars(Prefix::Mil)) })
    } else if suffix_fits(s, suffix_chars(Prefix::Mili)) {
        Some(UnitView { prefix: Prefix::Mili, base: head_of(s, suffix_chars(Prefix::Mili)) })
    } else if suffix_fits(s, suffix_chars(Prefix::Micro)) {
        Some(UnitView { prefix: Prefix::Micro, base: head_of(s, suffix_chars(Prefix::Micro)) })
    } else if suffix_fits(s, suffix_chars(Prefix::Nano)) {
        Some(UnitView { prefix: Prefix::Nano, base: head_of(s, suffix_chars(Prefix::Nano)) })
    } else if suffix_fits(s, suffix_chars(Prefix::Pico)) {
        Some(UnitView { prefix: Prefix::Pico, base: head_of(s, suffix_chars(Prefix::Pico)) })
    } else if suffix_fits(s, suffix_chars(Prefix::Femto)) {
        Some(UnitView { prefix: Prefix::Femto, base: head_of(s, suffix_chars(Prefix::Femto)) })
    } else if is_numeric(s) {
        Some(UnitView { prefix: Prefix::Base, base: s })
    } else {
        None
    }
}

/// What formatting produces: the base text followed by the canonical
/// suffix spelling.
pub open spec fn format_spec(u: UnitView) -> Seq<char> {
    u.base + suffix_chars(u.prefix)
}

fn try_suffix(s: &str, suf: &str) -> (r: Option<String>)
    requires
        suf@.len() > 0,
    ensures
        match r {
            Some(h) => suffix_fits(s@, suf@) && h@ == head_of(s@, suf@),
            None => !suffix_fits(s@, suf@),
        },
{
    let n = s.unicode_len();
    let m = suf.unicode_len();
    if n < m {
        return None;
    }
    let mut i: usize = 0;
    #[verifier::loop_isolation(false)]
    while i < m
        invariant
            0 <= i <= m,
            forall|j: int| 0 <= j < i ==> lower_char(#[trigger] s@[n - m + j]) == lower_char(suf@[j]),
        decreases m - i,
    {
        let a = crate::text::to_lower(s.get_char(n - m + i));
        let b = crate::text::to_lower(suf.get_char(i));
        if a != b {
            proof {
                assert(s@.skip(n - m)[i as int] == s@[n - m + i]);
            }
            return None;
        }
        i += 1;
    }
    proof {
        assert forall|j: int| 0 <= j < m implies lower_char(#[trigger] s@.skip(n - m)[j])
            == lower_char(suf@[j]) by {
            assert(s@.skip(n - m)[j] == s@[n - m + j]);
        }
        assert(ci_matches(s@.skip(n - m), suf@));
    }
    let head = s.substring_char(0, n - m);
    assert(head@ =~= head_of(s@, suf@));
    if check_numeric(head) {
        Some(String::from_str(head))
    } else {
        None
    }
}

impl UnitOfMagnitude {
    /// A unit value is well formed when its base text is a numeric
    /// literal, which is exactly what parsing ever constructs.
    pub open spec fn wf(&self) -> bool {
        is_numeric(self@.base)
    }

    /// Parses engineering notation.  Every recognized suffix is tried in
    /// priority order, the bare numeric literal last; any other input is
    /// rejected with `InvalidUnitOfMagnitude`.
    pub fn from(formatted: String) -> (r: Result<UnitOfMagnitude, UnitOfMagnitudeError>)
        ensures
            match r {
                Ok(u) => parse_model(formatted@) == Some(u@) && u.wf(),
                Err(e) => parse_model(formatted@) is None && e is InvalidUnitOfMagnitude,
            },
    {
        let s = formatted.as_str();
        proof {
            reveal_strlit("T");
            reveal_strlit("G");
            reveal_strlit("Meg");
            reveal_strlit("K");
            reveal_strlit("mil");
            reveal_strlit("m");
            reveal_strlit("u");
            reveal_strlit("n");
            reveal_strlit("p");
            reveal_strlit("f");
            assert("T"@ =~= suffix_chars(Prefix::Tera));
            assert("G"@ =~= suffix_chars(Prefix::Giga));
            assert("Meg"@ =~= suffix_chars(Prefix::Mega));
            assert("K"@ =~= suffix_chars(Prefix::Kilo));
            assert("mil"@ =~= suffix_chars(Prefix::Mil));
            assert("m"@ =~= suffix_chars(Prefix::Mili));
            assert("u"@ =~= suffix_chars(Prefix::Micro));
            assert("n"@ =~= suffix_chars(Prefix::Nano));
            assert("p"@ =~= suffix_chars(Prefix::Pico));
            assert("f"@ =~= suffix_chars(Prefix::Femto));
        }
        if let Some(h) = try_suffix(s, "T") {
            return Ok(UnitOfMagnitude::Tera(h));
        }
        if let Some(h) = try_suffix(s, "G") {
            return Ok(UnitOfMagnitude::Giga(h));
        }
        if let Some(h) = try_suffix(s, "Meg") {
            return Ok(UnitOfMagnitude::Mega(h));
        }
        if let Some(h) = try_suffix(s, "K") {
            return Ok(UnitOfMagnitude::Kilo(h));
        }
        if let Some(h) = try_suffix(s, "mil") {
            return Ok(UnitOfMagnitude::Mil(h));
        }
        if let Some(h) = try_suffix(s, "m") {
            return Ok(UnitOfMagnitude::Mili(h));
        }
        if let Some(h) = try_suffix(s, "u") {
            return Ok(UnitOfMagnitude::Micro(h));
        }
        if let Some(h) = try_suffix(s, "n") {
            return Ok(UnitOfMagnitude::Nano(h));
        }
        if let Some(h) = try_suffix(s, "p") {
            return Ok(UnitOfMagnitude::Pico(h));
        }
        if let Some(h) = try_suffix(s, "f") {
            return Ok(UnitOfMagnitude::Femto(h));
        }
        if check_numeric(s) {
            return Ok(UnitOfMagnitude::Base(formatted));
        }
        Err(UnitOfMagnitudeError::InvalidUnitOfMagnitude)
    }

    /// Formats the value as its base text followed by the canonical
    /// suffix spelling.
    pub fn format(&self) -> (r: String)
        ensures
            r@ == format_spec(self@),
    {
        proof {
            reveal_strlit("T");
            reveal_strlit("G");
            reveal_strlit("Meg");
            reveal_strlit("K");
            reveal_strlit("mil");
            reveal_strlit("m");
            reveal_strlit("u");
            reveal_strlit("n");
            reveal_strlit("p");
            reveal_strlit("f");
        }
        let r = match self {
            UnitOfMagnitude::Tera(b) => b.clone().concat("T"),
            UnitOfMagnitude::Giga(b) => b.clone().concat("G"),
            UnitOfMagnitude::Mega(b) => b.clone().concat("Meg"),
            UnitOfMagnitude::Kilo(b) => b.clone().concat("K"),
            UnitOfMagnitude::Mil(b) => b.clone().concat("mil"),
            UnitOfMagnitude::Mili(b) => b.clone().concat("m"),
            UnitOfMagnitude::Micro(b) => b.clone().concat("u"),
            UnitOfMagnitude::Nano(b) => b.clone().concat("n"),
            UnitOfMagnitude::Pico(b) => b.clone().concat("p"),
            UnitOfMagnitude::Femto(b) => b.clone().concat("f"),
            UnitOfMagnitude::Base(b) => b.clone(),
        };
        assert(r@ =~= format_spec(self@));
        r
    }
}

/// No suffix can fit when its last character differs, up to case, from the
/// input's last character.
proof fn lemma_no_fit_by_last(s: Seq<char>, suf: Seq<char>)
    requires
        suf.len() > 0,
        s.len() >= suf.len() ==> lower_char(s.last()) != lower_char(suf.last()),
    ensures
        !suffix_fits(s, suf),
{
    if s.len() >= suf.len() {
        if ci_matches(s.skip(s.len() - suf.len()), suf) {
            assert(s.skip(s.len() - suf.len())[suf.len() - 1] == s.last());
        }
    }
}

/// A string that contains a character foreign to the numeric grammar is
/// not numeric.
proof fn lemma_not_numeric_at(s: Seq<char>, i: int)
    requires
        0 <= i < s.len(),
        !is_digit(s[i]),
        s[i] != '.' && s[i] != '+' && s[i] != '-' && s[i] != 'e' && s[i] != 'E',
    ensures
        !is_numeric(s),
{
    if is_numeric(s) {
        lemma_numeric_chars(s);
    }
}

/// Round trip: formatting a well-formed unit value and parsing the result
/// yields the same prefix and the same base text, for every prefix and
/// every base that satisfies the numeric grammar.
pub proof fn lemma_format_parse_roundtrip(u: UnitView)
    requires
        is_numeric(u.base),
    ensures
        parse_model(format_spec(u)) == Some(u),
{
    let s = format_spec(u);
    let b = u.base;
    lemma_numeric_last(b);
    let last = s.last();
    // The formatted text of every prefixed value ends with the suffix's
    // last character; a bare value ends with a digit or a point.
    if u.prefix != Prefix::Base {
        assert(suffix_chars(u.prefix).len() > 0);
        assert(last == suffix_chars(u.prefix).last());
    } else {
        assert(s == b);
        assert(last == b.last());
    }
    // The target suffix always fits.
    if u.prefix != Prefix::Base {
        let suf = suffix_chars(u.prefix);
        assert forall|j: int| 0 <= j < suf.len() implies lower_char(
            #[trigger] s.skip(s.len() - suf.len())[j],
        ) == lower_char(suf[j]) by {
            assert(s.skip(s.len() - suf.len())[j] == s[s.len() - suf.len() + j]);
            assert(s[s.len() - suf.len() + j] == suf[j]);
        }
        assert(head_of(s, suf) =~= b);
        assert(suffix_fits(s, suf));
    }
    // Earlier suffixes in the priority order do not fit.
    match u.prefix {
        Prefix::Tera => {
            assert(head_of(s, suffix_chars(Prefix::Tera)) =~= b);
        }
        Prefix::Giga => {
            lemma_no_fit_by_last(s, suffix_chars(Prefix::Tera));
            assert(head_of(s, suffix_chars(Prefix::Giga)) =~= b);
        }
        Prefix::Mega => {
            lemma_no_fit_by_last(s, suffix_chars(Prefix::Tera));
            // A one-character `G` suffix would leave `...Me` as the head,
            // and `M` is foreign to the numeric grammar.
            let head_g = head_of(s, suffix_chars(Prefix::Giga));
            assert(head_g[b.len() as int] == 'M');
            lemma_not_numeric_at(head_g, b.len() as int);
            assert(!suffix_fits(s, suffix_chars(Prefix::Giga)));
            assert(head_of(s, suffix_chars(Prefix::Mega)) =~= b);
        }
        Prefix::Kilo => {
            lemma_no_fit_by_last(s, suffix_chars(Prefix::Tera));
            lemma_no_fit_by_last(s, suffix_chars(Prefix::Giga));
            lemma_no_fit_by_last(s, suffix_chars(Prefix::Mega));
            assert(head_of(s, suffix_chars(Prefix::Kilo)) =~= b);
        }
        Prefix::Mil => {
            lemma_no_fit_by_last(s, suffix_chars(Prefix::Tera));
            lemma_no_fit_by_last(s, suffix_chars(Prefix::Giga));
            lemma_no_fit_by_last(s, suffix_chars(Prefix::Mega));
            lemma_no_fit_by_last(s, suffix_chars(Prefix::Kilo));
            assert(head_of(s, suffix_chars(Prefix::Mil)) =~= b);
        }
        Prefix::Mili => {
            lemma_no_fit_by_last(s, suffix_chars(Prefix::Tera));
            lemma_no_fit_by_last(s, suffix_chars(Prefix::Giga));
            lemma_no_fit_by_last(s, suffix_chars(Prefix::Mega));
            lemma_no_fit_by_last(s, suffix_chars(Prefix::Kilo));
            lemma_no_fit_by_last(s, suffix_chars(Prefix::Mil));
            assert(head_of(s, suffix_chars(Prefix::Mili)) =~= b);
        }
        Prefix::Micro => {
            lemma_no_fit_by_last(s, suffix_chars(Prefix::Tera));
            lemma_no_fit_by_last(s, suffix_chars(Prefix::Giga));
            lemma_no_fit_by_last(s, suffix_chars(Prefix::Mega));
            lemma_no_fit_by_last(s, suffix_chars(Prefix::Kilo));
            lemma_no_fit_by_last(s, suffix_chars(Prefix::Mil));
            lemma_no_fit_by_last(s, suffix_chars(Prefix::Mili));
            assert(head_of(s, suffix_chars(Prefix::Micro)) =~= b);
        }
        Prefix::Nano => {
            lemma_no_fit_by_last(s, suffix_chars(Prefix::Tera));
            lemma_no_fit_by_last(s, suffix_chars(Prefix::Giga));
            lemma_no_fit_by_last(s, suffix_chars(Prefix::Mega));
            lemma_no_fit_by_last(s, suffix_chars(Prefix::Kilo));
            lemma_no_fit_by_last(s, suffix_chars(Prefix::Mil));
            lemma_no_fit_by_last(s, suffix_chars(Prefix::Mili));
            lemma_no_fit_by_last(s, suffix_chars(Prefix::Micro));
            assert(head_of(s, suffix_chars(Prefix::Nano)) =~= b);
        }
        Prefix::Pico => {
            lemma_no_fit_by_last(s, suffix_chars(Prefix::Tera));
            lemma_no_fit_by_last(s, suffix_chars(Prefix::Giga));
            lemma_no_fit_by_last(s, suffix_chars(Prefix::Mega));
            lemma_no_fit_by_last(s, suffix_chars(Prefix::Kilo));
            lemma_no_fit_by_last(s, suffix_chars(Prefix::Mil));
            lemma_no_fit_by_last(s, suffix_chars(Prefix::Mili));
            lemma_no_fit_by_last(s, suffix_chars(Prefix::Micro));
            lemma_no_fit_by_last(s, suffix_chars(Prefix::Nano));
            assert(head_of(s, suffix_chars(Prefix::Pico)) =~= b);
        }
        Prefix::Femto => {
            lemma_no_fit_by_last(s, suffix_chars(Prefix::Tera));
            lemma_no_fit_by_last(s, suffix_chars(Prefix::Giga));
            lemma_no_fit_by_last(s, suffix_chars(Prefix::Mega));
            lemma_no_fit_by_last(s, suffix_chars(Prefix::Kilo));
            lemma_no_fit_by_last(s, suffix_chars(Prefix::Mil));
            lemma_no_fit_by_last(s, suffix_chars(Prefix::Mili));
            lemma_no_fit_by_last(s, suffix_chars(Prefix::Micro));
            lemma_no_fit_by_last(s, suffix_chars(Prefix::Nano));
            lemma_no_fit_by_last(s, suffix_chars(Prefix::Pico));
            assert(head_of(s, suffix_chars(Prefix::Femto)) =~= b);
        }
        Prefix::Base => {
            lemma_no_fit_by_last(s, suffix_chars(Prefix::Tera));
            lemma_no_fit_by_last(s, suffix_chars(Prefix::Giga));
            lemma_no_fit_by_last(s, suffix_chars(Prefix::Mega));
            lemma_no_fit_by_last(s, suffix_chars(Prefix::Kilo));
            lemma_no_fit_by_last(s, suffix_chars(Prefix::Mil));
            lemma_no_fit_by_last(s, suffix_chars(Prefix::Mili));
            lemma_no_fit_by_last(s, suffix_chars(Prefix::Micro));
            lemma_no_fit_by_last(s, suffix_chars(Prefix::Nano));
            lemma_no_fit_by_last(s, suffix_chars(Prefix::Pico));
            lemma_no_fit_by_last(s, suffix_chars(Prefix::Femto));
        }
    }
    assert(parse_model(s) =~= Some(u));
}

} // verus!
