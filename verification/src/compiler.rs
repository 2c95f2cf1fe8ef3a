//! The schematic compiler: resolves the connectivity of a node/edge
//! graph, orders each element's connections by port label, and builds
//! the schematic whose netlist drives the engine.

use vstd::prelude::*;

use crate::canvas::{CanvasEdge, CanvasNode, NodeData};
use crate::element::{
    bjt_parsed_ok, chain_is, is_unit_err, req_is, ssc_accepts, tdc_accepts, tdc_from_canvas_ok,
    Element, TimeDomainConfig,
};
use crate::schematic::Schematic;
use crate::simulator_error::SimulatorError;
use crate::text::{seq_char_le, str_eq, str_le};
use crate::unit::parse_model;

verus! {

/// The node a name refers to: when several nodes share one id, the last
/// one wins, as a map filled in order would resolve it.
pub open spec fn find_node(nodes: Seq<CanvasNode>, id: Seq<char>) -> Option<CanvasNode>
    decreases nodes.len(),
{
    if nodes.len() == 0 {
        None
    } else if nodes.last().id@ == id {
        Some(nodes.last())
    } else {
        find_node(nodes.drop_last(), id)
    }
}

/// An edge that leaves a ground marker and names a target alias records
/// that alias as electrically ground.
pub open spec fn grounds_alias(nodes: Seq<CanvasNode>, e: &CanvasEdge) -> bool {
    &&& e.target_alias is Some
    &&& match find_node(nodes, e.source@) {
        Some(n) => n.data is Gnd,
        None => false,
    }
}

/// The ground aliases contributed by the edges, in order, each name
/// recorded once.
pub open spec fn ground_aliases(nodes: Seq<CanvasNode>, edges: Seq<CanvasEdge>) -> Seq<String>
    decreases edges.len(),
{
    if edges.len() == 0 {
        Seq::empty()
    } else {
        let pre = ground_aliases(nodes, edges.drop_last());
        let e = edges.last();
        if grounds_alias(nodes, &e) {
            let a = e.target_alias->0;
            if crate::element::in_aliases(pre, a@) {
                pre
            } else {
                pre.push(a)
            }
        } else {
            pre
        }
    }
}

/// A (port, target) pair already recorded among the connections.
pub open spec fn pair_in(s: Seq<(String, String)>, port: Seq<char>, tgt: Seq<char>) -> bool {
    exists|i: int| 0 <= i < s.len() && (#[trigger] s[i]).0@ == port && s[i].1@ == tgt
}

/// An edge that contributes a connection for the given source node: the
/// node exists, is not a ground marker, and the edge names an alias.
pub open spec fn connects(nodes: Seq<CanvasNode>, e: &CanvasEdge, id: Seq<char>) -> bool {
    &&& e.source@ == id
    &&& e.target_alias is Some
    &&& match find_node(nodes, id) {
        Some(n) => !(n.data is Gnd),
        None => false,
    }
}

/// The distinct (port, target) pairs the edges contribute for one node,
/// in the order the edges first named them.
pub open spec fn conns_for(nodes: Seq<CanvasNode>, edges: Seq<CanvasEdge>, id: Seq<char>) -> Seq<
    (String, String),
>
    decreases edges.len(),
{
    if edges.len() == 0 {
        Seq::empty()
    } else {
        let pre = conns_for(nodes, edges.drop_last(), id);
        let e = edges.last();
        if connects(nodes, &e, id) {
            let p = e.source_port;
            let a = e.target_alias->0;
            if pair_in(pre, p@, a@) {
                pre
            } else {
                pre.push((p, a))
            }
        } else {
            pre
        }
    }
}

/// Stable insertion by port label: a new pair goes after every pair
/// whose port does not exceed its own.
pub open spec fn insert_by_port(s: Seq<(String, String)>, x: (String, String)) -> Seq<
    (String, String),
>
    decreases s.len(),
{
    if s.len() == 0 {
        seq![x]
    } else if seq_char_le(s.last().0@, x.0@) {
        s.push(x)
    } else {
        insert_by_port(s.drop_last(), x).push(s.last())
    }
}

/// Stable sort of the connections by port label.
pub open spec fn sort_by_port(s: Seq<(String, String)>) -> Seq<(String, String)>
    decreases s.len(),
{
    if s.len() == 0 {
        s
    } else {
        insert_by_port(sort_by_port(s.drop_last()), s.last())
    }
}

/// The resolved, ordered connections of the node at position `i`.
pub open spec fn node_conns(nodes: Seq<CanvasNode>, edges: Seq<CanvasEdge>, i: int) -> Seq<
    (String, String),
> {
    sort_by_port(conns_for(nodes, edges, nodes[i].id@))
}

/// Whether a canvas node contributes a circuit element.
pub open spec fn is_element_node(n: &CanvasNode) -> bool {
    !(n.data is Node) && !(n.data is Gnd)
}

/// How many of the nodes contribute circuit elements.
pub open spec fn count_elements(nodes: Seq<CanvasNode>) -> nat
    decreases nodes.len(),
{
    if nodes.len() == 0 {
        0
    } else {
        count_elements(nodes.drop_last()) + (if is_element_node(&nodes.last()) {
            1nat
        } else {
            0nat
        })
    }
}

/// Where the element of the node at position `i` lands in the schematic.
pub open spec fn elem_slot(nodes: Seq<CanvasNode>, i: int) -> int {
    count_elements(nodes.take(i)) as int
}

/// Whether one node compiles without error, given its resolved
/// connections.
pub open spec fn node_accepts(node: &CanvasNode, conns: Seq<(String, String)>) -> bool {
    match &node.data {
        NodeData::R { value, .. } => value is Some && conns.len() >= 2 && parse_model(
            value->0@,
        ) is Some,
        NodeData::C { value, .. } => value is Some && conns.len() >= 2 && parse_model(
            value->0@,
        ) is Some,
        NodeData::L { value, .. } => value is Some && conns.len() >= 2 && parse_model(
            value->0@,
        ) is Some,
        NodeData::V { time_domain, small_signal, .. } => conns.len() >= 2 && (match time_domain {
            Some(ct) => tdc_accepts(ct),
            None => true,
        }) && (match small_signal {
            Some(cs) => ssc_accepts(cs),
            None => true,
        }),
        NodeData::I { time_domain, small_signal, .. } => conns.len() >= 2 && (match time_domain {
            Some(ct) => tdc_accepts(ct),
            None => true,
        }) && (match small_signal {
            Some(cs) => ssc_accepts(cs),
            None => true,
        }),
        NodeData::E { value, .. } => value is Some && conns.len() >= 4 && parse_model(
            value->0@,
        ) is Some,
        NodeData::F { value, src, .. } => value is Some && src is Some && conns.len() >= 2
            && parse_model(value->0@) is Some,
        NodeData::G { value, .. } => value is Some && conns.len() >= 4 && parse_model(
            value->0@,
        ) is Some,
        NodeData::H { value, src, .. } => value is Some && src is Some && conns.len() >= 2
            && parse_model(value->0@) is Some,
        NodeData::Q { model, .. } => model is Some && conns.len() >= 3,
        NodeData::Node { .. } => true,
        NodeData::Gnd { .. } => true,
    }
}

/// An element placed without its required configuration.
pub open spec fn is_unconfigured<T>(r: &Result<T, SimulatorError>, name: Seq<char>) -> bool {
    match r {
        Err(SimulatorError::UnconfiguredElement(n)) => n@ == name,
        _ => false,
    }
}

/// An element with fewer resolved connections than its terminals need.
pub open spec fn is_floating<T>(r: &Result<T, SimulatorError>, name: Seq<char>) -> bool {
    match r {
        Err(SimulatorError::FloatingNode(n)) => n@ == name,
        _ => false,
    }
}

/// The rejection of a waveform descriptor, as validation reports it.
pub open spec fn tdc_err_ok<T>(
    c: &crate::canvas::TimeDomainConfig,
    r: &Result<T, SimulatorError>,
) -> bool {
    match c {
        crate::canvas::TimeDomainConfig::Dc { value } => {
            if crate::element::req_missing(value) {
                crate::element::is_malformed(r, "DC value"@)
            } else {
                is_unit_err(r)
            }
        },
        crate::canvas::TimeDomainConfig::Pulse { initial_value, final_value, .. } => {
            if crate::element::req_missing(initial_value) {
                crate::element::is_malformed(r, "PULSE initial value"@)
            } else if crate::element::req_bad(initial_value) {
                is_unit_err(r)
            } else if crate::element::req_missing(final_value) {
                crate::element::is_malformed(r, "PULSE final value"@)
            } else {
                is_unit_err(r)
            }
        },
        crate::canvas::TimeDomainConfig::Sin { offset, amplitude, .. } => {
            if crate::element::req_missing(offset) {
                crate::element::is_malformed(r, "SIN offset"@)
            } else if crate::element::req_bad(offset) {
                is_unit_err(r)
            } else if crate::element::req_missing(amplitude) {
                crate::element::is_malformed(r, "SIN amplitude"@)
            } else {
                is_unit_err(r)
            }
        },
        crate::canvas::TimeDomainConfig::Exp { initial_value, final_value, .. } => {
            if crate::element::req_missing(initial_value) {
                crate::element::is_malformed(r, "EXP initial value"@)
            } else if crate::element::req_bad(initial_value) {
                is_unit_err(r)
            } else if crate::element::req_missing(final_value) {
                crate::element::is_malformed(r, "EXP final value"@)
            } else {
                is_unit_err(r)
            }
        },
        crate::canvas::TimeDomainConfig::Sffm { offset, amplitude, .. } => {
            if crate::element::req_missing(offset) {
                crate::element::is_malformed(r, "SFFM offset"@)
            } else if crate::element::req_bad(offset) {
                is_unit_err(r)
            } else if crate::element::req_missing(amplitude) {
                crate::element::is_malformed(r, "SFFM amplitude"@)
            } else {
                is_unit_err(r)
            }
        },
        crate::canvas::TimeDomainConfig::Am { amplitude, offset, modulating_frequency, .. } => {
            if crate::element::req_missing(offset) {
                crate::element::is_malformed(r, "AM offset"@)
            } else if crate::element::req_bad(offset) {
                is_unit_err(r)
            } else if crate::element::req_missing(amplitude) {
                crate::element::is_malformed(r, "AM amplitude"@)
            } else if crate::element::req_bad(amplitude) {
                is_unit_err(r)
            } else if crate::element::req_missing(modulating_frequency) {
                crate::element::is_malformed(r, "AM modulating frequency"@)
            } else {
                is_unit_err(r)
            }
        },
    }
}

/// The failure one rejected node produces: a missing configuration names
/// the element, too few connections name it as floating, and a magnitude
/// or waveform failure reports the parse error.
pub open spec fn node_fail_ok<T>(
    node: &CanvasNode,
    conns: Seq<(String, String)>,
    r: &Result<T, SimulatorError>,
) -> bool {
    match &node.data {
        NodeData::R { value, name, .. } => {
            if value is None {
                is_unconfigured(r, name@)
            } else if conns.len() < 2 {
                is_floating(r, name@)
            } else {
                is_unit_err(r)
            }
        },
        NodeData::C { value, name, .. } => {
            if value is None {
                is_unconfigured(r, name@)
            } else if conns.len() < 2 {
                is_floating(r, name@)
            } else {
                is_unit_err(r)
            }
        },
        NodeData::L { value, name, .. } => {
            if value is None {
                is_unconfigured(r, name@)
            } else if conns.len() < 2 {
                is_floating(r, name@)
            } else {
                is_unit_err(r)
            }
        },
        NodeData::V { name, time_domain, small_signal, .. } => {
            if conns.len() < 2 {
                is_floating(r, name@)
            } else {
                match time_domain {
                    Some(ct) => if !tdc_accepts(ct) {
                        tdc_err_ok(ct, r)
                    } else {
                        is_unit_err(r)
                    },
                    None => is_unit_err(r),
                }
            }
        },
        NodeData::I { name, time_domain, small_signal, .. } => {
            if conns.len() < 2 {
                is_floating(r, name@)
            } else {
                match time_domain {
                    Some(ct) => if !tdc_accepts(ct) {
                        tdc_err_ok(ct, r)
                    } else {
                        is_unit_err(r)
                    },
                    None => is_unit_err(r),
                }
            }
        },
        NodeData::E { value, name, .. } => {
            if value is None {
                is_unconfigured(r, name@)
            } else if conns.len() < 4 {
                is_floating(r, name@)
            } else {
                is_unit_err(r)
            }
        },
        NodeData::F { value, name, src, .. } => {
            if value is None || src is None {
                is_unconfigured(r, name@)
            } else if conns.len() < 2 {
                is_floating(r, name@)
            } else {
                is_unit_err(r)
            }
        },
        NodeData::G { value, name, .. } => {
            if value is None {
                is_unconfigured(r, name@)
            } else if conns.len() < 4 {
                is_floating(r, name@)
            } else {
                is_unit_err(r)
            }
        },
        NodeData::H { value, name, src, .. } => {
            if value is None || src is None {
                is_unconfigured(r, name@)
            } else if conns.len() < 2 {
                is_floating(r, name@)
            } else {
                is_unit_err(r)
            }
        },
        NodeData::Q { name, model, .. } => {
            if model is None {
                is_unconfigured(r, name@)
            } else {
                is_floating(r, name@)
            }
        },
        NodeData::Node { .. } => false,
        NodeData::Gnd { .. } => false,
    }
}

/// The element one accepted node contributes: its kind, name, validated
/// magnitudes and positionally bound terminals.
pub open spec fn node_element_ok(
    node: &CanvasNode,
    conns: Seq<(String, String)>,
    e: &Element,
) -> bool {
    match &node.data {
        NodeData::R { value, name, .. } => e matches Element::R(n, u, a, b) && n@ == name@
            && req_is(value, &u) && a@ == conns[0].1@ && b@ == conns[1].1@,
        NodeData::C { value, name, .. } => e matches Element::C(n, u, a, b) && n@ == name@
            && req_is(value, &u) && a@ == conns[0].1@ && b@ == conns[1].1@,
        NodeData::L { value, name, .. } => e matches Element::L(n, u, a, b) && n@ == name@
            && req_is(value, &u) && a@ == conns[0].1@ && b@ == conns[1].1@,
        NodeData::V { name, time_domain, small_signal, .. } => e matches Element::V(
            n,
            td,
            ss,
            a,
            b,
        ) && n@ == name@ && a@ == conns[0].1@ && b@ == conns[1].1@ && (match (time_domain, td) {
            (Some(ct), Some(t)) => tdc_from_canvas_ok(ct, &Ok(*t)),
            (None, None) => true,
            _ => false,
        }) && (match (small_signal, ss) {
            (Some(cs), Some(s)) => parse_model(cs.amplitude@) == Some(s.amplitude@) && chain_is(
                true,
                &cs.phase,
                &s.phase,
            ),
            (None, None) => true,
            _ => false,
        }),
        NodeData::I { name, time_domain, small_signal, .. } => e matches Element::I(
            n,
            td,
            ss,
            a,
            b,
        ) && n@ == name@ && a@ == conns[0].1@ && b@ == conns[1].1@ && (match (time_domain, td) {
            (Some(ct), Some(t)) => tdc_from_canvas_ok(ct, &Ok(*t)),
            (None, None) => true,
            _ => false,
        }) && (match (small_signal, ss) {
            (Some(cs), Some(s)) => parse_model(cs.amplitude@) == Some(s.amplitude@) && chain_is(
                true,
                &cs.phase,
                &s.phase,
            ),
            (None, None) => true,
            _ => false,
        }),
        NodeData::E { value, name, .. } => e matches Element::E(n, u, a, b, ca, cb) && n@ == name@
            && req_is(value, &u) && a@ == conns[0].1@ && b@ == conns[1].1@ && ca@ == conns[2].1@
            && cb@ == conns[3].1@,
        NodeData::F { value, name, src, .. } => e matches Element::F(n, u, a, b, s) && n@ == name@
            && req_is(value, &u) && a@ == conns[0].1@ && b@ == conns[1].1@ && (match src {
            Some(sv) => s@ == sv@,
            None => false,
        }),
        NodeData::G { value, name, .. } => e matches Element::G(n, u, a, b, ca, cb) && n@ == name@
            && req_is(value, &u) && a@ == conns[0].1@ && b@ == conns[1].1@ && ca@ == conns[2].1@
            && cb@ == conns[3].1@,
        NodeData::H { value, name, src, .. } => e matches Element::H(n, u, a, b, s) && n@ == name@
            && req_is(value, &u) && a@ == conns[0].1@ && b@ == conns[1].1@ && (match src {
            Some(sv) => s@ == sv@,
            None => false,
        }),
        NodeData::Q { name, model, .. } => e matches Element::Q(n, c, b, em, m) && n@ == name@
            && c@ == conns[0].1@ && b@ == conns[1].1@ && em@ == conns[2].1@ && (match model {
            Some(cm) => bjt_parsed_ok(&m, cm),
            None => false,
        }),
        NodeData::Node { .. } => false,
        NodeData::Gnd { .. } => false,
    }
}

/// Every element node landed its element at its slot, and every node was
/// accepted.
pub open spec fn compile_elements_ok(
    nodes: Seq<CanvasNode>,
    edges: Seq<CanvasEdge>,
    elems: Seq<Element>,
) -> bool {
    &&& elems.len() == count_elements(nodes)
    &&& forall|i: int|
        0 <= i < nodes.len() ==> node_accepts(&nodes[i], #[trigger] node_conns(nodes, edges, i))
    &&& forall|i: int|
        0 <= i < nodes.len() && is_element_node(&nodes[i]) ==> node_element_ok(
            &nodes[i],
            #[trigger] node_conns(nodes, edges, i),
            &elems[elem_slot(nodes, i)],
        )
}

/// Finds the node a name refers to, the last occurrence winning.
#[verifier::loop_isolation(false)]
fn find_node_exec(nodes: &Vec<CanvasNode>, id: &str) -> (r: Option<usize>)
    ensures
        match r {
            Some(k) => k < nodes@.len() && nodes@[k as int].id@ == id@ && find_node(nodes@, id@)
                == Some(nodes@[k as int]),
            None => find_node(nodes@, id@) is None,
        },
{
    let n = nodes.len();
    let mut i: usize = n;
    proof {
        assert(nodes@.take(n as int) =~= nodes@);
    }
    while i > 0
        invariant
            0 <= i <= n,
            find_node(nodes@, id@) == find_node(nodes@.take(i as int), id@),
        decreases i,
    {
        proof {
            assert(nodes@.take(i as int).last() == nodes@[i - 1]);
            assert(nodes@.take(i as int).drop_last() =~= nodes@.take(i - 1));
        }
        if str_eq(nodes[i - 1].id.as_str(), id) {
            return Some(i - 1);
        }
        i -= 1;
    }
    proof {
        assert(nodes@.take(0).len() == 0);
    }
    None
}

proof fn lemma_conns_empty(nodes: Seq<CanvasNode>, edges: Seq<CanvasEdge>, id: Seq<char>)
    requires
        match find_node(nodes, id) {
            Some(n) => n.data is Gnd,
            None => true,
        },
    ensures
        conns_for(nodes, edges, id) =~= Seq::<(String, String)>::empty(),
    decreases edges.len(),
{
    if edges.len() > 0 {
        lemma_conns_empty(nodes, edges.drop_last(), id);
    }
}

#[verifier::loop_isolation(false)]
fn pair_in_exec(s: &Vec<(String, String)>, port: &str, tgt: &str) -> (r: bool)
    ensures
        r == pair_in(s@, port@, tgt@),
{
    let n = s.len();
    let mut i: usize = 0;
    while i < n
        invariant
            0 <= i <= n,
            forall|j: int| 0 <= j < i ==> !((#[trigger] s@[j]).0@ == port@ && s@[j].1@ == tgt@),
        decreases n - i,
    {
        if str_eq(s[i].0.as_str(), port) && str_eq(s[i].1.as_str(), tgt) {
            return true;
        }
        i += 1;
    }
    false
}

/// Collects the distinct (port, target) pairs the edges contribute for
/// one node.
#[verifier::loop_isolation(false)]
fn conns_for_exec(nodes: &Vec<CanvasNode>, edges: &Vec<CanvasEdge>, id: &String) -> (r: Vec<
    (String, String),
>)
    ensures
        r@ == conns_for(nodes@, edges@, id@),
{
    let mut r: Vec<(String, String)> = Vec::new();
    let node_ok = match find_node_exec(nodes, id.as_str()) {
        Some(k) => !matches!(nodes[k].data, NodeData::Gnd { .. }),
        None => false,
    };
    if !node_ok {
        proof {
            lemma_conns_empty(nodes@, edges@, id@);
        }
        return r;
    }
    let n = edges.len();
    let mut i: usize = 0;
    proof {
        assert(r@ =~= conns_for(nodes@, edges@.take(0), id@));
    }
    while i < n
        invariant
            0 <= i <= n,
            r@ == conns_for(nodes@, edges@.take(i as int), id@),
            match find_node(nodes@, id@) {
                Some(nd) => !(nd.data is Gnd),
                None => false,
            },
        decreases n - i,
    {
        proof {
            assert(edges@.take(i + 1).last() == edges@[i as int]);
            assert(edges@.take(i + 1).drop_last() =~= edges@.take(i as int));
        }
        let e = &edges[i];
        if str_eq(e.source.as_str(), id.as_str()) {
            if let Some(alias) = &e.target_alias {
                if !pair_in_exec(&r, e.source_port.as_str(), alias.as_str()) {
                    r.push((e.source_port.clone(), alias.clone()));
                }
            }
        }
        i += 1;
    }
    proof {
        assert(edges@.take(n as int) =~= edges@);
    }
    r
}

proof fn lemma_insert_by_port_at(s: Seq<(String, String)>, x: (String, String), j: int)
    requires
        0 <= j <= s.len(),
        forall|k: int| j <= k < s.len() ==> !seq_char_le((#[trigger] s[k]).0@, x.0@),
        j > 0 ==> seq_char_le(s[j - 1].0@, x.0@),
    ensures
        insert_by_port(s, x) =~= s.take(j) + seq![x] + s.skip(j),
    decreases s.len(),
{
    if s.len() == 0 {
    } else if seq_char_le(s.last().0@, x.0@) {
        assert(j == s.len());
        assert(s.take(j) =~= s);
    } else {
        assert(j < s.len());
        lemma_insert_by_port_at(s.drop_last(), x, j);
        assert(s.drop_last().take(j) =~= s.take(j));
        assert(insert_by_port(s, x) =~= (s.drop_last().take(j) + seq![x] + s.drop_last().skip(j)).push(
            s.last(),
        ));
    }
}

/// Sorts the connections by port label, keeping the first-named order of
/// equal labels.
#[verifier::loop_isolation(false)]
fn sort_pairs(v: &Vec<(String, String)>) -> (r: Vec<(String, String)>)
    ensures
        r@ == sort_by_port(v@),
{
    let n = v.len();
    let mut r: Vec<(String, String)> = Vec::new();
    let mut i: usize = 0;
    proof {
        assert(r@ =~= sort_by_port(v@.take(0)));
    }
    while i < n
        invariant
            0 <= i <= n,
            r@ == sort_by_port(v@.take(i as int)),
        decreases n - i,
    {
        let x = (v[i].0.clone(), v[i].1.clone());
        assert(x == v@[i as int]);
        let mut j: usize = r.len();
        while j > 0
            invariant
                0 <= j <= r@.len(),
                forall|k: int| j <= k < r@.len() ==> !seq_char_le((#[trigger] r@[k]).0@, x.0@),
            decreases j,
        {
            if str_le(r[j - 1].0.as_str(), x.0.as_str()) {
                break ;
            }
            j -= 1;
        }
        proof {
            if j > 0 && !seq_char_le(r@[j - 1].0@, x.0@) {
                assert(false);  // the scan only stops at a label that fits before the new pair
            }
            lemma_insert_by_port_at(r@, x, j as int);
        }
        r.insert(j, x);
        proof {
            assert(v@.take(i + 1).drop_last() =~= v@.take(i as int));
            assert(v@.take(i + 1).last() == v@[i as int]);
            assert(r@ =~= insert_by_port(sort_by_port(v@.take(i as int)), v@[i as int]));
        }
        i += 1;
    }
    proof {
        assert(v@.take(n as int) =~= v@);
    }
    r
}

fn clone_opt_string(o: &Option<String>) -> (r: Option<String>)
    ensures
        r == *o,
{
    match o {
        Some(s) => Some(s.clone()),
        None => None,
    }
}

fn clone_tdc(c: &crate::canvas::TimeDomainConfig) -> (r: crate::canvas::TimeDomainConfig)
    ensures
        r == *c,
{
    match c {
        crate::canvas::TimeDomainConfig::Dc { value } => crate::canvas::TimeDomainConfig::Dc {
            value: clone_opt_string(value),
        },
        crate::canvas::TimeDomainConfig::Pulse {
            initial_value,
            final_value,
            delay,
            rise_time,
            fall_time,
            pulse_width,
            period,
        } => crate::canvas::TimeDomainConfig::Pulse {
            initial_value: clone_opt_string(initial_value),
            final_value: clone_opt_string(final_value),
            delay: clone_opt_string(delay),
            rise_time: clone_opt_string(rise_time),
            fall_time: clone_opt_string(fall_time),
            pulse_width: clone_opt_string(pulse_width),
            period: clone_opt_string(period),
        },
        crate::canvas::TimeDomainConfig::Sin { offset, amplitude, frequency, delay, damping_factor } => {
            crate::canvas::TimeDomainConfig::Sin {
                offset: clone_opt_string(offset),
                amplitude: clone_opt_string(amplitude),
                frequency: clone_opt_string(frequency),
                delay: clone_opt_string(delay),
                damping_factor: clone_opt_string(damping_factor),
            }
        },
        crate::canvas::TimeDomainConfig::Exp {
            initial_value,
            final_value,
            rise_delay,
            rise_time,
            fall_delay,
            fall_time,
        } => crate::canvas::TimeDomainConfig::Exp {
            initial_value: clone_opt_string(initial_value),
            final_value: clone_opt_string(final_value),
            rise_delay: clone_opt_string(rise_delay),
            rise_time: clone_opt_string(rise_time),
            fall_delay: clone_opt_string(fall_delay),
            fall_time: clone_opt_string(fall_time),
        },
        crate::canvas::TimeDomainConfig::Sffm {
            offset,
            amplitude,
            carrier_frequency,
            modulation_index,
            signal_frequency,
        } => crate::canvas::TimeDomainConfig::Sffm {
            offset: clone_opt_string(offset),
            amplitude: clone_opt_string(amplitude),
            carrier_frequency: clone_opt_string(carrier_frequency),
            modulation_index: *modulation_index,
            signal_frequency: clone_opt_string(signal_frequency),
        },
        crate::canvas::TimeDomainConfig::Am {
            amplitude,
            offset,
            modulating_frequency,
            carrier_frequency,
            delay,
        } => crate::canvas::TimeDomainConfig::Am {
            amplitude: clone_opt_string(amplitude),
            offset: clone_opt_string(offset),
            modulating_frequency: clone_opt_string(modulating_frequency),
            carrier_frequency: clone_opt_string(carrier_frequency),
            delay: clone_opt_string(delay),
        },
    }
}

fn clone_ssc(c: &crate::canvas::SmallSignalConfig) -> (r: crate::canvas::SmallSignalConfig)
    ensures
        r == *c,
{
    crate::canvas::SmallSignalConfig {
        amplitude: c.amplitude.clone(),
        phase: clone_opt_string(&c.phase),
    }
}

proof fn lemma_count_mono(nodes: Seq<CanvasNode>, a: int, b: int)
    requires
        0 <= a <= b <= nodes.len(),
    ensures
        count_elements(nodes.take(a)) <= count_elements(nodes.take(b)),
    decreases b - a,
{
    if a < b {
        lemma_count_mono(nodes, a, b - 1);
        assert(nodes.take(b).drop_last() =~= nodes.take(b - 1));
    }
}

/// Compiles one canvas node: an element node yields its element or its
/// failure; a plain node or a ground marker yields nothing.
#[verifier::rlimit(100)]
fn compile_node(node: &CanvasNode, conns: &Vec<(String, String)>) -> (r: Result<
    Option<Element>,
    SimulatorError,
>)
    ensures
        match r {
            Ok(Some(e)) => is_element_node(node) && node_accepts(node, conns@) && node_element_ok(
                node,
                conns@,
                &e,
            ),
            Ok(None) => !is_element_node(node),
            Err(_) => is_element_node(node) && !node_accepts(node, conns@) && node_fail_ok(
                node,
                conns@,
                &r,
            ),
        },
{
    match &node.data {
        NodeData::R { value, name, .. } => {
            match value {
                Some(v) => {
                    if conns.len() < 2 {
                        Err(SimulatorError::FloatingNode(name.clone()))
                    } else {
                        match crate::unit::UnitOfMagnitude::from(v.clone()) {
                            Ok(u) => Ok(
                                Some(
                                    Element::R(
                                        name.clone(),
                                        u,
                                        conns[0].1.clone(),
                                        conns[1].1.clone(),
                                    ),
                                ),
                            ),
                            Err(e) => Err(SimulatorError::UnitError(e)),
                        }
                    }
                },
                None => Err(SimulatorError::UnconfiguredElement(name.clone())),
            }
        },
        NodeData::C { value, name, .. } => {
            match value {
                Some(v) => {
                    if conns.len() < 2 {
                        Err(SimulatorError::FloatingNode(name.clone()))
                    } else {
                        match crate::unit::UnitOfMagnitude::from(v.clone()) {
                            Ok(u) => Ok(
                                Some(
                                    Element::C(
                                        name.clone(),
                                        u,
                                        conns[0].1.clone(),
                                        conns[1].1.clone(),
                                    ),
                                ),
                            ),
                            Err(e) => Err(SimulatorError::UnitError(e)),
                        }
                    }
                },
                None => Err(SimulatorError::UnconfiguredElement(name.clone())),
            }
        },
        NodeData::L { value, name, .. } => {
            match value {
                Some(v) => {
                    if conns.len() < 2 {
                        Err(SimulatorError::FloatingNode(name.clone()))
                    } else {
                        match crate::unit::UnitOfMagnitude::from(v.clone()) {
                            Ok(u) => Ok(
                                Some(
                                    Element::L(
                                        name.clone(),
                                        u,
                                        conns[0].1.clone(),
                                        conns[1].1.clone(),
                                    ),
                                ),
                            ),
                            Err(e) => Err(SimulatorError::UnitError(e)),
                        }
                    }
                },
                None => Err(SimulatorError::UnconfiguredElement(name.clone())),
            }
        },
        NodeData::V { name, time_domain, small_signal, .. } => {
            if conns.len() < 2 {
                return Err(SimulatorError::FloatingNode(name.clone()));
            }
            let td = match time_domain {
                Some(ct) => {
                    match TimeDomainConfig::from_canvas(clone_tdc(ct)) {
                        Ok(t) => Some(t),
                        Err(e) => {
                            return Err(e);
                        },
                    }
                },
                None => None,
            };
            let ss = match small_signal {
                Some(cs) => {
                    match crate::element::SmallSignalConfig::from_canvas(clone_ssc(cs)) {
                        Ok(s) => Some(s),
                        Err(e) => {
                            return Err(e);
                        },
                    }
                },
                None => None,
            };
            Ok(
                Some(
                    Element::V(name.clone(), td, ss, conns[0].1.clone(), conns[1].1.clone()),
                ),
            )
        },
        NodeData::I { name, time_domain, small_signal, .. } => {
            if conns.len() < 2 {
                return Err(SimulatorError::FloatingNode(name.clone()));
            }
            let td = match time_domain {
                Some(ct) => {
                    match TimeDomainConfig::from_canvas(clone_tdc(ct)) {
                        Ok(t) => Some(t),
                        Err(e) => {
                            return Err(e);
                        },
                    }
                },
                None => None,
            };
            let ss = match small_signal {
                Some(cs) => {
                    match crate::element::SmallSignalConfig::from_canvas(clone_ssc(cs)) {
                        Ok(s) => Some(s),
                        Err(e) => {
                            return Err(e);
                        },
                    }
                },
                None => None,
            };
            Ok(
                Some(
                    Element::I(name.clone(), td, ss, conns[0].1.clone(), conns[1].1.clone()),
                ),
            )
        },
        NodeData::E { value, name, .. } => {
            match value {
                Some(v) => {
                    if conns.len() < 4 {
                        Err(SimulatorError::FloatingNode(name.clone()))
                    } else {
                        match crate::unit::UnitOfMagnitude::from(v.clone()) {
                            Ok(u) => Ok(
                                Some(
                                    Element::E(
                                        name.clone(),
                                        u,
                                        conns[0].1.clone(),
                                        conns[1].1.clone(),
                                        conns[2].1.clone(),
                                        conns[3].1.clone(),
                                    ),
                                ),
                            ),
                            Err(e) => Err(SimulatorError::UnitError(e)),
                        }
                    }
                },
                None => Err(SimulatorError::UnconfiguredElement(name.clone())),
            }
        },
        NodeData::F { value, name, src, .. } => {
            match (value, src) {
                (Some(v), Some(s)) => {
                    if conns.len() < 2 {
                        Err(SimulatorError::FloatingNode(name.clone()))
                    } else {
                        match crate::unit::UnitOfMagnitude::from(v.clone()) {
                            Ok(u) => Ok(
                                Some(
                                    Element::F(
                                        name.clone(),
                                        u,
                                        conns[0].1.clone(),
                                        conns[1].1.clone(),
                                        s.clone(),
                                    ),
                                ),
                            ),
                            Err(e) => Err(SimulatorError::UnitError(e)),
                        }
                    }
                },
                _ => Err(SimulatorError::UnconfiguredElement(name.clone())),
            }
        },
        NodeData::G { value, name, .. } => {
            match value {
                Some(v) => {
                    if conns.len() < 4 {
                        Err(SimulatorError::FloatingNode(name.clone()))
                    } else {
                        match crate::unit::UnitOfMagnitude::from(v.clone()) {
                            Ok(u) => Ok(
                                Some(
                                    Element::G(
                                        name.clone(),
                                        u,
                                        conns[0].1.clone(),
                                        conns[1].1.clone(),
                                        conns[2].1.clone(),
                                        conns[3].1.clone(),
                                    ),
                                ),
                            ),
                            Err(e) => Err(SimulatorError::UnitError(e)),
                        }
                    }
                },
                None => Err(SimulatorError::UnconfiguredElement(name.clone())),
            }
        },
        NodeData::H { value, name, src, .. } => {
            match (value, src) {
                (Some(v), Some(s)) => {
                    if conns.len() < 2 {
                        Err(SimulatorError::FloatingNode(name.clone()))
                    } else {
                        match crate::unit::UnitOfMagnitude::from(v.clone()) {
                            Ok(u) => Ok(
                                Some(
                                    Element::H(
                                        name.clone(),
                                        u,
                                        conns[0].1.clone(),
                                        conns[1].1.clone(),
                                        s.clone(),
                                    ),
                                ),
                            ),
                            Err(e) => Err(SimulatorError::UnitError(e)),
                        }
                    }
                },
                _ => Err(SimulatorError::UnconfiguredElement(name.clone())),
            }
        },
        NodeData::Q { name, model, .. } => {
            match model {
                Some(cm) => {
                    if conns.len() < 3 {
                        Err(SimulatorError::FloatingNode(name.clone()))
                    } else {
                        let m = crate::element::BjtModel::from_canvas(cm);
                        Ok(
                            Some(
                                Element::Q(
                                    name.clone(),
                                    conns[0].1.clone(),
                                    conns[1].1.clone(),
                                    conns[2].1.clone(),
                                    m,
                                ),
                            ),
                        )
                    }
                },
                None => Err(SimulatorError::UnconfiguredElement(name.clone())),
            }
        },
        NodeData::Node { .. } => Ok(None),
        NodeData::Gnd { .. } => Ok(None),
    }
}

/// Compiles a node/edge graph into a schematic: records the ground
/// aliases the edges name, resolves and orders each element's
/// connections, validates each element's configuration, and fails fast
/// on the first node that does not compile.
#[verifier::loop_isolation(false)]
#[verifier::rlimit(100)]
pub fn create_schematic_from_canvas(nodes: Vec<CanvasNode>, edges: Vec<CanvasEdge>) -> (r: Result<
    Schematic,
    SimulatorError,
>)
    ensures
        match r {
            Ok(s) => s.spec_ground() == ground_aliases(nodes@, edges@) && compile_elements_ok(
                nodes@,
                edges@,
                s.spec_elements(),
            ),
            Err(_) => exists|i: int|
                0 <= i < nodes@.len() && !node_accepts(
                    &nodes@[i],
                    #[trigger] node_conns(nodes@, edges@, i),
                ) && (forall|j: int|
                    0 <= j < i ==> node_accepts(&nodes@[j], #[trigger] node_conns(nodes@, edges@, j)))
                    && node_fail_ok(&nodes@[i], node_conns(nodes@, edges@, i), &r),
        },
{
    let mut schematic = Schematic::new();
    let en = edges.len();
    let mut i: usize = 0;
    proof {
        assert(ground_aliases(nodes@, edges@.take(0)) =~= Seq::<String>::empty());
    }
    while i < en
        invariant
            0 <= i <= en,
            schematic.spec_elements() == Seq::<Element>::empty(),
            schematic.spec_ground() == ground_aliases(nodes@, edges@.take(i as int)),
        decreases en - i,
    {
        proof {
            assert(edges@.take(i + 1).last() == edges@[i as int]);
            assert(edges@.take(i + 1).drop_last() =~= edges@.take(i as int));
        }
        let is_gnd_source = match find_node_exec(&nodes, edges[i].source.as_str()) {
            Some(k) => matches!(nodes[k].data, NodeData::Gnd { .. }),
            None => false,
        };
        if is_gnd_source {
            if let Some(alias) = &edges[i].target_alias {
                schematic.insert_ground_alias(alias);
            }
        }
        i += 1;
    }
    proof {
        assert(edges@.take(en as int) =~= edges@);
    }
    let nn = nodes.len();
    let mut i: usize = 0;
    proof {
        assert(count_elements(nodes@.take(0)) == 0);
    }
    while i < nn
        invariant
            0 <= i <= nn,
            schematic.spec_ground() == ground_aliases(nodes@, edges@),
            schematic.spec_elements().len() == count_elements(nodes@.take(i as int)),
            forall|j: int|
                0 <= j < i ==> node_accepts(&nodes@[j], #[trigger] node_conns(nodes@, edges@, j)),
            forall|j: int|
                0 <= j < i && is_element_node(&nodes@[j]) ==> node_element_ok(
                    &nodes@[j],
                    #[trigger] node_conns(nodes@, edges@, j),
                    &schematic.spec_elements()[elem_slot(nodes@, j)],
                ),
        decreases nn - i,
    {
        let conns_raw = conns_for_exec(&nodes, &edges, &nodes[i].id);
        let conns = sort_pairs(&conns_raw);
        proof {
            assert(conns@ == node_conns(nodes@, edges@, i as int));
            assert(nodes@.take(i + 1).last() == nodes@[i as int]);
            assert(nodes@.take(i + 1).drop_last() =~= nodes@.take(i as int));
        }
        let ghost old_elems = schematic.spec_elements();
        match compile_node(&nodes[i], &conns) {
            Ok(Some(e)) => {
                schematic.insert(e);
                proof {
                    assert forall|j: int| 0 <= j < i && is_element_node(&nodes@[j]) implies #[trigger] elem_slot(
                        nodes@,
                        j,
                    ) < old_elems.len() by {
                        assert(nodes@.take(j + 1).drop_last() =~= nodes@.take(j));
                        assert(nodes@.take(j + 1).last() == nodes@[j]);
                        lemma_count_mono(nodes@, j + 1, i as int);
                    }
                    assert(elem_slot(nodes@, i as int) == old_elems.len());
                }
            },
            Ok(None) => {},
            Err(e) => {
                let r = Err(e);
                proof {
                    let wi = i as int;
                    assert(!node_accepts(&nodes@[wi], node_conns(nodes@, edges@, wi)));
                }
                return r;
            },
        }
        i += 1;
    }
    proof {
        assert(nodes@.take(nn as int) =~= nodes@);
    }
    Ok(schematic)
}

/// Floating-node detection: a two-terminal element whose configuration
/// is present but which resolved fewer than two connections fails as a
/// floating node naming that element; no partial connection is ever
/// used silently.
pub proof fn lemma_floating_two_terminal<T>(
    node: &CanvasNode,
    conns: Seq<(String, String)>,
    r: &Result<T, SimulatorError>,
)
    requires
        conns.len() < 2,
        node_fail_ok(node, conns, r),
        (node.data matches NodeData::R { value: Some(_), .. }) || (node.data matches NodeData::C {
            value: Some(_),
            ..
        }) || (node.data matches NodeData::L { value: Some(_), .. }) || node.data is V
            || node.data is I || (node.data matches NodeData::F {
            value: Some(_),
            src: Some(_),
            ..
        }) || (node.data matches NodeData::H { value: Some(_), src: Some(_), .. }),
    ensures
        match &node.data {
            NodeData::R { name, .. } => is_floating(r, name@),
            NodeData::C { name, .. } => is_floating(r, name@),
            NodeData::L { name, .. } => is_floating(r, name@),
            NodeData::V { name, .. } => is_floating(r, name@),
            NodeData::I { name, .. } => is_floating(r, name@),
            NodeData::F { name, .. } => is_floating(r, name@),
            NodeData::H { name, .. } => is_floating(r, name@),
            _ => true,
        },
{
}

proof fn lemma_in_aliases_extend(pre: Seq<String>, x: String, n: Seq<char>)
    requires
        crate::element::in_aliases(pre, n),
    ensures
        crate::element::in_aliases(pre.push(x), n),
{
    let i = choose|i: int| 0 <= i < pre.len() && pre[i]@ == n;
    assert(pre.push(x)[i]@ == n);
}

/// Ground aliasing, first half: the alias named by any edge that leaves
/// a ground marker is recorded among the schematic's ground aliases.
pub proof fn lemma_ground_alias_recorded(
    nodes: Seq<CanvasNode>,
    edges: Seq<CanvasEdge>,
    e_idx: int,
)
    requires
        0 <= e_idx < edges.len(),
        grounds_alias(nodes, &edges[e_idx]),
    ensures
        crate::element::in_aliases(ground_aliases(nodes, edges), edges[e_idx].target_alias->0@),
    decreases edges.len(),
{
    let pre = ground_aliases(nodes, edges.drop_last());
    let e = edges.last();
    if e_idx == edges.len() - 1 {
        if !crate::element::in_aliases(pre, e.target_alias->0@) {
            assert(ground_aliases(nodes, edges).last()@ == e.target_alias->0@);
        }
    } else {
        assert(edges.drop_last()[e_idx] == edges[e_idx]);
        lemma_ground_alias_recorded(nodes, edges.drop_last(), e_idx);
        if grounds_alias(nodes, &e) && !crate::element::in_aliases(pre, e.target_alias->0@) {
            lemma_in_aliases_extend(pre, e.target_alias->0, edges[e_idx].target_alias->0@);
        }
    }
}

/// Ground aliasing, second half: a terminal recorded as a ground alias
/// renders as the engine's canonical ground name, so every element line
/// that references it writes that name.
pub proof fn lemma_ground_alias_resolves(g: Seq<String>, n: Seq<char>)
    requires
        crate::element::in_aliases(g, n),
    ensures
        crate::element::resolved(g, n) == "gnd"@,
{
}

/// Two elements compiled from the same node and connections render the
/// same netlist line.
#[verifier::rlimit(100)]
proof fn lemma_element_line_determined(
    node: &CanvasNode,
    conns: Seq<(String, String)>,
    g: Seq<String>,
    e1: &Element,
    e2: &Element,
)
    requires
        node_element_ok(node, conns, e1),
        node_element_ok(node, conns, e2),
    ensures
        crate::element::element_line(e1, g) == crate::element::element_line(e2, g),
{
    match &node.data {
        NodeData::V { time_domain, small_signal, .. } => {
            match (e1, e2) {
                (Element::V(_, td1, ss1, _, _), Element::V(_, td2, ss2, _, _)) => {
                    match (time_domain, td1, td2) {
                        (Some(ct), Some(a), Some(b)) => {
                            crate::element::lemma_tdc_text_determined(ct, a, b);
                        },
                        _ => {},
                    }
                    match (small_signal, ss1, ss2) {
                        (Some(cs), Some(a), Some(b)) => {
                            crate::element::lemma_ssc_text_determined(cs, a, b);
                        },
                        _ => {},
                    }
                },
                _ => {},
            }
        },
        NodeData::I { time_domain, small_signal, .. } => {
            match (e1, e2) {
                (Element::I(_, td1, ss1, _, _), Element::I(_, td2, ss2, _, _)) => {
                    match (time_domain, td1, td2) {
                        (Some(ct), Some(a), Some(b)) => {
                            crate::element::lemma_tdc_text_determined(ct, a, b);
                        },
                        _ => {},
                    }
                    match (small_signal, ss1, ss2) {
                        (Some(cs), Some(a), Some(b)) => {
                            crate::element::lemma_ssc_text_determined(cs, a, b);
                        },
                        _ => {},
                    }
                },
                _ => {},
            }
        },
        NodeData::Q { model, .. } => {
            match (e1, e2) {
                (Element::Q(_, _, _, _, m1), Element::Q(_, _, _, _, m2)) => {
                    match model {
                        Some(cm) => {
                            crate::element::lemma_bjt_text_determined(cm, m1, m2);
                        },
                        None => {},
                    }
                },
                _ => {},
            }
        },
        _ => {},
    }
}

/// Every slot of the compiled element list is the slot of some element
/// node.
proof fn lemma_slot_surjective(nodes: Seq<CanvasNode>, m: int)
    requires
        0 <= m < count_elements(nodes),
    ensures
        exists|i: int|
            0 <= i < nodes.len() && is_element_node(&nodes[i]) && #[trigger] elem_slot(nodes, i)
                == m,
    decreases nodes.len(),
{
    assert(nodes.len() > 0);
    let pre = nodes.drop_last();
    if is_element_node(&nodes.last()) && m == count_elements(pre) as int {
        assert(nodes.take(nodes.len() - 1) =~= pre);
        assert(elem_slot(nodes, nodes.len() - 1) == m);
        assert(is_element_node(&nodes[nodes.len() - 1]));
    } else {
        assert(m < count_elements(pre));
        lemma_slot_surjective(pre, m);
        let i = choose|i: int|
            0 <= i < pre.len() && is_element_node(&pre[i]) && #[trigger] elem_slot(pre, i) == m;
        assert(pre[i] == nodes[i]);
        assert(pre.take(i) =~= nodes.take(i));
        assert(elem_slot(nodes, i) == m);
    }
}

proof fn lemma_element_lines_pointwise(elems1: Seq<Element>, elems2: Seq<Element>, g: Seq<String>)
    requires
        elems1.len() == elems2.len(),
        forall|m: int|
            0 <= m < elems1.len() ==> crate::element::element_line(&elems1[m], g)
                == #[trigger] crate::element::element_line(&elems2[m], g),
    ensures
        crate::schematic::element_lines(elems1, g) == crate::schematic::element_lines(elems2, g),
    decreases elems1.len(),
{
    if elems1.len() > 0 {
        assert forall|m: int|
            0 <= m < elems1.drop_last().len() implies crate::element::element_line(
            &elems1.drop_last()[m],
            g,
        ) == #[trigger] crate::element::element_line(&elems2.drop_last()[m], g) by {
            assert(elems1.drop_last()[m] == elems1[m]);
            assert(elems2.drop_last()[m] == elems2[m]);
            assert(crate::element::element_line(&elems1[m], g)
                == crate::element::element_line(&elems2[m], g));
        }
        lemma_element_lines_pointwise(elems1.drop_last(), elems2.drop_last(), g);
        assert(crate::element::element_line(&elems1.last(), g) == crate::element::element_line(
            &elems2.last(),
            g,
        ));
    }
}

/// Compiler determinism: two schematics compiled from the same node and
/// edge graph serialize to byte-identical netlist text, whichever
/// analysis is attached.
pub proof fn lemma_compiler_deterministic(
    nodes: Seq<CanvasNode>,
    edges: Seq<CanvasEdge>,
    s1: &Schematic,
    s2: &Schematic,
    sim: &crate::simulation::Simulation,
)
    requires
        s1.spec_ground() == ground_aliases(nodes, edges),
        compile_elements_ok(nodes, edges, s1.spec_elements()),
        s2.spec_ground() == ground_aliases(nodes, edges),
        compile_elements_ok(nodes, edges, s2.spec_elements()),
    ensures
        crate::schematic::netlist_text(s1.spec_elements(), s1.spec_ground(), sim)
            == crate::schematic::netlist_text(s2.spec_elements(), s2.spec_ground(), sim),
{
    let g = ground_aliases(nodes, edges);
    let elems1 = s1.spec_elements();
    let elems2 = s2.spec_elements();
    assert forall|m: int|
        0 <= m < elems1.len() implies crate::element::element_line(&elems1[m], g)
        == #[trigger] crate::element::element_line(&elems2[m], g) by {
        lemma_slot_surjective(nodes, m);
        let i = choose|i: int|
            0 <= i < nodes.len() && is_element_node(&nodes[i]) && #[trigger] elem_slot(nodes, i)
                == m;
        assert(node_element_ok(&nodes[i], node_conns(nodes, edges, i), &elems1[m]));
        assert(node_element_ok(&nodes[i], node_conns(nodes, edges, i), &elems2[m]));
        lemma_element_line_determined(
            &nodes[i],
            node_conns(nodes, edges, i),
            g,
            &elems1[m],
            &elems2[m],
        );
    }
    lemma_element_lines_pointwise(elems1, elems2, g);
}

} // verus!
