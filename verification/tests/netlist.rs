use gspice::canvas::{CanvasEdge, CanvasNode, NodeData, SmallSignalConfig, TimeDomainConfig};
use gspice::compiler::create_schematic_from_canvas;
use gspice::element::Element;
use gspice::position::Position;
use gspice::schematic::{netlist_commands, Schematic};
use gspice::simulation::Simulation;
use gspice::simulator_error::SimulatorError;
use gspice::unit::UnitOfMagnitude;

fn s(t: &str) -> String {
    String::from(t)
}

fn pos() -> Position {
    Position { x: 0, y: 0 }
}

fn node(id: &str, data: NodeData) -> CanvasNode {
    CanvasNode { id: s(id), rotation: 0, data }
}

fn edge(source: &str, port: &str, alias: &str) -> CanvasEdge {
    CanvasEdge {
        target: s(""),
        source: s(source),
        source_port: s(port),
        target_port: s(""),
        target_alias: Some(s(alias)),
    }
}

fn one_source_one_resistor() -> (Vec<CanvasNode>, Vec<CanvasEdge>) {
    let nodes = vec![
        node(
            "v1",
            NodeData::V {
                name: s("1"),
                time_domain: Some(TimeDomainConfig::Dc { value: Some(s("5")) }),
                small_signal: None,
                position: pos(),
            },
        ),
        node("r1", NodeData::R { value: Some(s("1k")), name: s("1"), position: pos() }),
        node("g1", NodeData::Gnd { position: pos() }),
    ];
    let edges = vec![
        edge("v1", "1", "n1"),
        edge("v1", "2", "n2"),
        edge("r1", "1", "n1"),
        edge("r1", "2", "n2"),
        edge("g1", "1", "n2"),
    ];
    (nodes, edges)
}

#[test]
fn element_lines_render_with_ground_aliases() {
    let ground = vec![s("n2")];
    let r = Element::R(s("1"), UnitOfMagnitude::Kilo(s("1")), s("n1"), s("n2"));
    let line = r.get_netlist_representation(&ground).unwrap();
    assert_eq!(line, "R1 n1 gnd 1K\n");
    let c = Element::C(s("2"), UnitOfMagnitude::Nano(s("100")), s("n2"), s("n3"));
    assert_eq!(c.get_netlist_representation(&ground).unwrap(), "C2 gnd n3 100n\n");
    let e = Element::E(
        s("3"),
        UnitOfMagnitude::Base(s("2")),
        s("a"),
        s("b"),
        s("c"),
        s("d"),
    );
    assert_eq!(e.get_netlist_representation(&ground).unwrap(), "E3 a b c d 2\n");
    let f = Element::F(s("4"), UnitOfMagnitude::Base(s("2")), s("a"), s("b"), s("vs"));
    assert_eq!(f.get_netlist_representation(&ground).unwrap(), "F4 a b vs 2\n");
}

#[test]
fn end_to_end_operating_point_netlist() {
    let (nodes, edges) = one_source_one_resistor();
    let schematic = create_schematic_from_canvas(nodes, edges).unwrap();
    let netlist = schematic.build_netlist(Simulation::Op).unwrap();
    assert_eq!(
        netlist,
        "Graphic Spice Netlist\nV1 n1 gnd DC 5\nR1 n1 gnd 1K\n.options savecurrents\n.op\n.end\n"
    );
    let commands = netlist_commands(&netlist);
    assert_eq!(commands[0], "circbyline Graphic Spice Netlist");
    assert_eq!(commands[1], "circbyline V1 n1 gnd DC 5");
    assert_eq!(commands[2], "circbyline R1 n1 gnd 1K");
    assert_eq!(commands.last().unwrap(), "bg_run");
}

#[test]
fn compiling_twice_is_byte_identical() {
    let (n1, e1) = one_source_one_resistor();
    let (n2, e2) = one_source_one_resistor();
    let s1 = create_schematic_from_canvas(n1, e1).unwrap();
    let s2 = create_schematic_from_canvas(n2, e2).unwrap();
    let t1 = s1.build_netlist(Simulation::Op).unwrap();
    let t2 = s2.build_netlist(Simulation::Op).unwrap();
    assert_eq!(t1, t2);
}

#[test]
fn floating_resistor_is_rejected_by_name() {
    let nodes = vec![node(
        "r1",
        NodeData::R { value: Some(s("1k")), name: s("7"), position: pos() },
    )];
    let edges = vec![edge("r1", "1", "n1")];
    let result = create_schematic_from_canvas(nodes, edges);
    assert!(matches!(result, Err(SimulatorError::FloatingNode(name)) if name == "7"));
}

#[test]
fn unconfigured_resistor_is_rejected_by_name() {
    let nodes = vec![node("r1", NodeData::R { value: None, name: s("9"), position: pos() })];
    let edges = vec![edge("r1", "1", "n1"), edge("r1", "2", "n2")];
    let result = create_schematic_from_canvas(nodes, edges);
    assert!(matches!(result, Err(SimulatorError::UnconfiguredElement(name)) if name == "9"));
}

#[test]
fn bad_magnitude_is_rejected_as_unit_error() {
    let nodes = vec![node(
        "r1",
        NodeData::R { value: Some(s("oops")), name: s("1"), position: pos() },
    )];
    let edges = vec![edge("r1", "1", "n1"), edge("r1", "2", "n2")];
    let result = create_schematic_from_canvas(nodes, edges);
    assert!(matches!(result, Err(SimulatorError::UnitError(_))));
}

#[test]
fn connections_bind_in_port_order() {
    // The edges arrive out of port order; the compiled resistor still
    // binds its terminals by the sorted port labels.
    let nodes = vec![
        node("r1", NodeData::R { value: Some(s("2")), name: s("1"), position: pos() }),
    ];
    let edges = vec![edge("r1", "2", "right"), edge("r1", "1", "left")];
    let schematic = create_schematic_from_canvas(nodes, edges).unwrap();
    let netlist = schematic.build_netlist(Simulation::Op).unwrap();
    assert_eq!(
        netlist,
        "Graphic Spice Netlist\nR1 left right 2\n.options savecurrents\n.op\n.end\n"
    );
}

#[test]
fn source_with_small_signal_renders_both_descriptors() {
    let nodes = vec![
        node(
            "v1",
            NodeData::V {
                name: s("2"),
                time_domain: Some(TimeDomainConfig::Sin {
                    offset: Some(s("0")),
                    amplitude: Some(s("1")),
                    frequency: Some(s("1k")),
                    delay: None,
                    damping_factor: None,
                }),
                small_signal: Some(SmallSignalConfig { amplitude: s("1"), phase: Some(s("45")) }),
                position: pos(),
            },
        ),
    ];
    let edges = vec![edge("v1", "1", "a"), edge("v1", "2", "b")];
    let schematic = create_schematic_from_canvas(nodes, edges).unwrap();
    let netlist = schematic.build_netlist(Simulation::Op).unwrap();
    assert_eq!(
        netlist,
        "Graphic Spice Netlist\nV2 a b SIN(0 1 1K) AC 1 45\n.options savecurrents\n.op\n.end\n"
    );
}

#[test]
fn schematic_deduplicates_ground_aliases() {
    let mut schematic = Schematic::new();
    schematic.insert_ground_alias(&s("n2"));
    schematic.insert_ground_alias(&s("n2"));
    let r = Element::R(s("1"), UnitOfMagnitude::Base(s("5")), s("n2"), s("n3"));
    schematic.insert(r);
    let netlist = schematic.build_netlist(Simulation::Op).unwrap();
    assert_eq!(
        netlist,
        "Graphic Spice Netlist\nR1 gnd n3 5\n.options savecurrents\n.op\n.end\n"
    );
}

#[test]
fn controlled_source_and_transistor_lines() {
    let ground: Vec<String> = Vec::new();
    let g = Element::G(
        s("1"),
        UnitOfMagnitude::Mili(s("2")),
        s("a"),
        s("b"),
        s("c"),
        s("d"),
    );
    assert_eq!(g.get_netlist_representation(&ground).unwrap(), "G1 a b c d 2m\n");
    let h = Element::H(s("2"), UnitOfMagnitude::Base(s("3")), s("a"), s("b"), s("vref"));
    assert_eq!(h.get_netlist_representation(&ground).unwrap(), "H2 a b vref 3\n");

    let model = gspice::ltspice::bjt_model_to_domain(".model bc547 NPN(bf=200)").unwrap();
    let q = Element::Q(s("1"), s("c"), s("b"), s("e"), model);
    assert_eq!(
        q.get_netlist_representation(&ground).unwrap(),
        "Q1 c b e bc547\n.model bc547 NPN(BF=200)\n"
    );
}

#[test]
fn source_without_waveform_renders_bare_terminals() {
    let ground: Vec<String> = Vec::new();
    let v = Element::V(s("9"), None, None, s("a"), s("b"));
    assert_eq!(v.get_netlist_representation(&ground).unwrap(), "V9 a b\n");
}
