use gspice::canvas::{SmallSignalConfig, TimeDomainConfig};
use gspice::gspice::{InstanceName, Rotation as GsRotation};
use gspice::ltspice::{bjt_model_to_domain, Rotation, SymTransform, SymType, SymbolAttribute};
use gspice::position::Position;

fn s(t: &str) -> String {
    String::from(t)
}

#[test]
fn rotations_read_and_render() {
    assert_eq!(GsRotation::from_string("R90").to_number(), 90);
    assert_eq!(GsRotation::from_string("R475").to_number(), 0);
    assert_eq!(GsRotation::from_number(270).to_string(), "R270");
    assert_eq!(GsRotation::from_number_to_string(180), "R180");
    assert_eq!(GsRotation::from_number_to_string(7), "R0");
    assert_eq!(Rotation::from_number(180).as_number(), 180);
    assert_eq!(Rotation::from_number(45).as_number(), 0);
}

#[test]
fn instance_names_round_trip() {
    let all = ["R", "C", "L", "V", "I", "Q"];
    for letter in all {
        let name = InstanceName::from_string(letter).unwrap();
        assert_eq!(name.to_string(), letter);
    }
    assert!(InstanceName::from_string("X").is_none());
}

#[test]
fn positions_move_and_rotate() {
    let a = Position { x: 3, y: 4 };
    let b = Position { x: 1, y: -2 };
    assert_eq!(a.add(b), Position { x: 4, y: 2 });
    assert_eq!(a.subtract(b), Position { x: 2, y: 6 });
    assert_eq!(a.rotate(&Rotation::Ninety), Position { x: -4, y: 3 });
    assert_eq!(a.rotate(&Rotation::OneEighty), Position { x: -3, y: -4 });
    assert_eq!(Position::average(&a, &b), Position { x: 2, y: 1 });
    assert_eq!(Position::average(&Position { x: -3, y: -5 }, &b), Position { x: -1, y: -3 });
    assert_eq!(a.to_string(), "3-4");
    assert!(a.eq(&Position { x: 3, y: 4 }));
}

#[test]
fn symbol_vocabulary_reads_case_insensitively() {
    assert!(matches!(SymType::from_str("CAP"), SymType::Cap));
    assert!(matches!(SymType::from_str("voltage"), SymType::Voltage));
    assert!(matches!(SymType::from_str("strange"), SymType::Ground));

    let t = SymTransform::from_str("MR180");
    assert!(t.mirrored);
    assert!(matches!(t.rotation, Rotation::OneEighty));
    let t = SymTransform::from_str("R90");
    assert!(!t.mirrored);
    assert!(matches!(t.rotation, Rotation::Ninety));

    match SymbolAttribute::from_str("SYMATTR InstName R1") {
        Some(SymbolAttribute::InstName(v)) => assert_eq!(v, "R1"),
        other => panic!("unexpected attribute: {:?}", other),
    }
    match SymbolAttribute::from_str("SYMATTR Value 4.7k") {
        Some(SymbolAttribute::Value(v)) => assert_eq!(v, "4.7k"),
        other => panic!("unexpected attribute: {:?}", other),
    }
    assert!(SymbolAttribute::from_str("SYMATTR Unknown x").is_none());
}

#[test]
fn model_directives_read_into_device_models() {
    let m = bjt_model_to_domain(".model q2n NPN(is=1u bf=100 rb=10)").unwrap();
    assert_eq!(m.name, "q2n");
    assert!(matches!(m.polarity, gspice::element::BjtPolarity::Npn));
    assert!(m.is.is_some());
    assert!(m.bf.is_some());
    assert!(m.rb.is_some());
    assert!(m.vaf.is_none());
    assert_eq!(m.format(), ".model q2n NPN(IS=1u BF=100 RB=10)\n");

    assert!(bjt_model_to_domain("no parenthesis here").is_none());
    assert!(bjt_model_to_domain(".model onlyname(").is_none());
    assert!(bjt_model_to_domain(".wrong q NPN(is=1)").is_none());
}

#[test]
fn dialect_waveform_text_round_trips_through_the_reader() {
    let c = TimeDomainConfig::Pulse {
        initial_value: Some(s("0")),
        final_value: Some(s("5")),
        delay: Some(s("1u")),
        rise_time: Some(s("2u")),
        fall_time: None,
        pulse_width: None,
        period: None,
    };
    let text = c.to_gsp_string();
    assert_eq!(text, "PULSE 0 5 1u 2u");
    let back = TimeDomainConfig::from_gsp_value_string(&text).unwrap();
    assert_eq!(back.to_gsp_string(), text);
}

#[test]
fn dialect_readers_handle_each_kind() {
    let r = TimeDomainConfig::from_space_separated_string("sine", "0 1 1k");
    assert_eq!(r.unwrap().to_gsp_string(), "SINE 0 1 1k");
    let r = TimeDomainConfig::from_space_separated_string("sffm", "0 1 1k 3 2k");
    assert_eq!(r.unwrap().to_gsp_string(), "SFFM 0 1 1k 3 2k");
    let r = TimeDomainConfig::from_space_separated_string("dc", "ignored");
    assert_eq!(r.unwrap().to_gsp_string(), "DC 0");
    assert!(TimeDomainConfig::from_space_separated_string("unknown", "1 2").is_none());
    assert!(TimeDomainConfig::from_gsp_value_string("").is_none());
    // A modulation index that does not read as a 16-bit integer is
    // dropped, and the cascade stops with it.
    let r = TimeDomainConfig::from_space_separated_string("sffm", "0 1 1k wild 2k");
    assert_eq!(r.unwrap().to_gsp_string(), "SFFM 0 1 1k");
    let r = TimeDomainConfig::from_space_separated_string("sffm", "0 1 1k 99999 2k");
    assert_eq!(r.unwrap().to_gsp_string(), "SFFM 0 1 1k");
}

#[test]
fn legacy_waveform_values_fall_back_to_constant() {
    let r = TimeDomainConfig::from_asc_value_string("5K").unwrap();
    assert_eq!(r.to_gsp_string(), "DC 5K");
    let r = TimeDomainConfig::from_asc_value_string("PULSE(0 5 1u)").unwrap();
    assert_eq!(r.to_gsp_string(), "PULSE 0 5 1u");
    assert!(TimeDomainConfig::from_asc_value_string("\"\"").is_none());
    assert!(TimeDomainConfig::from_asc_value_string("").is_none());
}

#[test]
fn small_signal_descriptors_read_and_render() {
    let c = SmallSignalConfig::from_asc_value_string("AC 1 45");
    assert_eq!(c.amplitude, "1");
    assert_eq!(c.phase, Some(s("45")));
    assert_eq!(c.to_gsp_string(), "AC 1 45");
    let c = SmallSignalConfig::from_gsp_value_string("AC").unwrap();
    assert_eq!(c.amplitude, "0");
    assert!(c.phase.is_none());
    assert!(SmallSignalConfig::from_gsp_value_string("").is_none());
}

#[test]
fn repeated_model_parameters_keep_the_last_one() {
    let m = bjt_model_to_domain(".model q NPN(bf=100 bf=250)").unwrap();
    assert_eq!(m.format(), ".model q NPN(BF=250)\n");
}

#[test]
fn device_models_round_trip_through_the_canvas_shape() {
    let m = bjt_model_to_domain(".model q PNP(is=1u vaf=50)").unwrap();
    let canvas = m.to_canvas();
    assert_eq!(canvas.name, "q");
    assert_eq!(canvas.is, Some(s("1u")));
    assert_eq!(canvas.vaf, Some(s("50")));
    let back = canvas.to_domain();
    assert_eq!(back.format(), m.format());
}
