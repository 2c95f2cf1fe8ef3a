use gspice::element::TimeDomainConfig as DomainTdc;
use gspice::canvas::TimeDomainConfig as CanvasTdc;
use gspice::simulation::{Simulation, SimulationConfig};
use gspice::simulation_status::{contains_any, SimulationStatus, SimulationStatusError};
use gspice::simulator_error::SimulatorError;

fn s(t: &str) -> String {
    String::from(t)
}

#[test]
fn request_reading_from_keyword_and_fields() {
    let c = SimulationConfig::from_tuple(("TRAN", "1u 10u")).unwrap();
    assert_eq!(c.get_kind(), "TRAN");
    assert_eq!(c.values_to_string(), "TRAN 1u 10u");

    let c = SimulationConfig::from_tuple(("OP", "")).unwrap();
    assert_eq!(c.values_to_string(), "OP");

    let c = SimulationConfig::from_tuple(("AC", "1 10k dec 5")).unwrap();
    assert_eq!(c.values_to_string(), "AC 1 10k dec 5");

    let c = SimulationConfig::from_tuple(("NOISE", "out ref v1 oct 10 1 10k 2")).unwrap();
    assert_eq!(c.values_to_string(), "NOISE out v1 oct 10 1 10k 2");

    let c = SimulationConfig::from_tuple(("PZ", "a b c d vol pz")).unwrap();
    assert_eq!(c.values_to_string(), "PZ a b c d vol pz");
}

#[test]
fn request_reading_rejects_bad_fields() {
    let r = SimulationConfig::from_tuple(("AC", "1 10 sideways"));
    assert!(matches!(r, Err(SimulatorError::MalformedSimulationConfig(f)) if f == "variation"));
    let r = SimulationConfig::from_tuple(("AC", "1 10 dec abc"));
    assert!(matches!(r, Err(SimulatorError::MalformedSimulationConfig(f)) if f == "nx"));
    let r = SimulationConfig::from_tuple(("DISTO", "1 10 dec abc"));
    assert!(matches!(r, Err(SimulatorError::MalformedSimulationConfig(f)) if f == "nx"));
    let r = SimulationConfig::from_tuple(("SENS", "W"));
    assert!(matches!(r, Err(SimulatorError::MalformedSimulationConfig(f)) if f == "output_type"));
    let r = SimulationConfig::from_tuple(("WHAT", ""));
    assert!(matches!(r, Err(SimulatorError::MalformedSimulationConfig(f)) if f == "WHAT"));
}

#[test]
fn validated_analyses_render_their_directive() {
    let sim = Simulation::from_config(SimulationConfig::from_tuple(("TRAN", "1u 10u")).unwrap())
        .unwrap();
    assert_eq!(sim.format(), ".tran 1u 10u\n");

    let sim = Simulation::from_config(SimulationConfig::from_tuple(("OP", "")).unwrap()).unwrap();
    assert_eq!(sim.format(), ".op\n");

    let sim = Simulation::from_config(
        SimulationConfig::from_tuple(("AC", "1 10k dec 5")).unwrap(),
    )
    .unwrap();
    assert_eq!(sim.format(), ".ac dec 5 1 10K\n");

    let sim = Simulation::from_config(
        SimulationConfig::from_tuple(("NOISE", "out ref v1 oct 10 1 10k 2")).unwrap(),
    )
    .unwrap();
    assert_eq!(sim.format(), ".noise v(out,ref) v1 oct 10 1 10K 2\n");

    let sim = Simulation::from_config(
        SimulationConfig::from_tuple(("DC", "v1 0 5 0.1")).unwrap(),
    )
    .unwrap();
    assert_eq!(sim.format(), ".dc v1 0 5 0.1\n");
}

#[test]
fn validation_names_the_failing_field() {
    let r = Simulation::from_config(SimulationConfig::from_tuple(("TRAN", "zzz 10u")).unwrap());
    assert!(matches!(r, Err(SimulatorError::MalformedSimulationConfig(f)) if f == "tstep"));
    let r = Simulation::from_config(
        SimulationConfig::Sens {
            output_type: None,
            output: None,
            analysis_type: None,
            fstart: None,
            fstop: None,
            variation: None,
            nx: None,
        },
    );
    assert!(matches!(r, Err(SimulatorError::MalformedSimulationConfig(f)) if f == "analysis_type"));
}

#[test]
fn status_lines_are_classified() {
    assert!(matches!(
        SimulationStatus::new("Source Deck"),
        Ok(SimulationStatus::SourceDeck)
    ));
    assert!(matches!(SimulationStatus::new("--ready--"), Ok(SimulationStatus::Ready)));
    match SimulationStatus::new("tran: 52.4%") {
        Ok(SimulationStatus::Progress { simulation_name, progress }) => {
            assert_eq!(simulation_name, "tran");
            assert_eq!(progress, "52.4");
        },
        other => panic!("unexpected status: {:?}", other),
    }
    assert!(matches!(
        SimulationStatus::new("anything else"),
        Err(SimulationStatusError::UnkownStatus)
    ));
    assert!(matches!(
        SimulationStatus::new("tran: soon%"),
        Err(SimulationStatusError::MalformedSimulationStatus)
    ));
}

#[test]
fn contains_any_finds_the_first_known_name() {
    let names = Simulation::available_simulations();
    assert_eq!(contains_any("noise: 10%", names.clone()), Some(s("noise")));
    assert_eq!(contains_any("nothing here", names), None);
}

#[test]
fn canvas_waveforms_validate_with_cascading_tails() {
    let c = CanvasTdc::Pulse {
        initial_value: Some(s("0")),
        final_value: Some(s("5")),
        delay: None,
        rise_time: Some(s("1u")),
        fall_time: Some(s("1u")),
        pulse_width: Some(s("10u")),
        period: Some(s("20u")),
    };
    // With no delay, every later field is dropped.
    let t = DomainTdc::from_canvas(c).unwrap();
    assert_eq!(t.format(), "PULSE(0 5)");

    let c = CanvasTdc::Dc { value: None };
    let r = DomainTdc::from_canvas(c);
    assert!(matches!(r, Err(SimulatorError::MalformedSimulationConfig(f)) if f == "DC value"));

    let c = CanvasTdc::Dc { value: Some(s("bogus")) };
    let r = DomainTdc::from_canvas(c);
    assert!(matches!(r, Err(SimulatorError::UnitError(_))));
}

#[test]
fn transient_requests_carry_the_initial_conditions_flag() {
    let c = SimulationConfig::from_tuple(("TRAN", "1u 10u 0 1u uic")).unwrap();
    assert_eq!(c.values_to_string(), "TRAN 1u 10u 0 1u uic");
    let sim = Simulation::from_config(c).unwrap();
    assert_eq!(sim.format(), ".tran 1u 10u 0 1u uic\n");
}

#[test]
fn sensitivity_requests_need_their_whole_sweep() {
    let c = SimulationConfig::from_tuple(("SENS", "V out ac 1 10k dec 5")).unwrap();
    let sim = Simulation::from_config(c).unwrap();
    assert_eq!(sim.format(), ".sens V(out) dec 5 1 10K\n");
    let incomplete = SimulationConfig::Sens {
        output_type: Some(gspice::simulation::CurrentOrVoltage::V),
        output: Some(s("out")),
        analysis_type: Some(gspice::simulation::SensitivityAnalysisType::Ac),
        fstart: Some(s("1")),
        fstop: None,
        variation: None,
        nx: None,
    };
    let r = Simulation::from_config(incomplete);
    assert!(
        matches!(r, Err(SimulatorError::MalformedSimulationConfig(f)) if f == "sens ac parameters")
    );
}
