use gspice::commands::{
    on_background_state, on_vector_data, SecondaryThreadStatus, SimulationThreadOrchestrator,
    ThreadOperationInfo,
};
use gspice::simulation::SimulationConfig;
use gspice::simulation_data::{PkVecvalues, PkVecvaluesall, SimulationData};

fn s(t: &str) -> String {
    String::from(t)
}

fn op() -> SimulationConfig {
    SimulationConfig::Op {}
}

fn point(index: i32) -> SimulationData {
    SimulationData::new(PkVecvaluesall {
        count: 1,
        index,
        vecsa: vec![PkVecvalues {
            name: s("v(n1)"),
            creal: index as u64,
            cimag: 0,
            is_scale: false,
            is_complex: false,
        }],
    })
}

#[test]
fn round_robin_assignment_over_four_workers() {
    let requests: Vec<(String, SimulationConfig)> =
        (0..6).map(|i| (format!("req{}", i), op())).collect();
    let orch = SimulationThreadOrchestrator::new(requests);
    assert_eq!(orch.threads_needed(), 4);
    // Worker 0 holds requests 0 and 4, worker 1 holds 1 and 5.
    assert_eq!(orch.thread_info[0].queued_simulations.len(), 2);
    assert_eq!(orch.thread_info[0].queued_simulations[0].0, "req0");
    assert_eq!(orch.thread_info[0].queued_simulations[1].0, "req4");
    assert_eq!(orch.thread_info[1].queued_simulations[1].0, "req5");
    assert_eq!(orch.thread_info[2].queued_simulations.len(), 1);
    assert_eq!(orch.thread_info[3].queued_simulations.len(), 1);

    let small = SimulationThreadOrchestrator::new(vec![(s("only"), op())]);
    assert_eq!(small.threads_needed(), 1);
}

#[test]
fn queues_are_first_in_first_out() {
    let requests: Vec<(String, SimulationConfig)> =
        (0..6).map(|i| (format!("req{}", i), op())).collect();
    let mut orch = SimulationThreadOrchestrator::new(requests);
    // Worker 0 was assigned requests 0 and 4 and hands them back in
    // arrival order.
    let (first, _) = orch.dequeue_simulation(0).unwrap();
    assert_eq!(first, "req0");
    let (second, _) = orch.dequeue_simulation(0).unwrap();
    assert_eq!(second, "req4");
    assert!(orch.dequeue_simulation(0).is_none());
}

#[test]
fn every_request_reaches_exactly_one_terminal_event() {
    let requests: Vec<(String, SimulationConfig)> =
        (0..7).map(|i| (format!("req{}", i), op())).collect();
    let mut orch = SimulationThreadOrchestrator::new(requests);
    let workers = orch.threads_needed();
    let mut finished: Vec<String> = Vec::new();
    for id in 0..workers {
        loop {
            match orch.dequeue_simulation(id) {
                Some((sim_id, _config)) => {
                    orch.set_active_simulation(id, &sim_id);
                    orch.set_thread_status(id, SecondaryThreadStatus::Running);
                    // The run ends: the finished callback reports the
                    // terminal event for this request.
                    let (done_id, _batch) = on_background_state(&mut orch, id, true).unwrap();
                    finished.push(done_id);
                },
                None => {
                    orch.set_thread_status(id, SecondaryThreadStatus::Done);
                    break;
                },
            }
        }
    }
    finished.sort();
    let expected: Vec<String> = (0..7).map(|i| format!("req{}", i)).collect();
    let mut expected = expected;
    expected.sort();
    assert_eq!(finished, expected);
    // The orchestration is done only now that every worker is done.
    orch.refresh_main_status();
    assert!(!orch.has_running_threads());
}

#[test]
fn buffer_flushes_preserve_the_data_stream() {
    let mut orch = SimulationThreadOrchestrator::new(vec![(s("req0"), op())]);
    let (sim_id, _config) = orch.dequeue_simulation(0).unwrap();
    orch.set_active_simulation(0, &sim_id);
    orch.restart_timer(0, 1000);

    let mut collected: Vec<SimulationData> = Vec::new();
    // Two points arrive before the flush threshold, the third after it.
    assert!(on_vector_data(&mut orch, 0, point(0), 1010, 150).is_none());
    assert!(on_vector_data(&mut orch, 0, point(1), 1020, 150).is_none());
    let (id, batch) = on_vector_data(&mut orch, 0, point(2), 1200, 150).unwrap();
    assert_eq!(id, "req0");
    collected.extend(batch);
    // One more point, then the run finishes and drains the rest.
    assert!(on_vector_data(&mut orch, 0, point(3), 1210, 150).is_none());
    let (id, rest) = on_background_state(&mut orch, 0, true).unwrap();
    assert_eq!(id, "req0");
    collected.extend(rest);

    let indices: Vec<i32> = collected.iter().map(|d| d.data_index).collect();
    assert_eq!(indices, vec![0, 1, 2, 3]);
}

#[test]
fn threshold_is_an_elapsed_time_check() {
    let mut info = ThreadOperationInfo::new();
    assert!(!info.has_threshold_elapsed(500, 150));
    info.restart_timer(1000);
    assert!(!info.has_threshold_elapsed(1100, 150));
    assert!(info.has_threshold_elapsed(1151, 150));
}

#[test]
fn data_points_copy_every_vector_value() {
    let d = SimulationData::new(PkVecvaluesall {
        count: 2,
        index: 7,
        vecsa: vec![
            PkVecvalues {
                name: s("time"),
                creal: 42,
                cimag: 0,
                is_scale: true,
                is_complex: false,
            },
            PkVecvalues {
                name: s("v(out)"),
                creal: 9,
                cimag: 3,
                is_scale: false,
                is_complex: true,
            },
        ],
    });
    assert_eq!(d.computed, 2);
    assert_eq!(d.data_index, 7);
    assert_eq!(d.computed_values_for_index.len(), 2);
    assert_eq!(d.computed_values_for_index[0].name, "time");
    assert!(d.computed_values_for_index[0].is_scale);
    assert_eq!(d.computed_values_for_index[1].c_imag, 3);
}

#[test]
fn main_status_stays_running_while_a_worker_owes_work() {
    let mut orch = SimulationThreadOrchestrator::new(vec![(s("a"), op()), (s("b"), op())]);
    assert!(orch.has_running_threads());
    orch.refresh_main_status();
    orch.set_thread_status(0, SecondaryThreadStatus::Done);
    assert!(orch.has_running_threads());
    orch.set_thread_status(1, SecondaryThreadStatus::Panic);
    assert!(!orch.has_running_threads());
}
