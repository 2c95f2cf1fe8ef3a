//! The simulation orchestrator: a fixed pool of workers, each with a
//! queue of requests, an optional running request, a flush timer and a
//! buffer of streamed data points.  Requests are distributed round-robin
//! at construction; the orchestrator is done once every worker is.

use vstd::prelude::*;

use crate::simulation::SimulationConfig;
use crate::simulation_data::SimulationData;

verus! {

#[derive(Debug, Clone, Copy)]
pub enum MainThreadStatus {
    Running,
    Done,
}

#[derive(Debug, Clone, Copy)]
pub enum SecondaryThreadStatus {
    Idle,
    Running,
    Halted,
    Done,
    Panic,
}

/// How many engine workers one orchestration may use.
pub const AVAIL_SPICE_THREADS: usize = 4;

/// The operating state of one worker: its lifecycle status, the request
/// it is running, the requests still queued for it, the time of its last
/// flush, and the data buffered since then.
#[derive(Debug, Clone)]
pub struct ThreadOperationInfo {
    pub status: SecondaryThreadStatus,
    pub ongoing_simulation: Option<String>,
    pub queued_simulations: Vec<(String, SimulationConfig)>,
    pub current_timer: Option<u64>,
    pub simulation_data_buffer: Vec<SimulationData>,
}

/// A worker still owes work while it is idle, running or halted.
pub open spec fn worker_busy(s: SecondaryThreadStatus) -> bool {
    s is Idle || s is Running || s is Halted
}

/// The flush threshold has elapsed when a timer is armed and more than
/// `threshold` milliseconds have passed since it was armed.
pub open spec fn threshold_elapsed(timer: Option<u64>, now: u64, threshold: u64) -> bool {
    match timer {
        Some(t) => now >= t && now - t > threshold,
        None => false,
    }
}

impl ThreadOperationInfo {
    pub fn new() -> (r: Self)
        ensures
            r.status is Idle,
            r.ongoing_simulation is None,
            r.queued_simulations@ == Seq::<(String, SimulationConfig)>::empty(),
            r.current_timer is None,
            r.simulation_data_buffer@ == Seq::<SimulationData>::empty(),
    {
        Self {
            status: SecondaryThreadStatus::Idle,
            queued_simulations: Vec::new(),
            ongoing_simulation: None,
            current_timer: None,
            simulation_data_buffer: Vec::new(),
        }
    }

    /// Arms the flush timer at the current time.
    pub fn restart_timer(&mut self, now: u64)
        ensures
            *final(self) == (ThreadOperationInfo { current_timer: Some(now), ..*old(self) }),
    {
        self.current_timer = Some(now);
    }

    pub fn has_threshold_elapsed(&self, now: u64, threshold: u64) -> (r: bool)
        ensures
            r == threshold_elapsed(self.current_timer, now, threshold),
    {
        if let Some(t) = self.current_timer {
            now >= t && now - t > threshold
        } else {
            false
        }
    }

    /// Hands the buffered data over and clears the buffer.
    pub fn flush_simulation_data_buffer(&mut self) -> (r: Vec<SimulationData>)
        ensures
            r@ == old(self).simulation_data_buffer@,
            *final(self) == (ThreadOperationInfo {
                simulation_data_buffer: final(self).simulation_data_buffer,
                ..*old(self)
            }),
            final(self).simulation_data_buffer@ == Seq::<SimulationData>::empty(),
    {
        let mut buffer: Vec<SimulationData> = Vec::new();
        core::mem::swap(&mut buffer, &mut self.simulation_data_buffer);
        buffer
    }

    pub fn push_simulation_data(&mut self, simulation_data: SimulationData)
        ensures
            *final(self) == (ThreadOperationInfo {
                simulation_data_buffer: final(self).simulation_data_buffer,
                ..*old(self)
            }),
            final(self).simulation_data_buffer@ == old(self).simulation_data_buffer@.push(
                simulation_data,
            ),
    {
        self.simulation_data_buffer.push(simulation_data);
    }

    pub fn queue_simulation(&mut self, simulation_info: (String, SimulationConfig))
        ensures
            *final(self) == (ThreadOperationInfo {
                queued_simulations: final(self).queued_simulations,
                ..*old(self)
            }),
            final(self).queued_simulations@ == old(self).queued_simulations@.push(simulation_info),
    {
        self.queued_simulations.push(simulation_info)
    }

    /// Takes the earliest-queued request, if any is left: the queue is
    /// first in, first out.
    pub fn dequeue_simulation(&mut self) -> (r: Option<(String, SimulationConfig)>)
        ensures
            *final(self) == (ThreadOperationInfo {
                queued_simulations: final(self).queued_simulations,
                ..*old(self)
            }),
            match r {
                Some(info) => old(self).queued_simulations@.len() > 0 && info == old(
                    self,
                ).queued_simulations@[0] && final(self).queued_simulations@ == old(
                    self,
                ).queued_simulations@.skip(1),
                None => old(self).queued_simulations@.len() == 0 && final(self).queued_simulations@
                    == old(self).queued_simulations@,
            },
    {
        if self.queued_simulations.len() == 0 {
            None
        } else {
            let ghost before = self.queued_simulations@;
            let info = self.queued_simulations.remove(0);
            proof {
                assert(before.remove(0) =~= before.skip(1));
            }
            Some(info)
        }
    }

    pub fn set_status(&mut self, new_status: SecondaryThreadStatus)
        ensures
            *final(self) == (ThreadOperationInfo { status: new_status, ..*old(self) }),
    {
        self.status = new_status;
    }

    pub fn set_active_simulation(&mut self, sim_id: &str)
        ensures
            *final(self) == (ThreadOperationInfo {
                ongoing_simulation: final(self).ongoing_simulation,
                ..*old(self)
            }),
            final(self).ongoing_simulation matches Some(s) && s@ == sim_id@,
    {
        self.ongoing_simulation = Some(String::from_str(sim_id));
    }

    pub fn get_ongoing_simulation_id(&self) -> (r: Option<String>)
        ensures
            r == self.ongoing_simulation,
    {
        match &self.ongoing_simulation {
            Some(s) => Some(s.clone()),
            None => None,
        }
    }
}

/// The orchestrator's shared state: its own status and one operating
/// record per worker.
#[derive(Debug, Clone)]
pub struct SimulationThreadOrchestrator {
    pub status: MainThreadStatus,
    pub thread_info: Vec<ThreadOperationInfo>,
}

/// One cell of the round-robin layout: position `j` of worker `k`'s
/// queue exists exactly when request `4 j + k` does, and then holds it.
pub open spec fn round_robin_at(
    r: &SimulationThreadOrchestrator,
    input: Seq<(String, SimulationConfig)>,
    upto: int,
    k: int,
    j: int,
) -> bool {
    &&& (j < r.queue(k).len() <==> 4 * j + k < upto)
    &&& (j < r.queue(k).len() ==> r.queue(k)[j] == input[4 * j + k])
}

/// The round-robin layout over the first `upto` requests: worker `k`
/// holds, in order, exactly the requests at positions `k`, `k + 4`,
/// `k + 8`, and so on.
pub open spec fn round_robin_upto(
    r: &SimulationThreadOrchestrator,
    input: Seq<(String, SimulationConfig)>,
    upto: int,
) -> bool {
    forall|k: int, j: int|
        0 <= k < r.thread_info@.len() && 0 <= j ==> #[trigger] round_robin_at(r, input, upto, k, j)
}

impl SimulationThreadOrchestrator {
    /// The queue of one worker.
    pub open spec fn queue(&self, k: int) -> Seq<(String, SimulationConfig)> {
        self.thread_info@[k].queued_simulations@
    }

    /// Distributes the requests round-robin over at most
    /// `AVAIL_SPICE_THREADS` workers: request `i` goes to worker
    /// `i % AVAIL_SPICE_THREADS`, in order.
    #[verifier::loop_isolation(false)]
    #[verifier::rlimit(100)]
    pub fn new(simulations_to_run: Vec<(String, SimulationConfig)>) -> (r: Self)
        ensures
            r.status is Running,
            r.thread_info@.len() == (if simulations_to_run@.len() < AVAIL_SPICE_THREADS as int {
                simulations_to_run@.len() as int
            } else {
                AVAIL_SPICE_THREADS as int
            }),
            forall|k: int|
                0 <= k < r.thread_info@.len() ==> {
                    let w = #[trigger] r.thread_info@[k];
                    w.status is Idle && w.ongoing_simulation is None && w.current_timer is None
                        && w.simulation_data_buffer@.len() == 0
                },
            round_robin_upto(&r, simulations_to_run@, simulations_to_run@.len() as int),
    {
        let n = simulations_to_run.len();
        let workers: usize = if n < AVAIL_SPICE_THREADS {
            n
        } else {
            AVAIL_SPICE_THREADS
        };
        let mut thread_info: Vec<ThreadOperationInfo> = Vec::new();
        let mut w: usize = 0;
        while w < workers
            invariant
                0 <= w <= workers,
                thread_info@.len() == w,
                forall|k: int|
                    0 <= k < w ==> {
                        let wi = #[trigger] thread_info@[k];
                        wi.status is Idle && wi.ongoing_simulation is None && wi.current_timer
                            is None && wi.simulation_data_buffer@.len() == 0
                            && wi.queued_simulations@.len() == 0
                    },
            decreases workers - w,
        {
            thread_info.push(ThreadOperationInfo::new());
            w += 1;
        }
        let mut r = Self { status: MainThreadStatus::Running, thread_info };
        let mut allocated: usize = 0;
        let mut rest = simulations_to_run;
        proof {
            assert(round_robin_upto(&r, rest@, 0));
        }
        let ghost input = rest@;
        while allocated < n
            invariant
                0 <= allocated <= n,
                rest@.len() + allocated == n,
                input.len() == n,
                forall|i: int|
                    0 <= i < n - allocated ==> #[trigger] rest@[i] == input[allocated + i],
                r.status is Running,
                r.thread_info@.len() == workers,
                workers == (if n < AVAIL_SPICE_THREADS {
                    n
                } else {
                    AVAIL_SPICE_THREADS
                }),
                forall|k: int|
                    0 <= k < workers ==> {
                        let wi = #[trigger] r.thread_info@[k];
                        wi.status is Idle && wi.ongoing_simulation is None && wi.current_timer
                            is None && wi.simulation_data_buffer@.len() == 0
                    },
                round_robin_upto(&r, input, allocated as int),
            decreases n - allocated,
        {
            let ghost old_rest = rest@;
            let info = rest.remove(0);
            proof {
                assert(info == input[allocated as int]);
                assert forall|i: int| 0 <= i < n - allocated - 1 implies #[trigger] rest@[i]
                    == input[allocated + 1 + i] by {
                    assert(rest@[i] == old_rest[i + 1]);
                }
            }
            let thread_n = allocated % AVAIL_SPICE_THREADS;
            proof {
                assert(thread_n < workers) by {
                    if n < AVAIL_SPICE_THREADS {
                        assert(allocated < 4);
                        assert(allocated % 4 == allocated);
                    }
                }
            }
            let ghost old_r = r;
            let mut slot = ThreadOperationInfo::new();
            core::mem::swap(&mut slot, &mut r.thread_info[thread_n]);
            slot.queue_simulation(info);
            core::mem::swap(&mut slot, &mut r.thread_info[thread_n]);
            proof {
                let a = allocated as int;
                assert forall|k: int, j: int|
                        0 <= k < r.thread_info@.len() && 0 <= j implies #[trigger] round_robin_at(
                        &r,
                        input,
                        a + 1,
                        k,
                        j,
                    ) by {
                        assert(round_robin_at(&old_r, input, a, k, j));
                        if j > 0 {
                            assert(round_robin_at(&old_r, input, a, k, j - 1));
                        }
                        if k == thread_n {
                            assert(r.queue(k) == old_r.queue(k).push(input[a]));
                            if j < r.queue(k).len() {
                                if j < old_r.queue(k).len() {
                                    assert(r.queue(k)[j] == old_r.queue(k)[j]);
                                } else {
                                    assert(j == old_r.queue(k).len());
                                    assert(!(4 * j + k < a));
                                    if j > 0 {
                                        assert(4 * (j - 1) + k < a);
                                    }
                                    assert(4 * j + k == a);
                                }
                            } else {
                                assert(j >= old_r.queue(k).len() + 1);
                                assert(!(4 * (j - 1) + k < a));
                                assert(!(4 * j + k < a + 1));
                            }
                        } else {
                            assert(r.queue(k) == old_r.queue(k));
                            assert(k != a % 4);
                            assert(4 * j + k != a) by {
                                if 4 * j + k == a {
                                    assert(k == a % 4) by (nonlinear_arith)
                                        requires
                                            4 * j + k == a,
                                            0 <= k < 4,
                                            0 <= j,
                                    ;
                                }
                            }
                        }
                    }
                assert(round_robin_upto(&r, input, a + 1));
            }
            allocated += 1;
        }
        r
    }

    /// A worker still owes work while any worker is idle, running or
    /// halted.
    #[verifier::loop_isolation(false)]
    pub fn has_running_threads(&self) -> (r: bool)
        ensures
            r == exists|k: int|
                0 <= k < self.thread_info@.len() && worker_busy(#[trigger] self.thread_info@[k].status),
    {
        let n = self.thread_info.len();
        let mut i: usize = 0;
        while i < n
            invariant
                0 <= i <= n,
                forall|k: int| 0 <= k < i ==> !worker_busy(#[trigger] self.thread_info@[k].status),
            decreases n - i,
        {
            match self.thread_info[i].status {
                SecondaryThreadStatus::Running => {
                    return true;
                },
                SecondaryThreadStatus::Halted => {
                    return true;
                },
                SecondaryThreadStatus::Idle => {
                    return true;
                },
                _ => {},
            }
            i += 1;
        }
        false
    }

    /// One step of the orchestrator's own loop: while running, it goes
    /// done exactly when no worker owes work any more.
    pub fn refresh_main_status(&mut self)
        ensures
            final(self).thread_info == old(self).thread_info,
            final(self).status is Done <==> (old(self).status is Done || !exists|k: int|
                0 <= k < old(self).thread_info@.len() && worker_busy(
                    #[trigger] old(self).thread_info@[k].status,
                )),
    {
        match self.status {
            MainThreadStatus::Running => {
                if !self.has_running_threads() {
                    self.status = MainThreadStatus::Done;
                }
            },
            MainThreadStatus::Done => {},
        }
    }

    pub fn get_thread_ongoing_simulation_id(&self, id: usize) -> (r: Option<String>)
        ensures
            r == (if id < self.thread_info@.len() {
                self.thread_info@[id as int].ongoing_simulation
            } else {
                None::<String>
            }),
    {
        if id < self.thread_info.len() {
            self.thread_info[id].get_ongoing_simulation_id()
        } else {
            None
        }
    }

    pub fn restart_timer(&mut self, id: usize, now: u64)
        ensures
            final(self).status == old(self).status,
            final(self).thread_info@.len() == old(self).thread_info@.len(),
            forall|k: int|
                0 <= k < old(self).thread_info@.len() && k != id ==> final(self).thread_info@[k]
                    == #[trigger] old(self).thread_info@[k],
            id < old(self).thread_info@.len() ==> final(self).thread_info@[id as int]
                == (ThreadOperationInfo {
                current_timer: Some(now),
                ..old(self).thread_info@[id as int]
            }),
    {
        if id < self.thread_info.len() {
            let mut slot = ThreadOperationInfo::new();
            core::mem::swap(&mut slot, &mut self.thread_info[id]);
            slot.restart_timer(now);
            core::mem::swap(&mut slot, &mut self.thread_info[id]);
        }
    }

    pub fn has_threshold_elapsed(&self, id: usize, now: u64, threshold: u64) -> (r: bool)
        ensures
            r == (id < self.thread_info@.len() && threshold_elapsed(
                self.thread_info@[id as int].current_timer,
                now,
                threshold,
            )),
    {
        if id < self.thread_info.len() {
            self.thread_info[id].has_threshold_elapsed(now, threshold)
        } else {
            false
        }
    }

    pub fn push_simulation_data(&mut self, id: usize, simulation_data: SimulationData)
        ensures
            final(self).status == old(self).status,
            final(self).thread_info@.len() == old(self).thread_info@.len(),
            forall|k: int|
                0 <= k < old(self).thread_info@.len() && k != id ==> final(self).thread_info@[k]
                    == #[trigger] old(self).thread_info@[k],
            id < old(self).thread_info@.len() ==> {
                let wi = final(self).thread_info@[id as int];
                wi == (ThreadOperationInfo {
                    simulation_data_buffer: wi.simulation_data_buffer,
                    ..old(self).thread_info@[id as int]
                }) && wi.simulation_data_buffer@ == old(
                    self,
                ).thread_info@[id as int].simulation_data_buffer@.push(simulation_data)
            },
    {
        if id < self.thread_info.len() {
            let mut slot = ThreadOperationInfo::new();
            core::mem::swap(&mut slot, &mut self.thread_info[id]);
            slot.push_simulation_data(simulation_data);
            core::mem::swap(&mut slot, &mut self.thread_info[id]);
        }
    }

    pub fn flush_simulation_data_buffer(&mut self, id: usize) -> (r: Vec<SimulationData>)
        ensures
            final(self).status == old(self).status,
            final(self).thread_info@.len() == old(self).thread_info@.len(),
            forall|k: int|
                0 <= k < old(self).thread_info@.len() && k != id ==> final(self).thread_info@[k]
                    == #[trigger] old(self).thread_info@[k],
            id < old(self).thread_info@.len() ==> {
                let wi = final(self).thread_info@[id as int];
                r@ == old(self).thread_info@[id as int].simulation_data_buffer@ && wi
                    == (ThreadOperationInfo {
                    simulation_data_buffer: wi.simulation_data_buffer,
                    ..old(self).thread_info@[id as int]
                }) && wi.simulation_data_buffer@ == Seq::<SimulationData>::empty()
            },
            id >= old(self).thread_info@.len() ==> r@ == Seq::<SimulationData>::empty()
                && *final(self) == *old(self),
    {
        if id < self.thread_info.len() {
            let mut slot = ThreadOperationInfo::new();
            core::mem::swap(&mut slot, &mut self.thread_info[id]);
            let r = slot.flush_simulation_data_buffer();
            core::mem::swap(&mut slot, &mut self.thread_info[id]);
            r
        } else {
            Vec::new()
        }
    }

    /// The status of one worker; the worker must exist.
    pub fn get_thread_status(&self, id: usize) -> (r: SecondaryThreadStatus)
        requires
            id < self.thread_info@.len(),
        ensures
            r == self.thread_info@[id as int].status,
    {
        self.thread_info[id].status
    }

    pub fn dequeue_simulation(&mut self, id: usize) -> (r: Option<(String, SimulationConfig)>)
        ensures
            final(self).status == old(self).status,
            final(self).thread_info@.len() == old(self).thread_info@.len(),
            forall|k: int|
                0 <= k < old(self).thread_info@.len() && k != id ==> final(self).thread_info@[k]
                    == #[trigger] old(self).thread_info@[k],
            id >= old(self).thread_info@.len() ==> r is None && *final(self) == *old(self),
            id < old(self).thread_info@.len() ==> {
                let before = old(self).thread_info@[id as int];
                let wi = final(self).thread_info@[id as int];
                wi == (ThreadOperationInfo { queued_simulations: wi.queued_simulations, ..before })
                    && (match r {
                    Some(info) => before.queued_simulations@.len() > 0 && info
                        == before.queued_simulations@[0] && wi.queued_simulations@
                        == before.queued_simulations@.skip(1),
                    None => before.queued_simulations@.len() == 0 && wi.queued_simulations@
                        == before.queued_simulations@,
                })
            },
    {
        if id < self.thread_info.len() {
            let mut slot = ThreadOperationInfo::new();
            core::mem::swap(&mut slot, &mut self.thread_info[id]);
            let r = slot.dequeue_simulation();
            core::mem::swap(&mut slot, &mut self.thread_info[id]);
            r
        } else {
            None
        }
    }

    pub fn set_thread_status(&mut self, id: usize, new_status: SecondaryThreadStatus)
        ensures
            final(self).status == old(self).status,
            final(self).thread_info@.len() == old(self).thread_info@.len(),
            forall|k: int|
                0 <= k < old(self).thread_info@.len() && k != id ==> final(self).thread_info@[k]
                    == #[trigger] old(self).thread_info@[k],
            id < old(self).thread_info@.len() ==> final(self).thread_info@[id as int]
                == (ThreadOperationInfo { status: new_status, ..old(self).thread_info@[id as int] }),
    {
        if id < self.thread_info.len() {
            let mut slot = ThreadOperationInfo::new();
            core::mem::swap(&mut slot, &mut self.thread_info[id]);
            slot.set_status(new_status);
            core::mem::swap(&mut slot, &mut self.thread_info[id]);
        }
    }

    pub fn set_active_simulation(&mut self, id: usize, sim_id: &str)
        ensures
            final(self).status == old(self).status,
            final(self).thread_info@.len() == old(self).thread_info@.len(),
            forall|k: int|
                0 <= k < old(self).thread_info@.len() && k != id ==> final(self).thread_info@[k]
                    == #[trigger] old(self).thread_info@[k],
            id < old(self).thread_info@.len() ==> {
                let wi = final(self).thread_info@[id as int];
                wi == (ThreadOperationInfo {
                    ongoing_simulation: wi.ongoing_simulation,
                    ..old(self).thread_info@[id as int]
                }) && (wi.ongoing_simulation matches Some(s) && s@ == sim_id@)
            },
    {
        if id < self.thread_info.len() {
            let mut slot = ThreadOperationInfo::new();
            core::mem::swap(&mut slot, &mut self.thread_info[id]);
            slot.set_active_simulation(sim_id);
            core::mem::swap(&mut slot, &mut self.thread_info[id]);
        }
    }

    /// How many workers this orchestration needs.
    pub fn threads_needed(&self) -> (r: usize)
        ensures
            r == self.thread_info@.len(),
    {
        self.thread_info.len()
    }
}

// ---------------------------------------------------------------------------
// The callback decisions
// ---------------------------------------------------------------------------

/// What the data callback does for one incoming point: when the worker
/// is running a request, the point joins its buffer; when the flush
/// threshold has elapsed, the timer restarts and the whole buffer, the
/// new point included, is handed back to be pushed to the caller.
pub fn on_vector_data(
    orch: &mut SimulationThreadOrchestrator,
    id: usize,
    data: SimulationData,
    now: u64,
    threshold: u64,
) -> (r: Option<(String, Vec<SimulationData>)>)
    ensures
        ({
            let known = id < old(orch).thread_info@.len();
            if !known || old(orch).thread_info@[id as int].ongoing_simulation is None {
                *final(orch) == *old(orch) && r is None
            } else {
                let before = old(orch).thread_info@[id as int];
                let after = final(orch).thread_info@[id as int];
                &&& final(orch).status == old(orch).status
                &&& final(orch).thread_info@.len() == old(orch).thread_info@.len()
                &&& (forall|k: int|
                    0 <= k < old(orch).thread_info@.len() && k != id ==> final(orch).thread_info@[k] == #[trigger] old(orch).thread_info@[k])
                &&& after.status == before.status
                &&& after.ongoing_simulation == before.ongoing_simulation
                &&& after.queued_simulations@ == before.queued_simulations@
                &&& if threshold_elapsed(before.current_timer, now, threshold) {
                    &&& after.current_timer == Some(now)
                    &&& after.simulation_data_buffer@ == Seq::<SimulationData>::empty()
                    &&& (r matches Some(p) && p.0@ == before.ongoing_simulation->0@ && p.1@
                        == before.simulation_data_buffer@.push(data))
                } else {
                    &&& after.current_timer == before.current_timer
                    &&& after.simulation_data_buffer@ == before.simulation_data_buffer@.push(data)
                    &&& r is None
                }
            }
        }),
{
    let maybe_id = orch.get_thread_ongoing_simulation_id(id);
    match maybe_id {
        Some(sid) => {
            orch.push_simulation_data(id, data);
            if orch.has_threshold_elapsed(id, now, threshold) {
                orch.restart_timer(id, now);
                let buf = orch.flush_simulation_data_buffer(id);
                Some((sid, buf))
            } else {
                None
            }
        },
        None => None,
    }
}

/// What the background-state callback does when a run finishes: the
/// worker goes back to idle, its buffer is drained, and whatever was
/// buffered is handed back to be pushed, with the request id it belongs
/// to, so the caller can also report that request as done.
pub fn on_background_state(orch: &mut SimulationThreadOrchestrator, id: usize, is_fin: bool) -> (r:
    Option<(String, Vec<SimulationData>)>)
    ensures
        !is_fin ==> *final(orch) == *old(orch) && r is None,
        is_fin && id >= old(orch).thread_info@.len() ==> *final(orch) == *old(orch) && r is None,
        is_fin && id < old(orch).thread_info@.len() ==> {
            let before = old(orch).thread_info@[id as int];
            let after = final(orch).thread_info@[id as int];
            &&& final(orch).status == old(orch).status
            &&& final(orch).thread_info@.len() == old(orch).thread_info@.len()
            &&& (forall|k: int|
                0 <= k < old(orch).thread_info@.len() && k != id ==> final(orch).thread_info@[k]
                    == #[trigger] old(orch).thread_info@[k])
            &&& after.status is Idle
            &&& after.ongoing_simulation == before.ongoing_simulation
            &&& after.queued_simulations@ == before.queued_simulations@
            &&& after.current_timer == before.current_timer
            &&& after.simulation_data_buffer@ == Seq::<SimulationData>::empty()
            &&& (match before.ongoing_simulation {
                Some(sid) => r matches Some(p) && p.0@ == sid@ && p.1@
                    == before.simulation_data_buffer@,
                None => r is None,
            })
        },
{
    if !is_fin {
        return None;
    }
    if id >= orch.thread_info.len() {
        return None;
    }
    orch.set_thread_status(id, SecondaryThreadStatus::Idle);
    let maybe_id = orch.get_thread_ongoing_simulation_id(id);
    let buf = orch.flush_simulation_data_buffer(id);
    match maybe_id {
        Some(sid) => Some((sid, buf)),
        None => None,
    }
}

// ---------------------------------------------------------------------------
// What the orchestration guarantees
// ---------------------------------------------------------------------------

/// Every queued request is assigned exactly once: request `i` stands at
/// position `i / 4` of worker `i % 4`'s queue, and conversely every
/// queue cell holds the request its position names, so no request is
/// dropped and none is duplicated across workers.
/// Request `i` stands at position `i / 4` of worker `i % 4`'s queue.
pub open spec fn assigned_once(
    r: &SimulationThreadOrchestrator,
    input: Seq<(String, SimulationConfig)>,
    i: int,
) -> bool {
    &&& 0 <= i % 4 < r.thread_info@.len()
    &&& i / 4 < r.queue(i % 4).len()
    &&& r.queue(i % 4)[i / 4] == input[i]
}

/// Queue cell `j` of worker `k` holds exactly request `4 j + k`.
pub open spec fn cell_from_input(
    r: &SimulationThreadOrchestrator,
    input: Seq<(String, SimulationConfig)>,
    k: int,
    j: int,
) -> bool {
    &&& 0 <= 4 * j + k < input.len()
    &&& r.queue(k)[j] == input[4 * j + k]
}

/// Every queued request is assigned exactly once: request `i` stands at
/// position `i / 4` of worker `i % 4`'s queue, and conversely every
/// queue cell holds the request its position names, so no request is
/// dropped and none is duplicated across workers.
pub proof fn lemma_round_robin_complete(
    r: &SimulationThreadOrchestrator,
    input: Seq<(String, SimulationConfig)>,
)
    requires
        round_robin_upto(r, input, input.len() as int),
        r.thread_info@.len() == (if input.len() < AVAIL_SPICE_THREADS as int {
            input.len() as int
        } else {
            AVAIL_SPICE_THREADS as int
        }),
    ensures
        forall|i: int| 0 <= i < input.len() ==> #[trigger] assigned_once(r, input, i),
        forall|k: int, j: int|
            0 <= k < r.thread_info@.len() && 0 <= j < r.queue(k).len()
                ==> #[trigger] cell_from_input(r, input, k, j),
{
    assert forall|i: int| 0 <= i < input.len() implies #[trigger] assigned_once(r, input, i) by {
        assert(0 <= i % 4 < 4 && 4 * (i / 4) + i % 4 == i);
        if input.len() < 4 {
            assert(i % 4 == i);
        }
        assert(round_robin_at(r, input, input.len() as int, i % 4, i / 4));
    }
    assert forall|k: int, j: int|
        0 <= k < r.thread_info@.len() && 0 <= j < r.queue(k).len() implies #[trigger] cell_from_input(
        r,
        input,
        k,
        j,
    ) by {
        assert(round_robin_at(r, input, input.len() as int, k, j));
    }
}

/// One event in the life of a worker's data buffer.
pub enum BufferOp {
    Push(SimulationData),
    Flush,
}

/// The buffer contents after a sequence of pushes and flushes.
pub open spec fn buffer_after(ops: Seq<BufferOp>) -> Seq<SimulationData>
    decreases ops.len(),
{
    if ops.len() == 0 {
        Seq::empty()
    } else {
        match ops.last() {
            BufferOp::Push(d) => buffer_after(ops.drop_last()).push(d),
            BufferOp::Flush => Seq::empty(),
        }
    }
}

/// Everything the flushes emitted, concatenated in emission order.
pub open spec fn flushed_concat(ops: Seq<BufferOp>) -> Seq<SimulationData>
    decreases ops.len(),
{
    if ops.len() == 0 {
        Seq::empty()
    } else {
        match ops.last() {
            BufferOp::Push(_) => flushed_concat(ops.drop_last()),
            BufferOp::Flush => flushed_concat(ops.drop_last()) + buffer_after(ops.drop_last()),
        }
    }
}

/// Everything that was ever pushed, in arrival order.
pub open spec fn pushed_stream(ops: Seq<BufferOp>) -> Seq<SimulationData>
    decreases ops.len(),
{
    if ops.len() == 0 {
        Seq::empty()
    } else {
        match ops.last() {
            BufferOp::Push(d) => pushed_stream(ops.drop_last()).push(d),
            BufferOp::Flush => pushed_stream(ops.drop_last()),
        }
    }
}

/// Flushing loses nothing, duplicates nothing and reorders nothing:
/// after any sequence of pushes and flushes, the flushed batches
/// concatenated in emission order, followed by what is still buffered,
/// are exactly the pushed points in arrival order.
pub proof fn lemma_flush_preserves_stream(ops: Seq<BufferOp>)
    ensures
        flushed_concat(ops) + buffer_after(ops) =~= pushed_stream(ops),
    decreases ops.len(),
{
    if ops.len() > 0 {
        lemma_flush_preserves_stream(ops.drop_last());
        match ops.last() {
            BufferOp::Push(d) => {
                assert(flushed_concat(ops) + buffer_after(ops) =~= (flushed_concat(ops.drop_last())
                    + buffer_after(ops.drop_last())).push(d));
            },
            BufferOp::Flush => {
                assert(flushed_concat(ops) + buffer_after(ops) =~= flushed_concat(ops.drop_last())
                    + buffer_after(ops.drop_last()));
            },
        }
    }
}

} // verus!
