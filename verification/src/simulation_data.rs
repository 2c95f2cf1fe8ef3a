//! One computed point of a running simulation, copied out of the
//! engine's callback data.  Real and imaginary parts are carried as the
//! bit patterns of their floating-point values, so the core never
//! computes on them.

use vstd::prelude::*;

verus! {

/// One vector's value at one point, as the engine's data callback hands
/// it over: the vector name, the value's real and imaginary bit
/// patterns, and its classification flags.
#[derive(Debug, Clone)]
pub struct PkVecvalues {
    pub name: String,
    pub creal: u64,
    pub cimag: u64,
    pub is_scale: bool,
    pub is_complex: bool,
}

/// Everything one data callback delivers: how many points were computed,
/// this point's index, and one value per vector.
#[derive(Debug, Clone)]
pub struct PkVecvaluesall {
    pub count: i32,
    pub index: i32,
    pub vecsa: Vec<PkVecvalues>,
}

/// One value of a computed point, as it is buffered and pushed to the
/// caller.
#[derive(Debug, Clone)]
pub struct ComputedData {
    pub name: String,
    pub c_real: u64,
    pub c_imag: u64,
    pub is_scale: bool,
    pub is_complex: bool,
}

/// One computed point, ready for buffering.
#[derive(Debug, Clone)]
pub struct SimulationData {
    pub computed: i32,
    pub data_index: i32,
    pub computed_values_for_index: Vec<ComputedData>,
}

impl SimulationData {
    /// Copies one callback delivery into an owned point, value by value.
    #[verifier::loop_isolation(false)]
    pub fn new(spice_vec: PkVecvaluesall) -> (r: SimulationData)
        ensures
            r.computed == spice_vec.count,
            r.data_index == spice_vec.index,
            r.computed_values_for_index@.len() == spice_vec.vecsa@.len(),
            forall|i: int|
                0 <= i < spice_vec.vecsa@.len() ==> {
                    let v = #[trigger] r.computed_values_for_index@[i];
                    &&& v.name@ == spice_vec.vecsa@[i].name@
                    &&& v.c_real == spice_vec.vecsa@[i].creal
                    &&& v.c_imag == spice_vec.vecsa@[i].cimag
                    &&& v.is_scale == spice_vec.vecsa@[i].is_scale
                    &&& v.is_complex == spice_vec.vecsa@[i].is_complex
                },
    {
        let mut values: Vec<ComputedData> = Vec::new();
        let n = spice_vec.vecsa.len();
        let mut i: usize = 0;
        while i < n
            invariant
                0 <= i <= n,
                values@.len() == i,
                forall|j: int|
                    0 <= j < i ==> {
                        let v = #[trigger] values@[j];
                        &&& v.name@ == spice_vec.vecsa@[j].name@
                        &&& v.c_real == spice_vec.vecsa@[j].creal
                        &&& v.c_imag == spice_vec.vecsa@[j].cimag
                        &&& v.is_scale == spice_vec.vecsa@[j].is_scale
                        &&& v.is_complex == spice_vec.vecsa@[j].is_complex
                    },
            decreases n - i,
        {
            let it = &spice_vec.vecsa[i];
            values.push(
                ComputedData {
                    name: it.name.clone(),
                    c_real: it.creal,
                    c_imag: it.cimag,
                    is_scale: it.is_scale,
                    is_complex: it.is_complex,
                },
            );
            i += 1;
        }
        SimulationData {
            computed: spice_vec.count,
            data_index: spice_vec.index,
            computed_values_for_index: values,
        }
    }
}

} // verus!
