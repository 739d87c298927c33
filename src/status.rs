use vstd::prelude::*;

verus! {

/// Full status of a finished generation, as returned by the status endpoint.
///
/// `kudos_bits` holds the IEEE-754 bit pattern of the kudos cost, passed through
/// without being computed on.
#[derive(Debug, Clone)]
pub struct Root {
    pub generations: Vec<Generation>,
    pub shared: bool,
    pub finished: i64,
    pub processing: i64,
    pub restarted: i64,
    pub waiting: i64,
    pub done: bool,
    pub faulted: bool,
    pub wait_time: i64,
    pub queue_position: i64,
    pub kudos_bits: u64,
    pub is_possible: bool,
}

/// One generated image and where it came from.
#[derive(Debug, Clone)]
pub struct Generation {
    pub img: String,
    pub seed: String,
    pub id: String,
    pub censored: bool,
    pub worker_id: String,
    pub worker_name: String,
    pub model: String,
    pub state: String,
}

} // verus!
