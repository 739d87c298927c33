use vstd::prelude::*;

verus! {

/// Generation parameters of a job handed out by the queue.
///
/// `cfg_scale_bits` holds the IEEE-754 bit pattern of the guidance scale, which
/// is carried through unchanged and never computed on.
#[derive(Debug, Clone)]
pub struct Payload {
    pub prompt: String,
    pub ddim_steps: i64,
    pub n_iter: i64,
    pub sampler_name: String,
    pub cfg_scale_bits: u64,
    pub seed: String,
    pub height: i64,
    pub width: i64,
    pub post_processing: Vec<String>,
    pub karras: bool,
    pub tiling: bool,
    pub hires_fix: bool,
    pub image_is_control: bool,
    pub return_control_map: bool,
}

/// A job as returned by the queue's pop endpoint.
///
/// `skipped` is the raw JSON text of the queue's skip report: it is kept as
/// received and never interpreted. An empty `id` is the queue's way of saying
/// that no work is available.
#[derive(Debug, Clone)]
pub struct Root {
    pub payload: Payload,
    pub id: String,
    pub skipped: String,
    pub model: String,
    pub source_image: Option<String>,
    pub source_processing: String,
    pub source_mask: Option<String>,
    pub r2_upload: Option<String>,
}

impl Root {
    /// The queue had no work: the job carries no id.
    pub open spec fn is_empty_spec(&self) -> bool {
        self.id@.len() == 0
    }

    /// Whether this is the queue's "no work available" answer.
    pub fn is_empty(&self) -> (r: bool)
        ensures
            r == self.is_empty_spec(),
    {
        self.id.as_str().is_empty()
    }
}

} // verus!
