use vstd::prelude::*;
use crate::job;

verus! {

/// Seed variation sent with every request.
pub const SEED_VARIATION: i64 = 1000;

/// Bit pattern of the denoising strength 0.75 sent with every request.
pub const DENOISING_STRENGTH_BITS: u64 = 0x3FE8_0000_0000_0000;

/// CLIP skip sent with every request.
pub const CLIP_SKIP: i64 = 1;

/// Parameters of a generation request. Float-valued fields hold IEEE-754 bit
/// patterns.
#[derive(Debug, Clone)]
pub struct Params {
    pub steps: i64,
    pub n: i64,
    pub sampler_name: String,
    pub width: i64,
    pub height: i64,
    pub cfg_scale_bits: u64,
    pub seed_variation: i64,
    pub seed: String,
    pub karras: bool,
    pub denoising_strength_bits: u64,
    pub tiling: bool,
    pub hires_fix: bool,
    pub clip_skip: i64,
    pub post_processing: Vec<String>,
}

/// A request for the generation service's submission endpoint.
#[derive(Debug, Clone)]
pub struct Root {
    pub prompt: String,
    pub params: Params,
    pub nsfw: bool,
    pub censor_nsfw: bool,
    pub trusted_workers: bool,
    pub models: Vec<String>,
    pub shared: bool,
    pub r2: bool,
    pub job_id: String,
    pub index: i64,
    pub gathered: bool,
    pub failed: bool,
}

/// Mathematical value of [`Params`]: strings as character sequences.
pub struct ParamsView {
    pub steps: i64,
    pub n: i64,
    pub sampler_name: Seq<char>,
    pub width: i64,
    pub height: i64,
    pub cfg_scale_bits: u64,
    pub seed_variation: i64,
    pub seed: Seq<char>,
    pub karras: bool,
    pub denoising_strength_bits: u64,
    pub tiling: bool,
    pub hires_fix: bool,
    pub clip_skip: i64,
    pub post_processing: Seq<Seq<char>>,
}

/// Mathematical value of a generation request [`Root`].
pub struct RequestView {
    pub prompt: Seq<char>,
    pub params: ParamsView,
    pub nsfw: bool,
    pub censor_nsfw: bool,
    pub trusted_workers: bool,
    pub models: Seq<Seq<char>>,
    pub shared: bool,
    pub r2: bool,
    pub job_id: Seq<char>,
    pub index: i64,
    pub gathered: bool,
    pub failed: bool,
}

/// The character sequences held by a list of strings.
pub open spec fn strings_view(v: Seq<String>) -> Seq<Seq<char>> {
    v.map_values(|s: String| s@)
}

impl View for Params {
    type V = ParamsView;

    open spec fn view(&self) -> ParamsView {
        ParamsView {
            steps: self.steps,
            n: self.n,
            sampler_name: self.sampler_name@,
            width: self.width,
            height: self.height,
            cfg_scale_bits: self.cfg_scale_bits,
            seed_variation: self.seed_variation,
            seed: self.seed@,
            karras: self.karras,
            denoising_strength_bits: self.denoising_strength_bits,
            tiling: self.tiling,
            hires_fix: self.hires_fix,
            clip_skip: self.clip_skip,
            post_processing: strings_view(self.post_processing@),
        }
    }
}

impl View for Root {
    type V = RequestView;

    open spec fn view(&self) -> RequestView {
        RequestView {
            prompt: self.prompt@,
            params: self.params@,
            nsfw: self.nsfw,
            censor_nsfw: self.censor_nsfw,
            trusted_workers: self.trusted_workers,
            models: strings_view(self.models@),
            shared: self.shared,
            r2: self.r2,
            job_id: self.job_id@,
            index: self.index,
            gathered: self.gathered,
            failed: self.failed,
        }
    }
}

/// The request that a job translates to: the job's parameters copied, the
/// fixed presets and node policy filled in, and the job's model as the only
/// model.
pub open spec fn translated(job: job::Root) -> RequestView {
    RequestView {
        prompt: job.payload.prompt@,
        params: ParamsView {
            steps: job.payload.ddim_steps,
            n: job.payload.n_iter,
            sampler_name: job.payload.sampler_name@,
            width: job.payload.width,
            height: job.payload.height,
            cfg_scale_bits: job.payload.cfg_scale_bits,
            seed_variation: SEED_VARIATION,
            seed: job.payload.seed@,
            karras: job.payload.karras,
            denoising_strength_bits: DENOISING_STRENGTH_BITS,
            tiling: job.payload.tiling,
            hires_fix: job.payload.hires_fix,
            clip_skip: CLIP_SKIP,
            post_processing: strings_view(job.payload.post_processing@),
        },
        nsfw: true,
        censor_nsfw: false,
        trusted_workers: false,
        models: seq![job.model@],
        shared: false,
        r2: true,
        job_id: Seq::empty(),
        index: 0,
        gathered: false,
        failed: false,
    }
}

impl Root {
    /// Translates a queue job into a generation request.
    pub fn from_job(job: job::Root) -> (r: Root)
        ensures
            r@ == translated(job),
            r.models@.len() == 1,
            r.models@[0]@ == job.model@,
            r.params.seed_variation == SEED_VARIATION,
            r.params.denoising_strength_bits == DENOISING_STRENGTH_BITS,
            r.params.clip_skip == CLIP_SKIP,
    {
        let payload = job.payload;
        let params = Params {
            steps: payload.ddim_steps,
            n: payload.n_iter,
            sampler_name: payload.sampler_name,
            width: payload.width,
            height: payload.height,
            cfg_scale_bits: payload.cfg_scale_bits,
            seed_variation: SEED_VARIATION,
            seed: payload.seed,
            karras: payload.karras,
            denoising_strength_bits: DENOISING_STRENGTH_BITS,
            tiling: payload.tiling,
            hires_fix: payload.hires_fix,
            clip_skip: CLIP_SKIP,
            post_processing: payload.post_processing,
        };
        let model = job.model;
        let ghost model_view = model@;
        let models = vec![model];
        let r = Root {
            prompt: payload.prompt,
            params,
            nsfw: true,
            censor_nsfw: false,
            trusted_workers: false,
            models,
            shared: false,
            r2: true,
            job_id: String::new(),
            index: 0,
            gathered: false,
            failed: false,
        };
        proof {
            assert(strings_view(r.models@) =~= seq![model_view]);
        }
        r
    }
}

/// Translation is a function of the job alone: equal jobs give equal requests,
/// however often it is done.
pub proof fn translation_is_deterministic(a: job::Root, b: job::Root)
    requires
        a == b,
    ensures
        translated(a) == translated(b),
{
}

/// Every translated request names exactly one model, the job's.
pub proof fn translation_names_job_model(job: job::Root)
    ensures
        translated(job).models.len() == 1,
        translated(job).models[0] == job.model@,
{
}

/// Every translated request carries the fixed presets, whatever the job holds.
pub proof fn translation_sets_presets(job: job::Root)
    ensures
        translated(job).params.seed_variation == 1000,
        translated(job).params.denoising_strength_bits == DENOISING_STRENGTH_BITS,
        translated(job).params.clip_skip == 1,
{
}

} // verus!
