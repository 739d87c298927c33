use stable_horder::generate;
use stable_horder::job;
use stable_horder::worker::{request_for_job, WorkerErr};

fn sample_job() -> job::Root {
    job::Root {
        payload: job::Payload {
            prompt: "a lighthouse at dusk".to_string(),
            ddim_steps: 30,
            n_iter: 1,
            sampler_name: "k_euler".to_string(),
            cfg_scale_bits: 7.5f64.to_bits(),
            seed: "12345".to_string(),
            height: 512,
            width: 512,
            post_processing: vec!["GFPGAN".to_string()],
            karras: true,
            tiling: false,
            hires_fix: false,
            image_is_control: false,
            return_control_map: false,
        },
        id: "job-1".to_string(),
        skipped: "{}".to_string(),
        model: "stable_diffusion".to_string(),
        source_image: None,
        source_processing: "txt2img".to_string(),
        source_mask: None,
        r2_upload: Some("https://upload.example/slot".to_string()),
    }
}

#[test]
fn example_job_translates_to_expected_request() {
    let r = generate::Root::from_job(sample_job());
    assert_eq!(r.params.steps, 30);
    assert_eq!(r.params.n, 1);
    assert_eq!(r.params.sampler_name, "k_euler");
    assert_eq!(f64::from_bits(r.params.cfg_scale_bits), 7.5);
    assert_eq!(r.params.seed, "12345");
    assert_eq!(r.params.width, 512);
    assert_eq!(r.params.height, 512);
    assert_eq!(r.params.post_processing, vec!["GFPGAN".to_string()]);
    assert!(r.params.karras);
    assert!(!r.params.tiling);
    assert!(!r.params.hires_fix);
    assert_eq!(r.params.seed_variation, 1000);
    assert_eq!(f64::from_bits(r.params.denoising_strength_bits), 0.75);
    assert_eq!(r.params.clip_skip, 1);
    assert_eq!(r.models, vec!["stable_diffusion".to_string()]);
    assert_eq!(r.job_id, "");
    assert_eq!(r.index, 0);
    assert!(!r.gathered);
    assert!(!r.failed);
    assert!(r.nsfw);
    assert!(!r.censor_nsfw);
    assert!(!r.trusted_workers);
    assert!(!r.shared);
    assert!(r.r2);
    assert_eq!(r.prompt, "a lighthouse at dusk");
}

#[test]
fn translation_repeats_identically() {
    let a = format!("{:?}", generate::Root::from_job(sample_job()));
    let b = format!("{:?}", generate::Root::from_job(sample_job()));
    assert_eq!(a, b);
}

#[test]
fn presets_ignore_job_content() {
    let mut job = sample_job();
    job.payload.ddim_steps = 50;
    job.payload.cfg_scale_bits = 12.0f64.to_bits();
    job.payload.image_is_control = true;
    job.model = "other_model".to_string();
    let r = generate::Root::from_job(job);
    assert_eq!(r.params.seed_variation, 1000);
    assert_eq!(f64::from_bits(r.params.denoising_strength_bits), 0.75);
    assert_eq!(r.params.clip_skip, 1);
    assert_eq!(r.models.len(), 1);
    assert_eq!(r.models[0], "other_model");
    assert_eq!(r.params.steps, 50);
}

#[test]
fn empty_queue_is_not_translated() {
    let mut job = sample_job();
    job.id = String::new();
    assert!(matches!(request_for_job(job), Err(WorkerErr::EmptyQueue)));
}

#[test]
fn popped_job_becomes_request() {
    let r = request_for_job(sample_job()).unwrap();
    assert_eq!(r.models, vec!["stable_diffusion".to_string()]);
    assert_eq!(r.params.steps, 30);
}

#[test]
fn empty_id_marks_empty_job() {
    let mut job = sample_job();
    assert!(!job.is_empty());
    job.id = String::new();
    assert!(job.is_empty());
}
