use ohmygpu::api::GenerationError;
use ohmygpu::diffusion::{
    detect_model_type, format_prompt, plan_generation, DenoisingSession, DiffusionModelType,
    ImageGenRequest, ImageGenResponse,
};

fn request(width: u32, height: u32, guidance_scale: u32, negative: Option<&str>) -> ImageGenRequest {
    ImageGenRequest {
        prompt: "a cat".to_string(),
        negative_prompt: negative.map(|s| s.to_string()),
        width,
        height,
        steps: 9,
        guidance_scale,
        seed: None,
    }
}

/// A width indivisible by the compression factor fails before any forward
/// pass: no plan, no session, no step.
#[test]
fn invalid_dimensions_fail_before_compute() {
    let req = request(1000, 1024, 5000, None);
    match plan_generation(&req, 2) {
        Err(GenerationError::InvalidDimensions { width, height, factor }) => {
            assert_eq!(width, 1000);
            assert_eq!(height, 1024);
            assert_eq!(factor, 16);
        }
        _ => panic!("expected the invalid-dimensions error"),
    }
}

/// A valid request fixes the latent grid and the schedule shift.
#[test]
fn plan_fixes_grid_and_shift() {
    let req = request(1024, 1024, 5000, None);
    let plan = plan_generation(&req, 2).unwrap();
    assert_eq!(plan.latent_h, 128);
    assert_eq!(plan.latent_w, 128);
    assert_eq!(plan.image_seq_len, 64 * 64);
    // At the max patch-token count the shift is the max shift.
    assert_eq!(plan.shift_micro, 1_150_000);
    assert_eq!(plan.steps, 9);
}

/// The shift interpolates linearly between the base and max counts.
#[test]
fn shift_interpolates() {
    let req = request(256, 256, 1000, None);
    let plan = plan_generation(&req, 2).unwrap();
    // 16x16 patches: 256 tokens, the base count, so the base shift.
    assert_eq!(plan.image_seq_len, 256);
    assert_eq!(plan.shift_micro, 500_000);
}

/// Guidance at one, or an absent or empty negative prompt, disables the
/// unconditional branch: one forward pass per step. Guidance five with a
/// non-empty negative prompt enables it: two per step.
#[test]
fn guidance_pass_counts() {
    let single = plan_generation(&request(1024, 1024, 1000, Some("blurry")), 2).unwrap();
    assert!(!single.guidance);
    assert_eq!(single.passes_per_step(), 1);

    let no_negative = plan_generation(&request(1024, 1024, 5000, None), 2).unwrap();
    assert!(!no_negative.guidance);
    let empty_negative = plan_generation(&request(1024, 1024, 5000, Some("")), 2).unwrap();
    assert!(!empty_negative.guidance);

    let double = plan_generation(&request(1024, 1024, 5000, Some("blurry")), 2).unwrap();
    assert!(double.guidance);
    assert_eq!(double.passes_per_step(), 2);

    // Run both sessions to completion and count the passes.
    let mut s = DenoisingSession::start(&single);
    while !s.is_complete() {
        s.advance_step();
    }
    assert_eq!(s.cond_passes, 9);
    assert_eq!(s.uncond_passes, 0);

    let mut d = DenoisingSession::start(&double);
    while !d.is_complete() {
        d.advance_step();
    }
    assert_eq!(d.cond_passes, 9);
    assert_eq!(d.uncond_passes, 9);
}

/// The architecture detector reads the transformer configuration first, the
/// rectified-flow weight marker second, and the folded directory name last.
#[test]
fn model_type_detection() {
    let cfg = "{\"_class_name\": \"ZImageTransformer2DModel\"}".to_string();
    assert_eq!(
        detect_model_type(Some(&cfg), false, "anything").unwrap(),
        DiffusionModelType::ZImage
    );
    assert_eq!(detect_model_type(None, true, "anything").unwrap(), DiffusionModelType::Flux);
    // The directory name is case-folded before matching.
    assert_eq!(detect_model_type(None, false, "Z-IMAGE-turbo").unwrap(), DiffusionModelType::ZImage);
    assert_eq!(detect_model_type(None, false, "FLUX.1-dev").unwrap(), DiffusionModelType::Flux);
    assert!(detect_model_type(None, false, "resnet").is_err());
}

/// The prompt template of the text encoder.
#[test]
fn prompt_template() {
    assert_eq!(
        format_prompt("a cat"),
        "<|im_start|>user\na cat<|im_end|>\n<|im_start|>assistant\n"
    );
}

/// The pixel buffer holds exactly three bytes per pixel.
#[test]
fn response_buffer_shape() {
    let r = ImageGenResponse::new(vec![0u8; 3 * 4 * 2], 4, 2);
    assert_eq!(r.pixels.len(), 24);
    assert_eq!((r.width, r.height), (4, 2));
}

/// The stock request.
#[test]
fn default_request() {
    let d = ImageGenRequest::default();
    assert_eq!((d.width, d.height, d.steps), (1024, 1024, 9));
    assert_eq!(d.guidance_scale, 5000);
    assert!(d.negative_prompt.is_none() && d.seed.is_none() && d.prompt.is_empty());
}

/// The shard files the loaders read, in order.
#[test]
fn shard_names() {
    let t = ohmygpu::diffusion::text_encoder_shard_names();
    assert_eq!(t[0], "model-00001-of-00003.safetensors");
    assert_eq!(t[2], "model-00003-of-00003.safetensors");
    let d = ohmygpu::diffusion::transformer_shard_names();
    assert_eq!(d[1], "diffusion_pytorch_model-00002-of-00003.safetensors");
}
