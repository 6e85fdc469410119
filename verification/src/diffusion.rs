//! The diffusion image pipeline: dimension validation, schedule planning and
//! per-step pass accounting.
//!
//! The pipeline's tensor work — text encoding, the denoising network, the
//! scheduler's latent update and the autoencoder decode — runs on the device
//! with the caller. What the library owns is everything that decides the run:
//! whether the request is dimensionally valid (checked before any device
//! work), the latent grid and the schedule-shift interpolation, whether
//! classifier-free guidance is on, and how many forward passes every
//! denoising step therefore costs. Shifts and guidance scales are fixed-point
//! integers: micro units (millionths) for the shift, milli units
//! (thousandths) for the guidance scale.

use vstd::prelude::*;
use vstd::string::StringExecFns;

use crate::api::GenerationError;
use crate::api::MILLI_SCALE;

verus! {

/// The model's spatial compression factor: requested pixel dimensions must be
/// divisible by it.
pub const SPATIAL_COMPRESSION: u32 = 16;

/// The patch-token count at which the schedule shift is the base shift.
pub const BASE_IMAGE_SEQ_LEN: u64 = 256;

/// The patch-token count at which the schedule shift is the max shift.
pub const MAX_IMAGE_SEQ_LEN: u64 = 4096;

/// The schedule shift at the base patch-token count, in micro units.
pub const BASE_SHIFT_MICRO: i64 = 500_000;

/// The schedule shift at the max patch-token count, in micro units.
pub const MAX_SHIFT_MICRO: i64 = 1_150_000;

/// An image-generation request. `guidance_scale` is in thousandths
/// (`MILLI_SCALE` is 1.0).
#[derive(Clone, Debug)]
pub struct ImageGenRequest {
    pub prompt: String,
    pub negative_prompt: Option<String>,
    pub width: u32,
    pub height: u32,
    pub steps: u32,
    pub guidance_scale: u32,
    pub seed: Option<u64>,
}

impl Default for ImageGenRequest {
    /// The stock request: a square kilopixel image over nine steps at
    /// guidance five, unseeded.
    fn default() -> (r: ImageGenRequest)
        ensures
            r.prompt@ == Seq::<char>::empty(),
            r.negative_prompt is None,
            r.width == 1024,
            r.height == 1024,
            r.steps == 9,
            r.guidance_scale == 5000,
            r.seed is None,
    {
        ImageGenRequest {
            prompt: String::new(),
            negative_prompt: None,
            width: 1024,
            height: 1024,
            steps: 9,
            guidance_scale: 5000,
            seed: None,
        }
    }
}

/// An image-generation response: a flat 8-bit RGB pixel buffer.
#[derive(Clone, Debug)]
pub struct ImageGenResponse {
    pub pixels: Vec<u8>,
    pub width: u32,
    pub height: u32,
}

impl ImageGenResponse {
    /// Three bytes per pixel.
    pub open spec fn wf(&self) -> bool {
        self.pixels@.len() == 3 * (self.width as int) * (self.height as int)
    }

    /// Wrap a decoded pixel buffer; the buffer must hold exactly the image.
    pub fn new(pixels: Vec<u8>, width: u32, height: u32) -> (r: ImageGenResponse)
        requires
            pixels@.len() == 3 * (width as int) * (height as int),
        ensures
            r.pixels@ == pixels@,
            r.width == width,
            r.height == height,
            r.wf(),
    {
        ImageGenResponse { pixels, width, height }
    }
}

/// The supported diffusion architectures.
#[derive(Clone, Copy, Debug, PartialEq, Eq, Structural)]
pub enum DiffusionModelType {
    Flux,
    ZImage,
}

/// Whether classifier-free guidance runs: a guidance scale above one and a
/// non-empty negative prompt. At a scale of one or below the unconditional
/// branch is disabled.
pub open spec fn guidance_enabled(req: ImageGenRequest) -> bool {
    req.guidance_scale > MILLI_SCALE && (req.negative_prompt matches Some(np) && np@.len() > 0)
}

/// The schedule shift for a patch-token count, in micro units: linear
/// interpolation between the base shift at the base count and the max shift
/// at the max count, extended linearly beyond both (division truncates
/// toward zero).
pub open spec fn shift_micro_spec(seq_len: int) -> int {
    let span = (MAX_SHIFT_MICRO - BASE_SHIFT_MICRO) as int;
    let den = (MAX_IMAGE_SEQ_LEN - BASE_IMAGE_SEQ_LEN) as int;
    if seq_len >= BASE_IMAGE_SEQ_LEN as int {
        BASE_SHIFT_MICRO as int + (seq_len - BASE_IMAGE_SEQ_LEN as int) * span / den
    } else {
        BASE_SHIFT_MICRO as int - (BASE_IMAGE_SEQ_LEN as int - seq_len) * span / den
    }
}

/// What the schedule setup decides before any device work.
#[derive(Clone, Copy, Debug)]
pub struct DenoisingPlan {
    /// The latent grid height: twice the compressed pixel height.
    pub latent_h: u32,
    /// The latent grid width: twice the compressed pixel width.
    pub latent_w: u32,
    /// The number of patch tokens the image amounts to.
    pub image_seq_len: u64,
    /// The schedule shift, in micro units.
    pub shift_micro: i128,
    /// How many denoising steps run.
    pub steps: u32,
    /// Whether classifier-free guidance runs.
    pub guidance: bool,
}

impl DenoisingPlan {
    /// How many forward passes one denoising step costs: the conditional
    /// pass, and the unconditional one exactly when guidance is on.
    pub fn passes_per_step(&self) -> (n: u32)
        ensures
            n == if self.guidance { 2u32 } else { 1u32 },
    {
        if self.guidance {
            2
        } else {
            1
        }
    }
}

/// Validate a request and fix the latent grid, the schedule shift and the
/// guidance decision — all before any forward pass. Compliant dimensions
/// always yield a plan; the one failure, `InvalidDimensions`, comes exactly
/// when the requested width or height is not divisible by the spatial
/// compression factor.
pub fn plan_generation(req: &ImageGenRequest, patch_size: u32) -> (r: Result<
    DenoisingPlan,
    GenerationError,
>)
    requires
        patch_size >= 1,
    ensures
        (req.width % SPATIAL_COMPRESSION == 0 && req.height % SPATIAL_COMPRESSION == 0) <==> (r
            is Ok),
        (req.width % SPATIAL_COMPRESSION != 0 || req.height % SPATIAL_COMPRESSION != 0) <==> (
        r matches Err(e) && (e matches GenerationError::InvalidDimensions {
            width,
            height,
            factor,
        } && width == req.width && height == req.height && factor == SPATIAL_COMPRESSION)),
        (r matches Ok(p) ==> {
            &&& p.latent_h == 2 * (req.height / SPATIAL_COMPRESSION)
            &&& p.latent_w == 2 * (req.width / SPATIAL_COMPRESSION)
            &&& p.image_seq_len == ((p.latent_h / patch_size) as int) * ((p.latent_w
                / patch_size) as int)
            &&& p.shift_micro == shift_micro_spec(p.image_seq_len as int)
            &&& p.steps == req.steps
            &&& p.guidance == guidance_enabled(*req)
        }),
{
    if req.width % SPATIAL_COMPRESSION != 0 || req.height % SPATIAL_COMPRESSION != 0 {
        return Err(
            GenerationError::InvalidDimensions {
                width: req.width,
                height: req.height,
                factor: SPATIAL_COMPRESSION,
            },
        );
    }
    let latent_h: u32 = 2 * (req.height / SPATIAL_COMPRESSION);
    let latent_w: u32 = 2 * (req.width / SPATIAL_COMPRESSION);
    let patches_h: u64 = (latent_h / patch_size) as u64;
    let patches_w: u64 = (latent_w / patch_size) as u64;
    proof {
        assert(patches_h * patches_w <= (u32::MAX as int) * (u32::MAX as int)) by (nonlinear_arith)
            requires
                patches_h <= u32::MAX,
                patches_w <= u32::MAX,
        ;
    }
    let image_seq_len: u64 = patches_h * patches_w;
    let guidance = match &req.negative_prompt {
        Some(np) => req.guidance_scale > MILLI_SCALE && !np.as_str().is_empty(),
        None => false,
    };
    Ok(
        DenoisingPlan {
            latent_h,
            latent_w,
            image_seq_len,
            shift_micro: shift_micro_exec(image_seq_len),
            steps: req.steps,
            guidance,
        },
    )
}

/// The schedule shift for a patch-token count, in micro units.
fn shift_micro_exec(seq_len: u64) -> (r: i128)
    ensures
        r == shift_micro_spec(seq_len as int),
{
    let span: i128 = (MAX_SHIFT_MICRO - BASE_SHIFT_MICRO) as i128;
    let den: i128 = (MAX_IMAGE_SEQ_LEN - BASE_IMAGE_SEQ_LEN) as i128;
    if seq_len >= BASE_IMAGE_SEQ_LEN {
        (BASE_SHIFT_MICRO as i128) + ((seq_len - BASE_IMAGE_SEQ_LEN) as i128) * span / den
    } else {
        (BASE_SHIFT_MICRO as i128) - ((BASE_IMAGE_SEQ_LEN - seq_len) as i128) * span / den
    }
}

/// The per-request denoising state: which step the strictly sequential loop
/// is on, and how many conditional and unconditional forward passes ran.
pub struct DenoisingSession {
    /// The total number of steps.
    pub steps: u32,
    /// How many steps completed.
    pub step: u32,
    /// Whether classifier-free guidance runs.
    pub guidance: bool,
    /// How many conditional forward passes ran.
    pub cond_passes: u64,
    /// How many unconditional forward passes ran.
    pub uncond_passes: u64,
}

impl DenoisingSession {
    /// Exactly one conditional pass per completed step, and one unconditional
    /// pass per completed step exactly when guidance is on.
    pub open spec fn inv(&self) -> bool {
        &&& self.step <= self.steps
        &&& self.cond_passes == self.step
        &&& self.uncond_passes == if self.guidance {
            self.step as int
        } else {
            0
        }
    }

    /// Open the denoising loop a plan calls for: no step run, no pass made.
    pub fn start(plan: &DenoisingPlan) -> (s: DenoisingSession)
        ensures
            s.steps == plan.steps,
            s.step == 0,
            s.guidance == plan.guidance,
            s.cond_passes == 0,
            s.uncond_passes == 0,
            s.inv(),
    {
        DenoisingSession {
            steps: plan.steps,
            step: 0,
            guidance: plan.guidance,
            cond_passes: 0,
            uncond_passes: 0,
        }
    }

    /// Whether all steps have run and the latent is ready to decode.
    pub fn is_complete(&self) -> (b: bool)
        ensures
            b == (self.step == self.steps),
    {
        self.step == self.steps
    }

    /// Account one denoising step: the conditional pass, and the
    /// unconditional one exactly when guidance is on. Steps are strictly
    /// sequential; a completed session admits no further step.
    pub fn advance_step(&mut self)
        requires
            old(self).inv(),
            old(self).step < old(self).steps,
        ensures
            final(self).inv(),
            final(self).step == old(self).step + 1,
            final(self).steps == old(self).steps,
            final(self).guidance == old(self).guidance,
            final(self).cond_passes == old(self).cond_passes + 1,
            final(self).uncond_passes == old(self).uncond_passes + if old(self).guidance {
                1int
            } else {
                0int
            },
    {
        self.step = self.step + 1;
        self.cond_passes = self.cond_passes + 1;
        if self.guidance {
            self.uncond_passes = self.uncond_passes + 1;
        }
    }
}

/// A guidance scale of one (or below) disables the unconditional branch,
/// whatever the negative prompt; so does an absent or empty negative prompt,
/// whatever the scale.
pub proof fn lemma_guidance_disabled(req: ImageGenRequest)
    ensures
        req.guidance_scale <= MILLI_SCALE ==> !guidance_enabled(req),
        (req.negative_prompt is None || (req.negative_prompt matches Some(np) && np@.len() == 0))
            ==> !guidance_enabled(req),
{
}

/// Forward-pass cost of a finished denoising run: exactly one conditional
/// pass per step, and with guidance on exactly one unconditional pass per
/// step beside it — two passes per step with guidance, one without.
pub proof fn lemma_forward_pass_count(s: DenoisingSession)
    requires
        s.inv(),
        s.step == s.steps,
    ensures
        s.cond_passes == s.steps,
        s.uncond_passes == if s.guidance {
            s.steps as int
        } else {
            0
        },
        s.cond_passes + s.uncond_passes == (s.steps as int) * (
        if s.guidance {
            2int
        } else {
            1int
        }),
{
}

/// Which architecture a model directory holds, decided from what the caller
/// read off the disk: a transformer configuration naming the S3-DiT markers
/// wins; dedicated weight files mark the rectified-flow model; else the
/// folded directory name decides; nothing recognizable is nothing.
pub open spec fn classify_spec(
    transformer_config: Option<Seq<char>>,
    has_flux_weights: bool,
    dir_lower: Seq<char>,
) -> Option<DiffusionModelType> {
    if transformer_config matches Some(cfg) && (crate::strutil::contains_seq(cfg, "ZImage"@)
        || crate::strutil::contains_seq(cfg, "z_image"@)) {
        Some(DiffusionModelType::ZImage)
    } else if has_flux_weights {
        Some(DiffusionModelType::Flux)
    } else if crate::strutil::contains_seq(dir_lower, "z-image"@) || crate::strutil::contains_seq(
        dir_lower,
        "zimage"@,
    ) {
        Some(DiffusionModelType::ZImage)
    } else if crate::strutil::contains_seq(dir_lower, "flux"@) {
        Some(DiffusionModelType::Flux)
    } else {
        None
    }
}

/// Detect the diffusion architecture of a model directory. The caller hands
/// in the transformer configuration's text if that file exists, whether the
/// rectified-flow weight file exists, and the directory's name; detection
/// fails exactly when none of the markers matches.
pub fn detect_model_type(
    transformer_config: Option<&String>,
    has_flux_weights: bool,
    dir_name: &str,
) -> (r: Result<DiffusionModelType, crate::api::LoadError>)
    ensures
        ({
            let spec_cfg = match transformer_config {
                Some(c) => Some(c@),
                None => None,
            };
            let classified = classify_spec(
                spec_cfg,
                has_flux_weights,
                crate::strutil::lower_of(dir_name@),
            );
            &&& (r matches Ok(t) ==> classified == Some(t))
            &&& (r matches Err(e) ==> classified is None && e matches crate::api::LoadError::Config(
                _,
            ))
        }),
{
    match transformer_config {
        Some(cfg) => {
            if crate::strutil::str_contains(cfg.as_str(), "ZImage") || crate::strutil::str_contains(
                cfg.as_str(),
                "z_image",
            ) {
                return Ok(DiffusionModelType::ZImage);
            }
        },
        None => {},
    }
    if has_flux_weights {
        return Ok(DiffusionModelType::Flux);
    }
    let lowered = crate::strutil::lowercase(dir_name);
    if crate::strutil::str_contains(lowered.as_str(), "z-image") || crate::strutil::str_contains(
        lowered.as_str(),
        "zimage",
    ) {
        Ok(DiffusionModelType::ZImage)
    } else if crate::strutil::str_contains(lowered.as_str(), "flux") {
        Ok(DiffusionModelType::Flux)
    } else {
        Err(
            crate::api::LoadError::Config(
                String::from_str("could not detect the diffusion model type"),
            ),
        )
    }
}

/// The shard files the text encoder's weights are read from, in order.
pub fn text_encoder_shard_names() -> (r: Vec<String>)
    ensures
        r@.len() == 3,
        r@[0]@ == "model-00001-of-00003.safetensors"@,
        r@[1]@ == "model-00002-of-00003.safetensors"@,
        r@[2]@ == "model-00003-of-00003.safetensors"@,
{
    let mut v: Vec<String> = Vec::new();
    v.push(String::from_str("model-00001-of-00003.safetensors"));
    v.push(String::from_str("model-00002-of-00003.safetensors"));
    v.push(String::from_str("model-00003-of-00003.safetensors"));
    v
}

/// The shard files the denoising transformer's weights are read from, in
/// order.
pub fn transformer_shard_names() -> (r: Vec<String>)
    ensures
        r@.len() == 3,
        r@[0]@ == "diffusion_pytorch_model-00001-of-00003.safetensors"@,
        r@[1]@ == "diffusion_pytorch_model-00002-of-00003.safetensors"@,
        r@[2]@ == "diffusion_pytorch_model-00003-of-00003.safetensors"@,
{
    let mut v: Vec<String> = Vec::new();
    v.push(String::from_str("diffusion_pytorch_model-00001-of-00003.safetensors"));
    v.push(String::from_str("diffusion_pytorch_model-00002-of-00003.safetensors"));
    v.push(String::from_str("diffusion_pytorch_model-00003-of-00003.safetensors"));
    v
}

/// The prompt wrapped in the text encoder's chat template.
pub open spec fn formatted_prompt(p: Seq<char>) -> Seq<char> {
    "<|im_start|>user\n"@ + p + "<|im_end|>\n<|im_start|>assistant\n"@
}

/// Wrap a prompt in the text encoder's chat template.
pub fn format_prompt(prompt: &str) -> (r: String)
    ensures
        r@ == formatted_prompt(prompt@),
{
    let mut s = String::from_str("<|im_start|>user\n");
    s.append(prompt);
    s.append("<|im_end|>\n<|im_start|>assistant\n");
    s
}

} // verus!
