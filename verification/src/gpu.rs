//! GPU requirements: which detected device is used, and whether it meets the
//! memory floor.
//!
//! Probing the machine — asking the system for its memory, asking the driver
//! for its devices — is the caller's concern; the decisions over what the
//! probes returned are here.

use vstd::prelude::*;
use vstd::string::StringExecFns;

verus! {

/// The memory floor, in mebibytes: eight gibibytes.
pub const MIN_VRAM_MB: u64 = 8192;

/// Which acceleration backend a device offers.
#[derive(Clone, Copy, Debug, PartialEq, Eq, Structural)]
pub enum GpuBackend {
    Metal,
    Cuda,
    NoBackend,
}

impl GpuBackend {
    /// The backend's display name.
    pub fn as_str(&self) -> (s: &'static str)
        ensures
            s@ == match *self {
                GpuBackend::Metal => "Metal"@,
                GpuBackend::Cuda => "CUDA"@,
                GpuBackend::NoBackend => "None"@,
            },
    {
        match self {
            GpuBackend::Metal => "Metal",
            GpuBackend::Cuda => "CUDA",
            GpuBackend::NoBackend => "None",
        }
    }
}

/// One detected device.
#[derive(Clone, Debug)]
pub struct GpuInfo {
    pub backend: GpuBackend,
    pub vram_mb: u64,
    pub name: String,
}

/// What the requirement check concluded.
#[derive(Clone, Debug)]
pub enum GpuCheckResult {
    /// The device meets the requirements.
    Passed(GpuInfo),
    /// A device was detected but falls under the memory floor; the caller
    /// asks for confirmation.
    LowVram(GpuInfo),
    /// No device was detected.
    NoGpu,
}

/// Choose the device: a Metal probe wins over a CUDA probe, and with neither
/// the no-device placeholder stands.
pub fn detect_gpu(metal: Option<GpuInfo>, cuda: Option<GpuInfo>) -> (r: GpuInfo)
    ensures
        (metal matches Some(m) ==> r == m),
        metal is None ==> (cuda matches Some(c) ==> r == c),
        metal is None && cuda is None ==> {
            &&& r.backend == GpuBackend::NoBackend
            &&& r.vram_mb == 0
            &&& r.name@ == "No GPU"@
        },
{
    match metal {
        Some(info) => info,
        None => match cuda {
            Some(info) => info,
            None => GpuInfo {
                backend: GpuBackend::NoBackend,
                vram_mb: 0,
                name: String::from_str("No GPU"),
            },
        },
    }
}

/// Hold a detected device against the requirements: no device fails, a
/// device under the memory floor asks for confirmation, anything else
/// passes.
pub fn check_gpu_requirements(info: GpuInfo) -> (r: GpuCheckResult)
    ensures
        info.backend == GpuBackend::NoBackend ==> (r is NoGpu),
        info.backend != GpuBackend::NoBackend && info.vram_mb < MIN_VRAM_MB ==> (r matches
            GpuCheckResult::LowVram(i) && i == info),
        info.backend != GpuBackend::NoBackend && info.vram_mb >= MIN_VRAM_MB ==> (r matches
            GpuCheckResult::Passed(i) && i == info),
{
    match info.backend {
        GpuBackend::NoBackend => GpuCheckResult::NoGpu,
        _ => {
            if info.vram_mb < MIN_VRAM_MB {
                GpuCheckResult::LowVram(info)
            } else {
                GpuCheckResult::Passed(info)
            }
        },
    }
}

} // verus!
