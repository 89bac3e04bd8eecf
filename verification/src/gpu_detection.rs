//! Which acceleration backend fits the graphics hardware that was found.

use crate::text::{contains, occurs_in, texts};
use vstd::prelude::*;
use vstd::string::StringExecFns;

verus! {

/// Maker of a graphics processor.
#[derive(Debug, Clone)]
pub enum GpuVendor {
    Nvidia,
    Amd,
    Intel,
    Apple,
    Unknown(String),
}

/// How a model can be accelerated.
#[derive(Debug, Clone, Copy, PartialEq, Eq, Structural)]
pub enum AccelerationBackend {
    /// Apple Silicon.
    Metal,
    /// NVIDIA.
    Cuda,
    /// AMD.
    Rocm,
    /// Older hardware.
    OpenCl,
    /// No acceleration.
    Cpu,
}

/// What the model server says of its use of the graphics hardware.
#[derive(Debug, Clone)]
pub struct OllamaGpuStatus {
    pub detected_backend: String,
    pub gpu_layers: Option<u32>,
    pub memory_usage: Option<String>,
    pub supports_acceleration: bool,
}

/// What selects a backend in one graphics processor.
#[derive(Debug, Clone)]
pub struct GpuInfo {
    pub name: String,
    pub vendor: GpuVendor,
    /// The memory in gigabytes, as the bits of a single-precision number.
    pub memory_gb: Option<u32>,
    pub compute_capability: Option<String>,
    pub supports_metal: bool,
    pub supports_cuda: bool,
    pub supports_opencl: bool,
}

/// Whether a processor can run Metal: an Apple one that supports it.
pub open spec fn runs_metal(g: GpuInfo) -> bool {
    g.supports_metal && g.vendor is Apple
}

/// Whether a processor can run CUDA: an NVIDIA one that supports it.
pub open spec fn runs_cuda(g: GpuInfo) -> bool {
    g.supports_cuda && g.vendor is Nvidia
}

/// The backend to recommend: Metal before CUDA before ROCm before OpenCL,
/// each where some processor can run it, and the CPU where none can.
pub open spec fn spec_best_backend(gpus: Seq<GpuInfo>) -> AccelerationBackend {
    if exists|i: int| 0 <= i < gpus.len() && runs_metal(#[trigger] gpus[i]) {
        AccelerationBackend::Metal
    } else if exists|i: int| 0 <= i < gpus.len() && runs_cuda(#[trigger] gpus[i]) {
        AccelerationBackend::Cuda
    } else if exists|i: int| 0 <= i < gpus.len() && (#[trigger] gpus[i]).vendor is Amd {
        AccelerationBackend::Rocm
    } else if exists|i: int| 0 <= i < gpus.len() && (#[trigger] gpus[i]).supports_opencl {
        AccelerationBackend::OpenCl
    } else {
        AccelerationBackend::Cpu
    }
}

/// The backend to recommend for the processors found.
pub fn determine_best_backend(gpus: &Vec<GpuInfo>) -> (r: AccelerationBackend)
    ensures
        r == spec_best_backend(gpus@),
{
    let mut metal = false;
    let mut cuda = false;
    let mut amd = false;
    let mut opencl = false;
    let mut i: usize = 0;
    while i < gpus.len()
        invariant
            i <= gpus.len(),
            metal == exists|k: int| 0 <= k < i && runs_metal(#[trigger] gpus@[k]),
            cuda == exists|k: int| 0 <= k < i && runs_cuda(#[trigger] gpus@[k]),
            amd == exists|k: int| 0 <= k < i && (#[trigger] gpus@[k]).vendor is Amd,
            opencl == exists|k: int| 0 <= k < i && (#[trigger] gpus@[k]).supports_opencl,
        decreases gpus.len() - i,
    {
        let g = &gpus[i];
        let is_apple = match g.vendor {
            GpuVendor::Apple => true,
            _ => false,
        };
        let is_nvidia = match g.vendor {
            GpuVendor::Nvidia => true,
            _ => false,
        };
        let is_amd = match g.vendor {
            GpuVendor::Amd => true,
            _ => false,
        };
        if g.supports_metal && is_apple {
            metal = true;
        }
        if g.supports_cuda && is_nvidia {
            cuda = true;
        }
        if is_amd {
            amd = true;
        }
        if g.supports_opencl {
            opencl = true;
        }
        i += 1;
    }
    if metal {
        AccelerationBackend::Metal
    } else if cuda {
        AccelerationBackend::Cuda
    } else if amd {
        AccelerationBackend::Rocm
    } else if opencl {
        AccelerationBackend::OpenCl
    } else {
        AccelerationBackend::Cpu
    }
}

/// The bits of 8.0 and of 4.0 in single precision, and of infinity.
pub const EIGHT_GB_BITS: u32 = 0x4100_0000;

pub const FOUR_GB_BITS: u32 = 0x4080_0000;

pub const MEMORY_BITS_MAX: u32 = 0x7F80_0000;

/// Whether an amount of memory is at least a bound, both as the bits of a
/// single-precision number, the bound positive. Among the numbers that are
/// not negative the larger number has the larger bits; what is no number
/// or is negative is below every bound.
pub open spec fn memory_at_least(memory: u32, bound: u32) -> bool {
    bound <= memory <= MEMORY_BITS_MAX
}

/// What is said of an NVIDIA processor with the given memory.
pub open spec fn spec_vram_note(memory: u32) -> Seq<char> {
    if memory_at_least(memory, EIGHT_GB_BITS) {
        "🚀 Excellent: High-end NVIDIA GPU with sufficient VRAM"@
    } else if memory_at_least(memory, FOUR_GB_BITS) {
        "⚡ Good: NVIDIA GPU available, but limited VRAM may affect large models"@
    } else {
        "⚠️ Limited: Low VRAM may require smaller models or CPU fallback"@
    }
}

/// `gpus[i]` is the first NVIDIA processor.
pub open spec fn is_first_nvidia(gpus: Seq<GpuInfo>, i: int) -> bool {
    &&& 0 <= i < gpus.len()
    &&& gpus[i].vendor is Nvidia
    &&& forall|j: int| 0 <= j < i ==> !((#[trigger] gpus[j]).vendor is Nvidia)
}

/// The notes for CUDA: about the memory of the first NVIDIA processor where
/// it is known, then the advice on drivers; nothing without such a
/// processor.
pub open spec fn spec_cuda_notes(gpus: Seq<GpuInfo>) -> Seq<Seq<char>> {
    if exists|i: int| is_first_nvidia(gpus, i) {
        let i = choose|i: int| is_first_nvidia(gpus, i);
        (match gpus[i].memory_gb {
            Some(m) => seq![spec_vram_note(m)],
            None => Seq::<Seq<char>>::empty(),
        }) + seq!["💡 Tip: Ensure CUDA drivers are installed and up to date"@]
    } else {
        Seq::empty()
    }
}

/// The notes on performance for a backend.
pub open spec fn spec_performance_notes(gpus: Seq<GpuInfo>, backend: AccelerationBackend) -> Seq<
    Seq<char>,
> {
    match backend {
        AccelerationBackend::Metal => seq![
            "🚀 Excellent: Apple Silicon GPU acceleration available via Metal"@,
            "💡 Tip: Unified memory architecture provides efficient GPU-CPU data sharing"@,
        ],
        AccelerationBackend::Cuda => spec_cuda_notes(gpus),
        AccelerationBackend::Rocm => seq![
            "⚡ Good: AMD GPU detected - ROCm support available"@,
            "💡 Tip: ROCm support varies by GPU generation - check compatibility"@,
        ],
        AccelerationBackend::OpenCl => seq![
            "🔧 Basic: OpenCL acceleration available but may be slower than native backends"@,
        ],
        AccelerationBackend::Cpu => seq![
            "🐌 CPU-only: No GPU acceleration detected - performance may be limited"@,
            "💡 Tip: Consider upgrading hardware or installing GPU drivers for better performance"@,
        ],
    }
}

/// Index of the first NVIDIA processor.
pub fn first_nvidia(gpus: &Vec<GpuInfo>) -> (r: Option<usize>)
    ensures
        r is Some <==> exists|i: int| is_first_nvidia(gpus@, i),
        r matches Some(i) ==> is_first_nvidia(gpus@, i as int),
{
    let mut i: usize = 0;
    while i < gpus.len()
        invariant
            i <= gpus.len(),
            forall|j: int| 0 <= j < i ==> !((#[trigger] gpus@[j]).vendor is Nvidia),
        decreases gpus.len() - i,
    {
        let found = match gpus[i].vendor {
            GpuVendor::Nvidia => true,
            _ => false,
        };
        if found {
            assert(is_first_nvidia(gpus@, i as int));
            return Some(i);
        }
        i += 1;
    }
    None
}

/// The first NVIDIA processor is the only index that is it.
pub proof fn lemma_first_nvidia_unique(gpus: Seq<GpuInfo>, i: int, j: int)
    requires
        is_first_nvidia(gpus, i),
        is_first_nvidia(gpus, j),
    ensures
        i == j,
{
}

/// The notes on performance for a backend.
pub fn generate_performance_notes(gpus: &Vec<GpuInfo>, backend: AccelerationBackend) -> (r: Vec<
    String,
>)
    ensures
        texts(r@) == spec_performance_notes(gpus@, backend),
{
    let mut notes: Vec<String> = Vec::new();
    match backend {
        AccelerationBackend::Metal => {
            notes.push(
                String::from_str("🚀 Excellent: Apple Silicon GPU acceleration available via Metal"),
            );
            notes.push(
                String::from_str(
                    "💡 Tip: Unified memory architecture provides efficient GPU-CPU data sharing",
                ),
            );
        },
        AccelerationBackend::Cuda => {
            match first_nvidia(gpus) {
                Some(i) => {
                    proof {
                        let k = choose|k: int| is_first_nvidia(gpus@, k);
                        lemma_first_nvidia_unique(gpus@, i as int, k);
                    }
                    match gpus[i].memory_gb {
                        Some(m) => {
                            if m >= EIGHT_GB_BITS && m <= MEMORY_BITS_MAX {
                                notes.push(
                                    String::from_str(
                                        "🚀 Excellent: High-end NVIDIA GPU with sufficient VRAM",
                                    ),
                                );
                            } else if m >= FOUR_GB_BITS && m <= MEMORY_BITS_MAX {
                                notes.push(
                                    String::from_str(
                                        "⚡ Good: NVIDIA GPU available, but limited VRAM may affect large models",
                                    ),
                                );
                            } else {
                                notes.push(
                                    String::from_str(
                                        "⚠️ Limited: Low VRAM may require smaller models or CPU fallback",
                                    ),
                                );
                            }
                        },
                        None => {},
                    }
                    notes.push(
                        String::from_str("💡 Tip: Ensure CUDA drivers are installed and up to date"),
                    );
                },
                None => {},
            }
        },
        AccelerationBackend::Rocm => {
            notes.push(String::from_str("⚡ Good: AMD GPU detected - ROCm support available"));
            notes.push(
                String::from_str(
                    "💡 Tip: ROCm support varies by GPU generation - check compatibility",
                ),
            );
        },
        AccelerationBackend::OpenCl => {
            notes.push(
                String::from_str(
                    "🔧 Basic: OpenCL acceleration available but may be slower than native backends",
                ),
            );
        },
        AccelerationBackend::Cpu => {
            notes.push(
                String::from_str(
                    "🐌 CPU-only: No GPU acceleration detected - performance may be limited",
                ),
            );
            notes.push(
                String::from_str(
                    "💡 Tip: Consider upgrading hardware or installing GPU drivers for better performance",
                ),
            );
        },
    }
    assert(texts(notes@) =~= spec_performance_notes(gpus@, backend));
    notes
}

/// Whether acceleration is available at all.
pub fn acceleration_available(backend: AccelerationBackend) -> (r: bool)
    ensures
        r == (backend != AccelerationBackend::Cpu),
{
    match backend {
        AccelerationBackend::Cpu => false,
        _ => true,
    }
}

/// The backend that a listing of the model server's processes names:
/// "Metal" before "CUDA" before "GPU", and "CPU" where it names none.
pub open spec fn spec_detected_backend(listing: Seq<char>) -> Seq<char> {
    if occurs_in("Metal"@, listing) {
        "Metal"@
    } else if occurs_in("CUDA"@, listing) {
        "CUDA"@
    } else if occurs_in("GPU"@, listing) {
        "GPU"@
    } else {
        "CPU"@
    }
}

/// What the model server says of its use of the graphics hardware, from the
/// listing of its processes; `None` where the server could not be asked.
pub fn check_ollama_gpu_support(listing: Option<&str>) -> (r: OllamaGpuStatus)
    ensures
        r.gpu_layers is None,
        r.memory_usage is None,
        listing is None ==> !r.supports_acceleration && r.detected_backend@
            == "Unknown (Ollama not accessible)"@,
        listing matches Some(text) ==> r.detected_backend@ == spec_detected_backend(text@)
            && r.supports_acceleration == (occurs_in("GPU"@, text@) || occurs_in("Metal"@, text@)
            || occurs_in("CUDA"@, text@)),
{
    match listing {
        None => OllamaGpuStatus {
            detected_backend: String::from_str("Unknown (Ollama not accessible)"),
            gpu_layers: None,
            memory_usage: None,
            supports_acceleration: false,
        },
        Some(text) => {
            let has_metal = contains(text, "Metal");
            let has_cuda = contains(text, "CUDA");
            let has_gpu = contains(text, "GPU");
            let backend = if has_metal {
                "Metal"
            } else if has_cuda {
                "CUDA"
            } else if has_gpu {
                "GPU"
            } else {
                "CPU"
            };
            OllamaGpuStatus {
                detected_backend: String::from_str(backend),
                gpu_layers: None,
                memory_usage: None,
                supports_acceleration: has_gpu || has_metal || has_cuda,
            }
        },
    }
}

} // verus!
