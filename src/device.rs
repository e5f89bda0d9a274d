//! Compute placement and the capacity-dependent generation preset.

use vstd::prelude::*;

verus! {

/// Where the models run.
#[derive(Clone, Copy, Debug, PartialEq, Eq, Structural)]
pub enum ComputeDevice {
    /// The generic compute device.
    Cpu,
    /// An accelerator, by ordinal.
    Cuda(usize),
}

/// Denoising steps when an accelerator is available.
pub const STEPS: usize = 50;

/// Largest image width when an accelerator is available.
pub const MAX_WIDTH: u32 = 512;

/// Largest image height when an accelerator is available.
pub const MAX_HEIGHT: u32 = 768;

/// Largest image width and height on the generic compute device.
pub const REDUCED_MAX_SIDE: u32 = 512;

/// The device configured for generation: the first accelerator.
pub fn configured_device() -> (r: ComputeDevice)
    ensures
        r == ComputeDevice::Cuda(0),
{
    ComputeDevice::Cuda(0)
}

/// Placement and limits fixed for one request.
#[derive(Clone, Copy, Debug, PartialEq, Eq, Structural)]
pub struct DevicePreset {
    pub device: ComputeDevice,
    pub steps: usize,
    pub max_width: u32,
    pub max_height: u32,
}

/// The device that runs the models: an accelerator that is configured but
/// absent falls back to the generic device.
pub open spec fn effective_device(configured: ComputeDevice, accelerator: bool) -> ComputeDevice {
    match configured {
        ComputeDevice::Cuda(_) => if accelerator {
            configured
        } else {
            ComputeDevice::Cpu
        },
        ComputeDevice::Cpu => configured,
    }
}

/// The preset for a configured device, given whether an accelerator is
/// available: without one the step count is halved and both sides are
/// bounded by the reduced side.
pub open spec fn preset_spec(configured: ComputeDevice, accelerator: bool) -> DevicePreset {
    DevicePreset {
        device: effective_device(configured, accelerator),
        steps: if accelerator {
            STEPS
        } else {
            (STEPS / 2) as usize
        },
        max_width: if accelerator {
            MAX_WIDTH
        } else {
            REDUCED_MAX_SIDE
        },
        max_height: if accelerator {
            MAX_HEIGHT
        } else {
            REDUCED_MAX_SIDE
        },
    }
}

/// The device that runs the models.
pub fn select_device(configured: ComputeDevice, accelerator: bool) -> (r: ComputeDevice)
    ensures
        r == effective_device(configured, accelerator),
{
    match configured {
        ComputeDevice::Cuda(_) => if accelerator {
            configured
        } else {
            ComputeDevice::Cpu
        },
        ComputeDevice::Cpu => configured,
    }
}

/// Number of denoising steps.
pub fn step_count(accelerator: bool) -> (r: usize)
    ensures
        r == preset_spec(ComputeDevice::Cuda(0), accelerator).steps,
{
    if accelerator {
        STEPS
    } else {
        STEPS / 2
    }
}

/// Largest image width.
pub fn max_width(accelerator: bool) -> (r: u32)
    ensures
        r == preset_spec(ComputeDevice::Cuda(0), accelerator).max_width,
{
    if accelerator {
        MAX_WIDTH
    } else {
        REDUCED_MAX_SIDE
    }
}

/// Largest image height.
pub fn max_height(accelerator: bool) -> (r: u32)
    ensures
        r == preset_spec(ComputeDevice::Cuda(0), accelerator).max_height,
{
    if accelerator {
        MAX_HEIGHT
    } else {
        REDUCED_MAX_SIDE
    }
}

/// Resolves the preset of a request. It never fails: a missing accelerator
/// only reduces the preset.
pub fn resolve_preset(configured: ComputeDevice, accelerator: bool) -> (r: DevicePreset)
    ensures
        r == preset_spec(configured, accelerator),
{
    DevicePreset {
        device: select_device(configured, accelerator),
        steps: step_count(accelerator),
        max_width: max_width(accelerator),
        max_height: max_height(accelerator),
    }
}

/// Without an accelerator the preset holds the reduced constants, whatever
/// device was configured, and runs on the generic device.
pub proof fn lemma_fallback_bound(configured: ComputeDevice)
    ensures
        preset_spec(configured, false).steps == STEPS / 2,
        preset_spec(configured, false).max_width == REDUCED_MAX_SIDE,
        preset_spec(configured, false).max_height == REDUCED_MAX_SIDE,
        preset_spec(configured, false).device == ComputeDevice::Cpu,
{
}

} // verus!
