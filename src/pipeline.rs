//! The denoising loop's decisions and the order of a request's phases.

use vstd::prelude::*;
use itertools::Itertools;
use crate::device::DevicePreset;
use crate::error::PipelineError;

verus! {

/// Relies on `itertools::Itertools::collect_tuple`: a pair exactly when the
/// items number exactly two, holding them in order.
#[verifier::external_body]
fn collect_pair<T>(items: Vec<T>) -> (r: Option<(T, T)>)
    ensures
        items@.len() == 2 ==> r == Some((items@[0], items@[1])),
        items@.len() != 2 ==> r is None,
{
    items.into_iter().collect_tuple()
}

/// Splits the chunks of a batched noise prediction into the unconditional
/// and the conditional half, in that order. Anything but two chunks of
/// equal row count (`rows` gives each chunk's) is a shape mismatch.
pub fn split_guidance_pair<T>(chunks: Vec<T>, rows: &Vec<i64>) -> (r: Result<(T, T), PipelineError>)
    ensures
        chunks@.len() == 2 && rows@ == seq![rows@[0], rows@[0]] ==> r == Ok::<
            (T, T),
            PipelineError,
        >((chunks@[0], chunks@[1])),
        !(chunks@.len() == 2 && rows@ == seq![rows@[0], rows@[0]]) ==> r == Err::<
            (T, T),
            PipelineError,
        >(PipelineError::ShapeMismatch),
{
    let even = rows.len() == 2 && rows[0] == rows[1];
    assert(even <==> rows@ == seq![rows@[0], rows@[0]]) by {
        if rows@.len() == 2 && rows@[0] == rows@[1] {
            assert(rows@ =~= seq![rows@[0], rows@[0]]);
        }
    }
    if !even {
        return Err(PipelineError::ShapeMismatch);
    }
    match collect_pair(chunks) {
        Some(pair) => Ok(pair),
        None => Err(PipelineError::ShapeMismatch),
    }
}

/// Latent batch size.
pub const LATENT_BATCH: i64 = 1;

/// Latent channel count.
pub const LATENT_CHANNELS: i64 = 4;

/// Pixels per latent cell along each side.
pub const LATENT_SCALE: u32 = 8;

/// The shape of the latent tensor: batch, channels, height, width.
#[derive(Clone, Copy, Debug, PartialEq, Eq, Structural)]
pub struct LatentShape {
    pub batch: i64,
    pub channels: i64,
    pub height: i64,
    pub width: i64,
}

/// The latent shape for a preset: one batch row, four channels, and each
/// side an eighth of the preset's largest image side.
pub open spec fn latent_shape_spec(preset: DevicePreset) -> LatentShape {
    LatentShape {
        batch: 1,
        channels: 4,
        height: (preset.max_height / 8) as i64,
        width: (preset.max_width / 8) as i64,
    }
}

/// The latent shape of a request. The denoising loop keeps it at every step.
pub fn latent_shape(preset: &DevicePreset) -> (r: LatentShape)
    ensures
        r == latent_shape_spec(*preset),
{
    LatentShape {
        batch: LATENT_BATCH,
        channels: LATENT_CHANNELS,
        height: (preset.max_height / LATENT_SCALE) as i64,
        width: (preset.max_width / LATENT_SCALE) as i64,
    }
}

/// The seed to fix before drawing the initial noise: none for seed 0, which
/// asks for non-deterministic sampling.
pub fn fixed_seed(seed: i64) -> (r: Option<i64>)
    ensures
        seed == 0 ==> r is None,
        seed != 0 ==> r == Some(seed),
{
    if seed != 0 {
        Some(seed)
    } else {
        None
    }
}

/// A coarse progress notice sent at a phase boundary.
#[derive(Clone, Copy, Debug, PartialEq, Eq, Structural)]
pub enum Notice {
    /// The denoising loop is about to start.
    Generating,
    /// The final latents are about to be decoded.
    Decoding,
    /// The watermark is about to be applied.
    Watermarking,
    /// The image is complete.
    Created,
}

impl Notice {
    /// The text shown for the notice.
    pub fn text(&self) -> (r: &'static str)
        ensures
            r@ == match *self {
                Notice::Generating => "⚙️ Generating the image, please wait..."@,
                Notice::Decoding => "🖼 Generating the final photo..."@,
                Notice::Watermarking => "⏳ Applying watermark..."@,
                Notice::Created => "✅ Image created successfully."@,
            },
    {
        match self {
            Notice::Generating => "⚙️ Generating the image, please wait...",
            Notice::Decoding => "🖼 Generating the final photo...",
            Notice::Watermarking => "⏳ Applying watermark...",
            Notice::Created => "✅ Image created successfully.",
        }
    }
}

/// One phase of a request, in the order the plan gives.
#[derive(Clone, Copy, Debug, PartialEq, Eq, Structural)]
pub enum Stage {
    /// Send a progress notice.
    Notify(Notice),
    /// Run denoising step `i` on the latents that step `i - 1` produced.
    Denoise(usize),
    /// Decode the final latents and rasterize them.
    Decode,
    /// Composite the watermark.
    Watermark,
}

/// The denoising steps `0 .. steps`, in order.
pub open spec fn denoise_stages(steps: nat) -> Seq<Stage> {
    Seq::new(steps, |i: int| Stage::Denoise(i as usize))
}

/// The phases of a request: one notice before the loop, every step in
/// order, a notice and the decode, the watermark with its notice when asked
/// for, and the closing notice.
pub open spec fn plan_spec(steps: nat, watermark: bool) -> Seq<Stage> {
    seq![Stage::Notify(Notice::Generating)] + denoise_stages(steps) + seq![
        Stage::Notify(Notice::Decoding),
        Stage::Decode,
    ] + (if watermark {
        seq![Stage::Notify(Notice::Watermarking), Stage::Watermark]
    } else {
        Seq::<Stage>::empty()
    }) + seq![Stage::Notify(Notice::Created)]
}

/// The ordered phases of a request under a preset.
pub fn generation_plan(preset: &DevicePreset, watermark: bool) -> (r: Vec<Stage>)
    requires
        preset.steps + 6 <= usize::MAX,
    ensures
        r@ == plan_spec(preset.steps as nat, watermark),
{
    let mut r: Vec<Stage> = Vec::new();
    r.push(Stage::Notify(Notice::Generating));
    let mut i: usize = 0;
    while i < preset.steps
        invariant
            i <= preset.steps,
            r@ == seq![Stage::Notify(Notice::Generating)] + denoise_stages(i as nat),
        decreases preset.steps - i,
    {
        r.push(Stage::Denoise(i));
        assert(denoise_stages((i + 1) as nat) =~= denoise_stages(i as nat).push(
            Stage::Denoise(i),
        ));
        assert(r@ =~= seq![Stage::Notify(Notice::Generating)] + denoise_stages((i + 1) as nat));
        i = i + 1;
    }
    r.push(Stage::Notify(Notice::Decoding));
    r.push(Stage::Decode);
    if watermark {
        r.push(Stage::Notify(Notice::Watermarking));
        r.push(Stage::Watermark);
    }
    r.push(Stage::Notify(Notice::Created));
    assert(r@ =~= plan_spec(preset.steps as nat, watermark));
    r
}

/// Step `i + 1` comes right after step `i` and nothing else runs between
/// them, so each step reads the latents of the one before.
pub proof fn lemma_steps_sequential(steps: nat, watermark: bool, i: int)
    requires
        0 <= i,
        i + 1 < steps,
    ensures
        plan_spec(steps, watermark)[i + 1] == Stage::Denoise(i as usize),
        plan_spec(steps, watermark)[i + 2] == Stage::Denoise((i + 1) as usize),
{
}

/// The loop is announced once, before its first step, and by no other
/// notice in between its steps.
pub proof fn lemma_single_loop_notice(steps: nat, watermark: bool)
    ensures
        plan_spec(steps, watermark)[0] == Stage::Notify(Notice::Generating),
        forall|j: int|
            1 <= j <= steps ==> #[trigger] plan_spec(steps, watermark)[j] is Denoise,
{
}

/// Without the watermark flag no watermark phase runs.
pub proof fn lemma_no_watermark_stage(steps: nat)
    ensures
        forall|j: int|
            0 <= j < plan_spec(steps, false).len() ==> #[trigger] plan_spec(steps, false)[j]
                != Stage::Watermark,
{
}

} // verus!
