use articify_bot::device::{
    configured_device, max_height, max_width, resolve_preset, select_device, step_count,
    ComputeDevice, DevicePreset, MAX_HEIGHT, MAX_WIDTH, REDUCED_MAX_SIDE, STEPS,
};
use articify_bot::error::PipelineError;
use articify_bot::image::{apply_watermark_if, encode_image, finish_image, from_rgba, RasterImage};
use articify_bot::pipeline::{
    fixed_seed, generation_plan, latent_shape, split_guidance_pair, LatentShape, Notice, Stage,
};
use articify_bot::prompt::{conditioning_pair, last_embedding, prompt_segments};
use articify_bot::FallibleMapExt;

fn chars(s: &str) -> Vec<char> {
    s.chars().collect()
}

fn text(v: &[char]) -> String {
    v.iter().collect()
}

fn solid(width: u32, height: u32, rgba: [u8; 4]) -> RasterImage {
    let mut pixels = Vec::new();
    for _ in 0..(width * height) {
        pixels.extend_from_slice(&rgba);
    }
    RasterImage { width, height, pixels }
}

#[test]
fn try_map_none_gives_ok_none() {
    let r: Result<Option<u32>, String> = None::<u32>.try_map(|x| Ok(x + 1));
    assert_eq!(r, Ok(None));
}

#[test]
fn try_map_some_ok_and_err() {
    let r: Result<Option<u32>, String> = Some(41u32).try_map(|x| Ok(x + 1));
    assert_eq!(r, Ok(Some(42)));
    let e: Result<Option<u32>, String> = Some(1u32).try_map(|_| Err("bad".to_string()));
    assert_eq!(e, Err("bad".to_string()));
}

#[test]
fn accelerator_preset_keeps_full_constants() {
    let p = resolve_preset(ComputeDevice::Cuda(0), true);
    assert_eq!(p.device, ComputeDevice::Cuda(0));
    assert_eq!(p.steps, 50);
    assert_eq!(p.max_width, 512);
    assert_eq!(p.max_height, 768);
}

#[test]
fn fallback_preset_uses_reduced_constants() {
    let p = resolve_preset(configured_device(), false);
    assert_eq!(p.device, ComputeDevice::Cpu);
    assert_eq!(p.steps, 25);
    assert_eq!(p.max_width, 512);
    assert_eq!(p.max_height, 512);
    assert_eq!(p.steps, STEPS / 2);
    assert_eq!(p.max_width, REDUCED_MAX_SIDE);
}

#[test]
fn device_selection_rules() {
    assert_eq!(select_device(ComputeDevice::Cpu, true), ComputeDevice::Cpu);
    assert_eq!(select_device(ComputeDevice::Cpu, false), ComputeDevice::Cpu);
    assert_eq!(select_device(ComputeDevice::Cuda(1), true), ComputeDevice::Cuda(1));
    assert_eq!(select_device(ComputeDevice::Cuda(1), false), ComputeDevice::Cpu);
    assert_eq!(step_count(true), STEPS);
    assert_eq!(max_width(true), MAX_WIDTH);
    assert_eq!(max_height(true), MAX_HEIGHT);
    assert_eq!(max_height(false), 512);
}

#[test]
fn segments_of_three_part_prompt() {
    let segs = prompt_segments(&chars("a; b; c"));
    let texts: Vec<String> = segs.iter().map(|s| text(s)).collect();
    assert_eq!(texts, vec!["a", "b", "c"]);
}

#[test]
fn last_segment_conditions_the_result() {
    let segs = prompt_segments(&chars("a; b; c"));
    let chosen = last_embedding(segs).unwrap();
    assert_eq!(text(&chosen), "c");
}

#[test]
fn empty_prompt_gives_one_empty_segment() {
    let segs = prompt_segments(&Vec::new());
    assert_eq!(segs.len(), 1);
    assert!(segs[0].is_empty());
}

#[test]
fn segments_trim_white_space_but_keep_inner() {
    let segs = prompt_segments(&chars("  a red ball \t;;\n x "));
    let texts: Vec<String> = segs.iter().map(|s| text(s)).collect();
    assert_eq!(texts, vec!["a red ball", "", "x"]);
}

#[test]
fn trailing_semicolon_adds_empty_segment() {
    let segs = prompt_segments(&chars("sky;"));
    let texts: Vec<String> = segs.iter().map(|s| text(s)).collect();
    assert_eq!(texts, vec!["sky", ""]);
}

#[test]
fn no_embedding_is_conditioning_error() {
    assert_eq!(last_embedding(Vec::<u8>::new()), Err(PipelineError::Conditioning));
    assert_eq!(last_embedding(vec![1u8, 2, 3]), Ok(3));
}

#[test]
fn conditioning_pair_puts_unconditional_first() {
    assert_eq!(conditioning_pair(vec![10u8], vec![1u8, 2, 3]), Ok((10, 3)));
    assert_eq!(
        conditioning_pair(Vec::<u8>::new(), vec![1u8]),
        Err(PipelineError::Conditioning)
    );
    assert_eq!(
        conditioning_pair(vec![1u8], Vec::<u8>::new()),
        Err(PipelineError::Conditioning)
    );
}

#[test]
fn split_two_equal_halves() {
    assert_eq!(split_guidance_pair(vec!['u', 'c'], &vec![1, 1]), Ok(('u', 'c')));
}

#[test]
fn split_mismatch_is_error() {
    assert_eq!(
        split_guidance_pair(vec!['u'], &vec![1]),
        Err(PipelineError::ShapeMismatch)
    );
    assert_eq!(
        split_guidance_pair(vec!['a', 'b', 'c'], &vec![1, 1, 1]),
        Err(PipelineError::ShapeMismatch)
    );
    assert_eq!(
        split_guidance_pair(vec!['a', 'b'], &vec![2, 1]),
        Err(PipelineError::ShapeMismatch)
    );
    assert_eq!(
        split_guidance_pair(Vec::<char>::new(), &Vec::new()),
        Err(PipelineError::ShapeMismatch)
    );
}

#[test]
fn latent_shape_is_an_eighth_of_the_preset() {
    let full = resolve_preset(ComputeDevice::Cuda(0), true);
    assert_eq!(
        latent_shape(&full),
        LatentShape { batch: 1, channels: 4, height: 96, width: 64 }
    );
    let reduced = resolve_preset(ComputeDevice::Cuda(0), false);
    assert_eq!(
        latent_shape(&reduced),
        LatentShape { batch: 1, channels: 4, height: 64, width: 64 }
    );
}

#[test]
fn red_ball_request_plan_and_size() {
    let p = resolve_preset(ComputeDevice::Cuda(0), true);
    assert_eq!((p.max_width, p.max_height), (512, 768));
    assert_eq!(fixed_seed(42), Some(42));
    let plan = generation_plan(&p, false);
    assert_eq!(plan.len(), 1 + 50 + 2 + 1);
    assert!(!plan.contains(&Stage::Watermark));
}

#[test]
fn seed_zero_is_not_fixed() {
    assert_eq!(fixed_seed(0), None);
    assert_eq!(fixed_seed(-7), Some(-7));
}

#[test]
fn plan_orders_phases() {
    let p = DevicePreset { device: ComputeDevice::Cpu, steps: 2, max_width: 8, max_height: 8 };
    let plan = generation_plan(&p, true);
    assert_eq!(
        plan,
        vec![
            Stage::Notify(Notice::Generating),
            Stage::Denoise(0),
            Stage::Denoise(1),
            Stage::Notify(Notice::Decoding),
            Stage::Decode,
            Stage::Notify(Notice::Watermarking),
            Stage::Watermark,
            Stage::Notify(Notice::Created),
        ]
    );
    assert_eq!(Notice::Created.text(), "✅ Image created successfully.");
}

#[test]
fn from_rgba_checks_length() {
    assert!(from_rgba(2, 1, vec![0; 8]).is_ok());
    assert_eq!(from_rgba(2, 1, vec![0; 7]).unwrap_err(), PipelineError::Decode);
}

#[test]
fn watermark_off_returns_image_unchanged() {
    let p = resolve_preset(ComputeDevice::Cuda(0), true);
    let img = solid(3, 2, [200, 10, 10, 255]);
    let out = apply_watermark_if(false, img.clone(), None, &p).unwrap();
    assert_eq!(out.pixels, img.pixels);
    assert_eq!((out.width, out.height), (3, 2));
}

#[test]
fn watermark_off_bytes_equal_plain_encoding() {
    let p = resolve_preset(ComputeDevice::Cuda(0), true);
    let img = solid(3, 2, [200, 10, 10, 255]);
    let plain = photon_rs::PhotonImage::new(img.pixels.clone(), 3, 2).get_bytes();
    let bytes = finish_image(false, img, None, &p).unwrap();
    assert_eq!(bytes, plain);
    assert_eq!(&bytes[..4], &[137u8, 80, 78, 71]);
}

#[test]
fn watermark_changes_only_the_corner() {
    let p = DevicePreset { device: ComputeDevice::Cpu, steps: 1, max_width: 1, max_height: 1 };
    let img = solid(2, 2, [255, 0, 0, 255]);
    let mark = solid(2, 2, [0, 0, 255, 255]);
    let out = apply_watermark_if(true, img.clone(), Some(mark), &p).unwrap();
    assert_eq!((out.width, out.height), (2, 2));
    assert_ne!(&out.pixels[0..4], &img.pixels[0..4]);
    assert_eq!(&out.pixels[4..], &img.pixels[4..]);
}

#[test]
fn watermark_on_changes_encoded_bytes() {
    let p = DevicePreset { device: ComputeDevice::Cpu, steps: 1, max_width: 1, max_height: 1 };
    let img = solid(2, 2, [255, 0, 0, 255]);
    let plain = finish_image(false, img.clone(), None, &p).unwrap();
    let marked = finish_image(true, img, Some(solid(1, 1, [0, 0, 255, 255])), &p).unwrap();
    assert_ne!(plain, marked);
}

#[test]
fn watermark_without_asset_fails() {
    let p = resolve_preset(ComputeDevice::Cuda(0), true);
    let img = solid(2, 2, [1, 2, 3, 255]);
    assert_eq!(
        apply_watermark_if(true, img.clone(), None, &p).unwrap_err(),
        PipelineError::AssetLoad
    );
    let broken = RasterImage { width: 2, height: 2, pixels: vec![0; 3] };
    assert_eq!(
        apply_watermark_if(true, img, Some(broken), &p).unwrap_err(),
        PipelineError::AssetLoad
    );
}

#[test]
fn malformed_image_is_decode_error() {
    let p = resolve_preset(ComputeDevice::Cuda(0), true);
    let bad = RasterImage { width: 2, height: 2, pixels: vec![0; 5] };
    assert_eq!(finish_image(false, bad, None, &p).unwrap_err(), PipelineError::Decode);
}

#[test]
fn encode_image_gives_png_or_decode_error() {
    let img = solid(1, 1, [9, 9, 9, 255]);
    let bytes = encode_image(&img).unwrap();
    assert_eq!(&bytes[..4], &[137u8, 80, 78, 71]);
    let bad = RasterImage { width: 1, height: 1, pixels: vec![0; 3] };
    assert_eq!(encode_image(&bad).unwrap_err(), PipelineError::Decode);
}

#[test]
fn empty_image_is_decode_error() {
    let p = resolve_preset(ComputeDevice::Cuda(0), true);
    let empty = RasterImage { width: 0, height: 3, pixels: Vec::new() };
    assert_eq!(encode_image(&empty).unwrap_err(), PipelineError::Decode);
    assert_eq!(finish_image(false, empty, None, &p).unwrap_err(), PipelineError::Decode);
}

#[test]
fn segments_trim_unicode_white_space() {
    let segs = prompt_segments(&chars("\u{3000}a\u{00a0}; \u{2009}b\u{85}"));
    let texts: Vec<String> = segs.iter().map(|s| text(s)).collect();
    assert_eq!(texts, vec!["a", "b"]);
}

#[test]
fn error_messages_are_fixed() {
    assert_eq!(PipelineError::Decode.message(), "the decoder failed");
    assert_eq!(
        PipelineError::ShapeMismatch.message(),
        "the noise prediction could not be split into two halves"
    );
}
