use vr_core::distortion::scale_factor;
use vr_core::projection::EyeSide;
use vr_core::projection::Viewport;
use vr_core::projection::eye_frustum;
use vr_core::projection::eye_translation;
use vr_core::projection::eye_viewport;
use vr_core::renderer::RenderTargets;
use vr_core::renderer::VideoTextureState;
use vr_core::renderer::chroma_layout;
use vr_core::renderer::luma_layout;
use vr_core::renderer::plan_frame;
use vr_core::yuv::convert_yuv_to_rgba;

#[test]
fn distortion_scale_monotonic_and_clamped() {
    // scale(0.5) > scale(1.0) == scale(1.5): the derived zoom never
    // grows with the radius and is constant past the clamp.
    let half = scale_factor(5_000);
    let one = scale_factor(10_000);
    let beyond = scale_factor(15_000);
    assert!(half > one);
    assert_eq!(one, beyond);
    // Exact fixed-point values of the formula 1/(1 + k1 r^2 + k2 r^4).
    assert_eq!(half, 9_330);
    assert_eq!(one, 7_142);
    // Sampled monotonicity across the whole slider range.
    let mut previous = scale_factor(0);
    assert_eq!(previous, 10_000);
    let mut r = 0u64;
    while r <= 15_000 {
        let s = scale_factor(r);
        assert!(s <= previous);
        previous = s;
        r += 250;
    }
}

#[test]
fn stereo_viewports_tile_the_screen() {
    let left = eye_viewport(EyeSide::Left, 2560);
    let right = eye_viewport(EyeSide::Right, 2560);
    let mono = eye_viewport(EyeSide::Mono, 2560);
    assert_eq!(left, Viewport { x: 0, width: 1280 });
    assert_eq!(right, Viewport { x: 1280, width: 1280 });
    assert_eq!(mono, Viewport { x: 0, width: 2560 });
}

#[test]
fn eye_frustums_mirror_each_other() {
    let l = eye_frustum(EyeSide::Left, 1_500, 640, 720);
    let r = eye_frustum(EyeSide::Right, 1_500, 640, 720);
    // Same scale for both eyes; the asymmetry sits in the offset, which
    // mirrors exactly; the vertical scale is exactly 1.0.
    assert_eq!(l.x_scale, r.x_scale);
    assert_eq!(l.x_offset, -r.x_offset);
    assert_eq!(l.y_scale, 10_000);
    assert_eq!(l.y_offset, 0);
    // Exact values: half width 888, scale 10^7/888, near shift 266,
    // offset -(266 * 10^4 / 888).
    assert_eq!(l.x_scale, 11_261);
    assert_eq!(l.x_offset, -2_995);
    assert_eq!(r.x_offset, 2_995);
}

#[test]
fn eye_translations_combine_ipd_and_lens_offset() {
    assert_eq!(eye_translation(EyeSide::Left, 100), -315 + 100);
    assert_eq!(eye_translation(EyeSide::Right, 100), 315 - 100);
    assert_eq!(eye_translation(EyeSide::Mono, 100), 0);
}

#[test]
fn mono_frustum_is_symmetric() {
    let m = eye_frustum(EyeSide::Mono, 1_500, 1280, 720);
    assert_eq!(m.x_offset, 0);
    assert_eq!(m.eye_translation, 0);
}

#[test]
fn video_textures_recreated_only_on_resolution_change() {
    let mut t = VideoTextureState::new();
    assert!(t.on_upload(1280, 720));
    let g1 = t.generation;
    // Same resolution: overwrite in place, binding untouched.
    assert!(!t.on_upload(1280, 720));
    assert_eq!(t.generation, g1);
    // New resolution: a fresh pair of textures and a fresh binding.
    assert!(t.on_upload(640, 360));
    assert_eq!(t.generation, g1 + 1);
    assert_eq!((t.width, t.height), (640, 360));
}

#[test]
fn plane_layouts_match_yuv_420() {
    // Luma: full resolution, one byte per texel.
    assert_eq!(luma_layout(1280, 720), (1280, 720, 1280, 720));
    // Chroma: half resolution both axes, two bytes per texel, so the
    // byte stride stays the luma stride.
    assert_eq!(chroma_layout(1280, 720), (640, 360, 1280, 360));
}

#[test]
fn resize_rebuilds_offscreen_and_binding_together() {
    let mut t = RenderTargets::new(1920, 1080);
    t.resize(1280, 720);
    assert_eq!((t.surface_width, t.surface_height), (1280, 720));
    assert_eq!((t.offscreen_width, t.offscreen_height), (1280, 720));
    assert_eq!(t.binding_generation, t.offscreen_generation);
    // A degenerate size is a transient surface state and is skipped.
    t.resize(0, 720);
    assert_eq!((t.surface_width, t.surface_height), (1280, 720));
}

#[test]
fn frame_plan_depends_only_on_vr_and_ui() {
    let vr = plan_frame(true, true);
    assert!(vr.clear_ui_texture);
    assert!(vr.paint_ui_texture);
    assert!(vr.scene_to_offscreen);
    assert_eq!(vr.eye_count, 2);
    assert!(vr.distortion_pass);
    assert!(vr.direct_ui_pass);

    let flat = plan_frame(false, false);
    assert!(flat.clear_ui_texture);
    assert!(!flat.paint_ui_texture);
    assert!(!flat.scene_to_offscreen);
    assert_eq!(flat.eye_count, 1);
    assert!(!flat.distortion_pass);
    assert!(!flat.direct_ui_pass);
}

#[test]
fn yuv_conversion_exact_pixels() {
    // A 2x2 frame: four luma bytes, then one interleaved chroma pair
    // shared by all four pixels (u = 100, v = 200).
    let yuv: Vec<u8> = vec![16, 32, 48, 64, 100, 200];
    let rgba = convert_yuv_to_rgba(&yuv, 2, 2);
    assert_eq!(rgba.len(), 16);
    // With v-128 = 72 and u-128 = -28: the red term is 98, the green
    // term 40, the blue term -49, all floored.
    let expected: Vec<u8> = vec![
        114, 0, 0, 255,  // y=16: 16+98, 16-40 clamped, 16-49 clamped
        130, 0, 0, 255,  // y=32
        146, 8, 0, 255,  // y=48
        162, 24, 15, 255,  // y=64
    ];
    assert_eq!(rgba, expected);
}

#[test]
fn yuv_conversion_short_buffer_yields_grey() {
    let yuv: Vec<u8> = vec![1, 2, 3];
    let rgba = convert_yuv_to_rgba(&yuv, 2, 2);
    assert_eq!(rgba.len(), 16);
    assert!(rgba.iter().all(|&b| b == 128));
}
