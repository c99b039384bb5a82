use ffgl_gpu::blit::blit_scaled;
use ffgl_gpu::device::{select_driver, DriverKind};
use ffgl_gpu::host_api::truncate_c_string;
use ffgl_gpu::glsl::{get_best_transpilation_target, GlslVersion};
use ffgl_gpu::host_api::{FFGLTextureStruct, FFGLViewportStruct, GLInput};
use ffgl_gpu::pixels::PixelTexture;
use ffgl_gpu::resolution::{processing_dims, processing_extent, use_bilinear};
use ffgl_gpu::timing::{dispatch_is_fresh, poll_timed_out, successor_frame};
use ffgl_gpu::validate_gl::{texture_types, validate_viewport, GL_TEXTURE_1D, GL_TEXTURE_2D};

#[test]
fn blit_same_size_is_identity() {
    let src: Vec<u32> = vec![1, 2, 3, 4, 5, 6];
    let out = blit_scaled(&src, 3, 3, 2, 3, 2);
    assert_eq!(out, src);
}

#[test]
fn blit_downscale_samples_pixel_centres() {
    // One row of four: destination coordinate d out of 2 samples source
    // coordinate floor((2d + 1) * 4 / 4) = 1 and 3.
    let src: Vec<u32> = vec![10, 20, 30, 40];
    let out = blit_scaled(&src, 4, 4, 1, 2, 1);
    assert_eq!(out, vec![20, 40]);
}

#[test]
fn blit_upscale_duplicates_pixels() {
    let src: Vec<u32> = vec![10, 20];
    let out = blit_scaled(&src, 2, 2, 1, 4, 1);
    assert_eq!(out, vec![10, 10, 20, 20]);
}

#[test]
fn blit_reads_subrectangle_with_stride() {
    // A 3x2 buffer; blit only its left 2x2 rectangle, unscaled.
    let src: Vec<u32> = vec![
        1, 2, 9, //
        3, 4, 9,
    ];
    let out = blit_scaled(&src, 3, 2, 2, 2, 2);
    assert_eq!(out, vec![1, 2, 3, 4]);
}

#[test]
fn blit_two_dimensional_upscale() {
    let src: Vec<u32> = vec![
        1, 2, //
        3, 4,
    ];
    let out = blit_scaled(&src, 2, 2, 2, 4, 4);
    assert_eq!(out, vec![
        1, 1, 2, 2, //
        1, 1, 2, 2, //
        3, 3, 4, 4, //
        3, 3, 4, 4,
    ]);
}

#[test]
fn processing_extent_follows_clamped_formula() {
    assert_eq!(processing_extent(100, 500), 50);
    assert_eq!(processing_extent(100, 1000), 100);
    assert_eq!(processing_extent(100, 2000), 100, "scale clamps to one");
    assert_eq!(processing_extent(100, 50), 12, "scale clamps to one eighth");
    assert_eq!(processing_extent(16, 125), 2);
    assert_eq!(processing_extent(2, 125), 2, "never below two pixels");
}

#[test]
fn processing_dims_scales_both_axes() {
    assert_eq!(processing_dims(640, 480, 500), (320, 240));
    assert_eq!(processing_dims(0xFFFF, 0xFFFF, 1000), (0xFFFF, 0xFFFF));
}

#[test]
fn bilinear_threshold_is_one_half() {
    assert!(!use_bilinear(0));
    assert!(!use_bilinear(499));
    assert!(use_bilinear(500));
    assert!(use_bilinear(1000));
}

#[test]
fn frame_counter_wraps() {
    assert_eq!(successor_frame(5), 6);
    assert_eq!(successor_frame(u64::MAX), 0);
}

#[test]
fn freshness_window_is_exclusive() {
    assert!(dispatch_is_fresh(1000, 1099));
    assert!(!dispatch_is_fresh(1000, 1100));
    assert!(!dispatch_is_fresh(1000, 999), "a clock that went backwards counts as stale");
}

#[test]
fn poll_timeout_is_exclusive() {
    assert!(!poll_timed_out(0, 100));
    assert!(poll_timed_out(0, 101));
}

#[test]
fn texture_types_lists_reset_targets() {
    let types = texture_types();
    assert_eq!(types.len(), 2);
    assert_eq!(types[0].target, GL_TEXTURE_1D);
    assert_eq!(types[1].target, GL_TEXTURE_2D);
}

#[test]
fn viewport_validation_checks_scissor_and_dims() {
    let expected = [0, 0, 640, 480];
    assert!(validate_viewport(&expected, &[0, 0, 640, 480], false));
    assert!(!validate_viewport(&expected, &[0, 0, 640, 480], true));
    assert!(!validate_viewport(&expected, &[0, 0, 640, 481], false));
}

#[test]
fn transpilation_target_prefers_newer() {
    assert_eq!(get_best_transpilation_target(true, true), Some(GlslVersion::Glsl140));
    assert_eq!(get_best_transpilation_target(true, false), Some(GlslVersion::Glsl140));
    assert_eq!(get_best_transpilation_target(false, true), Some(GlslVersion::Glsl120));
    assert_eq!(get_best_transpilation_target(false, false), None);
}

#[test]
fn gl_input_first_texture() {
    let textures = [FFGLTextureStruct {
        Width: 640,
        Height: 480,
        HardwareWidth: 1024,
        HardwareHeight: 512,
        Handle: 7,
    }];
    let input = GLInput { textures: &textures, host: 3 };
    assert_eq!(input.first_texture().unwrap().Handle, 7);
    let empty = GLInput { textures: &[], host: 3 };
    assert!(empty.first_texture().is_none());
}

#[test]
fn viewport_reports_dimensions() {
    let vp = FFGLViewportStruct { x: 0, y: 0, width: 1920, height: 1080 };
    assert_eq!(vp.dimensions(), (1920, 1080));
}

#[test]
fn c_string_truncation_keeps_terminator() {
    let bytes = vec![b'a', b'b', b'c', 0];
    assert_eq!(truncate_c_string(&bytes, 16), bytes, "short strings copy whole");
    assert_eq!(truncate_c_string(&bytes, 3), vec![b'a', b'b', 0], "truncation re-terminates");
    assert_eq!(truncate_c_string(&bytes, 1), vec![0]);
    assert_eq!(truncate_c_string(&bytes, 0), Vec::<u8>::new());
}

#[test]
fn driver_selection_prefers_hardware() {
    assert_eq!(select_driver(true, true), Some(DriverKind::Hardware));
    assert_eq!(select_driver(true, false), Some(DriverKind::Hardware));
    assert_eq!(select_driver(false, true), Some(DriverKind::Software));
    assert_eq!(select_driver(false, false), None);
}

#[test]
fn texture_model_allocates_filled() {
    let t = PixelTexture::new_filled(9, 3, 2, 0xAABBCCDD);
    assert_eq!(t.id, 9);
    assert_eq!(t.pixels, vec![0xAABBCCDD; 6]);
}
