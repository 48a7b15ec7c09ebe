use image::{DynamicImage, GenericImageView};
use ocr_rs::det::{
    axis_aligned_crop, check_det_output_rank, crop_axis_aligned_region, crop_text_region,
    det_output_size, DetPrecisionMode,
};
use ocr_rs::engine::{
    engine_inference_config, is_upright, required_model_paths, orientation_correction, reading_order, rotate_by_angle,
    select_region_recognition_strategy, turn_image, vertical_recognition_variants, ImageTurn,
    RegionRecognitionStrategy, RotatedTextMode, PARALLEL_RECOGNITION_MIN_REGIONS,
};
use ocr_rs::error::OcrError;
use ocr_rs::mnn::{
    check_model_buffer, creation_status, element_count, inference_status, native_config_for,
    native_shape, plan_engine_load, plan_session_pool, raw_inference_status, resolve_config,
    shape_from_native, Backend, DataFormat, InferenceConfig, InferenceEngine, MnnError,
    NativeObject, NativeStatus, PrecisionMode, SessionPool, SharedRuntime,
};
use ocr_rs::mnn::{check_contiguous, dynamic_output_shape};
use ocr_rs::preprocess::{
    block_positions, crop_image, fast_resize, get_padded_size, gray_image_from_bytes,
    rgb8_image, rgb_to_image, split_into_blocks, try_split_into_blocks,
};
use ocr_rs::rec::{
    batch_output_count, batch_ranges, check_region_target_height, ctc_greedy_decode,
    is_punctuation, output_dims, parse_charset, recognition_plan, rect_source_corners,
    region_batch_ranges, uses_batched_recognition, RecognitionStep,
};
use ocr_rs::version;

// ============== Library ==============

#[test]
fn test_version() {
    let v = version();
    assert!(!v.is_empty());
}

#[test]
fn version_is_the_package_version() {
    assert_eq!(version(), "2.0.0");
}

// ============== Detection ==============

#[test]
fn test_det_precision_mode_default() {
    let mode = DetPrecisionMode::default();
    assert_eq!(mode, DetPrecisionMode::Fast);
}

#[test]
fn test_det_precision_mode_equality() {
    assert_eq!(DetPrecisionMode::Fast, DetPrecisionMode::Fast);
}

#[test]
fn axis_aligned_crop_clamps_to_the_image() {
    // negative corner moves to 0, the size is cut at the border
    assert_eq!(axis_aligned_crop(-5, -7, 50, 40, 30, 20), (0, 0, 30, 20));
    // a box outside the image still keeps one pixel
    assert_eq!(axis_aligned_crop(100, 100, 10, 10, 30, 20), (100, 100, 1, 1));
    // a box inside the image is unchanged
    assert_eq!(axis_aligned_crop(3, 4, 10, 5, 30, 20), (3, 4, 10, 5));
}

#[test]
fn crop_axis_aligned_region_has_the_clamped_size() {
    let img = DynamicImage::new_rgb8(30, 20);
    let cropped = crop_axis_aligned_region(&img, 25, -3, 10, 8);
    assert_eq!(cropped.dimensions(), (5, 8));
}

// ============== Preprocessing ==============

#[test]
fn test_padded_size() {
    assert_eq!(get_padded_size(100), 128);
    assert_eq!(get_padded_size(32), 32);
    assert_eq!(get_padded_size(33), 64);
    assert_eq!(get_padded_size(0), 0);
    assert_eq!(get_padded_size(1), 32);
    assert_eq!(get_padded_size(31), 32);
    assert_eq!(get_padded_size(64), 64);
    assert_eq!(get_padded_size(65), 96);
}

#[test]
fn test_crop_image() {
    let img = DynamicImage::new_rgb8(200, 100);
    let cropped = crop_image(&img, 50, 25, 100, 50);

    assert_eq!(cropped.width(), 100);
    assert_eq!(cropped.height(), 50);
}

#[test]
fn crop_image_is_cut_at_the_border() {
    let img = DynamicImage::new_rgb8(200, 100);
    let cropped = crop_image(&img, 150, 90, 100, 50);
    assert_eq!(cropped.dimensions(), (50, 10));
    let outside = crop_image(&img, 300, 300, 10, 10);
    assert_eq!(outside.dimensions(), (0, 0));
}

#[test]
fn test_split_into_blocks() {
    let img = DynamicImage::new_rgb8(500, 500);
    let blocks = split_into_blocks(&img, 200, 50);

    assert!(!blocks.is_empty());

    for (block, x, y) in &blocks {
        assert!(block.width() <= 200);
        assert!(block.height() <= 200);
        assert!(*x < 500);
        assert!(*y < 500);
    }
}

#[test]
fn test_split_into_blocks_small_image() {
    let img = DynamicImage::new_rgb8(100, 100);
    let blocks = split_into_blocks(&img, 200, 50);

    assert_eq!(blocks.len(), 1);
    assert_eq!(blocks[0].1, 0);
    assert_eq!(blocks[0].2, 0);
}

#[test]
fn split_into_blocks_follows_the_block_layout() {
    let img = DynamicImage::new_rgb8(500, 300);
    let blocks = split_into_blocks(&img, 200, 50);
    let got: Vec<(u32, u32, u32, u32)> = blocks
        .iter()
        .map(|(b, x, y)| (*x, *y, b.width(), b.height()))
        .collect();
    assert_eq!(got, block_positions(500, 300, 200, 50));
}

#[test]
fn block_positions_tile_with_overlap() {
    // step 150: x starts 0, 150, 300 (300 + 50 < 500, 450 + 50 >= 500 stops)
    assert_eq!(
        block_positions(500, 200, 200, 50),
        vec![(0, 0, 200, 200), (150, 0, 200, 200), (300, 0, 200, 200)]
    );
    assert_eq!(block_positions(100, 100, 200, 50), vec![(0, 0, 100, 100)]);
    assert!(block_positions(0, 100, 200, 50).is_empty());
    assert_eq!(
        block_positions(260, 10, 100, 20),
        vec![(0, 0, 100, 10), (80, 0, 100, 10), (160, 0, 100, 10)]
    );
}

#[test]
fn every_pixel_lies_in_some_block() {
    let (w, h) = (517u32, 389u32);
    let blocks = block_positions(w, h, 128, 32);
    for py in (0..h).step_by(7) {
        for px in (0..w).step_by(5) {
            assert!(blocks
                .iter()
                .any(|&(x, y, bw, bh)| x <= px && px < x + bw && y <= py && py < y + bh));
        }
    }
    for &(x, y, bw, bh) in &blocks {
        assert!(bw >= 1 && bw <= 128 && x + bw <= w);
        assert!(bh >= 1 && bh <= 128 && y + bh <= h);
    }
}

#[test]
fn fast_resize_gives_the_requested_size() {
    let rgb = DynamicImage::new_rgb8(200, 100);
    let out = fast_resize(&rgb, 96, 48).unwrap();
    assert_eq!(out.dimensions(), (96, 48));
    assert!(matches!(out, DynamicImage::ImageRgb8(_)));

    let rgba = DynamicImage::new_rgba8(30, 60);
    let out = fast_resize(&rgba, 15, 30).unwrap();
    assert_eq!(out.dimensions(), (15, 30));
    assert!(matches!(out, DynamicImage::ImageRgba8(_)));

    // other formats are resized as 8-bit RGB
    let gray = DynamicImage::new_luma8(40, 40);
    let out = fast_resize(&gray, 20, 10).unwrap();
    assert_eq!(out.dimensions(), (20, 10));
    assert!(matches!(out, DynamicImage::ImageRgb8(_)));
}

// ============== Recognition ==============

#[test]
fn test_is_punctuation_common() {
    assert!(is_punctuation(','));
    assert!(is_punctuation('.'));
    assert!(is_punctuation('!'));
    assert!(is_punctuation('?'));
    assert!(is_punctuation(';'));
    assert!(is_punctuation(':'));
    assert!(is_punctuation('"'));
    assert!(is_punctuation('\''));
}

#[test]
fn test_is_punctuation_chinese() {
    assert!(is_punctuation('，'));
    assert!(is_punctuation('。'));
    assert!(is_punctuation('！'));
    assert!(is_punctuation('？'));
    assert!(is_punctuation('；'));
    assert!(is_punctuation('：'));
    assert!(is_punctuation('、'));
    assert!(is_punctuation('—'));
    assert!(is_punctuation('…'));
}

#[test]
fn test_is_punctuation_brackets() {
    assert!(is_punctuation('('));
    assert!(is_punctuation(')'));
    assert!(is_punctuation('['));
    assert!(is_punctuation(']'));
    assert!(is_punctuation('{'));
    assert!(is_punctuation('}'));
    assert!(is_punctuation('「'));
    assert!(is_punctuation('」'));
    assert!(is_punctuation('《'));
    assert!(is_punctuation('》'));
}

#[test]
fn test_is_punctuation_false() {
    assert!(!is_punctuation('A'));
    assert!(!is_punctuation('z'));
    assert!(!is_punctuation('0'));
    assert!(!is_punctuation('中'));
    assert!(!is_punctuation('文'));
    assert!(!is_punctuation(' '));
}

#[test]
fn charset_gets_blank_and_padding_tokens() {
    let charset = parse_charset("a\nb\r\n中\n".as_bytes()).unwrap();
    assert_eq!(charset, vec![' ', 'a', 'b', '中', ' ']);
}

#[test]
fn charset_without_characters_is_too_small() {
    assert_eq!(
        parse_charset(b"\n\r\n"),
        Err(OcrError::CharsetError("Charset too small".to_string()))
    );
    assert_eq!(
        parse_charset(b""),
        Err(OcrError::CharsetError("Charset too small".to_string()))
    );
}

#[test]
fn charset_that_is_not_utf8_is_rejected() {
    match parse_charset(&[0x61, 0xff, 0x0a]) {
        Err(OcrError::CharsetError(m)) => {
            let expected = std::str::from_utf8(&[0x61, 0xff, 0x0a]).unwrap_err();
            assert_eq!(m, format!("UTF-8 decode error: {}", expected));
        }
        other => panic!("unexpected result {other:?}"),
    }
}

#[test]
fn output_dims_accept_two_and_three_dimensional_outputs() {
    assert_eq!(output_dims(&[1, 40, 6625]), Ok((40, 6625)));
    assert_eq!(output_dims(&[40, 97]), Ok((40, 97)));
    assert_eq!(
        output_dims(&[1, 2, 3, 4]),
        Err(OcrError::PostprocessError(
            "Invalid output shape: [1, 2, 3, 4]".to_string()
        ))
    );
    assert_eq!(
        output_dims(&[5]),
        Err(OcrError::PostprocessError("Invalid output shape: [5]".to_string()))
    );
    assert_eq!(
        output_dims(&[1, 40, 0]),
        Err(OcrError::PostprocessError(
            "Invalid output shape with zero classes".to_string()
        ))
    );
}

#[test]
fn ctc_decoding_collapses_repeats_and_drops_blanks() {
    let charset = [' ', 'a', 'b', ',', ' '];
    // steps: a a blank a b b , (out of charset) b
    let best = [1, 1, 0, 1, 2, 2, 3, 9, 2];
    let keep = [true; 9];
    let decoded = ctc_greedy_decode(&best, &keep, &keep, &charset);
    assert_eq!(
        decoded,
        vec![(0, 'a'), (3, 'a'), (4, 'b'), (6, ','), (8, 'b')]
    );
}

#[test]
fn ctc_decoding_applies_separate_thresholds_to_punctuation() {
    let charset = [' ', 'a', ','];
    let best = [1, 2, 1];
    let keep_regular = [true, true, false];
    let keep_punct = [true, false, true];
    let decoded = ctc_greedy_decode(&best, &keep_regular, &keep_punct, &charset);
    assert_eq!(decoded, vec![(0, 'a')]);
}

#[test]
fn batched_outputs_must_have_three_dimensions() {
    assert_eq!(batch_output_count(&[4, 40, 97], true), Ok(4));
    assert_eq!(
        batch_output_count(&[40, 97], true),
        Err(OcrError::PostprocessError(
            "Region batch inference output shape error: [40, 97]".to_string()
        ))
    );
    assert_eq!(
        batch_output_count(&[1, 2, 3, 4], false),
        Err(OcrError::PostprocessError(
            "Batch inference output shape error: [1, 2, 3, 4]".to_string()
        ))
    );
}

#[test]
fn region_tensors_need_a_positive_height() {
    assert_eq!(check_region_target_height(48), Ok(()));
    assert_eq!(
        check_region_target_height(0),
        Err(OcrError::InvalidParameter(
            "Recognition target height must be greater than 0".to_string()
        ))
    );
}

#[test]
fn region_batches_use_at_least_one_region() {
    assert_eq!(region_batch_ranges(3, 0), vec![(0, 1), (1, 2), (2, 3)]);
    assert_eq!(region_batch_ranges(5, 8), vec![(0, 5)]);
}

#[test]
fn batches_are_used_for_more_than_two_images() {
    assert!(!uses_batched_recognition(2, true));
    assert!(uses_batched_recognition(3, true));
    assert!(!uses_batched_recognition(10, false));
}

#[test]
fn batch_ranges_split_into_full_chunks_and_a_rest() {
    assert_eq!(batch_ranges(7, 3), vec![(0, 3), (3, 6), (6, 7)]);
    assert_eq!(batch_ranges(6, 3), vec![(0, 3), (3, 6)]);
    assert!(batch_ranges(0, 8).is_empty());
}

#[test]
fn rect_sampling_corners_stay_inside_image_and_box() {
    assert_eq!(rect_source_corners(-3, 2, 20, 10, 15, 100), Some((0, 2, 14, 11)));
    assert_eq!(rect_source_corners(10, 10, 1, 10, 100, 100), None);
    assert_eq!(rect_source_corners(50, 0, 10, 10, 40, 40), None);
}

// ============== Inference configuration ==============

#[test]
fn test_config_default() {
    let config = InferenceConfig::default();
    assert_eq!(config.thread_count, 4);
    assert_eq!(config.precision_mode, PrecisionMode::Normal);
}

#[test]
fn test_config_builder() {
    let config = InferenceConfig::new()
        .with_threads(8)
        .with_precision(PrecisionMode::High)
        .with_backend(Backend::Metal);

    assert_eq!(config.thread_count, 8);
    assert_eq!(config.precision_mode, PrecisionMode::High);
    assert_eq!(config.backend, Backend::Metal);
}

#[test]
fn default_config_is_four_cpu_threads_without_cache() {
    let config = resolve_config(None);
    assert_eq!(config.thread_count, 4);
    assert_eq!(config.backend, Backend::CPU);
    assert!(!config.use_cache);
    assert_eq!(config.data_format, DataFormat::NCHW);
    let custom = resolve_config(Some(InferenceConfig::new().with_data_format(DataFormat::NHWC)));
    assert_eq!(custom.data_format, DataFormat::NHWC);
}

#[test]
fn native_config_carries_the_native_codes() {
    let native = InferenceConfig::new()
        .with_threads(2)
        .with_precision(PrecisionMode::Low)
        .with_backend(Backend::Vulkan)
        .with_data_format(DataFormat::NHWC)
        .to_ffi();
    assert_eq!(native.thread_count, 2);
    assert_eq!(native.precision_mode, PrecisionMode::Low.code());
    assert_eq!(native.data_format, DataFormat::NHWC.code());
    assert_eq!(native.forward_type, 7);
    assert!(!native.use_cache);
}

#[test]
fn backends_have_stable_names_and_forward_types() {
    let expected = [
        (Backend::CPU, "cpu", 0),
        (Backend::Metal, "metal", 1),
        (Backend::CUDA, "cuda", 2),
        (Backend::OpenCL, "opencl", 3),
        (Backend::CoreML, "coreml", 5),
        (Backend::OpenGL, "opengl", 6),
        (Backend::Vulkan, "vulkan", 7),
    ];
    for (backend, name, forward) in expected {
        assert_eq!(backend.as_str(), name);
        assert_eq!(backend.to_forward_type(), forward);
    }
}

#[test]
fn backend_unavailable_error_names_the_requested_backend() {
    for backend in [
        Backend::CUDA,
        Backend::Vulkan,
        Backend::OpenCL,
        Backend::OpenGL,
        Backend::CoreML,
        Backend::Metal,
    ] {
        let error = backend.ensure_available(false).unwrap_err();
        assert_eq!(
            error.message(),
            format!("Backend unavailable: {}", backend.as_str())
        );
    }
    assert_eq!(Backend::CPU.ensure_available(true), Ok(()));
}

// ============== Inference errors and shapes ==============

#[test]
fn error_messages_match_their_kind() {
    assert_eq!(
        MnnError::InvalidParameter("x".into()).message(),
        "Invalid parameter: x"
    );
    assert_eq!(MnnError::OutOfMemory.message(), "Out of memory");
    assert_eq!(MnnError::RuntimeError("boom".into()).message(), "Runtime error: boom");
    assert_eq!(MnnError::Unsupported.message(), "Unsupported operation");
    assert_eq!(
        MnnError::ModelLoadFailed("bad".into()).message(),
        "Model loading failed: bad"
    );
    assert_eq!(MnnError::NullPointer.message(), "Null pointer");
    assert_eq!(
        MnnError::ShapeMismatch {
            expected: vec![1, 3, 48, 320],
            got: vec![]
        }
        .message(),
        "Shape mismatch: expected [1, 3, 48, 320], got []"
    );
}

#[test]
fn empty_model_buffer_is_rejected() {
    assert_eq!(
        check_model_buffer(0),
        Err(MnnError::InvalidParameter("Model data is empty".into()))
    );
    assert_eq!(check_model_buffer(1), Ok(()));
}

#[test]
fn native_statuses_map_to_errors() {
    assert_eq!(inference_status(NativeStatus::Success, String::new()), Ok(()));
    assert_eq!(
        inference_status(NativeStatus::InvalidParameter, "p".into()),
        Err(MnnError::InvalidParameter("p".into()))
    );
    assert_eq!(
        inference_status(NativeStatus::OutOfMemory, "m".into()),
        Err(MnnError::OutOfMemory)
    );
    assert_eq!(
        inference_status(NativeStatus::Unsupported, "u".into()),
        Err(MnnError::Unsupported)
    );
    assert_eq!(
        inference_status(NativeStatus::Other, "o".into()),
        Err(MnnError::RuntimeError("o".into()))
    );
    assert_eq!(
        raw_inference_status(NativeStatus::Unsupported, "u".into()),
        Err(MnnError::RuntimeError("u".into()))
    );
}

#[test]
fn element_count_detects_overflow() {
    assert_eq!(element_count(&[1, 3, 48, 320]), Some(46080));
    assert_eq!(element_count(&[]), Some(1));
    assert_eq!(element_count(&[usize::MAX, 2]), None);
}

#[test]
fn native_shapes_keep_the_reported_rank() {
    assert_eq!(shape_from_native(vec![1, 3, 48, 320, 0, 0, 0, 0], 4), vec![1, 3, 48, 320]);
    assert_eq!(native_shape(true, vec![1, 3, 0, 0], 2, true), Ok(vec![1, 3]));
    assert!(native_shape(false, vec![1, 3, 0, 0], 2, true).is_err());
}

#[test]
fn engine_checks_input_shapes() {
    let engine = InferenceEngine::from_shapes(vec![1, 3, 48, 320], vec![1, 40, 97]);
    assert_eq!(engine.input_shape(), &[1, 3, 48, 320]);
    assert_eq!(engine.output_shape(), &[1, 40, 97]);
    assert!(!engine.has_dynamic_shape());
    assert_eq!(engine.check_input_shape(&[1, 3, 48, 320]), Ok(()));
    assert_eq!(
        engine.check_input_shape(&[1, 3, 48, 100]),
        Err(MnnError::ShapeMismatch {
            expected: vec![1, 3, 48, 320],
            got: vec![1, 3, 48, 100]
        })
    );
    let dynamic = InferenceEngine::from_shapes(vec![1, 3, usize::MAX, usize::MAX], vec![1, 40, 97]);
    assert!(dynamic.has_dynamic_shape());
    let zero = InferenceEngine::from_shapes(vec![1, 3, 0, 0], vec![1, 40, 97]);
    assert!(!zero.has_dynamic_shape());
}

#[test]
fn session_pool_rejects_an_empty_pool() {
    assert_eq!(
        SessionPool::check_pool_size(0),
        Err(MnnError::InvalidParameter("Pool size cannot be 0".into()))
    );
    assert_eq!(SessionPool::check_pool_size(2), Ok(()));
    let engine = InferenceEngine::from_shapes(vec![1, 3, 48, 320], vec![1, 40, 97]);
    let pool = SessionPool::for_engine(&engine);
    assert_eq!(pool.output_shape(), &[1, 40, 97]);
    assert_eq!(
        SessionPool::run_status(NativeStatus::Other),
        Err(MnnError::RuntimeError("Session pool inference failed".into()))
    );
}

// ============== Pipeline decisions ==============

#[test]
fn parallel_strategy_uses_exact_width_only_for_multi_line_pages() {
    assert_eq!(
        select_region_recognition_strategy(true, 5),
        RegionRecognitionStrategy::ExactWidthParallel
    );
    assert_eq!(
        select_region_recognition_strategy(true, 4),
        RegionRecognitionStrategy::Batch
    );
    assert_eq!(
        select_region_recognition_strategy(false, 12),
        RegionRecognitionStrategy::Batch
    );
    assert_eq!(PARALLEL_RECOGNITION_MIN_REGIONS, 5);
}

#[test]
fn rotated_text_is_disabled_by_default() {
    assert_eq!(RotatedTextMode::default(), RotatedTextMode::Disabled);
}

#[test]
fn vertical_variants_turn_corners_both_ways() {
    let corners = [(10, 20), (30, 20), (30, 100), (10, 100)];
    let variants = vertical_recognition_variants(corners);
    assert_eq!(variants[0], [(10, 100), (10, 20), (30, 20), (30, 100)]);
    assert_eq!(variants[1], [(30, 20), (30, 100), (10, 100), (10, 20)]);
}

#[test]
fn results_are_sorted_top_to_bottom_then_left_to_right() {
    let keys = [(20, 5), (10, 50), (20, 1), (10, 50), (0, 99)];
    assert_eq!(reading_order(&keys), vec![4, 1, 3, 2, 0]);
    assert!(reading_order(&[]).is_empty());
}

#[test]
fn orientation_correction_undoes_quarter_turns() {
    assert_eq!(orientation_correction(90), Some(ImageTurn::Clockwise270));
    assert_eq!(orientation_correction(-90), Some(ImageTurn::Clockwise90));
    assert_eq!(orientation_correction(540), Some(ImageTurn::Clockwise180));
    assert_eq!(orientation_correction(270), Some(ImageTurn::Clockwise90));
    assert_eq!(orientation_correction(45), None);
    assert_eq!(orientation_correction(0), None);
    assert!(is_upright(720));
    assert!(is_upright(-360));
    assert!(!is_upright(90));
}

#[test]
fn turning_an_image_swaps_its_sides_for_quarter_turns() {
    let img = DynamicImage::new_luma8(40, 10);
    assert_eq!(turn_image(&img, ImageTurn::Clockwise90).dimensions(), (10, 40));
    assert_eq!(turn_image(&img, ImageTurn::Clockwise180).dimensions(), (40, 10));
    assert_eq!(turn_image(&img, ImageTurn::Clockwise270).dimensions(), (10, 40));
}

#[test]
fn rotate_by_angle_corrects_reported_rotations() {
    let img = DynamicImage::new_luma8(40, 10);
    let turned = rotate_by_angle(&img, 90);
    assert_eq!(turned.dimensions(), (10, 40));
    assert!(matches!(turned, DynamicImage::ImageRgb8(_)));
    let half = rotate_by_angle(&img, -180);
    assert_eq!(half.dimensions(), (40, 10));
    let same = rotate_by_angle(&img, 30);
    assert_eq!(same.dimensions(), (40, 10));
    assert!(matches!(same, DynamicImage::ImageLuma8(_)));
}

#[test]
fn engine_creation_refuses_an_unregistered_backend() {
    let config = InferenceConfig::new().with_backend(Backend::Vulkan);
    assert_eq!(
        plan_engine_load(10, Some(config.clone()), false),
        Err(MnnError::BackendUnavailable("vulkan".into()))
    );
    let native = plan_engine_load(10, Some(config.clone()), true).unwrap();
    assert_eq!(native.forward_type, 7);
    assert_eq!(
        plan_engine_load(0, Some(config), false),
        Err(MnnError::InvalidParameter("Model data is empty".into()))
    );
    let default_native = plan_engine_load(1, None, true).unwrap();
    assert_eq!(default_native.thread_count, 4);
    assert_eq!(default_native.forward_type, 0);
}

#[test]
fn session_pool_creation_checks_size_then_backend() {
    assert_eq!(
        plan_session_pool(0, None, false),
        Err(MnnError::InvalidParameter("Pool size cannot be 0".into()))
    );
    assert_eq!(
        plan_session_pool(2, Some(InferenceConfig::new().with_backend(Backend::CUDA)), false),
        Err(MnnError::BackendUnavailable("cuda".into()))
    );
    assert_eq!(
        native_config_for(&InferenceConfig::new(), true),
        Ok(InferenceConfig::new().to_ffi())
    );
}

#[test]
fn failed_native_creation_is_reported_per_object() {
    assert_eq!(creation_status(NativeObject::Engine, true), Ok(()));
    assert_eq!(
        creation_status(NativeObject::Engine, false),
        Err(MnnError::ModelLoadFailed("Engine creation failed".into()))
    );
    assert_eq!(
        creation_status(NativeObject::SharedRuntime, false),
        Err(MnnError::RuntimeError("Create shared runtime failed".into()))
    );
    assert_eq!(
        creation_status(NativeObject::SessionPool, false),
        Err(MnnError::RuntimeError("Create session pool failed".into()))
    );
}

#[test]
fn engine_models_use_the_engine_backend_threads_and_precision() {
    let config = engine_inference_config(Backend::OpenCL, 2, PrecisionMode::Low);
    assert_eq!(config.backend, Backend::OpenCL);
    assert_eq!(config.thread_count, 2);
    assert_eq!(config.precision_mode, PrecisionMode::Low);
    assert!(!config.use_cache);
    assert_eq!(config.data_format, DataFormat::NCHW);
}

#[test]
fn engine_builder_reports_the_first_missing_path() {
    assert_eq!(
        required_model_paths(None, Some("r"), None),
        Err(OcrError::InvalidParameter("Missing det_model_path".to_string()))
    );
    assert_eq!(
        required_model_paths(Some("d"), None, None),
        Err(OcrError::InvalidParameter("Missing rec_model_path".to_string()))
    );
    assert_eq!(
        required_model_paths(Some("d"), Some("r"), None),
        Err(OcrError::InvalidParameter("Missing charset_path".to_string()))
    );
    assert_eq!(
        required_model_paths(Some("d"), Some("r"), Some("c")),
        Ok(("d", "r", "c"))
    );
}

#[test]
fn turned_and_cropped_images_move_their_pixels() {
    let mut gray = image::GrayImage::new(4, 2);
    gray.put_pixel(0, 0, image::Luma([200]));
    let img = DynamicImage::ImageLuma8(gray);

    let quarter = turn_image(&img, ImageTurn::Clockwise90);
    assert_eq!(quarter.get_pixel(1, 0).0[0], 200);
    let half = turn_image(&img, ImageTurn::Clockwise180);
    assert_eq!(half.get_pixel(3, 1).0[0], 200);
    let three_quarters = turn_image(&img, ImageTurn::Clockwise270);
    assert_eq!(three_quarters.get_pixel(0, 3).0[0], 200);

    let corner = crop_image(&img, 0, 0, 1, 1);
    assert_eq!(corner.get_pixel(0, 0).0[0], 200);
    let elsewhere = crop_image(&img, 1, 0, 1, 1);
    assert_eq!(elsewhere.get_pixel(0, 0).0[0], 0);
}

#[test]
fn correcting_a_turned_page_restores_its_size() {
    let page = DynamicImage::new_rgb8(60, 20);
    for (turn, angle) in [
        (ImageTurn::Clockwise90, 90),
        (ImageTurn::Clockwise180, 180),
        (ImageTurn::Clockwise270, 270),
    ] {
        let turned = turn_image(&page, turn);
        let corrected = rotate_by_angle(&turned, angle);
        assert_eq!(corrected.dimensions(), (60, 20));
    }
}

#[test]
fn vertical_variants_undo_each_other() {
    let corners = [(1, 2), (3, 4), (5, 6), (7, 8)];
    let variants = vertical_recognition_variants(corners);
    assert_eq!(vertical_recognition_variants(variants[0])[1], corners);
    assert_eq!(vertical_recognition_variants(variants[1])[0], corners);
}

#[test]
fn shared_runtime_keeps_the_requested_backend() {
    let config = InferenceConfig::new().with_backend(Backend::Metal).with_threads(2);
    let runtime = SharedRuntime::new(&config, true).unwrap();
    assert_eq!(runtime.native_config(), config.to_ffi());
    assert_eq!(runtime.native_config().forward_type, 1);
    assert!(matches!(
        SharedRuntime::new(&config, false),
        Err(MnnError::BackendUnavailable(name)) if name == "metal"
    ));
}

#[test]
fn checked_split_refuses_an_overlap_of_a_whole_block() {
    let img = DynamicImage::new_rgb8(300, 120);
    assert!(try_split_into_blocks(&img, 100, 100).is_none());
    assert!(try_split_into_blocks(&img, 100, 150).is_none());
    let blocks = try_split_into_blocks(&img, 100, 20).unwrap();
    let got: Vec<(u32, u32, u32, u32)> = blocks
        .iter()
        .map(|(b, x, y)| (*x, *y, b.width(), b.height()))
        .collect();
    assert_eq!(got, block_positions(300, 120, 100, 20));
}

#[test]
fn recognition_plan_batches_only_longer_lists() {
    assert!(recognition_plan(0, true, 8).is_empty());
    assert_eq!(
        recognition_plan(2, true, 8),
        vec![RecognitionStep::Single(0), RecognitionStep::Single(1)]
    );
    assert_eq!(
        recognition_plan(3, false, 0),
        vec![
            RecognitionStep::Single(0),
            RecognitionStep::Single(1),
            RecognitionStep::Single(2)
        ]
    );
    assert_eq!(
        recognition_plan(7, true, 3),
        vec![
            RecognitionStep::Batch(0, 3),
            RecognitionStep::Batch(3, 6),
            RecognitionStep::Single(6)
        ]
    );
    assert_eq!(recognition_plan(5, true, 8), vec![RecognitionStep::Batch(0, 5)]);
}

#[test]
fn text_regions_prefer_the_rotated_crop() {
    let page = DynamicImage::new_rgb8(50, 40);
    let rotated = DynamicImage::new_luma8(7, 3);
    let chosen = crop_text_region(&page, Some(rotated), 0, 0, 10, 10);
    assert!(matches!(chosen, DynamicImage::ImageLuma8(_)));
    assert_eq!(chosen.dimensions(), (7, 3));
    let fallback = crop_text_region(&page, None, 45, 30, 10, 20);
    assert_eq!(fallback.dimensions(), (5, 10));
}

#[test]
fn detection_output_is_read_as_a_map() {
    assert_eq!(det_output_size(&[1, 1, 64, 128]), (128, 64));
    assert_eq!(check_det_output_rank(&[1, 64, 128]), Ok(()));
    assert_eq!(
        check_det_output_rank(&[64, 128]),
        Err(OcrError::PostprocessError(
            "Detection model output shape invalid".to_string()
        ))
    );
}

#[test]
fn test_rgb_to_image() {
    let data = vec![128u8; 300];
    let img = rgb_to_image(&data, 10, 10);

    assert_eq!(img.width(), 10);
    assert_eq!(img.height(), 10);
}

#[test]
fn rgb_to_image_reads_pixels_or_falls_back_to_black() {
    let data = [1u8, 2, 3, 4, 5, 6];
    let img = rgb_to_image(&data, 2, 1);
    assert!(matches!(img, DynamicImage::ImageRgb8(_)));
    assert_eq!(img.to_rgb8().as_raw(), &vec![1, 2, 3, 4, 5, 6]);
    let short = rgb_to_image(&data, 3, 1);
    assert_eq!(short.dimensions(), (3, 1));
    assert_eq!(short.to_rgb8().as_raw(), &vec![0u8; 9]);
}

#[test]
fn test_create_gray_image() {
    let data = vec![128u8; 100];
    let gray = gray_image_from_bytes(&data, 10, 10).into_luma8();

    assert_eq!(gray.width(), 10);
    assert_eq!(gray.height(), 10);
}

#[test]
fn gray_image_reads_pixels_or_falls_back_to_black() {
    let gray = gray_image_from_bytes(&[7, 8, 9], 3, 1);
    assert!(matches!(gray, DynamicImage::ImageLuma8(_)));
    assert_eq!(gray.into_luma8().as_raw(), &vec![7, 8, 9]);
    let short = gray_image_from_bytes(&[7, 8], 3, 1).into_luma8();
    assert_eq!(short.as_raw(), &vec![0, 0, 0]);
}

#[test]
fn test_to_rgb() {
    let img = DynamicImage::new_rgb8(100, 50);
    let rgb = rgb8_image(&img).into_rgb8();

    assert_eq!(rgb.width(), 100);
    assert_eq!(rgb.height(), 50);
}

#[test]
fn converting_to_rgb_keeps_the_pixels() {
    let gray = gray_image_from_bytes(&[10, 20], 2, 1);
    let rgb = rgb8_image(&gray);
    assert!(matches!(rgb, DynamicImage::ImageRgb8(_)));
    assert_eq!(rgb.to_rgb8().as_raw(), &vec![10, 10, 10, 20, 20, 20]);
}

#[test]
fn resizing_to_the_same_size_keeps_the_pixels() {
    let img = rgb_to_image(&[1, 2, 3, 4, 5, 6, 7, 8, 9, 10, 11, 12], 2, 2);
    let same = fast_resize(&img, 2, 2).unwrap();
    assert_eq!(same.to_rgb8().as_raw(), img.to_rgb8().as_raw());
    let empty = fast_resize(&img, 0, 0).unwrap();
    assert_eq!(empty.dimensions(), (0, 0));
}

#[test]
fn non_contiguous_input_is_refused() {
    assert_eq!(check_contiguous(true), Ok(()));
    assert_eq!(
        check_contiguous(false),
        Err(MnnError::InvalidParameter("Input data must be contiguous".into()))
    );
}

#[test]
fn dynamic_output_shape_keeps_the_written_dimensions() {
    assert_eq!(dynamic_output_shape(&[1, 40, 97, 0, 0, 0, 0, 0], 3), vec![1, 40, 97]);
    assert!(dynamic_output_shape(&[5, 6], 0).is_empty());
}

#[test]
fn rotate_by_angle_turns_back_the_right_way() {
    // a page whose top-left pixel is marked, reported as turned by 90 degrees,
    // is turned three quarters clockwise
    let page = gray_image_from_bytes(&[200, 0, 0, 0, 0, 0], 3, 2);
    let corrected = rotate_by_angle(&page, 90);
    assert_eq!(corrected.dimensions(), (2, 3));
    assert_eq!(corrected.get_pixel(0, 2).0[0], 200);
    let back = rotate_by_angle(&page, 270);
    assert_eq!(back.get_pixel(1, 0).0[0], 200);
}
