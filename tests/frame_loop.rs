use std::sync::mpsc::channel;

use lkgpt::asset::{
    attribute_or_default, check_image_uri, check_scene_path, decode_texture, pad_buffer,
    primitive_material_index, texture_from_decoding, AssetError,
};
use lkgpt::device::{select_processing_device, DeviceCandidate, DeviceType};
use lkgpt::frame::readback_image;
use lkgpt::pacing::{sleep_nanos, target_frame_nanos, SLEEP_GRANULARITY_NANOS};
use lkgpt::render_loop::{
    get_user_input, input_from_poll, is_exit_cmd, InputPoll, RenderLoop, TickAction,
};
use lkgpt::response::{CommonResponses, ServerMsg};
use lkgpt::scene::FrameError;
use lkgpt::text::{ends_with_splitter, remove_prefix};

#[test]
fn readback_of_exact_size_is_accepted() {
    let frame = readback_image(vec![0u8; 4 * 6 * 4], 4, 6);
    let frame = match frame {
        Ok(f) => f,
        Err(_) => panic!("exact buffer refused"),
    };
    assert_eq!((frame.width, frame.height), (4, 6));
    assert_eq!(frame.image.buffer.dimensions(), (4, 6));
    assert_eq!(frame.image.buffer.as_raw().len(), 96);
}

#[test]
fn readback_of_wrong_size_is_rejected() {
    match readback_image(vec![0u8; 95], 4, 6) {
        Err(e) => assert_eq!(e, FrameError::ReadbackSizeMismatch { width: 4, height: 6, actual: 95 }),
        Ok(_) => panic!("short buffer accepted"),
    }
    assert!(readback_image(vec![0u8; 97], 4, 6).is_err());
}

#[test]
fn frame_interval_at_thirty_fps() {
    // 1 / 31.5 s with the margin.
    assert_eq!(target_frame_nanos(30_000), 31_746_031);
}

#[test]
fn sleep_is_rounded_down_and_never_negative() {
    let target = target_frame_nanos(30_000);
    assert_eq!(sleep_nanos(5_000_000, target), 20_000_000);
    assert_eq!(sleep_nanos(target, target), 0);
    assert_eq!(sleep_nanos(50_000_000, target), 0);
    assert_eq!(sleep_nanos(25_000_000, target), 0);
}

#[test]
fn ticks_are_never_closer_than_interval_less_granularity() {
    let target = target_frame_nanos(30_000);
    let mut elapsed = 0u64;
    while elapsed < 2 * target {
        let sleep = sleep_nanos(elapsed, target);
        assert!(elapsed + sleep + SLEEP_GRANULARITY_NANOS > target);
        if elapsed < target {
            assert!(elapsed + sleep <= target);
        }
        elapsed += 777_777;
    }
}

#[test]
fn exit_commands() {
    for w in ["exit", "quit", "q", "bye", "goodbye", "ciao", "adios"] {
        assert!(is_exit_cmd(w));
    }
    assert!(!is_exit_cmd("Exit"));
    assert!(!is_exit_cmd("qq"));
    assert!(!is_exit_cmd(""));
}

#[test]
fn loop_decisions() {
    let mut lp = RenderLoop::new();
    match lp.next_action(None) {
        TickAction::Render { input, log_stats } => {
            assert!(input.is_none());
            assert!(log_stats);
        }
        TickAction::Exit => panic!("exit without command"),
    }
    lp.frame_done();
    assert_eq!(lp.num_of_frames(), 1);
    match lp.next_action(Some("spin".to_string())) {
        TickAction::Render { input, log_stats } => {
            assert_eq!(input, Some("spin".to_string()));
            assert!(!log_stats);
        }
        TickAction::Exit => panic!("exit on plain input"),
    }
    assert!(matches!(lp.next_action(Some("bye".to_string())), TickAction::Exit));
}

#[test]
fn input_channel_states() {
    let (tx, rx) = channel::<String>();
    assert!(matches!(get_user_input(&rx), Ok(None)));
    tx.send("hello".to_string()).unwrap();
    assert!(matches!(get_user_input(&rx), Ok(Some(s)) if s == "hello"));
    drop(tx);
    assert!(matches!(get_user_input(&rx), Err(FrameError::InputDisconnected)));
    assert!(matches!(input_from_poll(InputPoll::Empty), Ok(None)));
    assert!(matches!(input_from_poll(InputPoll::Disconnected), Err(FrameError::InputDisconnected)));
}

#[test]
fn splitters_and_prefixes() {
    let splitters = ['.', ',', '?', '!', ';', ':', '-', ')', ']', '}', ' '];
    assert!(ends_with_splitter(&splitters, "hello."));
    assert!(ends_with_splitter(&splitters, "hello "));
    assert!(!ends_with_splitter(&splitters, " "));
    assert!(!ends_with_splitter(&splitters, ""));
    assert!(!ends_with_splitter(&splitters, "hello"));
    assert_eq!(remove_prefix("[chat]hi there", "[chat]"), "hi there");
    assert_eq!(remove_prefix("hi there", "[chat]"), "hi there");
    assert_eq!(remove_prefix("[chat]", "[chat]"), "");
}

#[test]
fn asset_checks() {
    assert!(check_scene_path("oreo_donut/scene.gltf").is_ok());
    assert_eq!(check_scene_path("scene.glb"), Err(AssetError::WrongExtension));
    assert!(check_image_uri("a.png").is_ok());
    assert!(check_image_uri("a.jpeg").is_ok());
    assert!(check_image_uri("a.jpg").is_ok());
    assert_eq!(check_image_uri("a.webp"), Err(AssetError::UnsupportedImageFormat));
}

#[test]
fn buffers_are_padded_to_four_bytes() {
    assert_eq!(pad_buffer(vec![1, 2, 3, 4, 5], 5).unwrap(), vec![1, 2, 3, 4, 5, 0, 0, 0]);
    assert_eq!(pad_buffer(vec![1, 2, 3, 4], 3).unwrap(), vec![1, 2, 3, 4]);
    assert_eq!(pad_buffer(vec![], 0).unwrap(), Vec::<u8>::new());
    assert_eq!(
        pad_buffer(vec![1, 2], 3),
        Err(AssetError::BufferTooShort { expected: 3, got: 2 })
    );
}

#[test]
fn missing_attributes_default() {
    let normals = vec![[1.0f32, 0.0, 0.0]];
    let filled = attribute_or_default(&normals, 3, [0.0f32; 3]);
    assert_eq!(filled, vec![[1.0, 0.0, 0.0], [0.0; 3], [0.0; 3]]);
    assert_eq!(primitive_material_index(None), Ok(0));
    assert_eq!(primitive_material_index(Some(3)), Ok(3));
    assert_eq!(primitive_material_index(Some(255)), Ok(255));
    assert_eq!(
        primitive_material_index(Some(258)),
        Err(AssetError::UnsupportedMaterialIndex { index: 258 })
    );
}

fn candidate(ty: DeviceType, families: Vec<bool>) -> DeviceCandidate {
    DeviceCandidate {
        api_major: 1,
        api_minor: 3,
        khr_dynamic_rendering: false,
        has_required_extensions: true,
        has_required_features: true,
        graphics_queue_families: families,
        device_type: ty,
    }
}

#[test]
fn device_selection_prefers_discrete_then_first() {
    let mut old = candidate(DeviceType::DiscreteGpu, vec![true]);
    old.api_minor = 2;
    let devices = vec![
        candidate(DeviceType::Cpu, vec![true]),
        old,
        candidate(DeviceType::IntegratedGpu, vec![false, true]),
        candidate(DeviceType::IntegratedGpu, vec![true]),
        candidate(DeviceType::DiscreteGpu, vec![false, false]),
    ];
    assert_eq!(select_processing_device(&devices), Some((2, 1)));
    let mut ext = candidate(DeviceType::DiscreteGpu, vec![true, true]);
    ext.api_minor = 0;
    ext.khr_dynamic_rendering = true;
    assert_eq!(select_processing_device(&vec![ext]), Some((0, 0)));
    assert_eq!(select_processing_device(&vec![]), None);
}

#[test]
fn server_messages() {
    let m = CommonResponses::MethodNotAllowed.json();
    assert_eq!(m.data, None);
    assert_eq!(m.error, Some("Method not allowed".to_string()));
    let d = ServerMsg::data(5u8);
    assert_eq!(d.data, Some(5));
    assert_eq!(d.error, None);
}

fn tiny_png() -> Vec<u8> {
    let img = image::RgbaImage::from_raw(2, 1, vec![1, 2, 3, 4, 5, 6, 7, 8]).unwrap();
    let mut bytes = Vec::new();
    image::DynamicImage::ImageRgba8(img)
        .write_to(&mut std::io::Cursor::new(&mut bytes), image::ImageOutputFormat::Png)
        .unwrap();
    bytes
}

#[test]
fn png_texture_decodes_to_rgba() {
    let bytes = tiny_png();
    let t = match decode_texture("tex.png", &bytes) {
        Ok(t) => t,
        Err(e) => panic!("decode failed: {e:?}"),
    };
    assert_eq!((t.width, t.height), (2, 1));
    assert_eq!(t.pixels, vec![1, 2, 3, 4, 5, 6, 7, 8]);
}

#[test]
fn texture_decoding_errors() {
    assert!(matches!(decode_texture("tex.png", &vec![1, 2, 3]), Err(AssetError::UndecodableImage)));
    assert!(matches!(
        decode_texture("tex.bmp", &tiny_png()),
        Err(AssetError::UnsupportedImageFormat)
    ));
    assert!(matches!(texture_from_decoding(None), Err(AssetError::UndecodableImage)));
    let t = texture_from_decoding(Some((1, 1, vec![9, 9, 9, 9]))).unwrap();
    assert_eq!((t.width, t.height, t.pixels), (1, 1, vec![9, 9, 9, 9]));
}
