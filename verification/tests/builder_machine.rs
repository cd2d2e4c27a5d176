//! The vector image builder: decoding, validation, channel reordering,
//! himetric geometry, and the native action sequence on the success path
//! and on every failure path.

use chemclip::builder::{begin_build, BuildAction, BuildEvent, MetafileBuilder};
use chemclip::error::{BuildFail, DecodeError};
use chemclip::himetric_of_pixels;
use chemclip::raster::{bgra_from_rgba, RasterImage};

/// A PNG of the given size with every pixel the same RGBA colour.
fn solid_png(width: u32, height: u32, rgba: [u8; 4]) -> Vec<u8> {
    let mut pixels: Vec<u8> = Vec::new();
    for _ in 0..(width * height) {
        pixels.extend_from_slice(&rgba);
    }
    let img = image::RgbaImage::from_raw(width, height, pixels).unwrap();
    let mut bytes: Vec<u8> = Vec::new();
    img.write_to(&mut std::io::Cursor::new(&mut bytes), image::ImageFormat::Png)
        .unwrap();
    bytes
}

#[test]
fn himetric_conversion_exact_values() {
    // 2 px at 96 dpi is 2 * 26.458... hundredths of a millimetre, rounded.
    assert_eq!(himetric_of_pixels(2), 53);
    assert_eq!(himetric_of_pixels(96), 2540);
    assert_eq!(himetric_of_pixels(1), 26);
    assert_eq!(himetric_of_pixels(0), 0);
}

#[test]
fn bgra_reorders_channels_and_keeps_alpha() {
    let rgba = vec![1u8, 2, 3, 4, 255, 0, 0, 255];
    let bgra = bgra_from_rgba(&rgba);
    assert_eq!(bgra, vec![3u8, 2, 1, 4, 0, 0, 255, 255]);
}

#[test]
fn malformed_bytes_fail_with_the_decoder_message() {
    let r = begin_build(b"not an image at all");
    match r {
        Err(DecodeError::Malformed(m)) => assert!(!m.is_empty()),
        _ => panic!("expected a malformed-image failure"),
    }
}

#[test]
fn zero_area_image_is_rejected_before_any_native_resource() {
    let img = RasterImage { width: 0, height: 7, pixels: Vec::new() };
    match MetafileBuilder::new(img) {
        Err(e) => assert_eq!(e.message(), "Empty image"),
        Ok(_) => panic!("a zero-width image must be rejected"),
    }
    let img = RasterImage { width: 7, height: 0, pixels: Vec::new() };
    assert!(matches!(MetafileBuilder::new(img), Err(DecodeError::EmptyImage)));
}

#[test]
fn red_two_by_two_round_trip_records_the_expected_rectangles() {
    let png = solid_png(2, 2, [255, 0, 0, 255]);
    let (mut b, first) = begin_build(&png).unwrap();
    assert!(matches!(first, BuildAction::AcquireScreenDc));
    assert_eq!(b.width_px, 2);
    assert_eq!(b.height_px, 2);
    assert_eq!(b.target_width, 53);
    assert_eq!(b.target_height, 53);

    let a = b.step(BuildEvent::ScreenDc { ok: true });
    match a {
        BuildAction::CreateSurface { width_px, height_px, header_height, bits_per_pixel, bgra } => {
            assert_eq!(width_px, 2);
            assert_eq!(height_px, 2);
            assert_eq!(header_height, -2);
            assert_eq!(bits_per_pixel, 32);
            // red RGBA becomes BGRA: blue, green, red, alpha
            assert_eq!(bgra, vec![0u8, 0, 255, 255, 0, 0, 255, 255, 0, 0, 255, 255, 0, 0, 255, 255]);
        }
        _ => panic!("expected the surface creation action"),
    }

    let a = b.step(BuildEvent::Surface { created: true, bits_valid: true });
    assert!(matches!(a, BuildAction::CreateMemDc));

    let a = b.step(BuildEvent::MemDc { ok: true });
    match a {
        BuildAction::OpenRecorder { left, top, right, bottom, halftone } => {
            assert_eq!((left, top, right, bottom), (0, 0, 53, 53));
            assert!(halftone);
        }
        _ => panic!("expected the recorder to open"),
    }

    let a = b.step(BuildEvent::Recorder { ok: true });
    match a {
        BuildAction::RecordBlit { dest_width, dest_height, src_width, src_height } => {
            assert_eq!((dest_width, dest_height), (53, 53));
            assert_eq!((src_width, src_height), (2, 2));
        }
        _ => panic!("expected the stretch-blit to be recorded"),
    }

    let a = b.step(BuildEvent::BlitRecorded);
    assert!(matches!(a, BuildAction::CloseRecorder));

    let a = b.step(BuildEvent::RecorderClosed { handle: 42 });
    match a {
        BuildAction::ReleaseResources { delete_surface, delete_mem_dc, release_screen_dc } => {
            assert!(delete_surface && delete_mem_dc && release_screen_dc);
        }
        _ => panic!("expected every resource to be released"),
    }

    let a = b.step(BuildEvent::Released);
    match a {
        BuildAction::Finish { result } => {
            let mf = result.unwrap();
            assert_eq!(mf.handle, 42);
            assert_eq!(mf.width_px, 2);
            assert_eq!(mf.height_px, 2);
            assert_eq!(mf.target_width, 53);
            assert_eq!(mf.target_height, 53);
        }
        _ => panic!("expected the conversion to finish"),
    }
}

#[test]
fn screen_dc_failure_finishes_at_once_with_nothing_to_release() {
    let png = solid_png(1, 1, [9, 9, 9, 9]);
    let (mut b, _) = begin_build(&png).unwrap();
    let a = b.step(BuildEvent::ScreenDc { ok: false });
    match a {
        BuildAction::Finish { result } => {
            assert_eq!(result.unwrap_err().message(), "GetDC failed");
        }
        _ => panic!("expected an immediate finish"),
    }
}

#[test]
fn surface_failure_releases_only_the_screen_dc() {
    let png = solid_png(1, 1, [0, 0, 0, 0]);
    let (mut b, _) = begin_build(&png).unwrap();
    let _ = b.step(BuildEvent::ScreenDc { ok: true });
    let a = b.step(BuildEvent::Surface { created: false, bits_valid: false });
    match a {
        BuildAction::ReleaseResources { delete_surface, delete_mem_dc, release_screen_dc } => {
            assert!(!delete_surface && !delete_mem_dc && release_screen_dc);
        }
        _ => panic!("expected a release action"),
    }
    let a = b.step(BuildEvent::Released);
    match a {
        BuildAction::Finish { result } => {
            assert_eq!(result.unwrap_err(), BuildFail::Surface);
        }
        _ => panic!("expected the conversion to finish"),
    }
}

#[test]
fn null_pixel_pointer_releases_the_surface_and_the_screen_dc() {
    let png = solid_png(1, 1, [0, 0, 0, 0]);
    let (mut b, _) = begin_build(&png).unwrap();
    let _ = b.step(BuildEvent::ScreenDc { ok: true });
    let a = b.step(BuildEvent::Surface { created: true, bits_valid: false });
    match a {
        BuildAction::ReleaseResources { delete_surface, delete_mem_dc, release_screen_dc } => {
            assert!(delete_surface && !delete_mem_dc && release_screen_dc);
        }
        _ => panic!("expected a release action"),
    }
    let a = b.step(BuildEvent::Released);
    match a {
        BuildAction::Finish { result } => {
            assert_eq!(result.unwrap_err().message(), "CreateDIBSection null bits");
        }
        _ => panic!("expected the conversion to finish"),
    }
}

#[test]
fn recorder_failure_releases_every_acquired_resource() {
    let png = solid_png(3, 5, [1, 2, 3, 4]);
    let (mut b, _) = begin_build(&png).unwrap();
    let _ = b.step(BuildEvent::ScreenDc { ok: true });
    let _ = b.step(BuildEvent::Surface { created: true, bits_valid: true });
    let _ = b.step(BuildEvent::MemDc { ok: true });
    let a = b.step(BuildEvent::Recorder { ok: false });
    match a {
        BuildAction::ReleaseResources { delete_surface, delete_mem_dc, release_screen_dc } => {
            assert!(delete_surface && delete_mem_dc && release_screen_dc);
        }
        _ => panic!("expected a release action"),
    }
    let a = b.step(BuildEvent::Released);
    match a {
        BuildAction::Finish { result } => {
            assert_eq!(result.unwrap_err().message(), "CreateEnhMetaFile failed");
        }
        _ => panic!("expected the conversion to finish"),
    }
}

#[test]
fn invalid_close_handle_still_releases_and_reports_the_close_failure() {
    let png = solid_png(1, 2, [7, 7, 7, 7]);
    let (mut b, _) = begin_build(&png).unwrap();
    let _ = b.step(BuildEvent::ScreenDc { ok: true });
    let _ = b.step(BuildEvent::Surface { created: true, bits_valid: true });
    let _ = b.step(BuildEvent::MemDc { ok: true });
    let _ = b.step(BuildEvent::Recorder { ok: true });
    let _ = b.step(BuildEvent::BlitRecorded);
    let a = b.step(BuildEvent::RecorderClosed { handle: 0 });
    assert!(matches!(a, BuildAction::ReleaseResources { .. }));
    let a = b.step(BuildEvent::Released);
    match a {
        BuildAction::Finish { result } => {
            assert_eq!(result.unwrap_err().message(), "CloseEnhMetaFile failed");
        }
        _ => panic!("expected the conversion to finish"),
    }
}

#[test]
fn non_square_image_gets_each_axis_rounded_separately() {
    let png = solid_png(96, 2, [5, 6, 7, 8]);
    let (b, _) = begin_build(&png).unwrap();
    assert_eq!(b.target_width, 2540);
    assert_eq!(b.target_height, 53);
}

#[test]
fn builder_expects_only_the_event_its_stage_awaits() {
    let png = solid_png(1, 1, [0, 0, 0, 255]);
    let (b, _) = begin_build(&png).unwrap();
    assert!(b.expects_event(&BuildEvent::ScreenDc { ok: true }));
    assert!(!b.expects_event(&BuildEvent::BlitRecorded));
    assert!(!b.expects_event(&BuildEvent::Released));
}
