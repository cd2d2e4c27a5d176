//! The multi-format publish transaction: the mandatory image format, the
//! optional text and structure-exchange formats, the recovery path when the
//! clipboard is busy, and the non-fatal omission of optional formats.

use chemclip::builder::VectorMetafile;
use chemclip::error::PublishFail;
use chemclip::publisher::{ClipFormat, ClipboardPublisher, PubAction, PubEvent};

fn metafile(handle: usize) -> VectorMetafile {
    VectorMetafile { handle, width_px: 2, height_px: 2, target_width: 53, target_height: 53 }
}

#[test]
fn full_transaction_publishes_image_text_and_binary_in_order() {
    let (mut p, first) = ClipboardPublisher::new(metafile(11), "AB", Some(&[1, 2, 3]));
    assert!(matches!(first, PubAction::OpenClipboard));

    let a = p.step(PubEvent::Opened { ok: true });
    assert!(matches!(a, PubAction::EmptyClipboard));

    let a = p.step(PubEvent::Emptied);
    assert!(matches!(a, PubAction::SetImageData { handle: 11 }));

    // "AB" as UTF-16 plus one null unit, two bytes each: 6 bytes.
    let a = p.step(PubEvent::ImageSet);
    assert!(matches!(a, PubAction::AllocBlock { size: 6 }));

    let a = p.step(PubEvent::Allocated { ok: true });
    match a {
        PubAction::CopyToBlock { bytes } => {
            assert_eq!(bytes, vec![0x41u8, 0, 0x42, 0, 0, 0]);
        }
        _ => panic!("expected the text bytes to be copied"),
    }

    let a = p.step(PubEvent::Copied { locked: true });
    assert!(matches!(a, PubAction::SetBlockData { format: ClipFormat::UnicodeText }));

    let a = p.step(PubEvent::BlockSet);
    match a {
        PubAction::RegisterCdxFormat { name_utf16 } => {
            assert_eq!(name_utf16, vec![0x43u16, 0x44, 0x58, 0]);
        }
        _ => panic!("expected the structure-exchange name to be registered"),
    }

    let a = p.step(PubEvent::Registered { id: 777 });
    assert!(matches!(a, PubAction::AllocBlock { size: 3 }));

    let a = p.step(PubEvent::Allocated { ok: true });
    match a {
        PubAction::CopyToBlock { bytes } => assert_eq!(bytes, vec![1u8, 2, 3]),
        _ => panic!("expected the binary bytes to be copied"),
    }

    let a = p.step(PubEvent::Copied { locked: true });
    assert!(matches!(a, PubAction::SetBlockData { format: ClipFormat::Registered { id: 777 } }));

    let a = p.step(PubEvent::BlockSet);
    assert!(matches!(a, PubAction::CloseClipboard));

    let a = p.step(PubEvent::Closed);
    match a {
        PubAction::Finish { result } => assert_eq!(result, Ok(())),
        _ => panic!("expected the transaction to finish"),
    }
}

#[test]
fn empty_text_omits_the_text_format_and_still_succeeds() {
    let (mut p, _) = ClipboardPublisher::new(metafile(5), "", None);
    let a = p.step(PubEvent::Opened { ok: true });
    assert!(matches!(a, PubAction::EmptyClipboard));
    let a = p.step(PubEvent::Emptied);
    assert!(matches!(a, PubAction::SetImageData { handle: 5 }));
    // no text and no binary: the transaction closes right after the image
    let a = p.step(PubEvent::ImageSet);
    assert!(matches!(a, PubAction::CloseClipboard));
    let a = p.step(PubEvent::Closed);
    match a {
        PubAction::Finish { result } => assert_eq!(result, Ok(())),
        _ => panic!("expected the transaction to finish"),
    }
}

#[test]
fn absent_binary_omits_the_registered_format_and_still_succeeds() {
    let (mut p, _) = ClipboardPublisher::new(metafile(5), "x", None);
    let _ = p.step(PubEvent::Opened { ok: true });
    let _ = p.step(PubEvent::Emptied);
    let a = p.step(PubEvent::ImageSet);
    assert!(matches!(a, PubAction::AllocBlock { size: 4 }));
    let _ = p.step(PubEvent::Allocated { ok: true });
    let _ = p.step(PubEvent::Copied { locked: true });
    // after the text block no registration follows: the clipboard closes
    let a = p.step(PubEvent::BlockSet);
    assert!(matches!(a, PubAction::CloseClipboard));
    let a = p.step(PubEvent::Closed);
    match a {
        PubAction::Finish { result } => assert_eq!(result, Ok(())),
        _ => panic!("expected the transaction to finish"),
    }
}

#[test]
fn empty_binary_slice_is_treated_as_absent() {
    let (mut p, _) = ClipboardPublisher::new(metafile(5), "", Some(&[]));
    let _ = p.step(PubEvent::Opened { ok: true });
    let _ = p.step(PubEvent::Emptied);
    let a = p.step(PubEvent::ImageSet);
    assert!(matches!(a, PubAction::CloseClipboard));
}

#[test]
fn busy_clipboard_destroys_the_handle_exactly_once_and_fails() {
    let (mut p, _) = ClipboardPublisher::new(metafile(99), "text", Some(&[1]));
    let a = p.step(PubEvent::Opened { ok: false });
    assert!(matches!(a, PubAction::DestroyMetafile { handle: 99 }));
    let a = p.step(PubEvent::MetafileDestroyed);
    match a {
        PubAction::Finish { result } => {
            assert_eq!(result.unwrap_err().message(), "OpenClipboard failed");
        }
        _ => panic!("expected the transaction to finish"),
    }
}

#[test]
fn text_allocation_failure_omits_the_format_without_failing() {
    let (mut p, _) = ClipboardPublisher::new(metafile(1), "hello", Some(&[1, 2]));
    let _ = p.step(PubEvent::Opened { ok: true });
    let _ = p.step(PubEvent::Emptied);
    let _ = p.step(PubEvent::ImageSet);
    // the text block cannot be allocated: straight on to the binary format
    let a = p.step(PubEvent::Allocated { ok: false });
    assert!(matches!(a, PubAction::RegisterCdxFormat { .. }));
    let a = p.step(PubEvent::Registered { id: 3 });
    assert!(matches!(a, PubAction::AllocBlock { size: 2 }));
    let _ = p.step(PubEvent::Allocated { ok: true });
    let _ = p.step(PubEvent::Copied { locked: true });
    let _ = p.step(PubEvent::BlockSet);
    let a = p.step(PubEvent::Closed);
    match a {
        PubAction::Finish { result } => assert_eq!(result, Ok(())),
        _ => panic!("expected the transaction to finish"),
    }
}

#[test]
fn text_lock_failure_omits_the_format_without_failing() {
    let (mut p, _) = ClipboardPublisher::new(metafile(1), "hi", None);
    let _ = p.step(PubEvent::Opened { ok: true });
    let _ = p.step(PubEvent::Emptied);
    let _ = p.step(PubEvent::ImageSet);
    let _ = p.step(PubEvent::Allocated { ok: true });
    let a = p.step(PubEvent::Copied { locked: false });
    assert!(matches!(a, PubAction::CloseClipboard));
    let a = p.step(PubEvent::Closed);
    match a {
        PubAction::Finish { result } => assert_eq!(result, Ok(())),
        _ => panic!("expected the transaction to finish"),
    }
}

#[test]
fn failed_registration_skips_the_binary_format_silently() {
    let (mut p, _) = ClipboardPublisher::new(metafile(1), "", Some(&[1, 2, 3]));
    let _ = p.step(PubEvent::Opened { ok: true });
    let _ = p.step(PubEvent::Emptied);
    let a = p.step(PubEvent::ImageSet);
    assert!(matches!(a, PubAction::RegisterCdxFormat { .. }));
    let a = p.step(PubEvent::Registered { id: 0 });
    assert!(matches!(a, PubAction::CloseClipboard));
    let a = p.step(PubEvent::Closed);
    match a {
        PubAction::Finish { result } => assert_eq!(result, Ok(())),
        _ => panic!("expected the transaction to finish"),
    }
}

#[test]
fn surrogate_pair_text_is_encoded_as_utf16_little_endian() {
    // one emoji: U+1F600 becomes the surrogate pair 0xD83D 0xDE00
    let (mut p, _) = ClipboardPublisher::new(metafile(1), "\u{1F600}", None);
    let _ = p.step(PubEvent::Opened { ok: true });
    let _ = p.step(PubEvent::Emptied);
    let a = p.step(PubEvent::ImageSet);
    assert!(matches!(a, PubAction::AllocBlock { size: 6 }));
    let a = p.step(PubEvent::Allocated { ok: true });
    match a {
        PubAction::CopyToBlock { bytes } => {
            assert_eq!(bytes, vec![0x3Du8, 0xD8, 0x00, 0xDE, 0, 0]);
        }
        _ => panic!("expected the text bytes to be copied"),
    }
}

#[test]
fn publish_fail_messages_are_fixed() {
    assert_eq!(PublishFail::ClipboardBusy.message(), "OpenClipboard failed");
    assert_eq!(
        PublishFail::RegisterFailed.message(),
        "RegisterClipboardFormat CDX failed"
    );
    assert_eq!(PublishFail::EmptyContent.message(), "Empty CDX data");
}

#[test]
fn publisher_expects_only_the_event_its_stage_awaits() {
    let (p, _) = ClipboardPublisher::new(metafile(1), "", None);
    assert!(p.expects_event(&PubEvent::Opened { ok: true }));
    assert!(!p.expects_event(&PubEvent::Closed));
    assert!(!p.expects_event(&PubEvent::ImageSet));
}
