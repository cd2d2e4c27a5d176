//! Multi-format clipboard publisher: one open/empty/set/close transaction
//! that always publishes the vector image, and optionally a UTF-16 text
//! payload and a registered structure-exchange binary payload; and a
//! binary-only variant.
//!
//! The native clipboard lives behind platform calls that this library does
//! not perform itself. Each publisher is a step machine: it decides every
//! native action and the response to every outcome, and a host carries the
//! actions out and reports each outcome back as an event. Optional-format
//! failures (allocation or lock) omit that format and never fail the
//! transaction; only failure to open the clipboard does.

use vstd::prelude::*;
use crate::builder::VectorMetafile;
use crate::encoding::encode_utf16_units;
use crate::encoding::is_clipboard_text_payload;
use crate::encoding::le_bytes_from_units;
use crate::encoding::lemma_utf16_units_len;
use crate::error::PublishFail;
use vstd::slice::slice_to_vec;

verus! {

/// The UTF-16 units of the custom structure-exchange format's registered
/// name: the letters `C`, `D`, `X` and a terminating null unit.
pub open spec fn cdx_format_name() -> Seq<u16> {
    seq![0x43u16, 0x44u16, 0x58u16, 0u16]
}

/// A clipboard format a data block is published under.
#[derive(Clone, Copy, Debug)]
pub enum ClipFormat {
    /// The platform's Unicode-text format.
    UnicodeText,
    /// A format registered at run time under the structure-exchange name.
    Registered { id: u32 },
}

/// A native action the host must perform for a publisher.
#[derive(Debug)]
pub enum PubAction {
    /// Open the clipboard for the current process.
    OpenClipboard,
    /// Destroy the vector-metafile handle: the clipboard could not be
    /// opened, so the handle was never handed to the platform and the
    /// caller must free it exactly once.
    DestroyMetafile { handle: usize },
    /// Discard the clipboard's prior contents.
    EmptyClipboard,
    /// Publish the vector-metafile handle under the platform's
    /// enhanced-metafile format; ownership transfers to the clipboard.
    SetImageData { handle: usize },
    /// Register (or look up) the custom structure-exchange format name.
    RegisterCdxFormat { name_utf16: Vec<u16> },
    /// Allocate a movable shared-memory block of exactly this byte size.
    AllocBlock { size: usize },
    /// Lock the block, copy these bytes into it verbatim, unlock it.
    CopyToBlock { bytes: Vec<u8> },
    /// Publish the filled block under this format; ownership of the block
    /// transfers to the clipboard.
    SetBlockData { format: ClipFormat },
    /// Close the clipboard.
    CloseClipboard,
    /// The transaction is over; no further action follows.
    Finish { result: Result<(), PublishFail> },
}

/// The host's report of one performed action.
#[derive(Clone, Copy, Debug)]
pub enum PubEvent {
    /// Whether the clipboard was opened.
    Opened { ok: bool },
    /// The metafile handle was destroyed.
    MetafileDestroyed,
    /// The clipboard was emptied.
    Emptied,
    /// The image data was handed to the clipboard.
    ImageSet,
    /// The platform's identifier for the registered name, zero on failure.
    Registered { id: u32 },
    /// Whether the shared block was allocated.
    Allocated { ok: bool },
    /// Whether the block could be locked for the copy (if not, the bytes
    /// were not copied and the block is abandoned unpublished).
    Copied { locked: bool },
    /// The block was handed to the clipboard.
    BlockSet,
    /// The clipboard was closed.
    Closed,
}

/// What the multi-format publisher is waiting for.
#[derive(Clone, Copy, Debug)]
pub enum PubStage {
    AwaitOpen,
    AwaitDestroy,
    AwaitEmpty,
    AwaitImageSet,
    AwaitTextAlloc,
    AwaitTextCopy,
    AwaitTextSet,
    AwaitCdxRegister,
    AwaitCdxAlloc { format: u32 },
    AwaitCdxCopy { format: u32 },
    AwaitCdxSet { format: u32 },
    AwaitClose,
    Done { published: bool },
}

/// Who owns the vector-metafile handle at a given stage.
pub enum HandleOwner {
    /// This publisher still owns it and must not leak it.
    Caller,
    /// It was handed to the clipboard; it must never be freed again.
    Clipboard,
    /// It was destroyed on the recovery path; it must never be freed again.
    Destroyed,
}

/// The multi-format transaction: vector image always, text when non-empty,
/// structure-exchange binary when present and non-empty.
pub struct ClipboardPublisher {
    /// The vector-metafile handle this transaction owns until it is
    /// published or destroyed.
    pub handle: usize,
    /// The text payload: UTF-16 little-endian bytes with a trailing null
    /// unit. Handed over with its copy action.
    pub text_bytes: Vec<u8>,
    /// Whether the caller supplied non-empty text.
    pub text_present: bool,
    /// The structure-exchange payload, verbatim. Handed over with its copy
    /// action.
    pub cdx_bytes: Vec<u8>,
    /// Whether the caller supplied a present, non-empty binary payload.
    pub cdx_present: bool,
    pub stage: PubStage,
}

impl ClipboardPublisher {
    /// Optional-format stages are only ever entered when that format was
    /// supplied.
    pub open spec fn wf(&self) -> bool {
        &&& (self.stage is AwaitTextAlloc || self.stage is AwaitTextCopy || self.stage
            is AwaitTextSet) ==> self.text_present
        &&& (self.stage is AwaitCdxRegister || self.stage is AwaitCdxAlloc || self.stage
            is AwaitCdxCopy || self.stage is AwaitCdxSet) ==> self.cdx_present
    }

    /// Who owns the metafile handle: the emitted actions transfer it to the
    /// clipboard exactly once, or destroy it exactly once on the path where
    /// the clipboard never opened.
    pub open spec fn handle_owner(&self) -> HandleOwner {
        match self.stage {
            PubStage::AwaitOpen => HandleOwner::Caller,
            PubStage::AwaitEmpty => HandleOwner::Caller,
            PubStage::AwaitImageSet => HandleOwner::Caller,
            PubStage::AwaitDestroy => HandleOwner::Destroyed,
            PubStage::Done { published } => if published {
                HandleOwner::Clipboard
            } else {
                HandleOwner::Destroyed
            },
            _ => HandleOwner::Clipboard,
        }
    }

    /// Whether the mandatory image format has been handed to the clipboard.
    pub open spec fn image_published(&self) -> bool {
        match self.stage {
            PubStage::AwaitOpen => false,
            PubStage::AwaitDestroy => false,
            PubStage::AwaitEmpty => false,
            PubStage::AwaitImageSet => false,
            PubStage::Done { published } => published,
            _ => true,
        }
    }

    /// Whether the event is the one the current stage awaits.
    pub open spec fn expects(&self, e: PubEvent) -> bool {
        match (self.stage, e) {
            (PubStage::AwaitOpen, PubEvent::Opened { .. }) => true,
            (PubStage::AwaitDestroy, PubEvent::MetafileDestroyed) => true,
            (PubStage::AwaitEmpty, PubEvent::Emptied) => true,
            (PubStage::AwaitImageSet, PubEvent::ImageSet) => true,
            (PubStage::AwaitTextAlloc, PubEvent::Allocated { .. }) => true,
            (PubStage::AwaitTextCopy, PubEvent::Copied { .. }) => true,
            (PubStage::AwaitTextSet, PubEvent::BlockSet) => true,
            (PubStage::AwaitCdxRegister, PubEvent::Registered { .. }) => true,
            (PubStage::AwaitCdxAlloc { .. }, PubEvent::Allocated { .. }) => true,
            (PubStage::AwaitCdxCopy { .. }, PubEvent::Copied { .. }) => true,
            (PubStage::AwaitCdxSet { .. }, PubEvent::BlockSet) => true,
            (PubStage::AwaitClose, PubEvent::Closed) => true,
            _ => false,
        }
    }

    /// The payload descriptions and the handle never change over the
    /// transaction.
    pub open spec fn payloads_unchanged(pre: Self, post: Self) -> bool {
        &&& post.handle == pre.handle
        &&& post.text_present == pre.text_present
        &&& post.cdx_present == pre.cdx_present
    }

    /// Entering the structure-exchange phase when that payload is present,
    /// else closing: the step after the image and text phases are over.
    pub open spec fn cdx_or_close(pre: Self, post: Self, a: PubAction) -> bool {
        if pre.cdx_present {
            &&& post.stage is AwaitCdxRegister
            &&& (a matches PubAction::RegisterCdxFormat { name_utf16 } && name_utf16@
                == cdx_format_name())
        } else {
            &&& post.stage is AwaitClose
            &&& a is CloseClipboard
        }
    }

    /// Entering the text phase when non-empty text was supplied, else going
    /// on as `cdx_or_close`: the step right after the image was published.
    pub open spec fn optional_phase_entry(pre: Self, post: Self, a: PubAction) -> bool {
        if pre.text_present {
            &&& post.stage is AwaitTextAlloc
            &&& (a matches PubAction::AllocBlock { size } && size == pre.text_bytes@.len())
        } else {
            Self::cdx_or_close(pre, post, a)
        }
    }

    /// The transition relation of one step: which stage follows the event
    /// and exactly which action is emitted with which parameters.
    pub open spec fn transition(pre: Self, e: PubEvent, post: Self, a: PubAction) -> bool {
        &&& Self::payloads_unchanged(pre, post)
        &&& match (pre.stage, e) {
            (PubStage::AwaitOpen, PubEvent::Opened { ok }) => {
                if ok {
                    &&& post.stage is AwaitEmpty
                    &&& a is EmptyClipboard
                } else {
                    &&& post.stage is AwaitDestroy
                    &&& (a matches PubAction::DestroyMetafile { handle } && handle == pre.handle)
                }
            },
            (PubStage::AwaitDestroy, PubEvent::MetafileDestroyed) => {
                &&& post.stage == (PubStage::Done { published: false })
                &&& (a matches PubAction::Finish { result } && result == Err::<(), PublishFail>(
                    PublishFail::ClipboardBusy,
                ))
            },
            (PubStage::AwaitEmpty, PubEvent::Emptied) => {
                &&& post.stage is AwaitImageSet
                &&& (a matches PubAction::SetImageData { handle } && handle == pre.handle)
            },
            (PubStage::AwaitImageSet, PubEvent::ImageSet) => Self::optional_phase_entry(
                pre,
                post,
                a,
            ),
            (PubStage::AwaitTextAlloc, PubEvent::Allocated { ok }) => {
                if ok {
                    &&& post.stage is AwaitTextCopy
                    &&& (a matches PubAction::CopyToBlock { bytes } && bytes@ == pre.text_bytes@)
                } else {
                    Self::cdx_or_close(pre, post, a)
                }
            },
            (PubStage::AwaitTextCopy, PubEvent::Copied { locked }) => {
                if locked {
                    &&& post.stage is AwaitTextSet
                    &&& (a matches PubAction::SetBlockData { format } && format is UnicodeText)
                } else {
                    Self::cdx_or_close(pre, post, a)
                }
            },
            (PubStage::AwaitTextSet, PubEvent::BlockSet) => Self::cdx_or_close(pre, post, a),
            (PubStage::AwaitCdxRegister, PubEvent::Registered { id }) => {
                if id != 0 {
                    &&& post.stage == (PubStage::AwaitCdxAlloc { format: id })
                    &&& (a matches PubAction::AllocBlock { size } && size == pre.cdx_bytes@.len())
                } else {
                    &&& post.stage is AwaitClose
                    &&& a is CloseClipboard
                }
            },
            (PubStage::AwaitCdxAlloc { format }, PubEvent::Allocated { ok }) => {
                if ok {
                    &&& post.stage == (PubStage::AwaitCdxCopy { format })
                    &&& (a matches PubAction::CopyToBlock { bytes } && bytes@ == pre.cdx_bytes@)
                } else {
                    &&& post.stage is AwaitClose
                    &&& a is CloseClipboard
                }
            },
            (PubStage::AwaitCdxCopy { format }, PubEvent::Copied { locked }) => {
                if locked {
                    &&& post.stage == (PubStage::AwaitCdxSet { format })
                    &&& (a matches PubAction::SetBlockData { format: f } && f == (
                    ClipFormat::Registered { id: format }))
                } else {
                    &&& post.stage is AwaitClose
                    &&& a is CloseClipboard
                }
            },
            (PubStage::AwaitCdxSet { .. }, PubEvent::BlockSet) => {
                &&& post.stage is AwaitClose
                &&& a is CloseClipboard
            },
            (PubStage::AwaitClose, PubEvent::Closed) => {
                &&& post.stage == (PubStage::Done { published: true })
                &&& (a matches PubAction::Finish { result } && result == Ok::<(), PublishFail>(()))
            },
            _ => false,
        }
    }

    /// Whether the event is the one the current stage awaits (executable
    /// mirror of `expects`, for an unverified host to test before stepping).
    pub fn expects_event(&self, e: &PubEvent) -> (r: bool)
        ensures
            r == self.expects(*e),
    {
        match (self.stage, *e) {
            (PubStage::AwaitOpen, PubEvent::Opened { .. }) => true,
            (PubStage::AwaitDestroy, PubEvent::MetafileDestroyed) => true,
            (PubStage::AwaitEmpty, PubEvent::Emptied) => true,
            (PubStage::AwaitImageSet, PubEvent::ImageSet) => true,
            (PubStage::AwaitTextAlloc, PubEvent::Allocated { .. }) => true,
            (PubStage::AwaitTextCopy, PubEvent::Copied { .. }) => true,
            (PubStage::AwaitTextSet, PubEvent::BlockSet) => true,
            (PubStage::AwaitCdxRegister, PubEvent::Registered { .. }) => true,
            (PubStage::AwaitCdxAlloc { .. }, PubEvent::Allocated { .. }) => true,
            (PubStage::AwaitCdxCopy { .. }, PubEvent::Copied { .. }) => true,
            (PubStage::AwaitCdxSet { .. }, PubEvent::BlockSet) => true,
            (PubStage::AwaitClose, PubEvent::Closed) => true,
            _ => false,
        }
    }

    /// Takes ownership of the finished vector metafile and prepares one
    /// transaction: the text format is attempted exactly when `mol_text` is
    /// non-empty (encoded as UTF-16 with one trailing null unit), the
    /// structure-exchange format exactly when `cdx_bytes` is present and
    /// non-empty. The first action opens the clipboard.
    pub fn new(metafile: VectorMetafile, mol_text: &str, cdx_bytes: Option<&[u8]>) -> (r: (
        ClipboardPublisher,
        PubAction,
    ))
        ensures
            r.0.wf(),
            r.0.stage is AwaitOpen,
            r.0.handle == metafile.handle,
            r.0.text_present <==> mol_text@.len() > 0,
            is_clipboard_text_payload(r.0.text_bytes@, mol_text@),
            r.0.cdx_present <==> (cdx_bytes matches Some(b) && b@.len() > 0),
            cdx_bytes matches Some(b) ==> b@.len() > 0 ==> r.0.cdx_bytes@ == b@,
            r.1 is OpenClipboard,
    {
        let mut units = encode_utf16_units(mol_text);
        let text_present = units.len() > 0;
        proof {
            lemma_utf16_units_len(mol_text@);
        }
        units.push(0u16);
        let text_bytes = le_bytes_from_units(&units);
        let (cdx_present, cdx_vec) = match cdx_bytes {
            Some(b) => {
                if b.len() > 0 {
                    (true, slice_to_vec(b))
                } else {
                    (false, Vec::new())
                }
            },
            None => (false, Vec::new()),
        };
        let publisher = ClipboardPublisher {
            handle: metafile.handle,
            text_bytes,
            text_present,
            cdx_bytes: cdx_vec,
            cdx_present,
            stage: PubStage::AwaitOpen,
        };
        (publisher, PubAction::OpenClipboard)
    }

    /// One step of the transaction: consumes the host's report of the last
    /// action and decides the next one.
    ///
    /// Besides following `transition`: a text block is only published when
    /// non-empty text was supplied and a registered block only when binary
    /// content was supplied; the overall result is a success exactly when
    /// the mandatory image format was published; and the metafile handle is
    /// transferred or destroyed exactly once, never both and never twice.
    pub fn step(&mut self, e: PubEvent) -> (a: PubAction)
        requires
            old(self).wf(),
            old(self).expects(e),
        ensures
            final(self).wf(),
            Self::transition(*old(self), e, *final(self), a),
            (a matches PubAction::SetBlockData { format } && format is UnicodeText)
                ==> old(self).text_present,
            a matches PubAction::RegisterCdxFormat { .. } ==> old(self).cdx_present,
            (a matches PubAction::SetBlockData { format } && format is Registered)
                ==> old(self).cdx_present,
            a matches PubAction::Finish { result }
                ==> (result is Ok <==> final(self).image_published()),
            a matches PubAction::DestroyMetafile { .. } ==> old(self).handle_owner() is Caller,
            a matches PubAction::SetImageData { .. } ==> old(self).handle_owner() is Caller,
            final(self).stage is Done ==> !(final(self).handle_owner() is Caller),
            // a finish follows either the close of an opened clipboard or
            // the recovery path where the clipboard never opened
            a matches PubAction::Finish { .. } ==> (old(self).stage is AwaitClose
                || old(self).stage is AwaitDestroy),
    {
        let stage = self.stage;
        match (stage, e) {
            (PubStage::AwaitOpen, PubEvent::Opened { ok }) => {
                if ok {
                    self.stage = PubStage::AwaitEmpty;
                    PubAction::EmptyClipboard
                } else {
                    self.stage = PubStage::AwaitDestroy;
                    PubAction::DestroyMetafile { handle: self.handle }
                }
            },
            (PubStage::AwaitDestroy, PubEvent::MetafileDestroyed) => {
                self.stage = PubStage::Done { published: false };
                PubAction::Finish { result: Err(PublishFail::ClipboardBusy) }
            },
            (PubStage::AwaitEmpty, PubEvent::Emptied) => {
                self.stage = PubStage::AwaitImageSet;
                PubAction::SetImageData { handle: self.handle }
            },
            (PubStage::AwaitImageSet, PubEvent::ImageSet) => {
                if self.text_present {
                    self.stage = PubStage::AwaitTextAlloc;
                    PubAction::AllocBlock { size: self.text_bytes.len() }
                } else {
                    self.enter_cdx_or_close()
                }
            },
            (PubStage::AwaitTextAlloc, PubEvent::Allocated { ok }) => {
                if ok {
                    self.stage = PubStage::AwaitTextCopy;
                    let mut bytes: Vec<u8> = Vec::new();
                    core::mem::swap(&mut bytes, &mut self.text_bytes);
                    PubAction::CopyToBlock { bytes }
                } else {
                    self.enter_cdx_or_close()
                }
            },
            (PubStage::AwaitTextCopy, PubEvent::Copied { locked }) => {
                if locked {
                    self.stage = PubStage::AwaitTextSet;
                    PubAction::SetBlockData { format: ClipFormat::UnicodeText }
                } else {
                    self.enter_cdx_or_close()
                }
            },
            (PubStage::AwaitTextSet, PubEvent::BlockSet) => self.enter_cdx_or_close(),
            (PubStage::AwaitCdxRegister, PubEvent::Registered { id }) => {
                if id != 0 {
                    self.stage = PubStage::AwaitCdxAlloc { format: id };
                    PubAction::AllocBlock { size: self.cdx_bytes.len() }
                } else {
                    self.stage = PubStage::AwaitClose;
                    PubAction::CloseClipboard
                }
            },
            (PubStage::AwaitCdxAlloc { format }, PubEvent::Allocated { ok }) => {
                if ok {
                    self.stage = PubStage::AwaitCdxCopy { format };
                    let mut bytes: Vec<u8> = Vec::new();
                    core::mem::swap(&mut bytes, &mut self.cdx_bytes);
                    PubAction::CopyToBlock { bytes }
                } else {
                    self.stage = PubStage::AwaitClose;
                    PubAction::CloseClipboard
                }
            },
            (PubStage::AwaitCdxCopy { format }, PubEvent::Copied { locked }) => {
                if locked {
                    self.stage = PubStage::AwaitCdxSet { format };
                    PubAction::SetBlockData { format: ClipFormat::Registered { id: format } }
                } else {
                    self.stage = PubStage::AwaitClose;
                    PubAction::CloseClipboard
                }
            },
            (PubStage::AwaitCdxSet { .. }, PubEvent::BlockSet) => {
                self.stage = PubStage::AwaitClose;
                PubAction::CloseClipboard
            },
            (PubStage::AwaitClose, PubEvent::Closed) => {
                self.stage = PubStage::Done { published: true };
                PubAction::Finish { result: Ok(()) }
            },
            _ => vstd::pervasive::unreached(),
        }
    }

    /// Shared tail of the image and text phases: go on to the
    /// structure-exchange phase when its payload is present, else close.
    fn enter_cdx_or_close(&mut self) -> (a: PubAction)
        ensures
            Self::cdx_or_close(*old(self), *final(self), a),
            Self::payloads_unchanged(*old(self), *final(self)),
            final(self).text_bytes@ == old(self).text_bytes@,
            final(self).cdx_bytes@ == old(self).cdx_bytes@,
    {
        if self.cdx_present {
            self.stage = PubStage::AwaitCdxRegister;
            let mut name: Vec<u16> = Vec::new();
            name.push(0x43u16);
            name.push(0x44u16);
            name.push(0x58u16);
            name.push(0u16);
            proof {
                assert(name@ =~= cdx_format_name());
            }
            PubAction::RegisterCdxFormat { name_utf16: name }
        } else {
            self.stage = PubStage::AwaitClose;
            PubAction::CloseClipboard
        }
    }
}

/// What the binary-only publisher is waiting for.
#[derive(Clone, Copy, Debug)]
pub enum CdxStage {
    AwaitOpen,
    AwaitEmpty,
    AwaitRegister,
    AwaitAlloc { format: u32 },
    AwaitCopy { format: u32 },
    AwaitSet,
    /// The clipboard is being closed; `register_ok` records whether the
    /// format registration succeeded, which decides the reported result.
    AwaitClose { register_ok: bool },
    Done,
}

/// The binary-only transaction: open, empty, register the
/// structure-exchange name, allocate/copy/publish one block, close. An
/// empty payload is rejected before the clipboard is ever opened; a failed
/// registration is reported after the clipboard is closed; a failed
/// allocation or lock merely omits the block, as in the multi-format
/// transaction.
pub struct CdxPublisher {
    /// The structure-exchange payload, verbatim; never empty. Handed over
    /// with its copy action.
    pub payload: Vec<u8>,
    pub stage: CdxStage,
}

impl CdxPublisher {
    /// Whether the event is the one the current stage awaits.
    pub open spec fn expects(&self, e: PubEvent) -> bool {
        match (self.stage, e) {
            (CdxStage::AwaitOpen, PubEvent::Opened { .. }) => true,
            (CdxStage::AwaitEmpty, PubEvent::Emptied) => true,
            (CdxStage::AwaitRegister, PubEvent::Registered { .. }) => true,
            (CdxStage::AwaitAlloc { .. }, PubEvent::Allocated { .. }) => true,
            (CdxStage::AwaitCopy { .. }, PubEvent::Copied { .. }) => true,
            (CdxStage::AwaitSet, PubEvent::BlockSet) => true,
            (CdxStage::AwaitClose { .. }, PubEvent::Closed) => true,
            _ => false,
        }
    }

    /// The transition relation of one step.
    pub open spec fn transition(pre: Self, e: PubEvent, post: Self, a: PubAction) -> bool {
        match (pre.stage, e) {
            (CdxStage::AwaitOpen, PubEvent::Opened { ok }) => {
                if ok {
                    &&& post.stage is AwaitEmpty
                    &&& a is EmptyClipboard
                } else {
                    &&& post.stage is Done
                    &&& (a matches PubAction::Finish { result } && result == Err::<
                        (),
                        PublishFail,
                    >(PublishFail::ClipboardBusy))
                }
            },
            (CdxStage::AwaitEmpty, PubEvent::Emptied) => {
                &&& post.stage is AwaitRegister
                &&& (a matches PubAction::RegisterCdxFormat { name_utf16 } && name_utf16@
                    == cdx_format_name())
            },
            (CdxStage::AwaitRegister, PubEvent::Registered { id }) => {
                if id != 0 {
                    &&& post.stage == (CdxStage::AwaitAlloc { format: id })
                    &&& (a matches PubAction::AllocBlock { size } && size == pre.payload@.len())
                } else {
                    &&& post.stage == (CdxStage::AwaitClose { register_ok: false })
                    &&& a is CloseClipboard
                }
            },
            (CdxStage::AwaitAlloc { format }, PubEvent::Allocated { ok }) => {
                if ok {
                    &&& post.stage == (CdxStage::AwaitCopy { format })
                    &&& (a matches PubAction::CopyToBlock { bytes } && bytes@ == pre.payload@)
                } else {
                    &&& post.stage == (CdxStage::AwaitClose { register_ok: true })
                    &&& a is CloseClipboard
                }
            },
            (CdxStage::AwaitCopy { format }, PubEvent::Copied { locked }) => {
                if locked {
                    &&& post.stage is AwaitSet
                    &&& (a matches PubAction::SetBlockData { format: f } && f == (
                    ClipFormat::Registered { id: format }))
                } else {
                    &&& post.stage == (CdxStage::AwaitClose { register_ok: true })
                    &&& a is CloseClipboard
                }
            },
            (CdxStage::AwaitSet, PubEvent::BlockSet) => {
                &&& post.stage == (CdxStage::AwaitClose { register_ok: true })
                &&& a is CloseClipboard
            },
            (CdxStage::AwaitClose { register_ok }, PubEvent::Closed) => {
                &&& post.stage is Done
                &&& (a matches PubAction::Finish { result } && result == (if register_ok {
                    Ok::<(), PublishFail>(())
                } else {
                    Err::<(), PublishFail>(PublishFail::RegisterFailed)
                }))
            },
            _ => false,
        }
    }

    /// Whether the event is the one the current stage awaits (executable
    /// mirror of `expects`, for an unverified host to test before stepping).
    pub fn expects_event(&self, e: &PubEvent) -> (r: bool)
        ensures
            r == self.expects(*e),
    {
        match (self.stage, *e) {
            (CdxStage::AwaitOpen, PubEvent::Opened { .. }) => true,
            (CdxStage::AwaitEmpty, PubEvent::Emptied) => true,
            (CdxStage::AwaitRegister, PubEvent::Registered { .. }) => true,
            (CdxStage::AwaitAlloc { .. }, PubEvent::Allocated { .. }) => true,
            (CdxStage::AwaitCopy { .. }, PubEvent::Copied { .. }) => true,
            (CdxStage::AwaitSet, PubEvent::BlockSet) => true,
            (CdxStage::AwaitClose { .. }, PubEvent::Closed) => true,
            _ => false,
        }
    }

    /// Prepares a binary-only transaction. An empty payload is rejected
    /// with the mandatory-content failure before the clipboard is touched:
    /// no machine and no action exist on that path. Otherwise the first
    /// action opens the clipboard.
    pub fn new(cdx_bytes: &[u8]) -> (r: Result<(CdxPublisher, PubAction), PublishFail>)
        ensures
            cdx_bytes@.len() == 0 <==> r matches Err(PublishFail::EmptyContent),
            r matches Err(f) ==> f == PublishFail::EmptyContent,
            r matches Ok(p) ==> {
                &&& p.0.payload@ == cdx_bytes@
                &&& p.0.stage is AwaitOpen
                &&& p.1 is OpenClipboard
            },
    {
        if cdx_bytes.len() == 0 {
            return Err(PublishFail::EmptyContent);
        }
        let publisher = CdxPublisher { payload: slice_to_vec(cdx_bytes), stage: CdxStage::AwaitOpen };
        Ok((publisher, PubAction::OpenClipboard))
    }

    /// One step of the binary-only transaction. Besides following
    /// `transition`: the clipboard-busy failure is reported exactly when
    /// the clipboard never opened, and a finish with a registration failure
    /// comes only after the close action, so an opened clipboard is always
    /// closed.
    pub fn step(&mut self, e: PubEvent) -> (a: PubAction)
        requires
            old(self).expects(e),
        ensures
            Self::transition(*old(self), e, *final(self), a),
            a matches PubAction::Finish { result } ==> ((result == Err::<(), PublishFail>(
                PublishFail::ClipboardBusy,
            )) <==> (old(self).stage is AwaitOpen && e == (PubEvent::Opened { ok: false }))),
            // a finish follows either the close of an opened clipboard or
            // the path where the clipboard never opened
            a matches PubAction::Finish { .. } ==> (old(self).stage is AwaitClose
                || old(self).stage is AwaitOpen),
    {
        let stage = self.stage;
        match (stage, e) {
            (CdxStage::AwaitOpen, PubEvent::Opened { ok }) => {
                if ok {
                    self.stage = CdxStage::AwaitEmpty;
                    PubAction::EmptyClipboard
                } else {
                    self.stage = CdxStage::Done;
                    PubAction::Finish { result: Err(PublishFail::ClipboardBusy) }
                }
            },
            (CdxStage::AwaitEmpty, PubEvent::Emptied) => {
                self.stage = CdxStage::AwaitRegister;
                let mut name: Vec<u16> = Vec::new();
                name.push(0x43u16);
                name.push(0x44u16);
                name.push(0x58u16);
                name.push(0u16);
                proof {
                    assert(name@ =~= cdx_format_name());
                }
                PubAction::RegisterCdxFormat { name_utf16: name }
            },
            (CdxStage::AwaitRegister, PubEvent::Registered { id }) => {
                if id != 0 {
                    self.stage = CdxStage::AwaitAlloc { format: id };
                    PubAction::AllocBlock { size: self.payload.len() }
                } else {
                    self.stage = CdxStage::AwaitClose { register_ok: false };
                    PubAction::CloseClipboard
                }
            },
            (CdxStage::AwaitAlloc { format }, PubEvent::Allocated { ok }) => {
                if ok {
                    self.stage = CdxStage::AwaitCopy { format };
                    let mut bytes: Vec<u8> = Vec::new();
                    core::mem::swap(&mut bytes, &mut self.payload);
                    PubAction::CopyToBlock { bytes }
                } else {
                    self.stage = CdxStage::AwaitClose { register_ok: true };
                    PubAction::CloseClipboard
                }
            },
            (CdxStage::AwaitCopy { format }, PubEvent::Copied { locked }) => {
                if locked {
                    self.stage = CdxStage::AwaitSet;
                    PubAction::SetBlockData { format: ClipFormat::Registered { id: format } }
                } else {
                    self.stage = CdxStage::AwaitClose { register_ok: true };
                    PubAction::CloseClipboard
                }
            },
            (CdxStage::AwaitSet, PubEvent::BlockSet) => {
                self.stage = CdxStage::AwaitClose { register_ok: true };
                PubAction::CloseClipboard
            },
            (CdxStage::AwaitClose { register_ok }, PubEvent::Closed) => {
                self.stage = CdxStage::Done;
                if register_ok {
                    PubAction::Finish { result: Ok(()) }
                } else {
                    PubAction::Finish { result: Err(PublishFail::RegisterFailed) }
                }
            },
            _ => vstd::pervasive::unreached(),
        }
    }
}

} // verus!
