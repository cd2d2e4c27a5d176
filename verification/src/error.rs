//! Failure taxonomy of the clipboard core: decode failures, native resource
//! failures during metafile recording, and failures of the publish
//! transaction. Each failure carries a fixed descriptive message for the
//! external boundary.

use vstd::prelude::*;
use vstd::string::StringExecFns;

verus! {

/// Why raster image bytes could not become a conversion: the decoder
/// rejected them, the decoded image had a zero dimension, or a dimension
/// does not fit the platform's signed 32-bit rectangle coordinates.
#[derive(Debug)]
pub enum DecodeError {
    /// The bytes are not a valid compressed raster image; carries the
    /// decoder's own message.
    Malformed(String),
    /// The image decoded to zero width or zero height.
    EmptyImage,
    /// A decoded dimension exceeds the signed 32-bit coordinate range of the
    /// platform's bitmap and rectangle types.
    Oversized,
}

impl DecodeError {
    /// The message surfaced to the caller.
    pub open spec fn message_spec(&self) -> Seq<char> {
        match self {
            DecodeError::Malformed(m) => m@,
            DecodeError::EmptyImage => "Empty image"@,
            DecodeError::Oversized => "Image dimensions exceed the metafile range"@,
        }
    }

    pub fn message(&self) -> (s: String)
        ensures
            s@ == self.message_spec(),
    {
        match self {
            DecodeError::Malformed(m) => String::from_str(m.as_str()),
            DecodeError::EmptyImage => String::from_str("Empty image"),
            DecodeError::Oversized => String::from_str("Image dimensions exceed the metafile range"),
        }
    }
}

/// Which native call failed while recording the vector metafile.
#[derive(Clone, Copy, PartialEq, Eq, Structural, Debug)]
pub enum BuildFail {
    /// The reference device context for the display could not be acquired.
    ScreenDc,
    /// The device-independent bitmap surface could not be created.
    Surface,
    /// The surface was created but its pixel memory pointer was null.
    SurfaceBits,
    /// The memory device context compatible with the display could not be
    /// created.
    MemDc,
    /// The vector-metafile recording context could not be opened.
    Recorder,
    /// Closing the recording context did not yield a valid handle.
    RecorderClose,
}

impl BuildFail {
    /// The message surfaced to the caller.
    pub open spec fn message_spec(&self) -> Seq<char> {
        match self {
            BuildFail::ScreenDc => "GetDC failed"@,
            BuildFail::Surface => "CreateDIBSection failed"@,
            BuildFail::SurfaceBits => "CreateDIBSection null bits"@,
            BuildFail::MemDc => "CreateCompatibleDC failed"@,
            BuildFail::Recorder => "CreateEnhMetaFile failed"@,
            BuildFail::RecorderClose => "CloseEnhMetaFile failed"@,
        }
    }

    pub fn message(&self) -> (s: String)
        ensures
            s@ == self.message_spec(),
    {
        match self {
            BuildFail::ScreenDc => String::from_str("GetDC failed"),
            BuildFail::Surface => String::from_str("CreateDIBSection failed"),
            BuildFail::SurfaceBits => String::from_str("CreateDIBSection null bits"),
            BuildFail::MemDc => String::from_str("CreateCompatibleDC failed"),
            BuildFail::Recorder => String::from_str("CreateEnhMetaFile failed"),
            BuildFail::RecorderClose => String::from_str("CloseEnhMetaFile failed"),
        }
    }
}

/// Why a publish transaction failed as a whole. Optional-format failures
/// (text or structure-exchange blocks that could not be allocated or locked)
/// are deliberately not represented: they omit the format and do not fail
/// the transaction.
#[derive(Clone, Copy, PartialEq, Eq, Structural, Debug)]
pub enum PublishFail {
    /// The clipboard could not be opened, commonly because another process
    /// holds it.
    ClipboardBusy,
    /// The custom structure-exchange format name could not be registered
    /// (fatal only for the binary-only transaction).
    RegisterFailed,
    /// The caller supplied an empty payload where one is mandatory.
    EmptyContent,
}

impl PublishFail {
    /// The message surfaced to the caller.
    pub open spec fn message_spec(&self) -> Seq<char> {
        match self {
            PublishFail::ClipboardBusy => "OpenClipboard failed"@,
            PublishFail::RegisterFailed => "RegisterClipboardFormat CDX failed"@,
            PublishFail::EmptyContent => "Empty CDX data"@,
        }
    }

    pub fn message(&self) -> (s: String)
        ensures
            s@ == self.message_spec(),
    {
        match self {
            PublishFail::ClipboardBusy => String::from_str("OpenClipboard failed"),
            PublishFail::RegisterFailed => String::from_str("RegisterClipboardFormat CDX failed"),
            PublishFail::EmptyContent => String::from_str("Empty CDX data"),
        }
    }
}

} // verus!
