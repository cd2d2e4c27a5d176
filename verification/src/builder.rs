//! Vector image builder: converts a decoded raster image into one recorded
//! stretch-blit of a 32-bit top-down bitmap surface into a target rectangle
//! measured in hundredths of a millimetre.
//!
//! The native surface, device contexts and recording context live behind
//! platform calls that this library does not perform itself. The builder is
//! a step machine: it decides every native action and the response to every
//! outcome, and a host carries the actions out and reports each outcome back
//! as an event. Every acquired resource is covered by a release action on
//! every path, including every error path.

use vstd::prelude::*;
use crate::clamped_himetric;
use crate::error::BuildFail;
use crate::error::DecodeError;
use crate::himetric_of_pixels;
use crate::raster::RasterImage;
use crate::raster::bgra_from_rgba;
use crate::raster::decode_raster;
use crate::raster::decode_succeeds;
use crate::raster::decoded_height;
use crate::raster::decoded_rgba;
use crate::raster::decoded_width;
use crate::raster::is_bgra_of;

verus! {

/// The finished conversion: a native vector-metafile handle (as the platform
/// reported it; never zero) together with the recorded geometry.
#[derive(Debug)]
pub struct VectorMetafile {
    /// The native handle. Ownership is the caller's until it is handed to a
    /// publish transaction.
    pub handle: usize,
    pub width_px: u32,
    pub height_px: u32,
    /// Recorded target width in hundredths of a millimetre.
    pub target_width: i32,
    /// Recorded target height in hundredths of a millimetre.
    pub target_height: i32,
}

/// A native action the host must perform for the builder.
#[derive(Debug)]
pub enum BuildAction {
    /// Acquire the reference device context for the display.
    AcquireScreenDc,
    /// Create a device-independent bitmap surface of the exact pixel
    /// dimensions: top-down (negative header height), 32 bits per pixel, no
    /// compression; then copy `bgra` verbatim into its pixel memory if the
    /// platform returned a valid pixel pointer.
    CreateSurface {
        width_px: u32,
        height_px: u32,
        header_height: i32,
        bits_per_pixel: u16,
        bgra: Vec<u8>,
    },
    /// Create a memory device context compatible with the display context
    /// and select the surface into it.
    CreateMemDc,
    /// Open an in-memory vector-metafile recording context bound to the
    /// given rectangle in hundredths of a millimetre, with halftone-quality
    /// stretch-blit mode.
    OpenRecorder { left: i32, top: i32, right: i32, bottom: i32, halftone: bool },
    /// Record one stretch-blit of the surface's full source rectangle into
    /// the full target rectangle.
    RecordBlit { dest_width: i32, dest_height: i32, src_width: i32, src_height: i32 },
    /// Close the recording context, yielding the finished handle.
    CloseRecorder,
    /// Release exactly the listed native resources (deselecting the surface
    /// from the memory context before deleting them).
    ReleaseResources { delete_surface: bool, delete_mem_dc: bool, release_screen_dc: bool },
    /// The conversion is over; no further action follows.
    Finish { result: Result<VectorMetafile, BuildFail> },
}

/// The host's report of one performed action.
#[derive(Clone, Copy, Debug)]
pub enum BuildEvent {
    /// Whether the display device context was acquired.
    ScreenDc { ok: bool },
    /// Whether the surface was created, and whether its pixel pointer was
    /// valid (the pixels were copied only if both hold).
    Surface { created: bool, bits_valid: bool },
    /// Whether the memory device context was created.
    MemDc { ok: bool },
    /// Whether the recording context was opened.
    Recorder { ok: bool },
    /// The stretch-blit was recorded.
    BlitRecorded,
    /// The recording context was closed; `handle` is the platform's handle,
    /// zero when invalid.
    RecorderClosed { handle: usize },
    /// The requested resources were released.
    Released,
}

/// What the builder is waiting for.
#[derive(Clone, Copy, Debug)]
pub enum BuildStage {
    AwaitScreenDc,
    AwaitSurface,
    AwaitMemDc,
    AwaitRecorder,
    AwaitBlit,
    AwaitClose,
    /// Resources are being released; afterwards this result is reported.
    AwaitRelease { pending: Result<usize, BuildFail> },
    Done,
}

/// The step machine for one conversion.
pub struct MetafileBuilder {
    pub width_px: u32,
    pub height_px: u32,
    pub target_width: i32,
    pub target_height: i32,
    /// Platform-ordered samples; handed over with the surface creation
    /// action.
    pub bgra: Vec<u8>,
    pub stage: BuildStage,
}

impl MetafileBuilder {
    /// Dimensions are positive, fit the platform's signed coordinates, and
    /// the target rectangle is the himetric rounding of the pixel grid. The
    /// samples are present until the surface creation action takes them.
    pub open spec fn wf(&self) -> bool {
        &&& 0 < self.width_px <= i32::MAX
        &&& 0 < self.height_px <= i32::MAX
        &&& self.target_width == clamped_himetric(self.width_px as nat)
        &&& self.target_height == clamped_himetric(self.height_px as nat)
        &&& self.stage is AwaitScreenDc ==> self.bgra@.len() == 4 * (self.width_px as nat) * (
        self.height_px as nat)
        &&& self.stage matches BuildStage::AwaitRelease { pending } ==> (pending matches Ok(h)
            ==> h != 0)
    }

    /// Native resources acquired and not yet covered by an emitted release
    /// or close action: (screen device context, bitmap surface, memory
    /// device context).
    pub open spec fn held(&self) -> (bool, bool, bool) {
        match self.stage {
            BuildStage::AwaitScreenDc => (false, false, false),
            BuildStage::AwaitSurface => (true, false, false),
            BuildStage::AwaitMemDc => (true, true, false),
            BuildStage::AwaitRecorder => (true, true, true),
            BuildStage::AwaitBlit => (true, true, true),
            BuildStage::AwaitClose => (true, true, true),
            BuildStage::AwaitRelease { .. } => (false, false, false),
            BuildStage::Done => (false, false, false),
        }
    }

    /// Whether the event is the one the current stage awaits.
    pub open spec fn expects(&self, e: BuildEvent) -> bool {
        match (self.stage, e) {
            (BuildStage::AwaitScreenDc, BuildEvent::ScreenDc { .. }) => true,
            (BuildStage::AwaitSurface, BuildEvent::Surface { .. }) => true,
            (BuildStage::AwaitMemDc, BuildEvent::MemDc { .. }) => true,
            (BuildStage::AwaitRecorder, BuildEvent::Recorder { .. }) => true,
            (BuildStage::AwaitBlit, BuildEvent::BlitRecorded) => true,
            (BuildStage::AwaitClose, BuildEvent::RecorderClosed { .. }) => true,
            (BuildStage::AwaitRelease { .. }, BuildEvent::Released) => true,
            _ => false,
        }
    }

    /// The geometry never changes over the conversion.
    pub open spec fn geometry_unchanged(pre: Self, post: Self) -> bool {
        &&& post.width_px == pre.width_px
        &&& post.height_px == pre.height_px
        &&& post.target_width == pre.target_width
        &&& post.target_height == pre.target_height
    }

    /// The transition relation of one step: which stage follows the event,
    /// and exactly which action is emitted with which parameters. Release
    /// actions list exactly the resources held when they are emitted.
    pub open spec fn transition(pre: Self, e: BuildEvent, post: Self, a: BuildAction) -> bool {
        &&& Self::geometry_unchanged(pre, post)
        &&& match (pre.stage, e) {
            (BuildStage::AwaitScreenDc, BuildEvent::ScreenDc { ok }) => {
                if ok {
                    &&& post.stage is AwaitSurface
                    &&& (a matches BuildAction::CreateSurface {
                        width_px,
                        height_px,
                        header_height,
                        bits_per_pixel,
                        bgra,
                    } && width_px == pre.width_px && height_px == pre.height_px && header_height
                        == -(pre.height_px as int) && bits_per_pixel == 32u16 && bgra@
                        == pre.bgra@)
                } else {
                    &&& post.stage is Done
                    &&& (a matches BuildAction::Finish { result } && result == Err::<
                        VectorMetafile,
                        BuildFail,
                    >(BuildFail::ScreenDc))
                }
            },
            (BuildStage::AwaitSurface, BuildEvent::Surface { created, bits_valid }) => {
                if created && bits_valid {
                    &&& post.stage is AwaitMemDc
                    &&& a is CreateMemDc
                } else if created {
                    &&& (post.stage matches BuildStage::AwaitRelease { pending } && pending
                        == Err::<usize, BuildFail>(BuildFail::SurfaceBits))
                    &&& (a matches BuildAction::ReleaseResources {
                        delete_surface,
                        delete_mem_dc,
                        release_screen_dc,
                    } && delete_surface && !delete_mem_dc && release_screen_dc)
                } else {
                    &&& (post.stage matches BuildStage::AwaitRelease { pending } && pending
                        == Err::<usize, BuildFail>(BuildFail::Surface))
                    &&& (a matches BuildAction::ReleaseResources {
                        delete_surface,
                        delete_mem_dc,
                        release_screen_dc,
                    } && !delete_surface && !delete_mem_dc && release_screen_dc)
                }
            },
            (BuildStage::AwaitMemDc, BuildEvent::MemDc { ok }) => {
                if ok {
                    &&& post.stage is AwaitRecorder
                    &&& (a matches BuildAction::OpenRecorder { left, top, right, bottom, halftone }
                        && left == 0 && top == 0 && right == pre.target_width && bottom
                        == pre.target_height && halftone)
                } else {
                    &&& (post.stage matches BuildStage::AwaitRelease { pending } && pending
                        == Err::<usize, BuildFail>(BuildFail::MemDc))
                    &&& (a matches BuildAction::ReleaseResources {
                        delete_surface,
                        delete_mem_dc,
                        release_screen_dc,
                    } && delete_surface && !delete_mem_dc && release_screen_dc)
                }
            },
            (BuildStage::AwaitRecorder, BuildEvent::Recorder { ok }) => {
                if ok {
                    &&& post.stage is AwaitBlit
                    &&& (a matches BuildAction::RecordBlit {
                        dest_width,
                        dest_height,
                        src_width,
                        src_height,
                    } && dest_width == pre.target_width && dest_height == pre.target_height
                        && src_width == pre.width_px && src_height == pre.height_px)
                } else {
                    &&& (post.stage matches BuildStage::AwaitRelease { pending } && pending
                        == Err::<usize, BuildFail>(BuildFail::Recorder))
                    &&& (a matches BuildAction::ReleaseResources {
                        delete_surface,
                        delete_mem_dc,
                        release_screen_dc,
                    } && delete_surface && delete_mem_dc && release_screen_dc)
                }
            },
            (BuildStage::AwaitBlit, BuildEvent::BlitRecorded) => {
                &&& post.stage is AwaitClose
                &&& a is CloseRecorder
            },
            (BuildStage::AwaitClose, BuildEvent::RecorderClosed { handle }) => {
                &&& (post.stage matches BuildStage::AwaitRelease { pending } && pending == (
                if handle != 0 {
                    Ok::<usize, BuildFail>(handle)
                } else {
                    Err::<usize, BuildFail>(BuildFail::RecorderClose)
                }))
                &&& (a matches BuildAction::ReleaseResources {
                    delete_surface,
                    delete_mem_dc,
                    release_screen_dc,
                } && delete_surface && delete_mem_dc && release_screen_dc)
            },
            (BuildStage::AwaitRelease { pending }, BuildEvent::Released) => {
                &&& post.stage is Done
                &&& (a matches BuildAction::Finish { result } && (match pending {
                    Ok(handle) => result matches Ok(mf) && mf.handle == handle && mf.width_px
                        == pre.width_px && mf.height_px == pre.height_px && mf.target_width
                        == pre.target_width && mf.target_height == pre.target_height,
                    Err(fail) => result == Err::<VectorMetafile, BuildFail>(fail),
                }))
            },
            _ => false,
        }
    }

    /// Whether the event is the one the current stage awaits (executable
    /// mirror of `expects`, for an unverified host to test before stepping).
    pub fn expects_event(&self, e: &BuildEvent) -> (r: bool)
        ensures
            r == self.expects(*e),
    {
        match (self.stage, *e) {
            (BuildStage::AwaitScreenDc, BuildEvent::ScreenDc { .. }) => true,
            (BuildStage::AwaitSurface, BuildEvent::Surface { .. }) => true,
            (BuildStage::AwaitMemDc, BuildEvent::MemDc { .. }) => true,
            (BuildStage::AwaitRecorder, BuildEvent::Recorder { .. }) => true,
            (BuildStage::AwaitBlit, BuildEvent::BlitRecorded) => true,
            (BuildStage::AwaitClose, BuildEvent::RecorderClosed { .. }) => true,
            (BuildStage::AwaitRelease { .. }, BuildEvent::Released) => true,
            _ => false,
        }
    }

    /// Prepares one conversion from a decoded image: rejects zero-area and
    /// oversized images before any native resource is requested, reorders
    /// the samples into platform order, and computes the target rectangle.
    pub fn new(img: RasterImage) -> (r: Result<(MetafileBuilder, BuildAction), DecodeError>)
        requires
            img.wf(),
        ensures
            (img.width == 0 || img.height == 0) <==> r matches Err(DecodeError::EmptyImage),
            (img.width > 0 && img.height > 0 && (img.width > i32::MAX || img.height > i32::MAX))
                <==> r matches Err(DecodeError::Oversized),
            !(r matches Err(DecodeError::Malformed(_))),
            r matches Ok(p) ==> {
                &&& p.0.wf()
                &&& p.0.width_px == img.width
                &&& p.0.height_px == img.height
                &&& p.0.stage is AwaitScreenDc
                &&& is_bgra_of(p.0.bgra@, img.pixels@)
                &&& p.1 is AcquireScreenDc
            },
    {
        if img.width == 0 || img.height == 0 {
            return Err(DecodeError::EmptyImage);
        }
        if img.width > i32::MAX as u32 || img.height > i32::MAX as u32 {
            return Err(DecodeError::Oversized);
        }
        let target_width = himetric_of_pixels(img.width);
        let target_height = himetric_of_pixels(img.height);
        proof {
            let wh: int = (img.width as int) * (img.height as int);
            assert(img.pixels@.len() == wh * 4) by (nonlinear_arith)
                requires
                    img.pixels@.len() == 4 * (img.width as nat) * (img.height as nat),
                    wh == (img.width as int) * (img.height as int),
            ;
            vstd::arithmetic::div_mod::lemma_mod_multiples_basic(wh, 4);
        }
        let bgra = bgra_from_rgba(&img.pixels);
        let builder = MetafileBuilder {
            width_px: img.width,
            height_px: img.height,
            target_width,
            target_height,
            bgra,
            stage: BuildStage::AwaitScreenDc,
        };
        Ok((builder, BuildAction::AcquireScreenDc))
    }

    /// One step of the conversion: consumes the host's report of the last
    /// action and decides the next one.
    ///
    /// Besides following `transition`, every step keeps the geometry
    /// invariant, a finish is only ever emitted once nothing is held any
    /// more, and a finished conversion carries the himetric target
    /// rectangle of its pixel grid.
    pub fn step(&mut self, e: BuildEvent) -> (a: BuildAction)
        requires
            old(self).wf(),
            old(self).expects(e),
        ensures
            final(self).wf(),
            Self::transition(*old(self), e, *final(self), a),
            a matches BuildAction::Finish { .. } ==> final(self).held() == (false, false, false),
            a matches BuildAction::Finish { result } ==> result matches Ok(mf) ==> {
                &&& mf.handle != 0
                &&& mf.width_px == old(self).width_px
                &&& mf.height_px == old(self).height_px
                &&& mf.target_width == clamped_himetric(mf.width_px as nat)
                &&& mf.target_height == clamped_himetric(mf.height_px as nat)
            },
    {
        let stage = self.stage;
        match (stage, e) {
            (BuildStage::AwaitScreenDc, BuildEvent::ScreenDc { ok }) => {
                if ok {
                    self.stage = BuildStage::AwaitSurface;
                    let mut bgra: Vec<u8> = Vec::new();
                    core::mem::swap(&mut bgra, &mut self.bgra);
                    let header_height: i32 = -(self.height_px as i32);
                    BuildAction::CreateSurface {
                        width_px: self.width_px,
                        height_px: self.height_px,
                        header_height,
                        bits_per_pixel: 32,
                        bgra,
                    }
                } else {
                    self.stage = BuildStage::Done;
                    BuildAction::Finish { result: Err(BuildFail::ScreenDc) }
                }
            },
            (BuildStage::AwaitSurface, BuildEvent::Surface { created, bits_valid }) => {
                if created && bits_valid {
                    self.stage = BuildStage::AwaitMemDc;
                    BuildAction::CreateMemDc
                } else if created {
                    self.stage = BuildStage::AwaitRelease {
                        pending: Err(BuildFail::SurfaceBits),
                    };
                    BuildAction::ReleaseResources {
                        delete_surface: true,
                        delete_mem_dc: false,
                        release_screen_dc: true,
                    }
                } else {
                    self.stage = BuildStage::AwaitRelease { pending: Err(BuildFail::Surface) };
                    BuildAction::ReleaseResources {
                        delete_surface: false,
                        delete_mem_dc: false,
                        release_screen_dc: true,
                    }
                }
            },
            (BuildStage::AwaitMemDc, BuildEvent::MemDc { ok }) => {
                if ok {
                    self.stage = BuildStage::AwaitRecorder;
                    BuildAction::OpenRecorder {
                        left: 0,
                        top: 0,
                        right: self.target_width,
                        bottom: self.target_height,
                        halftone: true,
                    }
                } else {
                    self.stage = BuildStage::AwaitRelease { pending: Err(BuildFail::MemDc) };
                    BuildAction::ReleaseResources {
                        delete_surface: true,
                        delete_mem_dc: false,
                        release_screen_dc: true,
                    }
                }
            },
            (BuildStage::AwaitRecorder, BuildEvent::Recorder { ok }) => {
                if ok {
                    self.stage = BuildStage::AwaitBlit;
                    BuildAction::RecordBlit {
                        dest_width: self.target_width,
                        dest_height: self.target_height,
                        src_width: self.width_px as i32,
                        src_height: self.height_px as i32,
                    }
                } else {
                    self.stage = BuildStage::AwaitRelease { pending: Err(BuildFail::Recorder) };
                    BuildAction::ReleaseResources {
                        delete_surface: true,
                        delete_mem_dc: true,
                        release_screen_dc: true,
                    }
                }
            },
            (BuildStage::AwaitBlit, BuildEvent::BlitRecorded) => {
                self.stage = BuildStage::AwaitClose;
                BuildAction::CloseRecorder
            },
            (BuildStage::AwaitClose, BuildEvent::RecorderClosed { handle }) => {
                let pending: Result<usize, BuildFail> = if handle != 0 {
                    Ok(handle)
                } else {
                    Err(BuildFail::RecorderClose)
                };
                self.stage = BuildStage::AwaitRelease { pending };
                BuildAction::ReleaseResources {
                    delete_surface: true,
                    delete_mem_dc: true,
                    release_screen_dc: true,
                }
            },
            (BuildStage::AwaitRelease { pending }, BuildEvent::Released) => {
                self.stage = BuildStage::Done;
                match pending {
                    Ok(handle) => BuildAction::Finish {
                        result: Ok(
                            VectorMetafile {
                                handle,
                                width_px: self.width_px,
                                height_px: self.height_px,
                                target_width: self.target_width,
                                target_height: self.target_height,
                            },
                        ),
                    },
                    Err(fail) => BuildAction::Finish { result: Err(fail) },
                }
            },
            _ => vstd::pervasive::unreached(),
        }
    }
}

/// Law: every conversion state carries, on each axis, the himetric rounding
/// of its pixel grid as the recorded target extent, so every finished
/// metafile's target rectangle is `himetric_units(width_px)` by
/// `himetric_units(height_px)` (saturated at the platform's coordinate
/// range).
pub proof fn lemma_target_rectangle(b: MetafileBuilder)
    requires
        b.wf(),
    ensures
        b.target_width == clamped_himetric(b.width_px as nat),
        b.target_height == clamped_himetric(b.height_px as nat),
{
}

/// Decodes compressed raster image bytes and prepares their conversion into
/// a vector metafile. The returned machine records, on its success path, one
/// stretch-blit of the decoded pixels (in platform channel order) into a
/// rectangle of `himetric_units(width)` by `himetric_units(height)`
/// hundredths of a millimetre.
pub fn begin_build(image_bytes: &[u8]) -> (r: Result<(MetafileBuilder, BuildAction), DecodeError>)
    ensures
        r matches Err(DecodeError::Malformed(_)) <==> !decode_succeeds(image_bytes@),
        r matches Err(DecodeError::EmptyImage) <==> (decode_succeeds(image_bytes@) && (
        decoded_width(image_bytes@) == 0 || decoded_height(image_bytes@) == 0)),
        r matches Err(DecodeError::Oversized) <==> (decode_succeeds(image_bytes@) && decoded_width(
            image_bytes@,
        ) > 0 && decoded_height(image_bytes@) > 0 && (decoded_width(image_bytes@) > i32::MAX
            || decoded_height(image_bytes@) > i32::MAX)),
        r matches Ok(p) ==> {
            &&& decode_succeeds(image_bytes@)
            &&& p.0.wf()
            &&& p.0.width_px as nat == decoded_width(image_bytes@)
            &&& p.0.height_px as nat == decoded_height(image_bytes@)
            &&& p.0.stage is AwaitScreenDc
            &&& is_bgra_of(p.0.bgra@, decoded_rgba(image_bytes@))
            &&& p.1 is AcquireScreenDc
        },
{
    match decode_raster(image_bytes) {
        Ok(img) => MetafileBuilder::new(img),
        Err(m) => Err(DecodeError::Malformed(m)),
    }
}

} // verus!
