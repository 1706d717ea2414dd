//! The frame surface that the engine draws into, and its hand-off to presentation.
//!
//! The stepping loop writes a complete frame and marks the surface dirty; the redraw
//! path uploads a dirty surface once and clears the mark. A redraw of a surface that
//! is not dirty presents what was uploaded before. The screen geometry travels in a
//! small uniform of its own, uploaded again only after it has changed.

use vstd::prelude::*;

verus! {

/// Bytes of one pixel.
pub const BYTES_PER_PIXEL: usize = 4;

/// What came of acquiring the surface to present to.
#[derive(Clone, Copy, Debug, PartialEq, Eq, Structural)]
pub enum SurfaceStatus {
    /// A surface is there to draw to.
    Ready,
    /// None became ready in time.
    Timeout,
    /// The surface cannot be had at all.
    Failed,
}

/// What a redraw has to do.
#[derive(Clone, Copy, Debug, PartialEq, Eq, Structural)]
pub enum Redraw {
    /// Draw and present, after uploading what is marked.
    Present { upload_frame: bool, upload_geometry: bool },
    /// Leave this frame out.
    Skip,
    /// End the session.
    Fatal,
}

/// The flags of the hand-off: whether a frame waits to be uploaded, and whether the
/// geometry does.
#[derive(Clone, Copy, Debug, PartialEq, Eq, Structural)]
pub struct Marks {
    pub frame_dirty: bool,
    pub geometry_dirty: bool,
}

/// What a redraw does on `status`, and the marks it leaves. The geometry goes up only
/// together with a frame.
pub open spec fn spec_redraw(marks: Marks, status: SurfaceStatus) -> (Redraw, Marks) {
    match status {
        SurfaceStatus::Ready => (
            Redraw::Present {
                upload_frame: marks.frame_dirty,
                upload_geometry: marks.frame_dirty && marks.geometry_dirty,
            },
            Marks {
                frame_dirty: false,
                geometry_dirty: marks.geometry_dirty && !marks.frame_dirty,
            },
        ),
        SurfaceStatus::Timeout => (Redraw::Skip, marks),
        SurfaceStatus::Failed => (Redraw::Fatal, marks),
    }
}

/// The pixels of the latest frame and whether they have yet to be uploaded.
#[derive(Debug, PartialEq, Eq)]
pub struct FrameSurface {
    pixels: Vec<u8>,
    dirty: bool,
}

impl FrameSurface {
    /// The bytes of the frame, four to a pixel, row after row.
    pub closed spec fn spec_pixels(&self) -> Seq<u8> {
        self.pixels@
    }

    pub closed spec fn spec_dirty(&self) -> bool {
        self.dirty
    }

    /// A black surface of `width` by `height` pixels that is still to be uploaded, or
    /// `None` where its bytes cannot be counted in a `usize`.
    pub fn new(width: u32, height: u32) -> (surface: Option<FrameSurface>)
        ensures
            4 * width * height > usize::MAX ==> surface is None,
            4 * width * height <= usize::MAX ==> (surface matches Some(s)
                && s.spec_pixels() == Seq::new((4 * width * height) as nat, |i: int| 0u8)
                && s.spec_dirty()),
    {
        assert(4 * width * height <= 4 * 0xffff_ffff * 0xffff_ffff) by (nonlinear_arith)
            requires
                width <= 0xffff_ffff,
                height <= 0xffff_ffff,
        ;
        let bytes: u128 = 4 * (width as u128) * (height as u128);
        if bytes > usize::MAX as u128 {
            None
        } else {
            let pixels: Vec<u8> = vec![0u8; bytes as usize];
            assert(pixels@ =~= Seq::new((4 * width * height) as nat, |i: int| 0u8));
            Some(FrameSurface { pixels, dirty: true })
        }
    }

    pub fn is_dirty(&self) -> (dirty: bool)
        ensures
            dirty == self.spec_dirty(),
    {
        self.dirty
    }

    pub fn pixels(&self) -> (pixels: &Vec<u8>)
        ensures
            pixels@ == self.spec_pixels(),
    {
        &self.pixels
    }

    /// Takes a complete frame from the engine and marks the surface dirty. A frame of
    /// another size than the surface is refused, and the surface stays as it was.
    pub fn write_frame(&mut self, frame: &[u8]) -> (written: bool)
        ensures
            written == (frame@.len() == old(self).spec_pixels().len()),
            written ==> final(self).spec_pixels() == frame@ && final(self).spec_dirty(),
            !written ==> *final(self) == *old(self),
    {
        if frame.len() != self.pixels.len() {
            return false;
        }
        let mut i: usize = 0;
        while i < frame.len()
            invariant
                i <= frame@.len(),
                frame@.len() == self.pixels@.len(),
                self.dirty == old(self).dirty,
                forall|k: int| 0 <= k < i ==> self.pixels@[k] == frame@[k],
            decreases frame@.len() - i,
        {
            self.pixels[i] = frame[i];
            i += 1;
        }
        self.dirty = true;
        assert(self.pixels@ =~= frame@);
        true
    }
}

/// The geometry that the vertex stage needs: the size of the output, the height of a
/// native frame and the scanlines that are visible.
#[derive(Clone, Copy, Debug, PartialEq, Eq, Structural)]
pub struct ScreenGeometry {
    pub width: u32,
    pub height: u32,
    pub native_height: u32,
    pub visible_lines: u32,
}

/// The redraw path's own state: the geometry and whether it is still to be uploaded.
#[derive(Clone, Copy, Debug, PartialEq, Eq, Structural)]
pub struct Presenter {
    pub geometry: ScreenGeometry,
    pub geometry_dirty: bool,
}

/// The presenter after the output took a new size: the geometry is marked for upload
/// where the size differs from the one held.
pub open spec fn spec_resized(before: Presenter, width: u32, height: u32) -> Presenter {
    Presenter {
        geometry: ScreenGeometry { width, height, ..before.geometry },
        geometry_dirty: before.geometry_dirty || width != before.geometry.width || height
            != before.geometry.height,
    }
}

impl Presenter {
    /// A presenter whose geometry is still to be uploaded.
    pub fn new(geometry: ScreenGeometry) -> (presenter: Presenter)
        ensures
            presenter == (Presenter { geometry, geometry_dirty: true }),
    {
        Presenter { geometry, geometry_dirty: true }
    }

    /// The four words of the geometry uniform, in the order in which they lie in it.
    pub fn geometry_words(&self) -> (words: [u32; 4])
        ensures
            words@ == seq![
                self.geometry.width,
                self.geometry.height,
                self.geometry.native_height,
                self.geometry.visible_lines,
            ],
    {
        let words: [u32; 4] = [
            self.geometry.width,
            self.geometry.height,
            self.geometry.native_height,
            self.geometry.visible_lines,
        ];
        assert(words@ =~= seq![
            self.geometry.width,
            self.geometry.height,
            self.geometry.native_height,
            self.geometry.visible_lines,
        ]);
        words
    }

    /// Takes the new size of the output.
    pub fn resize(&mut self, width: u32, height: u32)
        ensures
            *final(self) == spec_resized(*old(self), width, height),
    {
        if self.geometry.width != width || self.geometry.height != height {
            self.geometry_dirty = true;
        }
        self.geometry.width = width;
        self.geometry.height = height;
    }

    /// Decides a redraw. On a surface that is ready, a dirty frame is uploaded and its
    /// mark cleared, and with it the geometry where that is marked; a frame that is
    /// not dirty is presented again without any upload. A surface that timed out
    /// costs this frame and nothing else; one that failed ends the session. The
    /// pixels are never touched.
    pub fn redraw(&mut self, surface: &mut FrameSurface, status: SurfaceStatus) -> (plan: Redraw)
        ensures
            final(surface).spec_pixels() == old(surface).spec_pixels(),
            final(self).geometry == old(self).geometry,
            (plan, Marks {
                frame_dirty: final(surface).spec_dirty(),
                geometry_dirty: final(self).geometry_dirty,
            }) == spec_redraw(
                Marks {
                    frame_dirty: old(surface).spec_dirty(),
                    geometry_dirty: old(self).geometry_dirty,
                },
                status,
            ),
    {
        match status {
            SurfaceStatus::Ready => {
                let upload_frame: bool = surface.dirty;
                let upload_geometry: bool = upload_frame && self.geometry_dirty;
                surface.dirty = false;
                if upload_geometry {
                    self.geometry_dirty = false;
                }
                Redraw::Present { upload_frame, upload_geometry }
            },
            SurfaceStatus::Timeout => Redraw::Skip,
            SurfaceStatus::Failed => Redraw::Fatal,
        }
    }
}

/// A redraw that finds no dirty frame uploads nothing and changes no mark, whatever
/// became of the surface.
pub proof fn lemma_clean_redraw_changes_nothing(marks: Marks, status: SurfaceStatus)
    requires
        !marks.frame_dirty,
    ensures
        spec_redraw(marks, status).1 == marks,
        status == SurfaceStatus::Ready ==> spec_redraw(marks, status).0 == (Redraw::Present {
            upload_frame: false,
            upload_geometry: false,
        }),
{
}

/// Two redraws in a row on a ready surface: the second uploads nothing and leaves the
/// marks as the first left them.
pub proof fn lemma_redraw_is_idempotent(marks: Marks)
    ensures
        ({
            let first = spec_redraw(marks, SurfaceStatus::Ready);
            let second = spec_redraw(first.1, SurfaceStatus::Ready);
            &&& second.0 == (Redraw::Present { upload_frame: false, upload_geometry: false })
            &&& second.1 == first.1
        }),
{
}

} // verus!
