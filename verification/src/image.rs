//! The modeled image handle and the bounds-checked pixel views over it.
//!
//! The decoding engine populates exactly one of three mutually exclusive
//! buffer shapes when it unpacks an image.  Here that state is the tagged
//! `ImageData` value a handle carries; a `Pixmap` is a read-only, dimensioned
//! view borrowed from the handle, so the borrow checker makes use after a
//! re-unpack or teardown impossible to express.

use vstd::prelude::*;

use crate::error::{from_raw_os_error, Error, Repr, EINVAL};

verus! {

/// The sample type for single-channel raw pixel data.
pub type RawPixel = u16;

/// The sample type for raw 3-color pixel data.
pub type Color3Pixel = [u16; 3];

/// The sample type for raw 4-color pixel data.
pub type Color4Pixel = [u16; 4];

/// Types of raw pixel data.
#[derive(Debug, Clone, Copy, PartialEq, Eq, Structural)]
pub enum PixelType {
    /// Each pixel is a single raw value, represented by the `RawPixel` type.
    Raw,
    /// Each pixel contains three color components, represented by the
    /// `Color3Pixel` type.
    Color3,
    /// Each pixel contains four color components, represented by the
    /// `Color4Pixel` type.
    Color4,
}

/// The pixel buffers of one decoding session, exactly as unpacking leaves
/// them: none before a successful unpack, afterwards exactly one of the
/// three mutually exclusive shapes.
#[derive(Debug, Clone)]
pub enum ImageData {
    /// Unpacking has not populated any buffer.
    NotUnpacked,
    /// Single-channel samples.
    Raw(Vec<RawPixel>),
    /// Three-channel samples.
    Color3(Vec<Color3Pixel>),
    /// Four-channel samples.
    Color4(Vec<Color4Pixel>),
}

/// True when a populated buffer spans exactly `cols * rows` samples, the
/// invariant every pixel view is constructed under.
pub open spec fn data_matches(data: ImageData, cols: int, rows: int) -> bool {
    match data {
        ImageData::NotUnpacked => true,
        ImageData::Raw(v) => v@.len() == cols * rows,
        ImageData::Color3(v) => v@.len() == cols * rows,
        ImageData::Color4(v) => v@.len() == cols * rows,
    }
}

/// One open decoding session: its raw dimensions and whichever pixel buffers
/// unpacking has populated.
#[derive(Debug)]
pub struct Image {
    pub cols: usize,
    pub rows: usize,
    pub data: ImageData,
}

impl Image {
    /// A handle is well formed when its populated buffer, if any, spans
    /// exactly `cols * rows` samples.
    pub open spec fn wf(&self) -> bool {
        data_matches(self.data, self.cols as int, self.rows as int)
    }

    /// A session over an image of the given raw dimensions, before any
    /// unpacking has populated a buffer.
    pub fn new(cols: usize, rows: usize) -> (r: Image)
        ensures
            r.cols == cols,
            r.rows == rows,
            r.data is NotUnpacked,
            r.wf(),
    {
        Image { cols, rows, data: ImageData::NotUnpacked }
    }

    /// Installs freshly unpacked pixel buffers, replacing whatever was there.
    /// Taking the handle by `&mut` ends every view issued earlier, so a
    /// semantically stale view cannot be read afterwards.
    pub fn unpack(&mut self, data: ImageData)
        requires
            data_matches(data, old(self).cols as int, old(self).rows as int),
        ensures
            final(self).cols == old(self).cols,
            final(self).rows == old(self).rows,
            final(self).data == data,
            final(self).wf(),
    {
        self.data = data;
    }

    /// Returns the pixel type of the raw data.
    ///
    /// The data must be unpacked before determining the pixel type.  The
    /// value returned from this method determines which of the raw pixmap
    /// types is available: exactly the one matching the populated buffer.
    /// Before unpacking it fails with an invalid-argument error.
    pub fn raw_pixel_type(&self) -> (r: Result<PixelType, Error>)
        ensures
            (r is Err) <==> (self.data is NotUnpacked),
            r matches Err(e) ==> e.repr == Repr::Os(EINVAL),
            self.data is Raw ==> r == Ok::<PixelType, Error>(PixelType::Raw),
            self.data is Color3 ==> r == Ok::<PixelType, Error>(PixelType::Color3),
            self.data is Color4 ==> r == Ok::<PixelType, Error>(PixelType::Color4),
    {
        match &self.data {
            ImageData::NotUnpacked => Err(from_raw_os_error(EINVAL)),
            ImageData::Raw(_) => Ok(PixelType::Raw),
            ImageData::Color3(_) => Ok(PixelType::Color3),
            ImageData::Color4(_) => Ok(PixelType::Color4),
        }
    }

    /// Returns a pixmap of the raw pixels.
    ///
    /// Succeeds exactly when unpacking populated the single-channel buffer;
    /// otherwise fails with an invalid-argument error, never a fabricated
    /// view.  Dimensions are taken from the handle at call time.
    pub fn raw_pixmap(&self) -> (r: Result<Pixmap<'_, RawPixel>, Error>)
        requires
            self.wf(),
        ensures
            (r is Ok) <==> (self.data is Raw),
            r matches Err(e) ==> e.repr == Repr::Os(EINVAL),
            self.data matches ImageData::Raw(v) ==> (r matches Ok(p) && p.cols == self.cols
                && p.rows == self.rows && p.pixels@ == v@ && p.wf()),
    {
        match &self.data {
            ImageData::Raw(v) => Ok(
                Pixmap { pixels: v.as_slice(), cols: self.cols, rows: self.rows },
            ),
            _ => Err(from_raw_os_error(EINVAL)),
        }
    }

    /// Returns a pixmap of the raw 3-color pixels.
    ///
    /// Succeeds exactly when unpacking populated the three-channel buffer;
    /// otherwise fails with an invalid-argument error.
    pub fn color3_pixmap(&self) -> (r: Result<Pixmap<'_, Color3Pixel>, Error>)
        requires
            self.wf(),
        ensures
            (r is Ok) <==> (self.data is Color3),
            r matches Err(e) ==> e.repr == Repr::Os(EINVAL),
            self.data matches ImageData::Color3(v) ==> (r matches Ok(p) && p.cols == self.cols
                && p.rows == self.rows && p.pixels@ == v@ && p.wf()),
    {
        match &self.data {
            ImageData::Color3(v) => Ok(
                Pixmap { pixels: v.as_slice(), cols: self.cols, rows: self.rows },
            ),
            _ => Err(from_raw_os_error(EINVAL)),
        }
    }

    /// Returns a pixmap of the raw 4-color pixels.
    ///
    /// Succeeds exactly when unpacking populated the four-channel buffer;
    /// otherwise fails with an invalid-argument error.
    pub fn color4_pixmap(&self) -> (r: Result<Pixmap<'_, Color4Pixel>, Error>)
        requires
            self.wf(),
        ensures
            (r is Ok) <==> (self.data is Color4),
            r matches Err(e) ==> e.repr == Repr::Os(EINVAL),
            self.data matches ImageData::Color4(v) ==> (r matches Ok(p) && p.cols == self.cols
                && p.rows == self.rows && p.pixels@ == v@ && p.wf()),
    {
        match &self.data {
            ImageData::Color4(v) => Ok(
                Pixmap { pixels: v.as_slice(), cols: self.cols, rows: self.rows },
            ),
            _ => Err(from_raw_os_error(EINVAL)),
        }
    }
}

/// Derives which buffer shape the engine populated from its buffer-presence
/// flags, in the order the engine's layout gives them priority.  The engine
/// guarantees that when the allocation pointer is set at least one shape
/// buffer is set too; a violation of that is an internal-consistency fault,
/// so it is excluded here rather than mapped to an error.
pub fn buffer_shape(alloc: bool, raw: bool, color3: bool, color4: bool) -> (r: Option<PixelType>)
    requires
        alloc ==> raw || color3 || color4,
    ensures
        (r is Some) <==> alloc,
        alloc && raw ==> r == Some(PixelType::Raw),
        alloc && !raw && color3 ==> r == Some(PixelType::Color3),
        alloc && !raw && !color3 ==> r == Some(PixelType::Color4),
{
    if !alloc {
        None
    } else if raw {
        Some(PixelType::Raw)
    } else if color3 {
        Some(PixelType::Color3)
    } else {
        Some(PixelType::Color4)
    }
}

/// Maps pixel data onto a two-dimensional grid: a read-only, non-owning view
/// over a contiguous run of exactly `cols * rows` samples.
#[derive(Debug)]
pub struct Pixmap<'a, T: Copy> {
    pub pixels: &'a [T],
    pub cols: usize,
    pub rows: usize,
}

impl<'a, T: Copy> Pixmap<'a, T> {
    /// A view is well formed when it spans exactly `cols * rows` samples.
    pub open spec fn wf(&self) -> bool {
        self.pixels@.len() == self.cols * self.rows
    }

    /// Returns the number of columns.
    pub fn cols(&self) -> (r: usize)
        ensures
            r == self.cols,
    {
        self.cols
    }

    /// Returns the number of rows.
    pub fn rows(&self) -> (r: usize)
        ensures
            r == self.rows,
    {
        self.rows
    }

    /// Returns the number of pixels.
    pub fn len(&self) -> (r: usize)
        ensures
            r == self.pixels@.len(),
    {
        self.pixels.len()
    }

    /// Returns an iterator over the pixels: a fresh pass starting at linear
    /// offset 0, whatever any earlier pass did.
    pub fn pixels(&'a self) -> (r: Pixels<'a, T>)
        requires
            self.wf(),
        ensures
            r.pixmap == self,
            r.index == 0,
            r.wf(),
    {
        Pixels { pixmap: self, index: 0 }
    }
}

/// Iterates over pixels in a pixmap: a forward-only cursor that yields one
/// pixel per sample in row-major order, each carrying its linear offset.
pub struct Pixels<'a, T: Copy> {
    pub pixmap: &'a Pixmap<'a, T>,
    pub index: usize,
}

impl<'a, T: Copy> Pixels<'a, T> {
    /// A cursor is well formed when its view is and it sits no further than
    /// one past the last sample.
    pub open spec fn wf(&self) -> bool {
        self.pixmap.wf() && self.index <= self.pixmap.pixels@.len()
    }

    /// The pixels this pass has not yet yielded, in the order it will yield
    /// them: one per remaining linear offset, ascending.
    pub open spec fn remaining(&self) -> Seq<Pixel<'a, T>> {
        Seq::new(
            (self.pixmap.pixels@.len() - self.index) as nat,
            |k: int| (Pixel { pixmap: self.pixmap, index: (self.index + k) as usize }),
        )
    }

    /// Yields the pixel at the cursor and advances by one; `None` exactly
    /// when the pass is complete.
    pub fn next(&mut self) -> (r: Option<Pixel<'a, T>>)
        requires
            old(self).wf(),
        ensures
            final(self).wf(),
            final(self).pixmap == old(self).pixmap,
            (r is Some) <==> old(self).index < old(self).pixmap.pixels@.len(),
            r matches Some(p) ==> p.pixmap == old(self).pixmap && p.index == old(self).index
                && p.wf() && final(self).index == old(self).index + 1,
            r matches Some(p) ==> old(self).remaining() == seq![p] + final(self).remaining(),
            r is None ==> final(self).index == old(self).index && old(self).remaining().len()
                == 0,
    {
        if self.index < self.pixmap.pixels.len() {
            let p = Pixel { pixmap: self.pixmap, index: self.index };
            self.index = self.index + 1;
            proof {
                assert(old(self).remaining() =~= seq![p] + self.remaining());
            }
            Some(p)
        } else {
            None
        }
    }

    /// The exact number of unyielded pixels, as a lower and upper bound.
    pub fn size_hint(&self) -> (r: (usize, Option<usize>))
        requires
            self.wf(),
        ensures
            r.0 == self.remaining().len(),
            r.1 == Some(r.0),
    {
        let remaining: usize = self.pixmap.pixels.len() - self.index;
        (remaining, Some(remaining))
    }
}

/// A reference to a pixel in a pixmap: its linear offset and the view it
/// belongs to.
pub struct Pixel<'a, T: Copy> {
    pub pixmap: &'a Pixmap<'a, T>,
    pub index: usize,
}

impl<'a, T: Copy> Pixel<'a, T> {
    /// A pixel reference is well formed when its view is and its offset lies
    /// inside it.
    pub open spec fn wf(&self) -> bool {
        self.pixmap.wf() && self.index < self.pixmap.pixels@.len()
    }

    /// Returns the column of the pixel's location within the pixmap: the
    /// linear offset modulo the column count.
    pub fn col(&self) -> (r: usize)
        requires
            self.wf(),
        ensures
            r == self.index as int % self.pixmap.cols as int,
    {
        proof {
            lemma_nonempty_grid_has_cols(
                self.pixmap.cols as int,
                self.pixmap.rows as int,
                self.index as int,
            );
        }
        self.index % self.pixmap.cols
    }

    /// Returns the row of the pixel's location within the pixmap: the linear
    /// offset divided by the column count.
    pub fn row(&self) -> (r: usize)
        requires
            self.wf(),
        ensures
            r == self.index as int / self.pixmap.cols as int,
    {
        proof {
            lemma_nonempty_grid_has_cols(
                self.pixmap.cols as int,
                self.pixmap.rows as int,
                self.index as int,
            );
        }
        self.index / self.pixmap.cols
    }

    /// Returns the pixel's value, copied out of the view.
    pub fn value(&self) -> (r: T)
        requires
            self.wf(),
        ensures
            r == self.pixmap.pixels@[self.index as int],
    {
        self.pixmap.pixels[self.index]
    }
}

/// A grid that holds an offset cannot have zero columns.
proof fn lemma_nonempty_grid_has_cols(cols: int, rows: int, index: int)
    requires
        0 <= cols,
        0 <= index < cols * rows,
    ensures
        cols > 0,
{
    if cols == 0 {
        assert(cols * rows == 0) by (nonlinear_arith)
            requires
                cols == 0,
        ;
    }
}

/// Law: a fresh pass yields exactly `cols * rows` pixels, visiting each
/// linear offset exactly once, in increasing order: the k-th pixel yielded
/// sits at offset k.
pub proof fn lemma_full_pass_visits_each_offset_once<'a, T: Copy>(it: Pixels<'a, T>)
    requires
        it.wf(),
        it.index == 0,
    ensures
        it.remaining().len() == it.pixmap.cols * it.pixmap.rows,
        forall|k: int|
            0 <= k < it.remaining().len() ==> (#[trigger] it.remaining()[k]).index == k,
{
    broadcast use vstd::slice::axiom_spec_len;

    assert(vstd::slice::spec_slice_len(it.pixmap.pixels) == it.pixmap.pixels@.len());
    assert forall|k: int| 0 <= k < it.remaining().len() implies (#[trigger] it.remaining()[
        k
    ]).index == k by {
        assert(0 <= k <= usize::MAX);
        assert((it.index + k) as usize == k);
    }
}

/// Law: a fresh pass is restart-identical: any two fresh passes over the
/// same view yield the same pixels in the same order.
pub proof fn lemma_restart_yields_identical_pass<'a, T: Copy>(
    first: Pixels<'a, T>,
    second: Pixels<'a, T>,
)
    requires
        first.wf(),
        second.wf(),
        first.pixmap == second.pixmap,
        first.index == 0,
        second.index == 0,
    ensures
        first.remaining() == second.remaining(),
{
    assert(first.remaining() =~= second.remaining());
}

} // verus!
