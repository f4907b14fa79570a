use vstd::prelude::*;

verus! {

/// One pixel, red, green, blue and alpha, eight bits each.
#[derive(Clone, Copy, Debug, PartialEq, Eq, Structural)]
pub struct Rgba {
    pub r: u8,
    pub g: u8,
    pub b: u8,
    pub a: u8,
}

/// Why a pixel buffer or a captured frame was refused.
#[derive(Clone, Copy, Debug, PartialEq, Eq, Structural)]
pub enum CaptureError {
    /// The number of pixels is not `width * height`.
    LengthMismatch,
    /// The platform reported a pixel of fewer than eight bits, so no whole
    /// number of bytes makes one pixel.
    SubBytePixel,
    /// The raw data does not hold whole four-byte pixels.
    PartialPixel,
}

/// What a pixel buffer is: its geometry and its pixels, row by row.
pub struct PixelsView {
    pub width: nat,
    pub height: nat,
    pub pixels: Seq<Rgba>,
}

/// An owned block of pixels with its width and height; it always holds
/// exactly `width * height` pixels.
pub struct PixelBuffer {
    data: Vec<Rgba>,
    width: usize,
    height: usize,
}

impl View for PixelBuffer {
    type V = PixelsView;

    closed spec fn view(&self) -> PixelsView {
        PixelsView { width: self.width as nat, height: self.height as nat, pixels: self.data@ }
    }
}

impl PixelBuffer {
    #[verifier::type_invariant]
    spec fn inv(&self) -> bool {
        self.data@.len() == self.width * self.height
    }

    /// Takes `data` as a `width` by `height` image; refuses it unless it holds
    /// exactly `width * height` pixels.
    pub fn new(data: Vec<Rgba>, width: usize, height: usize) -> (r: Result<
        PixelBuffer,
        CaptureError,
    >)
        ensures
            r is Ok <==> data@.len() == width * height,
            r is Err ==> r == Err::<PixelBuffer, CaptureError>(CaptureError::LengthMismatch),
            r matches Ok(b) ==> b@.width == width && b@.height == height && b@.pixels == data@,
    {
        let len: usize = data.len();
        let ok = match width.checked_mul(height) {
            Some(n) => len == n,
            None => false,
        };
        if ok {
            Ok(PixelBuffer { data, width, height })
        } else {
            Err(CaptureError::LengthMismatch)
        }
    }

    pub fn width(&self) -> (r: usize)
        ensures
            r == self@.width,
    {
        self.width
    }

    pub fn height(&self) -> (r: usize)
        ensures
            r == self@.height,
    {
        self.height
    }

    /// The number of pixels, which is always the width times the height.
    pub fn len(&self) -> (r: usize)
        ensures
            r == self@.pixels.len(),
            r == self@.width * self@.height,
    {
        proof {
            use_type_invariant(self);
        }
        self.data.len()
    }

    /// The pixels, row by row.
    pub fn pixels(&self) -> (r: &[Rgba])
        ensures
            r@ == self@.pixels,
            r@.len() == self@.width * self@.height,
    {
        proof {
            use_type_invariant(self);
        }
        self.data.as_slice()
    }

    /// Gives the pixels up, with the width and the height.
    pub fn into_parts(self) -> (r: (Vec<Rgba>, usize, usize))
        ensures
            r.0@ == self@.pixels,
            r.1 == self@.width,
            r.2 == self@.height,
            r.0@.len() == r.1 * r.2,
    {
        proof {
            use_type_invariant(&self);
        }
        (self.data, self.width, self.height)
    }

    /// Whether the buffer is `width` by `height`.
    pub fn has_geometry(&self, width: usize, height: usize) -> (r: bool)
        ensures
            r == (self@.width == width && self@.height == height),
    {
        self.width == width && self.height == height
    }
}

/// The pixel that four bytes in blue, green, red, alpha order stand for.
pub open spec fn pixel_of_bgra(raw: Seq<u8>, i: int) -> Rgba {
    Rgba { r: raw[4 * i + 2], g: raw[4 * i + 1], b: raw[4 * i], a: raw[4 * i + 3] }
}

/// The width of a captured image, from its row stride and its pixel size: the
/// bytes of one row divided by the bytes of one pixel.
pub open spec fn row_width(bytes_per_row: nat, bits_per_pixel: nat) -> nat
    recommends
        bits_per_pixel >= 8,
{
    bytes_per_row / (bits_per_pixel / 8)
}

/// Reorders raw pixels from blue, green, red, alpha to red, green, blue, alpha.
pub fn bgra_to_rgba(raw: &[u8]) -> (r: Vec<Rgba>)
    requires
        raw@.len() % 4 == 0,
    ensures
        r@.len() == raw@.len() / 4,
        forall|i: int| 0 <= i < r@.len() ==> r@[i] == pixel_of_bgra(raw@, i),
{
    let total: usize = raw.len();
    let n: usize = total / 4;
    let mut out: Vec<Rgba> = Vec::with_capacity(n);
    let mut i: usize = 0;
    while i < n
        invariant
            n == raw@.len() / 4,
            total == raw@.len(),
            raw@.len() % 4 == 0,
            i <= n,
            out@.len() == i,
            forall|j: int| 0 <= j < i ==> out@[j] == pixel_of_bgra(raw@, j),
        decreases n - i,
    {
        assert(4 * i + 3 < raw@.len()) by (nonlinear_arith)
            requires
                i < n,
                n == raw@.len() / 4,
                raw@.len() % 4 == 0,
        ;
        let k: usize = 4 * i;
        out.push(Rgba { r: raw[k + 2], g: raw[k + 1], b: raw[k], a: raw[k + 3] });
        i = i + 1;
    }
    out
}

/// Builds a frame from what the platform's screen read returned: `raw` holds
/// `height` rows in blue, green, red, alpha order, `bytes_per_row` bytes per
/// row, and the width follows from the row stride and the pixel size.
pub fn frame_from_bgra(raw: &[u8], bytes_per_row: usize, bits_per_pixel: usize, height: usize) -> (r:
    Result<PixelBuffer, CaptureError>)
    ensures
        bits_per_pixel < 8 ==> r == Err::<PixelBuffer, CaptureError>(CaptureError::SubBytePixel),
        bits_per_pixel >= 8 && raw@.len() % 4 != 0 ==> r == Err::<PixelBuffer, CaptureError>(
            CaptureError::PartialPixel,
        ),
        bits_per_pixel >= 8 && raw@.len() % 4 == 0 && raw@.len() / 4 != row_width(
            bytes_per_row as nat,
            bits_per_pixel as nat,
        ) * height ==> r == Err::<PixelBuffer, CaptureError>(CaptureError::LengthMismatch),
        r is Ok <==> (bits_per_pixel >= 8 && raw@.len() % 4 == 0 && raw@.len() / 4 == row_width(
            bytes_per_row as nat,
            bits_per_pixel as nat,
        ) * height),
        r matches Ok(b) ==> {
            &&& b@.width == row_width(bytes_per_row as nat, bits_per_pixel as nat)
            &&& b@.height == height
            &&& b@.pixels.len() == raw@.len() / 4
            &&& forall|i: int| 0 <= i < b@.pixels.len() ==> b@.pixels[i] == pixel_of_bgra(raw@, i)
        },
{
    if bits_per_pixel < 8 {
        return Err(CaptureError::SubBytePixel);
    }
    if raw.len() % 4 != 0 {
        return Err(CaptureError::PartialPixel);
    }
    let width: usize = bytes_per_row / (bits_per_pixel / 8);
    let pixels = bgra_to_rgba(raw);
    PixelBuffer::new(pixels, width, height)
}

} // verus!
