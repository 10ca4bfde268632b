//! A linear framebuffer: pixels of a few bytes each, row after row.
use vstd::prelude::*;

verus! {

/// How the bytes of one pixel encode its colour.
#[derive(Clone, Copy, Debug, PartialEq, Eq, Structural)]
pub enum PixelFormat {
    /// Red, green, blue, one byte each.
    Rgb,
    /// Blue, green, red, one byte each.
    Bgr,
    /// One grey byte.
    U8,
    /// Any other encoding, which this writer does not draw.
    Unknown,
}

/// The geometry and encoding of a framebuffer.
#[derive(Clone, Copy, Debug, PartialEq, Eq, Structural)]
pub struct FrameInfo {
    pub byte_len: usize,
    pub width: usize,
    pub height: usize,
    pub pixel_format: PixelFormat,
    pub bytes_per_pixel: usize,
    /// Pixels from the start of one line to the start of the next.
    pub stride: usize,
}

/// The grey level of a colour: 30% red, 59% green and 11% blue, scaled by ten.
pub open spec fn grey_spec(red: u8, green: u8, blue: u8) -> int {
    (30 * red + 59 * green + 11 * blue) / 10
}

/// The bytes of one pixel of colour (`red`, `green`, `blue`) in `format`.
pub open spec fn pixel_bytes(format: PixelFormat, red: u8, green: u8, blue: u8) -> Seq<u8> {
    match format {
        PixelFormat::Rgb => seq![red, green, blue],
        PixelFormat::Bgr => seq![blue, green, red],
        _ => seq![grey_spec(red, green, blue) as u8, 0u8, 0u8],
    }
}

/// Index of the first byte of the pixel at (`x`, `y`).
pub open spec fn byte_offset_spec(info: FrameInfo, x: int, y: int) -> int {
    (y * info.stride + x) * info.bytes_per_pixel
}

/// The writer's buffer, geometry and cursor.
pub struct FrameView {
    pub buf: Seq<u8>,
    pub info: FrameInfo,
    pub pos_x: int,
    pub pos_y: int,
}

pub struct FrameBufferWriter {
    buf: Vec<u8>,
    info: FrameInfo,
    pos_x: usize,
    pos_y: usize,
}

impl View for FrameBufferWriter {
    type V = FrameView;

    closed spec fn view(&self) -> FrameView {
        FrameView { buf: self.buf@, info: self.info, pos_x: self.pos_x as int, pos_y: self.pos_y as int }
    }
}

impl FrameBufferWriter {
    /// A writer over `buf`, laid out as `info` says, with its cursor at the origin.
    pub fn new(buf: Vec<u8>, info: FrameInfo) -> (r: FrameBufferWriter)
        ensures
            r@ == (FrameView { buf: buf@, info, pos_x: 0, pos_y: 0 }),
    {
        FrameBufferWriter { buf, info, pos_x: 0, pos_y: 0 }
    }

    pub fn width(&self) -> (r: usize)
        ensures
            r == self@.info.width,
    {
        self.info.width
    }

    pub fn height(&self) -> (r: usize)
        ensures
            r == self@.info.height,
    {
        self.info.height
    }

    /// The framebuffer's geometry and encoding.
    pub fn info(&self) -> (r: FrameInfo)
        ensures
            r == self@.info,
    {
        self.info
    }

    /// The cursor, column first.
    pub fn pos(&self) -> (r: [usize; 2])
        ensures
            r@ == seq![self@.pos_x as usize, self@.pos_y as usize],
    {
        let r = [self.pos_x, self.pos_y];
        assert(r@ =~= seq![self.pos_x, self.pos_y]);
        r
    }

    /// The buffer's bytes.
    pub fn buffer(&self) -> (r: &Vec<u8>)
        ensures
            r@ == self@.buf,
    {
        &self.buf
    }

    /// Sets the pixel at (`pos_x`, `pos_y`) to the colour, in the buffer's
    /// encoding: the pixel's first `bytes_per_pixel` bytes get the encoded
    /// colour and no other byte changes. Grey pixels must not exceed 255.
    pub fn draw_pixel(&mut self, pos_x: usize, pos_y: usize, red: u8, green: u8, blue: u8)
        requires
            old(self)@.info.pixel_format != PixelFormat::Unknown,
            old(self)@.info.bytes_per_pixel <= 3,
            pos_y * old(self)@.info.stride + pos_x <= usize::MAX,
            byte_offset_spec(old(self)@.info, pos_x as int, pos_y as int)
                + old(self)@.info.bytes_per_pixel <= old(self)@.buf.len(),
            old(self)@.info.pixel_format == PixelFormat::U8 ==> grey_spec(red, green, blue) <= 255,
        ensures
            final(self)@ == (FrameView {
                buf: Seq::new(
                    old(self)@.buf.len(),
                    |k: int|
                        {
                            let off = byte_offset_spec(old(self)@.info, pos_x as int, pos_y as int);
                            if off <= k < off + old(self)@.info.bytes_per_pixel {
                                pixel_bytes(old(self)@.info.pixel_format, red, green, blue)[k - off]
                            } else {
                                old(self)@.buf[k]
                            }
                        },
                ),
                ..old(self)@
            }),
    {
        let bpp = self.info.bytes_per_pixel;
        let stride = self.info.stride;
        let len = self.buf.len();
        proof {
            let p = pos_y * stride + pos_x;
            assert(pos_y * stride <= p);
            assert(p * bpp + bpp <= len);
            if bpp > 0 {
                assert(p <= p * bpp) by (nonlinear_arith)
                    requires
                        bpp >= 1,
                        p >= 0,
                ;
            }
        }
        let pixel_offset = pos_y * stride + pos_x;
        let colour: [u8; 3] = match self.info.pixel_format {
            PixelFormat::Rgb => [red, green, blue],
            PixelFormat::Bgr => [blue, green, red],
            _ => {
                let sum: u32 = 30 * red as u32 + 59 * green as u32 + 11 * blue as u32;
                let grey = (sum / 10) as u8;
                [grey, 0, 0]
            },
        };
        assert(colour@ =~= pixel_bytes(self.info.pixel_format, red, green, blue));
        let byte_offset = pixel_offset * bpp;
        let ghost before = self.buf@;
        let mut i: usize = 0;
        while i < bpp
            invariant
                bpp == self.info.bytes_per_pixel,
                bpp <= 3,
                self.info == old(self)@.info,
                self.pos_x == old(self)@.pos_x,
                self.pos_y == old(self)@.pos_y,
                before == old(self)@.buf,
                len == before.len(),
                byte_offset == byte_offset_spec(old(self)@.info, pos_x as int, pos_y as int),
                byte_offset + bpp <= before.len(),
                i <= bpp,
                self.buf@.len() == before.len(),
                colour@ == pixel_bytes(self.info.pixel_format, red, green, blue),
                forall|k: int|
                    0 <= k < before.len() ==> #[trigger] self.buf@[k] == if byte_offset <= k
                        < byte_offset + i {
                        colour@[k - byte_offset]
                    } else {
                        before[k]
                    },
            decreases bpp - i,
        {
            self.buf.set(byte_offset + i, colour[i]);
            i = i + 1;
        }
        assert(self@.buf =~= Seq::new(
            old(self)@.buf.len(),
            |k: int|
                {
                    let off = byte_offset_spec(old(self)@.info, pos_x as int, pos_y as int);
                    if off <= k < off + old(self)@.info.bytes_per_pixel {
                        pixel_bytes(old(self)@.info.pixel_format, red, green, blue)[k - off]
                    } else {
                        old(self)@.buf[k]
                    }
                },
        ));
    }
}

} // verus!
