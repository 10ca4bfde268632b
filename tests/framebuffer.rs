use kernel::framebuffer::{FrameBufferWriter, FrameInfo, PixelFormat};

fn info(format: PixelFormat, bpp: usize) -> FrameInfo {
    FrameInfo { byte_len: 4 * 3 * bpp, width: 3, height: 3, pixel_format: format, bytes_per_pixel: bpp, stride: 4 }
}

fn writer(format: PixelFormat, bpp: usize) -> FrameBufferWriter {
    let i = info(format, bpp);
    FrameBufferWriter::new(vec![0u8; i.byte_len], i)
}

#[test]
fn geometry_and_cursor() {
    let w = writer(PixelFormat::Rgb, 3);
    assert_eq!(w.width(), 3);
    assert_eq!(w.height(), 3);
    assert_eq!(w.pos(), [0, 0]);
}

#[test]
fn rgb_pixel_bytes() {
    let mut w = writer(PixelFormat::Rgb, 3);
    w.draw_pixel(1, 2, 10, 20, 30);
    let off = (2 * 4 + 1) * 3;
    assert_eq!(&w.buffer()[off..off + 3], &[10, 20, 30]);
    assert_eq!(w.buffer().iter().filter(|&&b| b != 0).count(), 3);
}

#[test]
fn bgr_pixel_bytes() {
    let mut w = writer(PixelFormat::Bgr, 3);
    w.draw_pixel(0, 0, 10, 20, 30);
    assert_eq!(&w.buffer()[0..3], &[30, 20, 10]);
}

#[test]
fn grey_pixel_byte() {
    let mut w = writer(PixelFormat::U8, 1);
    w.draw_pixel(3, 1, 40, 20, 10);
    assert_eq!(u32::from(w.buffer()[4 + 3]), (30 * 40 + 59 * 20 + 11 * 10) / 10);
    assert_eq!(w.buffer()[4 + 3], 249);
}
