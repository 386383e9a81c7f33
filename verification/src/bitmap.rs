use vstd::prelude::*;
use crate::errors::DecodeError;

verus! {

/// An incoming bitmap event as the protocol library decodes it from
/// the wire: a destination rectangle, the dimensions and colour depth
/// of the pixel buffer, and the payload, which is run-length encoded
/// when `is_compress` holds.
pub struct BitmapEvent {
    /// Left edge of the destination rectangle, in pixels.
    pub dest_left: u16,
    /// Top edge of the destination rectangle, in pixels.
    pub dest_top: u16,
    /// Right edge of the destination rectangle, in pixels.
    pub dest_right: u16,
    /// Bottom edge of the destination rectangle, in pixels.
    pub dest_bottom: u16,
    /// Width of the pixel buffer once decoded; may exceed the
    /// rectangle's width.
    pub width: u16,
    /// Height of the pixel buffer once decoded; may exceed the
    /// rectangle's height.
    pub height: u16,
    /// Bits per pixel of the payload.
    pub bpp: u16,
    /// Whether the payload is run-length encoded.
    pub is_compress: bool,
    /// The payload.
    pub data: Vec<u8>,
}

/// A decoded bitmap ready to hand to the caller's sink: the
/// destination rectangle and the plain pixel bytes.
#[derive(Debug)]
pub struct Bitmap {
    pub dest_left: u16,
    pub dest_top: u16,
    pub dest_right: u16,
    pub dest_bottom: u16,
    /// The decoded (and, where needed, decompressed) pixel bytes.
    pub data: Vec<u8>,
}

/// The pixel bytes that the protocol library's bitmap decoder yields
/// for a payload of the given dimensions, depth and compression flag:
/// a function of these arguments alone. `None` stands for the decoder
/// rejecting the payload.
pub uninterp spec fn rle_pixels(
    data: Seq<u8>,
    width: u16,
    height: u16,
    bpp: u16,
    compressed: bool,
) -> Option<Seq<u8>>;

/// How many literal colour bytes one code of the 32-bit plane decoder
/// consumes: the high nibble, except that codes the decoder remaps to
/// a bare run (a combined value of 16 to 47) carry none.
pub open spec fn rle32_code_literals(code: u8) -> int {
    let replen = (code & 0x0f) as int;
    let collen = ((code >> 4) & 0x0f) as int;
    if 16 <= replen * 16 + collen <= 47 {
        0
    } else {
        collen
    }
}

/// How many pixels one code of the 32-bit plane decoder emits: its
/// literal bytes plus its run, remapped as the decoder remaps it.
pub open spec fn rle32_code_pixels(code: u8) -> int {
    let replen = (code & 0x0f) as int;
    let collen = ((code >> 4) & 0x0f) as int;
    if 16 <= replen * 16 + collen <= 47 {
        replen * 16 + collen
    } else {
        collen + replen
    }
}

/// Walks the run-length codes of the four 32-bit colour planes, one
/// row of `width` pixels at a time. The decoder indexes each plane by
/// the running pixel count without holding it to the row width, so a
/// code that pushes any row past its width can write or read outside
/// the plane and abort the process: exactly those streams are refused.
/// A stream that ends early only makes the decoder report an error,
/// and bytes left after the last row are ignored, so both are safe.
pub open spec fn rle32_scan(
    data: Seq<u8>,
    width: int,
    pos: int,
    rows_left: int,
    indexw: int,
) -> bool
    decreases data.len() - pos,
{
    if rows_left <= 0 {
        true
    } else if !(0 <= pos < data.len()) {
        true
    } else {
        let code = data[pos];
        let literals = rle32_code_literals(code);
        let pixels = rle32_code_pixels(code);
        if indexw + pixels > width {
            false
        } else if pos + 1 + literals > data.len() {
            true
        } else if indexw + pixels == width {
            rle32_scan(data, width, pos + 1 + literals, rows_left - 1, 0)
        } else {
            rle32_scan(data, width, pos + 1 + literals, rows_left, indexw + pixels)
        }
    }
}

/// Whether a compressed 32-bit-deep payload can be handed to the
/// decoder without aborting it. A missing or wrong plane header only
/// makes the decoder report an error, so those payloads are safe.
pub open spec fn rle32_stream_safe(data: Seq<u8>, width: u16, height: u16) -> bool {
    if data.len() == 0 {
        true
    } else if data[0] != 0x10 {
        true
    } else {
        rle32_scan(data, width as int, 1, 4 * (height as int), 0)
    }
}

/// The first stage of one 16-bit code: the opcode class and the run
/// count, with the count extension byte or count word consumed. A
/// negative position stands for a stream that ends inside them, on
/// which the decoder reports an error.
pub open spec fn rle16_head(data: Seq<u8>, pos: int) -> (int, int, int) {
    let code = data[pos];
    let hi = (code >> 4) as int;
    if 12 <= hi <= 14 {
        let op = hi - 6;
        let c0 = (code & 0x0f) as int;
        if c0 == 0 {
            if pos + 1 >= data.len() {
                (op, 0, -1)
            } else {
                (op, data[pos + 1] as int + (if op == 7 { 1int } else { 16 }), pos + 2)
            }
        } else {
            (op, if op == 7 { c0 * 8 } else { c0 }, pos + 1)
        }
    } else if hi == 15 {
        let op = (code & 0x0f) as int;
        if op < 9 {
            if pos + 2 >= data.len() {
                (op, 0, -1)
            } else {
                (op, data[pos + 1] as int + 256 * (data[pos + 2] as int), pos + 3)
            }
        } else if op < 11 {
            (op, 8, pos + 1)
        } else {
            (op, 1, pos + 1)
        }
    } else {
        let op = hi / 2;
        let c0 = (code & 0x1f) as int;
        if c0 == 0 {
            if pos + 1 >= data.len() {
                (op, 0, -1)
            } else {
                (op, data[pos + 1] as int + (if op == 2 { 1int } else { 32 }), pos + 2)
            }
        } else {
            (op, if op == 2 { c0 * 8 } else { c0 }, pos + 1)
        }
    }
}

/// The second stage of one 16-bit code: the colour and mix words
/// consumed ahead of the run, and the opcode the run dispatches on,
/// with the two foreground-mask forms folded into their base opcode.
pub open spec fn rle16_body(data: Seq<u8>, pos: int, op: int) -> (int, bool, int) {
    if op == 8 {
        if pos + 4 <= data.len() {
            (8, false, pos + 4)
        } else {
            (8, false, -1)
        }
    } else if op == 3 {
        if pos + 2 <= data.len() {
            (3, false, pos + 2)
        } else {
            (3, false, -1)
        }
    } else if op == 6 || op == 7 {
        if pos + 2 <= data.len() {
            (op - 5, false, pos + 2)
        } else {
            (op, false, -1)
        }
    } else if op == 9 || op == 10 {
        (2, true, pos)
    } else {
        (op, false, pos)
    }
}

/// Walks the 16-bit code stream against the pixel capacity
/// `width * height`. The decoder's buffer indexing is bounded, but two
/// things abort it, and exactly those are refused: an opcode it has no
/// arm for, reached while a pixel is still owed (with the capacity
/// already spent it reports an error first), and a two-colour run
/// whose counter, which the run itself increments, would overflow.
/// A stream that ends early, or one that asks for more pixels than
/// the capacity holds, only makes the decoder report an error. A
/// foreground-mask run reads one mask byte for every eight pixels it
/// actually emits, and a raw run reads one colour word per pixel; both
/// are walked so later codes are classified at their true offsets.
pub open spec fn rle16_scan(data: Seq<u8>, pos: int, cap: int) -> bool
    decreases data.len() - pos,
{
    if !(0 <= pos < data.len()) {
        true
    } else {
        let (op1, count, pos1) = rle16_head(data, pos);
        if pos1 < 0 {
            true
        } else {
            let (op2, fom, pos2) = rle16_body(data, pos1, op1);
            if pos2 < 0 {
                true
            } else if op2 == 0 || op2 == 1 || op2 == 3 || op2 == 13 || op2 == 14 {
                if count > cap {
                    true
                } else {
                    rle16_scan(data, pos2, cap - count)
                }
            } else if op2 == 2 {
                let masks = if fom {
                    0int
                } else {
                    ((if count <= cap { count } else { cap }) + 7) / 8
                };
                if pos2 + masks > data.len() {
                    true
                } else if count > cap {
                    true
                } else {
                    rle16_scan(data, pos2 + masks, cap - count)
                }
            } else if op2 == 4 {
                let reads = 2 * (if count <= cap { count } else { cap });
                if pos2 + reads > data.len() {
                    true
                } else if count > cap {
                    true
                } else {
                    rle16_scan(data, pos2 + reads, cap - count)
                }
            } else if op2 == 8 {
                if count == 0 {
                    rle16_scan(data, pos2, cap)
                } else if cap == 0 {
                    true
                } else if count > 0xfffe {
                    false
                } else if 2 * count > cap {
                    true
                } else {
                    rle16_scan(data, pos2, cap - 2 * count)
                }
            } else {
                if count == 0 {
                    rle16_scan(data, pos2, cap)
                } else if cap == 0 {
                    true
                } else {
                    false
                }
            }
        }
    }
}

/// Whether a compressed 16-bit-deep payload can be handed to the
/// decoder without aborting it.
pub open spec fn rle16_stream_safe(data: Seq<u8>, width: u16, height: u16) -> bool {
    rle16_scan(data, 0, (width as int) * (height as int))
}

/// The payloads on which the decoder runs to completion: a compressed
/// buffer needs at least one pixel and a run-length stream that stays
/// within its declared dimensions (and, at 32 bits, a byte count that
/// fits the decoder's 32-bit offsets); an uncompressed 16-bit-deep
/// payload must cover its dimensions, which must stay within the
/// decoder's 16-bit index arithmetic.
pub open spec fn bitmap_within_bounds(b: BitmapEvent) -> bool {
    &&& (b.bpp == 32 && b.is_compress ==> b.width >= 1 && b.height >= 1 && 4 * (b.width
        * b.height) <= u32::MAX && rle32_stream_safe(b.data@, b.width, b.height))
    &&& (b.bpp == 16 && b.is_compress ==> b.width >= 1 && b.height >= 1 && rle16_stream_safe(
        b.data@,
        b.width,
        b.height,
    ))
    &&& (b.bpp == 16 && !b.is_compress ==> b.data@.len() >= 2 * (b.width * b.height)
        && b.width * b.height <= 32768)
}

/// The pixel bytes a bitmap event decodes to, or `None` where decoding
/// fails: an uncompressed 32-bit-deep payload is already the pixel
/// bytes; anything else goes through the protocol library's decoder.
pub open spec fn decoded_pixels(b: BitmapEvent) -> Option<Seq<u8>> {
    if b.bpp == 32 && !b.is_compress {
        Some(b.data@)
    } else if b.bpp != 16 && b.bpp != 32 {
        None
    } else if !bitmap_within_bounds(b) {
        None
    } else {
        rle_pixels(b.data@, b.width, b.height, b.bpp, b.is_compress)
    }
}

/// The error reported for a bitmap event that does not decode.
pub open spec fn decode_failure(b: BitmapEvent) -> DecodeError {
    if b.bpp != 16 && b.bpp != 32 {
        DecodeError::Unsupported
    } else if !bitmap_within_bounds(b) {
        DecodeError::Malformed
    } else {
        DecodeError::Corrupt
    }
}

/// Relies on the protocol library's `BitmapEvent::decompress`: the
/// pixel bytes it returns depend only on the payload, the dimensions,
/// the colour depth and the compression flag, never on the destination
/// rectangle or anything outside its arguments. The bounds required
/// here keep its index arithmetic inside its buffers and refuse the
/// streams on which it would abort instead of returning, so every
/// admitted input comes back as `Ok` or `Err`.
#[verifier::external_body]
fn decompress_bitmap(
    dest_left: u16,
    dest_top: u16,
    dest_right: u16,
    dest_bottom: u16,
    width: u16,
    height: u16,
    bpp: u16,
    is_compress: bool,
    data: Vec<u8>,
) -> (r: Result<Vec<u8>, rdp::model::error::Error>)
    requires
        bpp == 16 || bpp == 32,
        bpp == 32 && is_compress ==> width >= 1 && height >= 1 && 4 * (width * height)
            <= u32::MAX && rle32_stream_safe(data@, width, height),
        bpp == 16 && is_compress ==> width >= 1 && height >= 1 && rle16_stream_safe(
            data@,
            width,
            height,
        ),
        bpp == 16 && !is_compress ==> data@.len() >= 2 * (width * height) && width * height
            <= 32768,
    ensures
        r is Ok <==> rle_pixels(data@, width, height, bpp, is_compress) is Some,
        r is Ok ==> r.unwrap()@ == rle_pixels(data@, width, height, bpp, is_compress).unwrap(),
        bpp == 32 && !is_compress ==> r is Ok && r.unwrap()@ == data@,
{
    let event = rdp::core::event::BitmapEvent {
        dest_left,
        dest_top,
        dest_right,
        dest_bottom,
        width,
        height,
        bpp,
        is_compress,
        data,
    };
    event.decompress()
}

/// Decides `rle32_stream_safe` for a payload about to be handed to the
/// 32-bit-deep decoder.
fn rle32_stream_check(data: &Vec<u8>, width: u16, height: u16) -> (r: bool)
    ensures
        r == rle32_stream_safe(data@, width, height),
{
    if data.len() == 0 {
        return true;
    }
    if data[0] != 0x10 {
        return true;
    }
    let mut pos: usize = 1;
    let mut rows_left: u32 = 4 * (height as u32);
    let mut indexw: u32 = 0;
    loop
        invariant
            1 <= pos <= data@.len(),
            indexw <= u16::MAX as u32,
            rle32_stream_safe(data@, width, height) == rle32_scan(
                data@,
                width as int,
                pos as int,
                rows_left as int,
                indexw as int,
            ),
        decreases data@.len() - pos,
    {
        if rows_left == 0 {
            return true;
        }
        if pos >= data.len() {
            return true;
        }
        let code: u8 = data[pos];
        let replen: u32 = (code & 0x0f) as u32;
        let collen0: u32 = ((code >> 4) & 0x0f) as u32;
        let revcode: u32 = replen * 16 + collen0;
        let remapped: bool = 16 <= revcode && revcode <= 47;
        let literals: u32 = if remapped {
            0
        } else {
            collen0
        };
        let pixels: u32 = if remapped {
            revcode
        } else {
            collen0 + replen
        };
        proof {
            assert(literals == rle32_code_literals(code));
            assert(pixels == rle32_code_pixels(code));
        }
        if indexw + pixels > width as u32 {
            return false;
        }
        let remaining: usize = data.len() - pos;
        if remaining <= literals as usize {
            return true;
        }
        pos = pos + 1 + (literals as usize);
        if indexw + pixels == width as u32 {
            rows_left = rows_left - 1;
            indexw = 0;
        } else {
            indexw = indexw + pixels;
        }
    }
}

/// The first stage of one 16-bit code, as `rle16_head` spells it: a
/// leading `true` stands for a stream that ends inside the count.
fn rle16_head_exec(data: &Vec<u8>, pos: usize) -> (h: (bool, u32, u32, usize))
    requires
        pos < data@.len(),
    ensures
        ({
            let (op, count, p) = rle16_head(data@, pos as int);
            &&& (h.0 <==> p < 0)
            &&& h.1 == op
            &&& !h.0 ==> h.2 == count && h.3 == p && pos < h.3 <= data@.len()
        }),
{
    let remaining: usize = data.len() - pos;
    let code: u8 = data[pos];
    let hi: u32 = (code >> 4) as u32;
    if 12 <= hi && hi <= 14 {
        let op: u32 = hi - 6;
        let c0: u32 = (code & 0x0f) as u32;
        if c0 == 0 {
            if remaining < 2 {
                (true, op, 0, pos)
            } else {
                let ext: u32 = data[pos + 1] as u32;
                (false, op, ext + (if op == 7 { 1 } else { 16 }), pos + 2)
            }
        } else {
            (false, op, if op == 7 { c0 * 8 } else { c0 }, pos + 1)
        }
    } else if hi == 15 {
        let op: u32 = (code & 0x0f) as u32;
        if op < 9 {
            if remaining < 3 {
                (true, op, 0, pos)
            } else {
                let count: u32 = (data[pos + 1] as u32) + 256 * (data[pos + 2] as u32);
                (false, op, count, pos + 3)
            }
        } else if op < 11 {
            (false, op, 8, pos + 1)
        } else {
            (false, op, 1, pos + 1)
        }
    } else {
        let op: u32 = hi / 2;
        let c0: u32 = (code & 0x1f) as u32;
        if c0 == 0 {
            if remaining < 2 {
                (true, op, 0, pos)
            } else {
                let ext: u32 = data[pos + 1] as u32;
                (false, op, ext + (if op == 2 { 1 } else { 32 }), pos + 2)
            }
        } else {
            (false, op, if op == 2 { c0 * 8 } else { c0 }, pos + 1)
        }
    }
}

/// The second stage of one 16-bit code, as `rle16_body` spells it: a
/// leading `true` stands for a stream that ends inside the words.
fn rle16_body_exec(data: &Vec<u8>, pos: usize, op: u32) -> (b: (bool, u32, bool, usize))
    requires
        pos <= data@.len(),
    ensures
        ({
            let (op2, fom, p) = rle16_body(data@, pos as int, op as int);
            &&& (b.0 <==> p < 0)
            &&& !b.0 ==> b.1 == op2 && b.2 == fom && b.3 == p && pos <= b.3 <= data@.len()
        }),
{
    let remaining: usize = data.len() - pos;
    if op == 8 {
        if remaining >= 4 {
            (false, 8, false, pos + 4)
        } else {
            (true, 0, false, pos)
        }
    } else if op == 3 {
        if remaining >= 2 {
            (false, 3, false, pos + 2)
        } else {
            (true, 0, false, pos)
        }
    } else if op == 6 || op == 7 {
        if remaining >= 2 {
            (false, op - 5, false, pos + 2)
        } else {
            (true, 0, false, pos)
        }
    } else if op == 9 || op == 10 {
        (false, 2, true, pos)
    } else {
        (false, op, false, pos)
    }
}

/// Decides `rle16_stream_safe` for a payload about to be handed to the
/// 16-bit-deep decoder.
fn rle16_stream_check(data: &Vec<u8>, width: u16, height: u16) -> (r: bool)
    ensures
        r == rle16_stream_safe(data@, width, height),
{
    let mut pos: usize = 0;
    let w64: u64 = width as u64;
    let h64: u64 = height as u64;
    proof {
        assert(w64 * h64 <= 0xffff * 0xffff) by (nonlinear_arith)
            requires
                w64 <= 0xffff,
                h64 <= 0xffff,
        ;
    }
    let mut cap: u64 = w64 * h64;
    proof {
        assert(cap == (width as int) * (height as int)) by (nonlinear_arith)
            requires
                w64 == width,
                h64 == height,
                cap == w64 * h64,
        ;
    }
    loop
        invariant
            pos <= data@.len(),
            cap <= 0xffff_ffff,
            rle16_stream_safe(data@, width, height) == rle16_scan(data@, pos as int, cap as int),
        decreases data@.len() - pos,
    {
        if pos >= data.len() {
            return true;
        }
        let head = rle16_head_exec(data, pos);
        if head.0 {
            return true;
        }
        let op1: u32 = head.1;
        let count: u64 = head.2 as u64;
        let body = rle16_body_exec(data, head.3, op1);
        if body.0 {
            return true;
        }
        let op2: u32 = body.1;
        let fom: bool = body.2;
        let pos2: usize = body.3;
        if op2 == 0 || op2 == 1 || op2 == 3 || op2 == 13 || op2 == 14 {
            if count > cap {
                return true;
            }
            cap = cap - count;
            pos = pos2;
        } else if op2 == 2 {
            let processed: u64 = if count <= cap {
                count
            } else {
                cap
            };
            let masks: u64 = if fom {
                0
            } else {
                (processed + 7) / 8
            };
            let remaining: usize = data.len() - pos2;
            if masks > remaining as u64 {
                return true;
            }
            if count > cap {
                return true;
            }
            cap = cap - count;
            pos = pos2 + (masks as usize);
        } else if op2 == 4 {
            let processed: u64 = if count <= cap {
                count
            } else {
                cap
            };
            let reads: u64 = 2 * processed;
            let remaining: usize = data.len() - pos2;
            if reads > remaining as u64 {
                return true;
            }
            if count > cap {
                return true;
            }
            cap = cap - count;
            pos = pos2 + (reads as usize);
        } else if op2 == 8 {
            if count == 0 {
                pos = pos2;
            } else if cap == 0 {
                return true;
            } else if count > 0xfffe {
                return false;
            } else if 2 * count > cap {
                return true;
            } else {
                cap = cap - 2 * count;
                pos = pos2;
            }
        } else {
            if count == 0 {
                pos = pos2;
            } else if cap == 0 {
                return true;
            } else {
                return false;
            }
        }
    }
}

/// Decodes one incoming bitmap event into the rectangle and plain
/// pixel bytes handed to the sink, decompressing the payload where it
/// is run-length encoded. Exactly the events whose payload decodes
/// yield a bitmap; the others report which way they failed.
pub fn decode_bitmap(b: BitmapEvent) -> (r: Result<Bitmap, DecodeError>)
    ensures
        match r {
            Ok(bm) => {
                &&& decoded_pixels(b) == Some(bm.data@)
                &&& bm.dest_left == b.dest_left
                &&& bm.dest_top == b.dest_top
                &&& bm.dest_right == b.dest_right
                &&& bm.dest_bottom == b.dest_bottom
            },
            Err(e) => decoded_pixels(b) is None && e == decode_failure(b),
        },
{
    if b.bpp != 16 && b.bpp != 32 {
        return Err(DecodeError::Unsupported);
    }
    let width64: u64 = b.width as u64;
    let height64: u64 = b.height as u64;
    proof {
        assert(width64 * height64 <= 0xffff * 0xffff) by (nonlinear_arith)
            requires
                width64 <= 0xffff,
                height64 <= 0xffff,
        ;
    }
    let area: u64 = width64 * height64;
    proof {
        assert(area == b.width * b.height) by (nonlinear_arith)
            requires
                width64 == b.width,
                height64 == b.height,
                area == width64 * height64,
        ;
    }
    if b.bpp == 32 && b.is_compress {
        if b.width == 0 || b.height == 0 || 4 * area > u32::MAX as u64 {
            return Err(DecodeError::Malformed);
        }
        if !rle32_stream_check(&b.data, b.width, b.height) {
            return Err(DecodeError::Malformed);
        }
    }
    if b.bpp == 16 && b.is_compress {
        if b.width == 0 || b.height == 0 {
            return Err(DecodeError::Malformed);
        }
        if !rle16_stream_check(&b.data, b.width, b.height) {
            return Err(DecodeError::Malformed);
        }
    }
    if b.bpp == 16 && !b.is_compress && ((b.data.len() as u64) < 2 * area || area > 32768) {
        return Err(DecodeError::Malformed);
    }
    if b.bpp == 32 && !b.is_compress {
        return Ok(
            Bitmap {
                dest_left: b.dest_left,
                dest_top: b.dest_top,
                dest_right: b.dest_right,
                dest_bottom: b.dest_bottom,
                data: b.data,
            },
        );
    }
    match decompress_bitmap(
        b.dest_left,
        b.dest_top,
        b.dest_right,
        b.dest_bottom,
        b.width,
        b.height,
        b.bpp,
        b.is_compress,
        b.data,
    ) {
        Ok(pixels) => Ok(
            Bitmap {
                dest_left: b.dest_left,
                dest_top: b.dest_top,
                dest_right: b.dest_right,
                dest_bottom: b.dest_bottom,
                data: pixels,
            },
        ),
        Err(_) => Err(DecodeError::Corrupt),
    }
}

/// A compressed bitmap and its pre-decompressed twin decode to the
/// same pixel bytes: whenever a compressed event decodes to some pixel
/// buffer, the event that carries that buffer uncompressed at 32 bits
/// per pixel decodes to exactly the same bytes.
pub proof fn lemma_compressed_uncompressed_agree(b: BitmapEvent, u: BitmapEvent)
    requires
        b.is_compress,
        decoded_pixels(b) is Some,
        !u.is_compress,
        u.bpp == 32,
        u.data@ == decoded_pixels(b).unwrap(),
    ensures
        decoded_pixels(u) == decoded_pixels(b),
{
}

} // verus!
