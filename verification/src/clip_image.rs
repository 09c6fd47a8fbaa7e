//! Clipboard Image Encoder: turn a raw interleaved-RGBA pixel buffer into a
//! compressed PNG byte stream named after the current local time.

use chrono::{Datelike, Timelike};
use image::ImageEncoder;
use vstd::prelude::*;

verus! {

/// A raw pixel buffer as read from the clipboard: `width * height` pixels,
/// 4 bytes each, interleaved R, G, B, A, rows top to bottom.
#[derive(Debug)]
pub struct RawImage {
    pub width: usize,
    pub height: usize,
    pub bytes: Vec<u8>,
}

/// Mathematical model of a `RawImage`.
#[verifier::ext_equal]
pub struct RawImageV {
    pub width: int,
    pub height: int,
    pub bytes: Seq<u8>,
}

impl View for RawImage {
    type V = RawImageV;

    open spec fn view(&self) -> RawImageV {
        RawImageV { width: self.width as int, height: self.height as int, bytes: self.bytes@ }
    }
}

impl RawImage {
    /// Buffer invariant: exactly 4 bytes per pixel, and dimensions that an
    /// image codec can address.
    pub open spec fn wf(self) -> bool {
        &&& self.bytes@.len() == self.width * self.height * 4
        &&& self.width <= u32::MAX
        &&& self.height <= u32::MAX
    }
}

/// One calendar instant broken into plain fields, local time.
#[derive(Clone, Copy, PartialEq, Eq, Structural, Debug)]
pub struct TimeStamp {
    pub year: i32,
    pub month: u32,
    pub day: u32,
    pub hour: u32,
    pub minute: u32,
    pub second: u32,
}

impl TimeStamp {
    /// The field ranges a calendar guarantees; the year is unconstrained.
    pub open spec fn wf(self) -> bool {
        &&& 1 <= self.month <= 12
        &&& 1 <= self.day <= 31
        &&& self.hour <= 23
        &&& self.minute <= 59
        &&& self.second <= 59
    }
}

/// The decimal digit `d` as a character, for `0 <= d <= 9`.
pub open spec fn digit_char(d: int) -> char {
    if d == 0 {
        '0'
    } else if d == 1 {
        '1'
    } else if d == 2 {
        '2'
    } else if d == 3 {
        '3'
    } else if d == 4 {
        '4'
    } else if d == 5 {
        '5'
    } else if d == 6 {
        '6'
    } else if d == 7 {
        '7'
    } else if d == 8 {
        '8'
    } else {
        '9'
    }
}

/// The decimal digits of `n >= 0`, most significant first, no leading zeros.
pub open spec fn dec_chars(n: int) -> Seq<char>
    decreases n,
{
    if n < 10 {
        seq![digit_char(n)]
    } else {
        dec_chars(n / 10).push(digit_char(n % 10))
    }
}

/// The decimal digits of `n >= 0`, zero-padded on the left to width 4.
pub open spec fn pad4_chars(n: int) -> Seq<char> {
    if n < 10 {
        seq!['0', '0', '0'] + dec_chars(n)
    } else if n < 100 {
        seq!['0', '0'] + dec_chars(n)
    } else if n < 1000 {
        seq!['0'] + dec_chars(n)
    } else {
        dec_chars(n)
    }
}

/// The decimal digits of `0 <= n <= 99`, zero-padded to width 2.
pub open spec fn pad2_chars(n: int) -> Seq<char> {
    seq![digit_char(n / 10), digit_char(n % 10)]
}

/// A year as it appears in the logical filename: four zero-padded digits,
/// with a leading minus sign for years before year zero.
pub open spec fn year_chars(y: int) -> Seq<char> {
    if y >= 0 {
        pad4_chars(y)
    } else {
        seq!['-'] + pad4_chars(-y)
    }
}

/// The logical filename of a clipboard image captured at instant `t`:
/// the local time as `YYYYMMDDHHMMSS` followed by `.png`.
pub open spec fn spec_timestamp_name(t: TimeStamp) -> Seq<char> {
    year_chars(t.year as int) + pad2_chars(t.month as int) + pad2_chars(t.day as int)
        + pad2_chars(t.hour as int) + pad2_chars(t.minute as int) + pad2_chars(t.second as int)
        + ".png"@
}

fn digit_str(d: u64) -> (s: &'static str)
    requires
        d < 10,
    ensures
        s@ == seq![digit_char(d as int)],
{
    proof {
        reveal_strlit("0");
        reveal_strlit("1");
        reveal_strlit("2");
        reveal_strlit("3");
        reveal_strlit("4");
        reveal_strlit("5");
        reveal_strlit("6");
        reveal_strlit("7");
        reveal_strlit("8");
        reveal_strlit("9");
    }
    let s: &'static str = if d == 0 {
        "0"
    } else if d == 1 {
        "1"
    } else if d == 2 {
        "2"
    } else if d == 3 {
        "3"
    } else if d == 4 {
        "4"
    } else if d == 5 {
        "5"
    } else if d == 6 {
        "6"
    } else if d == 7 {
        "7"
    } else if d == 8 {
        "8"
    } else {
        "9"
    };
    proof {
        assert(s@ =~= seq![digit_char(d as int)]);
    }
    s
}

fn append_dec(s: &mut String, n: u64)
    ensures
        final(s)@ == old(s)@ + dec_chars(n as int),
    decreases n,
{
    let ghost entry = s@;
    if n >= 10 {
        append_dec(s, n / 10);
    }
    let d = digit_str(n % 10);
    s.append(d);
    proof {
        if n < 10 {
            assert(s@ =~= entry + dec_chars(n as int));
        } else {
            assert(dec_chars(n as int) == dec_chars(n as int / 10).push(digit_char(n as int % 10)));
            assert(s@ =~= entry + dec_chars(n as int));
        }
    }
}

fn append_pad4(s: &mut String, n: u64)
    ensures
        final(s)@ == old(s)@ + pad4_chars(n as int),
{
    let ghost entry = s@;
    proof {
        reveal_strlit("0");
        reveal_strlit("00");
        reveal_strlit("000");
    }
    if n < 10 {
        s.append("000");
    } else if n < 100 {
        s.append("00");
    } else if n < 1000 {
        s.append("0");
    }
    append_dec(s, n);
    proof {
        assert(s@ =~= entry + pad4_chars(n as int));
    }
}

fn append_pad2(s: &mut String, n: u64)
    requires
        n < 100,
    ensures
        final(s)@ == old(s)@ + pad2_chars(n as int),
{
    let ghost entry = s@;
    let hi = digit_str(n / 10);
    s.append(hi);
    let lo = digit_str(n % 10);
    s.append(lo);
    proof {
        assert(s@ =~= entry + pad2_chars(n as int));
    }
}

/// Format the logical filename of a clipboard image captured at instant `t`.
pub fn image_file_name(t: &TimeStamp) -> (name: String)
    requires
        t.wf(),
    ensures
        name@ == spec_timestamp_name(*t),
{
    let mut name = String::new();
    if t.year >= 0 {
        append_pad4(&mut name, t.year as u64);
    } else {
        proof {
            reveal_strlit("-");
        }
        name.append("-");
        let mag = -(t.year as i64);
        append_pad4(&mut name, mag as u64);
    }
    proof {
        assert(name@ =~= year_chars(t.year as int));
    }
    append_pad2(&mut name, t.month as u64);
    append_pad2(&mut name, t.day as u64);
    append_pad2(&mut name, t.hour as u64);
    append_pad2(&mut name, t.minute as u64);
    append_pad2(&mut name, t.second as u64);
    name.append(".png");
    proof {
        assert(name@ =~= spec_timestamp_name(*t));
    }
    name
}

/// Relies on `chrono::Local::now` for the current wall-clock instant, taken
/// apart into plain calendar fields through chrono's `Datelike` and
/// `Timelike` accessors. chrono documents the month as 1 to 12, the day as
/// 1 to 31, the hour as 0 to 23, and the minute and second as 0 to 59;
/// nothing is promised of the year, nor of which instant the clock reports.
/// chrono aborts if the system clock stands before the Unix epoch — an
/// environment pathology no precondition can exclude.
#[verifier::external_body]
fn local_time_now() -> (t: TimeStamp)
    ensures
        t.wf(),
{
    let now = chrono::Local::now();
    TimeStamp {
        year: now.year(),
        month: now.month(),
        day: now.day(),
        hour: now.hour(),
        minute: now.minute(),
        second: now.second(),
    }
}

/// The PNG encoding of an interleaved 8-bit RGBA buffer of the given
/// dimensions. The encoder is deterministic: the bytes depend on the
/// dimensions and pixel data alone.
pub uninterp spec fn png_of(width: int, height: int, rgba: Seq<u8>) -> Seq<u8>;

/// Whether PNG-encoding an interleaved 8-bit RGBA buffer of the given
/// dimensions succeeds. The encoder writes into a growable byte vector, so
/// no I/O can fail under it: success, like the bytes, is a function of the
/// dimensions and pixel data alone.
pub uninterp spec fn png_ok(width: int, height: int, rgba: Seq<u8>) -> bool;

/// Relies on `image::codecs::png::PngEncoder::write_image`, which encodes an
/// interleaved 8-bit RGBA buffer as PNG into the given writer. It demands a
/// buffer of exactly `width * height * 4` bytes (it panics on any other
/// length, hence the requires). Writing into a byte vector, its outcome is
/// deterministic in its arguments; `png_ok` names it. On failure the bytes
/// written so far are returned as they stand, and nothing is said of them.
#[verifier::external_body]
fn png_encode_rgba(width: u32, height: u32, rgba: &Vec<u8>) -> (r: (bool, Vec<u8>))
    requires
        rgba@.len() == width * height * 4,
    ensures
        r.0 == png_ok(width as int, height as int, rgba@),
        r.0 ==> r.1@ == png_of(width as int, height as int, rgba@),
{
    let mut out: Vec<u8> = Vec::new();
    let encoder = image::codecs::png::PngEncoder::new(&mut out);
    let ok = encoder.write_image(rgba.as_slice(), width, height, image::ColorType::Rgba8).is_ok();
    (ok, out)
}

/// Materialize the byte stream handed to the image encoder: pixel `(x, y)`
/// takes its four channels from offsets `(y * width + x) * 4` onward of the
/// raw clipboard buffer, in R, G, B, A order, alpha preserved — which is
/// exactly the buffer's own interleaved layout, so the result equals it.
pub fn build_raw_pixels(img: &RawImage) -> (out: Vec<u8>)
    requires
        img.wf(),
    ensures
        out@ == img@.bytes,
{
    let total = img.bytes.len();
    let mut out: Vec<u8> = Vec::new();
    let mut i: usize = 0;
    proof {
        assert((img.width * img.height * 4) % 4 == 0) by (nonlinear_arith);
    }
    while i < total
        invariant
            i <= total,
            i % 4 == 0,
            total % 4 == 0,
            total == img.bytes@.len(),
            out@ == img.bytes@.take(i as int),
        decreases total - i,
    {
        let r = img.bytes[i];
        let g = img.bytes[i + 1];
        let b = img.bytes[i + 2];
        let a = img.bytes[i + 3];
        out.push(r);
        out.push(g);
        out.push(b);
        out.push(a);
        i += 4;
        proof {
            assert(out@ =~= img.bytes@.take(i as int));
        }
    }
    proof {
        assert(img.bytes@.take(total as int) =~= img.bytes@);
    }
    out
}

/// Clipboard image step: name the capture after the current local time and
/// PNG-encode the raw RGBA buffer. The middle component reports exactly
/// whether the encoder succeeds on this buffer; when it is false, the body
/// holds whatever the encoder wrote before failing, and the caller sends it
/// as it stands, as the reference behavior does.
pub fn clip_image_message(img: &RawImage) -> (r: (String, bool, Vec<u8>))
    requires
        img.wf(),
    ensures
        (exists|t: TimeStamp| t.wf() && r.0@ == spec_timestamp_name(t)),
        r.1 == png_ok(img@.width, img@.height, img@.bytes),
        r.1 ==> r.2@ == png_of(img@.width, img@.height, img@.bytes),
{
    let t = local_time_now();
    let name = image_file_name(&t);
    proof {
        assert(t.wf() && name@ == spec_timestamp_name(t));
    }
    let raw = build_raw_pixels(img);
    let (ok, body) = png_encode_rgba(img.width as u32, img.height as u32, &raw);
    (name, ok, body)
}

} // verus!
