//! The tray icon's pixels: reordering an RGBA image into the ARGB order that
//! the status-notifier protocol wants, and the fallback icon.
use vstd::prelude::*;

verus! {

/// Byte `i` of the ARGB form of `rgba`: each whole pixel `[R, G, B, A]`
/// becomes `[A, R, G, B]`.
pub open spec fn argb_byte(rgba: Seq<u8>, i: int) -> u8 {
    let p = i / 4;
    let k = i % 4;
    if k == 0 {
        rgba[4 * p + 3]
    } else {
        rgba[4 * p + k - 1]
    }
}

/// The ARGB form of `rgba`; bytes of a trailing incomplete pixel are dropped.
pub open spec fn argb_of(rgba: Seq<u8>) -> Seq<u8> {
    Seq::new(((rgba.len() / 4) * 4) as nat, |i: int| argb_byte(rgba, i))
}

/// Reorders each whole RGBA pixel of `rgba` to ARGB (network byte order).
pub fn rgba_to_argb(rgba: &[u8]) -> (r: Vec<u8>)
    ensures
        r@ == argb_of(rgba@),
{
    let n = rgba.len();
    let pixels = n / 4;
    let mut out: Vec<u8> = Vec::new();
    let mut p: usize = 0;
    while p < pixels
        invariant
            n == rgba@.len(),
            pixels == n / 4,
            p <= pixels,
            out@.len() == 4 * p,
            forall|i: int| 0 <= i < 4 * p ==> out@[i] == argb_byte(rgba@, i),
        decreases pixels - p,
    {
        assert(4 * p + 3 < rgba@.len()) by (nonlinear_arith)
            requires
                p < pixels,
                pixels == n / 4,
                n == rgba@.len(),
        ;
        assert(4 * p + 3 < n);
        let base = 4 * p;
        out.push(rgba[base + 3]);
        out.push(rgba[base]);
        out.push(rgba[base + 1]);
        out.push(rgba[base + 2]);
        assert forall|i: int| 0 <= i < 4 * (p + 1) implies out@[i] == argb_byte(rgba@, i) by {
            if i >= 4 * p {
                let k = i - 4 * p;
                assert(i / 4 == p && i % 4 == k) by (nonlinear_arith)
                    requires
                        k == i - 4 * p,
                        0 <= k < 4,
                ;
            }
        }
        p = p + 1;
    }
    assert(out@ =~= argb_of(rgba@));
    out
}

/// The tray icon's image: ARGB pixels and dimensions.
#[derive(Debug)]
pub struct TrayImage {
    pub argb: Vec<u8>,
    pub width: i32,
    pub height: i32,
}

pub uninterp spec fn image_rgba(file: Seq<u8>) -> Option<(Seq<u8>, u32, u32)>;

/// Decodes a PNG file (the tray icon is `icon.png`) with
/// `image::load_from_memory_with_format` and converts it with
/// `DynamicImage::into_rgba8`. Trusted: the RGBA pixels, width and height are
/// named `image_rgba(file@)`, a function of the file's bytes alone; a file
/// that does not decode as PNG gives `None`. The pixel layout of the result is
/// left unsaid.
#[verifier::external_body]
fn decode_rgba(file: &[u8]) -> (r: Option<(Vec<u8>, u32, u32)>)
    ensures
        match r {
            Some((px, w, h)) => image_rgba(file@) == Some((px@, w, h)),
            None => image_rgba(file@) is None,
        },
{
    match image::load_from_memory_with_format(file, image::ImageFormat::Png) {
        Ok(img) => {
            let rgba = img.into_rgba8();
            let (w, h) = rgba.dimensions();
            Some((rgba.into_raw(), w, h))
        },
        Err(_) => None,
    }
}

/// The decoded icon, if there is an icon file and it decodes.
pub open spec fn decoded_icon(icon_file: Option<Seq<u8>>) -> Option<(Seq<u8>, u32, u32)> {
    match icon_file {
        Some(f) => image_rgba(f),
        None => None,
    }
}

fn decode_icon(icon_file: Option<&[u8]>) -> (r: Option<(Vec<u8>, u32, u32)>)
    ensures
        match r {
            Some((px, w, h)) => decoded_icon(opt_bytes(icon_file)) == Some((px@, w, h)),
            None => decoded_icon(opt_bytes(icon_file)) is None,
        },
{
    match icon_file {
        Some(f) => decode_rgba(f),
        None => None,
    }
}

/// An optional byte slice as an optional byte sequence.
pub open spec fn opt_bytes(o: Option<&[u8]>) -> Option<Seq<u8>> {
    match o {
        Some(b) => Some(b@),
        None => None,
    }
}

/// The tray image from the icon file's bytes (if the file was found): its
/// pixels in ARGB order with its dimensions, or an empty image when there is
/// no icon or it does not decode.
pub fn build_tray(icon_file: Option<&[u8]>) -> (r: TrayImage)
    ensures
        match decoded_icon(opt_bytes(icon_file)) {
            Some((rgba, w, h)) => r.argb@ == argb_of(rgba) && r.width == w as i32 && r.height
                == h as i32,
            None => r.argb@.len() == 0 && r.width == 0 && r.height == 0,
        },
{
    match decode_icon(icon_file) {
        Some((rgba, w, h)) => {
            let argb = rgba_to_argb(rgba.as_slice());
            TrayImage { argb, width: w as i32, height: h as i32 }
        },
        None => TrayImage { argb: Vec::new(), width: 0, height: 0 },
    }
}

/// Side of the square fallback icon.
pub const FALLBACK_ICON_SIZE: u32 = 32;

/// Byte `i` of the fallback icon: every pixel is the RGBA colour (40, 120, 200, 255).
pub open spec fn fallback_byte(i: int) -> u8 {
    let k = i % 4;
    if k == 0 {
        40
    } else if k == 1 {
        120
    } else if k == 2 {
        200
    } else {
        255
    }
}

/// The RGBA pixels of the fallback icon, a small blue square.
pub fn fallback_icon_rgba() -> (r: Vec<u8>)
    ensures
        r@.len() == 4 * FALLBACK_ICON_SIZE * FALLBACK_ICON_SIZE,
        forall|i: int| 0 <= i < r@.len() ==> r@[i] == fallback_byte(i),
{
    let total: usize = (FALLBACK_ICON_SIZE * FALLBACK_ICON_SIZE) as usize;
    let mut out: Vec<u8> = Vec::new();
    let mut p: usize = 0;
    while p < total
        invariant
            total == FALLBACK_ICON_SIZE * FALLBACK_ICON_SIZE,
            p <= total,
            out@.len() == 4 * p,
            forall|i: int| 0 <= i < 4 * p ==> out@[i] == fallback_byte(i),
        decreases total - p,
    {
        out.push(40);
        out.push(120);
        out.push(200);
        out.push(255);
        assert forall|i: int| 0 <= i < 4 * (p + 1) implies out@[i] == fallback_byte(i) by {
            if i >= 4 * p {
                let k = i - 4 * p;
                assert(i % 4 == k) by (nonlinear_arith)
                    requires
                        k == i - 4 * p,
                        0 <= k < 4,
                ;
            }
        }
        p = p + 1;
    }
    out
}

/// The RGBA icon for the tray on Windows: the icon file decoded, or else the
/// fallback square, with its dimensions.
pub fn icon_rgba(icon_file: Option<&[u8]>) -> (r: (Vec<u8>, u32, u32))
    ensures
        match decoded_icon(opt_bytes(icon_file)) {
            Some((px, w, h)) => r.0@ == px && r.1 == w && r.2 == h,
            None => r.1 == FALLBACK_ICON_SIZE && r.2 == FALLBACK_ICON_SIZE && r.0@.len() == 4
                * FALLBACK_ICON_SIZE * FALLBACK_ICON_SIZE && forall|i: int|
                0 <= i < r.0@.len() ==> r.0@[i] == fallback_byte(i),
        },
{
    match decode_icon(icon_file) {
        Some(t) => t,
        None => (fallback_icon_rgba(), FALLBACK_ICON_SIZE, FALLBACK_ICON_SIZE),
    }
}

} // verus!
