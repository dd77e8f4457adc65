//! QR codes for display: the code of a text (error correction level M),
//! drawn eight pixels to a module, dark modules black on white.
use vstd::prelude::*;
use vstd::string::StringSliceAdditionalSpecFns;

verus! {

/// Pixels per module side.
pub const QR_SCALE: usize = 8;

/// What `qrcode::QrCode::with_error_correction_level` (level M) makes of
/// some bytes: the number of modules per side and the modules row by row
/// (dark as `true`), or nothing when the data does not fit.
pub uninterp spec fn qr_code_of(data: Seq<u8>) -> Option<(usize, Seq<bool>)>;

/// `qrcode::QrCode::with_error_correction_level(data, EcLevel::M)`, read as
/// its width and its modules row by row (dark as `true`). The code itself
/// is named by `qr_code_of`; the source shows that a code has a width
/// between 21 and 177 (versions 1 to 40) and width × width modules.
#[verifier::external_body]
fn qr_modules(data: &[u8]) -> (r: Option<(usize, Vec<bool>)>)
    ensures
        match r {
            Some((w, m)) => qr_code_of(data@) == Some((w, m@)) && m@.len() == w * w && 21 <= w <= 177,
            None => qr_code_of(data@) is None,
        },
{
    match qrcode::QrCode::with_error_correction_level(data, qrcode::EcLevel::M) {
        Ok(code) => {
            let w = code.width();
            let modules: Vec<bool> = code.into_colors().into_iter().map(|c| c == qrcode::Color::Dark).collect();
            Some((w, modules))
        },
        Err(_) => None,
    }
}

/// The gray level of a pixel: black over a dark module, white otherwise.
pub open spec fn pixel_level(modules: Seq<bool>, w: nat, x: nat, y: nat) -> u8 {
    if modules[((y / 8) * w + x / 8) as int] {
        0u8
    } else {
        255u8
    }
}

/// The image of a code is `w × 8` pixels on a side; pixel `(x, y)` (at
/// index `y × side + x`) has the level of the module it falls in.
pub open spec fn is_qr_image(modules: Seq<bool>, w: nat, pixels: Seq<u8>) -> bool {
    let side = w * 8;
    &&& pixels.len() == side * side
    &&& forall|x: nat, y: nat| x < side && y < side ==> #[trigger] pixels[(y * side + x) as int] == pixel_level(modules, w, x, y)
}

proof fn lemma_module_index(w: nat, x: nat, y: nat)
    requires
        x < w * 8,
        y < w * 8,
    ensures
        (y / 8) * w + x / 8 < w * w,
{
    assert(x / 8 < w) by (nonlinear_arith)
        requires
            x < w * 8,
    ;
    assert(y / 8 < w) by (nonlinear_arith)
        requires
            y < w * 8,
    ;
    assert((y / 8) * w + x / 8 < w * w) by (nonlinear_arith)
        requires
            x / 8 < w,
            y / 8 < w,
    ;
}

proof fn lemma_row_index(side: nat, x: nat, y: nat, row: nat)
    requires
        x < side,
        y < row,
    ensures
        y * side + x < row * side,
{
    assert(y * side + x < row * side) by (nonlinear_arith)
        requires
            x < side,
            y < row,
    ;
}

/// Draws a code of width `w` (modules row by row) eight pixels to a module.
pub fn qr_image(w: usize, modules: &Vec<bool>) -> (pixels: Vec<u8>)
    requires
        w <= 177,
        modules@.len() == w * w,
    ensures
        is_qr_image(modules@, w as nat, pixels@),
{
    let side = w * QR_SCALE;
    let mut pixels: Vec<u8> = Vec::new();
    let mut y: usize = 0;
    while y < side
        invariant
            side == w * 8,
            w <= 177,
            modules@.len() == w * w,
            y <= side,
            pixels@.len() == y * side,
            forall|px: nat, py: nat| px < side && py < y ==> #[trigger] pixels@[(py * side + px) as int]
                == pixel_level(modules@, w as nat, px, py),
        decreases side - y,
    {
        let mut x: usize = 0;
        let ghost row_start = pixels@;
        while x < side
            invariant
                side == w * 8,
                w <= 177,
                modules@.len() == w * w,
                y < side,
                x <= side,
                pixels@.len() == y * side + x,
                forall|px: nat, py: nat| px < side && py < y ==> #[trigger] pixels@[(py * side + px) as int]
                    == pixel_level(modules@, w as nat, px, py),
                forall|px: nat| px < x ==> #[trigger] pixels@[(y * side + px) as int] == pixel_level(
                    modules@,
                    w as nat,
                    px,
                    y as nat,
                ),
            decreases side - x,
        {
            proof {
                lemma_module_index(w as nat, x as nat, y as nat);
                assert(w * w <= 177 * 177) by (nonlinear_arith)
                    requires
                        w <= 177,
                ;
                assert((y / 8) * w <= (y / 8) * w + x / 8);
            }
            let index = (y / QR_SCALE) * w + x / QR_SCALE;
            let level: u8 = if modules[index] {
                0
            } else {
                255
            };
            let ghost before = pixels@;
            pixels.push(level);
            proof {
                assert forall|px: nat, py: nat| px < side && py < y implies #[trigger] pixels@[(py * side + px) as int]
                    == pixel_level(modules@, w as nat, px, py) by {
                    lemma_row_index(side as nat, px, py, y as nat);
                    assert(pixels@[(py * side + px) as int] == before[(py * side + px) as int]);
                }
                assert forall|px: nat| px < x + 1 implies #[trigger] pixels@[(y * side + px) as int] == pixel_level(
                    modules@,
                    w as nat,
                    px,
                    y as nat,
                ) by {
                    if px < x {
                        assert(pixels@[(y * side + px) as int] == before[(y * side + px) as int]);
                    }
                }
            }
            x = x + 1;
        }
        proof {
            assert forall|px: nat, py: nat| px < side && py < y + 1 implies #[trigger] pixels@[(py * side + px) as int]
                == pixel_level(modules@, w as nat, px, py) by {
                if py == y {
                    assert(pixels@[(y * side + px) as int] == pixel_level(modules@, w as nat, px, y as nat));
                }
            }
            assert((y + 1) * side == y * side + side) by (nonlinear_arith);
        }
        y = y + 1;
    }
    pixels
}

/// The image of the QR code of a text, with its side in pixels; nothing
/// when the text does not fit in a QR code.
pub fn generate_qr_image(text: &str) -> (r: Option<(usize, Vec<u8>)>)
    ensures
        match r {
            Some((side, pixels)) => qr_code_of(text.spec_bytes()) matches Some((w, m)) && side == w * 8
                && is_qr_image(m, w as nat, pixels@),
            None => qr_code_of(text.spec_bytes()) is None,
        },
{
    match qr_modules(text.as_bytes()) {
        Some((w, modules)) => {
            let pixels = qr_image(w, &modules);
            Some((w * QR_SCALE, pixels))
        },
        None => None,
    }
}

/// The key the image of a text is cached under.
pub fn qr_cache_key(text: &str) -> (k: String)
    ensures
        k@ == "qr_"@ + text@,
{
    crate::text::concat("qr_", text)
}

} // verus!
