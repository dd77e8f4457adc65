//! Reading QR codes: the size check of an RGB frame, the pixels of an
//! image file, and the text of the first code in a grayscale image that
//! decodes.
use vstd::prelude::*;
use crate::text::{decimal, push_decimal};

verus! {

/// The message for RGB data whose length is not width × height × 3.
pub open spec fn size_error_text(expected: nat, got: nat) -> Seq<char> {
    "Invalid data size: expected "@ + decimal(expected) + " bytes, got "@ + decimal(got)
}

/// Checks that RGB data of `len` bytes is a `width` × `height` frame, three
/// bytes a pixel; the error says what was expected.
pub fn check_rgb_size(len: usize, width: u32, height: u32) -> (r: Option<String>)
    requires
        width * height * 3 <= u32::MAX,
    ensures
        r is None <==> len == width * height * 3,
        r matches Some(e) ==> e@ == size_error_text((width * height * 3) as nat, len as nat),
{
    assert(width * height <= u32::MAX) by (nonlinear_arith)
        requires
            width * height * 3 <= u32::MAX,
    ;
    let expected: u32 = width * height * 3;
    if len as u64 == expected as u64 {
        return None;
    }
    let mut e = String::from_str("Invalid data size: expected ");
    push_decimal(&mut e, expected as u64);
    e.append(" bytes, got ");
    push_decimal(&mut e, len as u64);
    proof {
        reveal_strlit("Invalid data size: expected ");
        reveal_strlit(" bytes, got ");
    }
    assert(e@ =~= size_error_text(expected as nat, len as nat));
    Some(e)
}

/// What `image::load_from_memory` followed by `to_rgb8` makes of some bytes:
/// the image's pixels, three bytes each, or nothing when the bytes are no
/// image of a known format.
pub uninterp spec fn rgb_pixels_of(data: Seq<u8>) -> Option<Seq<u8>>;

/// `image::load_from_memory(data)` and, when it decodes, the raw bytes of
/// `to_rgb8()` of the image. The pixels are named by `rgb_pixels_of`.
#[verifier::external_body]
fn load_rgb(data: &[u8]) -> (r: Option<Vec<u8>>)
    ensures
        match r {
            Some(p) => rgb_pixels_of(data@) == Some(p@),
            None => rgb_pixels_of(data@) is None,
        },
{
    match image::load_from_memory(data) {
        Ok(img) => Some(img.to_rgb8().into_raw()),
        Err(_) => None,
    }
}

/// The bytes to look for a code in: the pixels of the image the data
/// holds, or the data itself when it is no image file (a raw frame).
pub fn rgb_data_of(data: &Vec<u8>) -> (rgb: Vec<u8>)
    ensures
        rgb@ == match rgb_pixels_of(data@) {
            Some(p) => p,
            None => data@,
        },
{
    match load_rgb(data.as_slice()) {
        Some(p) => p,
        None => data.clone(),
    }
}

/// What `quircs::Quirc::identify` finds in a grayscale image of
/// `width` × `height` bytes: for each code, in order, its size (cells on a
/// side) and its cell bitmap, or nothing where it could not be extracted.
pub uninterp spec fn quircs_codes(width: usize, height: usize, gray: Seq<u8>) -> Seq<Option<(i32, Seq<u8>)>>;

/// The codes found, as plain values.
pub open spec fn code_views(codes: Seq<Option<(i32, Vec<u8>)>>) -> Seq<Option<(i32, Seq<u8>)>> {
    codes.map_values(|c: Option<(i32, Vec<u8>)>| match c {
        Some((size, cells)) => Some((size, cells@)),
        None => None,
    })
}

/// `quircs::Quirc::identify` on a grayscale image, each code read as its
/// `size` and `cell_bitmap`; the codes are named by `quircs_codes`. The
/// source shows a bitmap of 3917 bytes, a size that is never negative
/// (zero, or four times the version plus seventeen), and that every code it
/// finds can be extracted (it only asks for indices it has).
#[verifier::external_body]
fn identify_codes(width: usize, height: usize, gray: &[u8]) -> (codes: Vec<Option<(i32, Vec<u8>)>>)
    requires
        width * height == gray@.len(),
    ensures
        code_views(codes@) == quircs_codes(width, height, gray@),
        forall|k: int| 0 <= k < codes@.len() ==> (#[trigger] codes@[k] matches Some((s, c)) ==> s >= 0
            && c@.len() == 3917),
        forall|k: int| 0 <= k < codes@.len() ==> (#[trigger] codes@[k]) is Some,
{
    let mut decoder = quircs::Quirc::default();
    decoder.identify(width, height, gray).map(|c| match c {
        Ok(code) => Some((code.size, code.cell_bitmap.to_vec())),
        Err(_) => None,
    }).collect()
}

/// What `quircs::Code::decode` gives for a code of the given size and cell
/// bitmap: its payload, or nothing when it does not decode.
pub uninterp spec fn quircs_payload(size: i32, cells: Seq<u8>) -> Option<Seq<u8>>;

/// `quircs::Code::decode` of the code with this size and cell bitmap (its
/// corners, which decoding does not read, left at their defaults); named by
/// `quircs_payload`.
#[verifier::external_body]
fn decode_cells(size: i32, cells: &[u8]) -> (payload: Option<Vec<u8>>)
    requires
        size >= 0,
        cells@.len() == 3917,
    ensures
        match payload {
            Some(p) => quircs_payload(size, cells@) == Some(p@),
            None => quircs_payload(size, cells@) is None,
        },
{
    let mut code = quircs::Code::default();
    code.size = size;
    code.cell_bitmap.copy_from_slice(cells);
    match code.decode() {
        Ok(data) => Some(data.payload),
        Err(_) => None,
    }
}

/// What became of each code of an image: not extracted (`None`), or
/// extracted with its payload if it decodes.
pub open spec fn scan_outcomes(width: usize, height: usize, gray: Seq<u8>) -> Seq<Option<Option<Seq<u8>>>> {
    quircs_codes(width, height, gray).map_values(|c: Option<(i32, Seq<u8>)>| match c {
        Some((size, cells)) => Some(quircs_payload(size, cells)),
        None => None,
    })
}

/// The payload taken from the outcomes of an image's codes, in order (as
/// `first_payload_of`).
pub open spec fn first_payload_in(o: Seq<Option<Option<Seq<u8>>>>) -> Result<Seq<u8>, Seq<char>>
    decreases o.len(),
{
    if o.len() == 0 {
        Err("No QR code found in image"@)
    } else {
        match o[0] {
            None => Err("Quircs identify error: Out of bounds"@),
            Some(None) => first_payload_in(o.drop_first()),
            Some(Some(p)) => Ok(p),
        }
    }
}

/// What reading a grayscale image gives: the text of the first code that
/// decodes, or why there is none.
pub open spec fn gray_text(width: usize, height: usize, gray: Seq<u8>) -> Result<Seq<char>, Seq<char>> {
    match first_payload_in(scan_outcomes(width, height, gray)) {
        Ok(p) => Ok(lossy_text(p)),
        Err(e) => Err(e),
    }
}

/// What `String::from_utf8_lossy` makes of some bytes.
pub uninterp spec fn lossy_text(bytes: Seq<u8>) -> Seq<char>;

/// `String::from_utf8_lossy(bytes).to_string()`, named by `lossy_text`.
#[verifier::external_body]
fn utf8_lossy(bytes: &[u8]) -> (s: String)
    ensures
        s@ == lossy_text(bytes@),
{
    String::from_utf8_lossy(bytes).to_string()
}

/// What became of one code found in an image.
pub enum CodeOutcome {
    /// The code could not be extracted from the image.
    Unreadable,
    /// The code was found but does not decode.
    Undecodable,
    /// The code's payload.
    Payload(Vec<u8>),
}

/// The payload taken from the codes of an image, in order: the first code
/// that decodes, unless a code before it could not be extracted.
pub open spec fn first_payload_of(outcomes: Seq<CodeOutcome>) -> Result<Seq<u8>, Seq<char>>
    decreases outcomes.len(),
{
    if outcomes.len() == 0 {
        Err("No QR code found in image"@)
    } else {
        match outcomes[0] {
            CodeOutcome::Unreadable => Err("Quircs identify error: Out of bounds"@),
            CodeOutcome::Undecodable => first_payload_of(outcomes.drop_first()),
            CodeOutcome::Payload(p) => Ok(p@),
        }
    }
}

/// Picks the payload from the codes of an image (see `first_payload_of`).
pub fn first_payload(found: Vec<CodeOutcome>) -> (r: Result<Vec<u8>, String>)
    ensures
        match r {
            Ok(p) => first_payload_of(found@) == Ok::<Seq<u8>, Seq<char>>(p@),
            Err(e) => first_payload_of(found@) == Err::<Seq<u8>, Seq<char>>(e@),
        },
{
    let ghost all = found@;
    let mut outcomes = found;
    let n = outcomes.len();
    let mut i: usize = 0;
    assert(all.skip(0) =~= all);
    while i < n
        invariant
            all == found@,
            n == all.len(),
            outcomes@ == all,
            i <= n,
            first_payload_of(all) == first_payload_of(all.skip(i as int)),
        decreases n - i,
    {
        let ghost rest = all.skip(i as int);
        assert(rest.len() > 0 && rest[0] == all[i as int]);
        assert(rest.drop_first() =~= all.skip(i + 1));
        assert(first_payload_of(rest) == match all[i as int] {
            CodeOutcome::Unreadable => Err("Quircs identify error: Out of bounds"@),
            CodeOutcome::Undecodable => first_payload_of(all.skip(i + 1)),
            CodeOutcome::Payload(p) => Ok(p@),
        });
        let unreadable = match &outcomes[i] {
            CodeOutcome::Unreadable => true,
            _ => false,
        };
        if unreadable {
            proof {
                reveal_strlit("Quircs identify error: Out of bounds");
            }
            return Err(String::from_str("Quircs identify error: Out of bounds"));
        }
        let decoded = match &outcomes[i] {
            CodeOutcome::Payload(_) => true,
            _ => false,
        };
        if decoded {
            let o = outcomes.remove(i);
            match o {
                CodeOutcome::Payload(p) => {
                    return Ok(p);
                },
                _ => {
                    assert(false);
                    return Err(String::new());
                },
            }
        }
        i = i + 1;
    }
    assert(all.skip(n as int).len() == 0);
    Err(String::from_str("No QR code found in image"))
}

/// The outcome of a code as a plain value.
pub open spec fn outcome_view(o: CodeOutcome) -> Option<Option<Seq<u8>>> {
    match o {
        CodeOutcome::Unreadable => None,
        CodeOutcome::Undecodable => Some(None),
        CodeOutcome::Payload(p) => Some(Some(p@)),
    }
}

proof fn lemma_first_payload_views(o: Seq<CodeOutcome>)
    ensures
        first_payload_of(o) == first_payload_in(o.map_values(|c: CodeOutcome| outcome_view(c))),
    decreases o.len(),
{
    let v = o.map_values(|c: CodeOutcome| outcome_view(c));
    if o.len() > 0 {
        assert(v.drop_first() =~= o.drop_first().map_values(|c: CodeOutcome| outcome_view(c)));
        lemma_first_payload_views(o.drop_first());
        assert(v[0] == outcome_view(o[0]));
    }
}

/// The text of the first code in a grayscale image of `width` × `height`
/// bytes that decodes (its payload read as UTF-8, invalid sequences
/// replaced), or why there is none (see `gray_text`).
pub fn decode_gray(gray: &Vec<u8>, width: usize, height: usize) -> (r: Result<String, String>)
    requires
        width * height == gray@.len(),
    ensures
        match r {
            Ok(t) => gray_text(width, height, gray@) == Ok::<Seq<char>, Seq<char>>(t@),
            Err(e) => gray_text(width, height, gray@) == Err::<Seq<char>, Seq<char>>(e@),
        },
{
    let codes = identify_codes(width, height, gray.as_slice());
    let ghost want = scan_outcomes(width, height, gray@);
    assert(want.len() == codes@.len());
    let mut outcomes: Vec<CodeOutcome> = Vec::new();
    let mut k: usize = 0;
    while k < codes.len()
        invariant
            k <= codes@.len(),
            want == scan_outcomes(width, height, gray@),
            code_views(codes@) == quircs_codes(width, height, gray@),
            forall|j: int| 0 <= j < codes@.len() ==> (#[trigger] codes@[j] matches Some((s, c)) ==> s >= 0
                && c@.len() == 3917),
            outcomes@.len() == k,
            want.len() == codes@.len(),
            outcomes@.map_values(|c: CodeOutcome| outcome_view(c)) == want.take(k as int),
        decreases codes.len() - k,
    {
        let ghost before = outcomes@;
        assert(code_views(codes@)[k as int] == quircs_codes(width, height, gray@)[k as int]);
        match &codes[k] {
            None => outcomes.push(CodeOutcome::Unreadable),
            Some((size, cells)) => match decode_cells(*size, cells.as_slice()) {
                Some(p) => outcomes.push(CodeOutcome::Payload(p)),
                None => outcomes.push(CodeOutcome::Undecodable),
            },
        }
        assert(outcomes@ == before.push(outcomes@[k as int]));
        assert(outcome_view(outcomes@[k as int]) == want[k as int]);
        assert(outcomes@.map_values(|c: CodeOutcome| outcome_view(c)) =~= want.take(k + 1));
        k = k + 1;
    }
    assert(want.take(k as int) =~= want);
    proof {
        lemma_first_payload_views(outcomes@);
    }
    match first_payload(outcomes) {
        Ok(p) => Ok(utf8_lossy(p.as_slice())),
        Err(e) => Err(e),
    }
}

} // verus!
