//! The interface's icons: their SVG drawings, the colored drawing for a
//! given color, the key they are cached under, and the text that stands for
//! them where no image can be drawn.
use vstd::prelude::*;
use crate::text::{hex2, push_hex2};

verus! {

/// `s` with every occurrence of `pat` (taken from the left, without
/// overlap) replaced by `rep`, as `str::replace` does for a non-empty
/// pattern.
pub open spec fn replace_all(s: Seq<char>, pat: Seq<char>, rep: Seq<char>) -> Seq<char>
    recommends
        pat.len() > 0,
    decreases s.len(),
{
    if pat.len() == 0 || s.len() < pat.len() {
        s
    } else if s.subrange(0, pat.len() as int) == pat {
        rep + replace_all(s.subrange(pat.len() as int, s.len() as int), pat, rep)
    } else {
        seq![s[0]] + replace_all(s.subrange(1, s.len() as int), pat, rep)
    }
}

fn matches_here(s: &Vec<char>, i: usize, pat: &Vec<char>) -> (b: bool)
    requires
        i + pat@.len() <= s@.len(),
    ensures
        b == (s@.subrange(i as int, i + pat@.len()) == pat@),
{
    let m = pat.len();
    let total = s.len();
    let mut k: usize = 0;
    while k < m
        invariant
            m == pat@.len(),
            total == s@.len(),
            i + m <= s@.len(),
            k <= m,
            forall|t: int| 0 <= t < k ==> s@[i + t] == pat@[t],
        decreases m - k,
    {
        if s[i + k] != pat[k] {
            assert(s@.subrange(i as int, i + m)[k as int] != pat@[k as int]);
            return false;
        }
        k = k + 1;
    }
    assert(s@.subrange(i as int, i + m) =~= pat@);
    true
}

/// `str::replace` with a non-empty pattern.
pub fn replace_text(s: &str, pat: &str, rep: &str) -> (r: String)
    requires
        pat@.len() > 0,
    ensures
        r@ == replace_all(s@, pat@, rep@),
{
    let sc = crate::text::chars_of(s);
    let pc = crate::text::chars_of(pat);
    let n = sc.len();
    let m = pc.len();
    let mut out = String::new();
    let mut i: usize = 0;
    assert(s@.subrange(0, n as int) =~= s@);
    assert(out@ + replace_all(s@, pat@, rep@) =~= replace_all(s@, pat@, rep@));
    while i < n
        invariant
            n == s@.len(),
            m == pat@.len(),
            m > 0,
            sc@ == s@,
            pc@ == pat@,
            i <= n,
            out@ + replace_all(s@.subrange(i as int, n as int), pat@, rep@) == replace_all(s@, pat@, rep@),
        decreases n - i,
    {
        let ghost rest = s@.subrange(i as int, n as int);
        if n - i >= m && matches_here(&sc, i, &pc) {
            proof {
                assert(rest.subrange(0, m as int) =~= s@.subrange(i as int, i + m));
                assert(rest.subrange(m as int, rest.len() as int) =~= s@.subrange(i + m, n as int));
                assert(out@ + rep@ + replace_all(s@.subrange(i + m, n as int), pat@, rep@) =~= out@ + replace_all(rest, pat@, rep@));
            }
            out.append(rep);
            i = i + m;
        } else {
            let piece = String::from_str(s.substring_char(i, i + 1));
            proof {
                if n - i >= m {
                    assert(rest.subrange(0, m as int) =~= s@.subrange(i as int, i + m));
                }
                assert(rest.subrange(1, rest.len() as int) =~= s@.subrange(i + 1, n as int));
                assert(piece@ =~= seq![rest[0]]);
                assert(out@ + piece@ + replace_all(s@.subrange(i + 1, n as int), pat@, rep@) =~= out@ + replace_all(rest, pat@, rep@));
            }
            out.append(piece.as_str());
            i = i + 1;
        }
    }
    proof {
        assert(s@.subrange(n as int, n as int) =~= Seq::<char>::empty());
        assert(out@ + Seq::<char>::empty() =~= out@);
    }
    out
}

/// The icons.
#[derive(Debug, Clone, Copy, PartialEq, Eq, Hash, Structural)]
pub enum Icon {
    Import,
    Plus,
    Users,
    Copy,
    Save,
    Folder,
    Back,
    Delete,
}

/// The icon's name.
pub open spec fn icon_name(i: Icon) -> Seq<char> {
    match i {
        Icon::Import => "Import"@,
        Icon::Plus => "Plus"@,
        Icon::Users => "Users"@,
        Icon::Copy => "Copy"@,
        Icon::Save => "Save"@,
        Icon::Folder => "Folder"@,
        Icon::Back => "Back"@,
        Icon::Delete => "Delete"@,
    }
}

/// The text standing for an icon.
pub open spec fn icon_text(i: Icon) -> Seq<char> {
    match i {
        Icon::Import => "[Import]"@,
        Icon::Plus => "+"@,
        Icon::Users => "[Join]"@,
        Icon::Copy => "[Copy]"@,
        Icon::Save => "[Save]"@,
        Icon::Folder => "[Open]"@,
        Icon::Back => "<-"@,
        Icon::Delete => "X"@,
    }
}

/// The SVG drawing of each icon (24 by 24, stroked in the current color).
pub open spec fn icon_svg(i: Icon) -> Seq<char> {
    match i {
        Icon::Import => "<svg xmlns=\"http://www.w3.org/2000/svg\" width=\"24\" height=\"24\" viewBox=\"0 0 24 24\" fill=\"none\" stroke=\"currentColor\" stroke-width=\"2\" stroke-linecap=\"round\" stroke-linejoin=\"round\"><path d=\"M21 15v4a2 2 0 0 1-2 2H5a2 2 0 0 1-2-2v-4\"/><polyline points=\"7 10 12 15 17 10\"/><line x1=\"12\" y1=\"15\" x2=\"12\" y2=\"3\"/></svg>"@,
        Icon::Plus => "<svg xmlns=\"http://www.w3.org/2000/svg\" width=\"24\" height=\"24\" viewBox=\"0 0 24 24\" fill=\"none\" stroke=\"currentColor\" stroke-width=\"2\" stroke-linecap=\"round\" stroke-linejoin=\"round\"><line x1=\"12\" y1=\"5\" x2=\"12\" y2=\"19\"/><line x1=\"5\" y1=\"12\" x2=\"19\" y2=\"12\"/></svg>"@,
        Icon::Users => "<svg xmlns=\"http://www.w3.org/2000/svg\" width=\"24\" height=\"24\" viewBox=\"0 0 24 24\" fill=\"none\" stroke=\"currentColor\" stroke-width=\"2\" stroke-linecap=\"round\" stroke-linejoin=\"round\"><path d=\"M17 21v-2a4 4 0 0 0-4-4H5a4 4 0 0 0-4 4v2\"/><circle cx=\"9\" cy=\"7\" r=\"4\"/><path d=\"M23 21v-2a4 4 0 0 0-3-3.87\"/><path d=\"M16 3.13a4 4 0 0 1 0 7.75\"/></svg>"@,
        Icon::Copy => "<svg xmlns=\"http://www.w3.org/2000/svg\" width=\"24\" height=\"24\" viewBox=\"0 0 24 24\" fill=\"none\" stroke=\"currentColor\" stroke-width=\"2\" stroke-linecap=\"round\" stroke-linejoin=\"round\"><rect x=\"9\" y=\"9\" width=\"13\" height=\"13\" rx=\"2\" ry=\"2\"/><path d=\"M5 15H4a2 2 0 0 1-2-2V4a2 2 0 0 1 2-2h9a2 2 0 0 1 2 2v1\"/></svg>"@,
        Icon::Save => "<svg xmlns=\"http://www.w3.org/2000/svg\" width=\"24\" height=\"24\" viewBox=\"0 0 24 24\" fill=\"none\" stroke=\"currentColor\" stroke-width=\"2\" stroke-linecap=\"round\" stroke-linejoin=\"round\"><path d=\"M19 21H5a2 2 0 0 1-2-2V5a2 2 0 0 1 2-2h11l5 5v11a2 2 0 0 1-2 2z\"/><polyline points=\"17 21 17 13 7 13 7 21\"/><polyline points=\"7 3 7 8 15 8\"/></svg>"@,
        Icon::Folder => "<svg xmlns=\"http://www.w3.org/2000/svg\" width=\"24\" height=\"24\" viewBox=\"0 0 24 24\" fill=\"none\" stroke=\"currentColor\" stroke-width=\"2\" stroke-linecap=\"round\" stroke-linejoin=\"round\"><path d=\"M22 19a2 2 0 0 1-2 2H4a2 2 0 0 1-2-2V5a2 2 0 0 1 2-2h5l2 3h9a2 2 0 0 1 2 2z\"/></svg>"@,
        Icon::Back => "<svg xmlns=\"http://www.w3.org/2000/svg\" width=\"24\" height=\"24\" viewBox=\"0 0 24 24\" fill=\"none\" stroke=\"currentColor\" stroke-width=\"2\" stroke-linecap=\"round\" stroke-linejoin=\"round\"><line x1=\"19\" y1=\"12\" x2=\"5\" y2=\"12\"/><polyline points=\"12 19 5 12 12 5\"/></svg>"@,
        Icon::Delete => "<svg xmlns=\"http://www.w3.org/2000/svg\" width=\"24\" height=\"24\" viewBox=\"0 0 24 24\" fill=\"none\" stroke=\"currentColor\" stroke-width=\"2\" stroke-linecap=\"round\" stroke-linejoin=\"round\"><line x1=\"18\" y1=\"6\" x2=\"6\" y2=\"18\"/><line x1=\"6\" y1=\"6\" x2=\"18\" y2=\"18\"/></svg>"@,
    }
}

/// `#rrggbb` for a color.
pub open spec fn color_hex(r: u8, g: u8, b: u8) -> Seq<char> {
    "#"@ + hex2(r) + hex2(g) + hex2(b)
}

impl Icon {
    /// The icon's SVG drawing.
    pub fn svg_data(&self) -> (s: &'static str)
        ensures
            s@ == icon_svg(*self),
    {
        match self {
            Icon::Import => "<svg xmlns=\"http://www.w3.org/2000/svg\" width=\"24\" height=\"24\" viewBox=\"0 0 24 24\" fill=\"none\" stroke=\"currentColor\" stroke-width=\"2\" stroke-linecap=\"round\" stroke-linejoin=\"round\"><path d=\"M21 15v4a2 2 0 0 1-2 2H5a2 2 0 0 1-2-2v-4\"/><polyline points=\"7 10 12 15 17 10\"/><line x1=\"12\" y1=\"15\" x2=\"12\" y2=\"3\"/></svg>",
            Icon::Plus => "<svg xmlns=\"http://www.w3.org/2000/svg\" width=\"24\" height=\"24\" viewBox=\"0 0 24 24\" fill=\"none\" stroke=\"currentColor\" stroke-width=\"2\" stroke-linecap=\"round\" stroke-linejoin=\"round\"><line x1=\"12\" y1=\"5\" x2=\"12\" y2=\"19\"/><line x1=\"5\" y1=\"12\" x2=\"19\" y2=\"12\"/></svg>",
            Icon::Users => "<svg xmlns=\"http://www.w3.org/2000/svg\" width=\"24\" height=\"24\" viewBox=\"0 0 24 24\" fill=\"none\" stroke=\"currentColor\" stroke-width=\"2\" stroke-linecap=\"round\" stroke-linejoin=\"round\"><path d=\"M17 21v-2a4 4 0 0 0-4-4H5a4 4 0 0 0-4 4v2\"/><circle cx=\"9\" cy=\"7\" r=\"4\"/><path d=\"M23 21v-2a4 4 0 0 0-3-3.87\"/><path d=\"M16 3.13a4 4 0 0 1 0 7.75\"/></svg>",
            Icon::Copy => "<svg xmlns=\"http://www.w3.org/2000/svg\" width=\"24\" height=\"24\" viewBox=\"0 0 24 24\" fill=\"none\" stroke=\"currentColor\" stroke-width=\"2\" stroke-linecap=\"round\" stroke-linejoin=\"round\"><rect x=\"9\" y=\"9\" width=\"13\" height=\"13\" rx=\"2\" ry=\"2\"/><path d=\"M5 15H4a2 2 0 0 1-2-2V4a2 2 0 0 1 2-2h9a2 2 0 0 1 2 2v1\"/></svg>",
            Icon::Save => "<svg xmlns=\"http://www.w3.org/2000/svg\" width=\"24\" height=\"24\" viewBox=\"0 0 24 24\" fill=\"none\" stroke=\"currentColor\" stroke-width=\"2\" stroke-linecap=\"round\" stroke-linejoin=\"round\"><path d=\"M19 21H5a2 2 0 0 1-2-2V5a2 2 0 0 1 2-2h11l5 5v11a2 2 0 0 1-2 2z\"/><polyline points=\"17 21 17 13 7 13 7 21\"/><polyline points=\"7 3 7 8 15 8\"/></svg>",
            Icon::Folder => "<svg xmlns=\"http://www.w3.org/2000/svg\" width=\"24\" height=\"24\" viewBox=\"0 0 24 24\" fill=\"none\" stroke=\"currentColor\" stroke-width=\"2\" stroke-linecap=\"round\" stroke-linejoin=\"round\"><path d=\"M22 19a2 2 0 0 1-2 2H4a2 2 0 0 1-2-2V5a2 2 0 0 1 2-2h5l2 3h9a2 2 0 0 1 2 2z\"/></svg>",
            Icon::Back => "<svg xmlns=\"http://www.w3.org/2000/svg\" width=\"24\" height=\"24\" viewBox=\"0 0 24 24\" fill=\"none\" stroke=\"currentColor\" stroke-width=\"2\" stroke-linecap=\"round\" stroke-linejoin=\"round\"><line x1=\"19\" y1=\"12\" x2=\"5\" y2=\"12\"/><polyline points=\"12 19 5 12 12 5\"/></svg>",
            Icon::Delete => "<svg xmlns=\"http://www.w3.org/2000/svg\" width=\"24\" height=\"24\" viewBox=\"0 0 24 24\" fill=\"none\" stroke=\"currentColor\" stroke-width=\"2\" stroke-linecap=\"round\" stroke-linejoin=\"round\"><line x1=\"18\" y1=\"6\" x2=\"6\" y2=\"18\"/><line x1=\"6\" y1=\"6\" x2=\"18\" y2=\"18\"/></svg>",
        }
    }

    /// The icon's name.
    pub fn name(&self) -> (s: &'static str)
        ensures
            s@ == icon_name(*self),
    {
        match self {
            Icon::Import => "Import",
            Icon::Plus => "Plus",
            Icon::Users => "Users",
            Icon::Copy => "Copy",
            Icon::Save => "Save",
            Icon::Folder => "Folder",
            Icon::Back => "Back",
            Icon::Delete => "Delete",
        }
    }

    /// The text standing for the icon.
    pub fn as_text(&self) -> (s: &'static str)
        ensures
            s@ == icon_text(*self),
    {
        match self {
            Icon::Import => "[Import]",
            Icon::Plus => "+",
            Icon::Users => "[Join]",
            Icon::Copy => "[Copy]",
            Icon::Save => "[Save]",
            Icon::Folder => "[Open]",
            Icon::Back => "<-",
            Icon::Delete => "X",
        }
    }

    /// The key a drawing of the icon in a color is cached under:
    /// `Name_rrggbb`.
    pub fn cache_key(&self, r: u8, g: u8, b: u8) -> (k: String)
        ensures
            k@ == icon_name(*self) + "_"@ + hex2(r) + hex2(g) + hex2(b),
    {
        let mut k = String::from_str(self.name());
        k.append("_");
        push_hex2(&mut k, r);
        push_hex2(&mut k, g);
        push_hex2(&mut k, b);
        k
    }

    /// The drawing stroked in the given color.
    pub fn colored_svg(&self, r: u8, g: u8, b: u8) -> (s: String)
        ensures
            s@ == replace_all(
                icon_svg(*self),
                "stroke=\"currentColor\""@,
                "stroke=\""@ + color_hex(r, g, b) + "\""@,
            ),
    {
        let mut stroke = String::from_str("stroke=\"#");
        push_hex2(&mut stroke, r);
        push_hex2(&mut stroke, g);
        push_hex2(&mut stroke, b);
        stroke.append("\"");
        proof {
            reveal_strlit("stroke=\"currentColor\"");
            reveal_strlit("stroke=\"#");
            reveal_strlit("#");
            reveal_strlit("stroke=\"");
            assert(stroke@ =~= "stroke=\""@ + color_hex(r, g, b) + "\""@);
        }
        replace_text(self.svg_data(), "stroke=\"currentColor\"", stroke.as_str())
    }
}

/// A label with the text standing for an icon before it.
pub fn icon_label(icon: Icon, text: &str) -> (s: String)
    ensures
        s@ == icon_text(icon) + " "@ + text@,
{
    let mut s = String::from_str(icon.as_text());
    s.append(" ");
    s.append(text);
    s
}

} // verus!
