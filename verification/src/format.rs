//! Output image format, selected from the output path's file extension.

use vstd::prelude::*;

verus! {

/// Supported image file formats for the exported diagram.
#[derive(Clone, Copy, Debug, PartialEq, Eq, Structural)]
pub enum ImageFormat {
    /// PNG file type. Default.
    Png,
    /// SVG file type.
    Svg,
}

/// Whether position `d` in `p` is the dot that starts the file extension:
/// a dot in the last path component, not at the component's first position,
/// with nothing after it but the extension characters themselves.
pub open spec fn is_ext_dot(p: Seq<char>, d: int) -> bool {
    &&& 0 < d < p.len()
    &&& p[d] == '.'
    &&& p[d - 1] != '/'
    &&& forall|j: int| d < j < p.len() ==> p[j] != '/' && p[j] != '.'
}

/// The file extension of path `p` (the part after the extension dot),
/// or `None` when the last component has no extension.
pub open spec fn ext_of(p: Seq<char>) -> Option<Seq<char>> {
    if exists|d: int| is_ext_dot(p, d) {
        Some(p.subrange((choose|d: int| is_ext_dot(p, d)) + 1, p.len() as int))
    } else {
        None
    }
}

/// Whether `e` is the three-character extension `svg`, ignoring ASCII case.
pub open spec fn is_svg_ext(e: Seq<char>) -> bool {
    &&& e.len() == 3
    &&& (e[0] == 's' || e[0] == 'S')
    &&& (e[1] == 'v' || e[1] == 'V')
    &&& (e[2] == 'g' || e[2] == 'G')
}

/// Whether the path's file extension is `svg`, ignoring ASCII case,
/// written out over the last characters of the path.
pub open spec fn is_svg_path(p: Seq<char>) -> bool {
    &&& p.len() >= 5
    &&& p[p.len() - 4] == '.'
    &&& p[p.len() - 5] != '/'
    &&& (p[p.len() - 3] == 's' || p[p.len() - 3] == 'S')
    &&& (p[p.len() - 2] == 'v' || p[p.len() - 2] == 'V')
    &&& (p[p.len() - 1] == 'g' || p[p.len() - 1] == 'G')
}

/// The format selected for an output path: SVG when the extension is `svg`
/// (ignoring ASCII case), PNG for every other extension, including none.
pub open spec fn spec_format_of(p: Seq<char>) -> ImageFormat {
    if is_svg_path(p) {
        ImageFormat::Svg
    } else {
        ImageFormat::Png
    }
}

/// A path has at most one extension dot.
proof fn lemma_ext_dot_unique(p: Seq<char>, d1: int, d2: int)
    requires
        is_ext_dot(p, d1),
        is_ext_dot(p, d2),
    ensures
        d1 == d2,
{
    if d1 < d2 {
        assert(p[d2] != '.');
    }
    if d2 < d1 {
        assert(p[d1] != '.');
    }
}

/// The closed-form suffix test `is_svg_path` agrees with extracting the
/// extension and testing it for `svg`.
pub proof fn lemma_svg_path_is_svg_ext(p: Seq<char>)
    ensures
        is_svg_path(p) <==> (ext_of(p) matches Some(e) && is_svg_ext(e)),
{
    if is_svg_path(p) {
        let d = p.len() - 4;
        assert(is_ext_dot(p, d));
        let dc = choose|d0: int| is_ext_dot(p, d0);
        lemma_ext_dot_unique(p, d, dc);
        assert(ext_of(p) == Some(p.subrange(d + 1, p.len() as int)));
        let e = p.subrange(d + 1, p.len() as int);
        assert(e.len() == 3);
        assert(e[0] == p[p.len() - 3]);
        assert(e[1] == p[p.len() - 2]);
        assert(e[2] == p[p.len() - 1]);
    }
    if ext_of(p) is Some && is_svg_ext(ext_of(p)->Some_0) {
        let e = ext_of(p)->Some_0;
        let dc = choose|d0: int| is_ext_dot(p, d0);
        assert(is_ext_dot(p, dc));
        assert(e == p.subrange(dc + 1, p.len() as int));
        assert(p.len() - dc - 1 == 3);
        assert(p[p.len() - 3] == e[0]);
        assert(p[p.len() - 2] == e[1]);
        assert(p[p.len() - 1] == e[2]);
        assert(is_svg_path(p));
    }
}

/// The selected format is a function of the path's extension alone:
/// two paths with the same extension select the same format.
pub proof fn lemma_format_depends_on_ext_only(p1: Seq<char>, p2: Seq<char>)
    requires
        ext_of(p1) == ext_of(p2),
    ensures
        spec_format_of(p1) == spec_format_of(p2),
{
    lemma_svg_path_is_svg_ext(p1);
    lemma_svg_path_is_svg_ext(p2);
}

impl ImageFormat {
    /// Select the output format from the output path: SVG when the file
    /// extension is `svg` ignoring ASCII case, PNG otherwise.
    pub fn from_path(path: &str) -> (r: ImageFormat)
        ensures
            r == spec_format_of(path@),
    {
        let n = path.unicode_len();
        if n < 5 {
            return ImageFormat::Png;
        }
        let dot = path.get_char(n - 4);
        let sep = path.get_char(n - 5);
        let c0 = path.get_char(n - 3);
        let c1 = path.get_char(n - 2);
        let c2 = path.get_char(n - 1);
        if dot == '.' && sep != '/' && (c0 == 's' || c0 == 'S') && (c1 == 'v' || c1 == 'V') && (c2
            == 'g' || c2 == 'G') {
            ImageFormat::Svg
        } else {
            ImageFormat::Png
        }
    }
}

} // verus!
