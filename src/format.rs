use vstd::prelude::*;

verus! {

/// The color formats a surface may report among its capabilities.
#[derive(Clone, Copy, Debug, PartialEq, Eq, Structural)]
pub enum ColorFormat {
    Rgba8Unorm,
    Bgra8Unorm,
    Rgba8UnormSrgb,
    Bgra8UnormSrgb,
    Rgba16Float,
    Rgb10a2Unorm,
    Other,
}

/// Errors that surface creation reports to its caller.
#[derive(Clone, Copy, Debug, PartialEq, Eq, Structural)]
pub enum Error {
    /// No adapter could be found or created that supports the surface.
    NoCompatibleDevice,
    /// A compatible device exists but offers no 8-bit RGBA/BGRA normalized format.
    UnsupportedSurfaceFormat,
    /// The backend could not create a surface for the given target.
    SurfaceCreationFailed,
}

/// The allow-list of render formats: 8 bits per channel, RGBA or BGRA, normalized.
pub open spec fn is_render_format(f: ColorFormat) -> bool {
    f == ColorFormat::Rgba8Unorm || f == ColorFormat::Bgra8Unorm
}

/// `i` is the position of the first allowed format in `formats`.
pub open spec fn is_first_render_format(formats: Seq<ColorFormat>, i: int) -> bool {
    &&& 0 <= i < formats.len()
    &&& is_render_format(formats[i])
    &&& forall|j: int| 0 <= j < i ==> !is_render_format(#[trigger] formats[j])
}

/// No format in `formats` is on the allow-list.
pub open spec fn has_no_render_format(formats: Seq<ColorFormat>) -> bool {
    forall|j: int| 0 <= j < formats.len() ==> !is_render_format(#[trigger] formats[j])
}

/// Whether `f` is on the allow-list of render formats.
pub fn is_supported_render_format(f: ColorFormat) -> (r: bool)
    ensures
        r == is_render_format(f),
{
    match f {
        ColorFormat::Rgba8Unorm | ColorFormat::Bgra8Unorm => true,
        _ => false,
    }
}

/// Picks the first format of the backend's capability list that is on the allow-list.
pub fn select_format(formats: &Vec<ColorFormat>) -> (r: Result<ColorFormat, Error>)
    ensures
        r is Ok <==> !has_no_render_format(formats@),
        r matches Ok(f) ==> exists|i: int| is_first_render_format(formats@, i) && formats@[i] == f,
        r matches Err(e) ==> e == Error::UnsupportedSurfaceFormat,
{
    let mut i: usize = 0;
    while i < formats.len()
        invariant
            0 <= i <= formats@.len(),
            has_no_render_format(formats@.subrange(0, i as int)),
        decreases formats@.len() - i,
    {
        let f = formats[i];
        if is_supported_render_format(f) {
            assert(is_first_render_format(formats@, i as int)) by {
                assert forall|j: int| 0 <= j < i implies !is_render_format(formats@[j]) by {
                    assert(formats@.subrange(0, i as int)[j] == formats@[j]);
                }
            }
            return Ok(f);
        }
        assert forall|j: int| 0 <= j < i + 1 implies !is_render_format(
            #[trigger] formats@.subrange(0, i + 1)[j],
        ) by {
            if j < i {
                assert(formats@.subrange(0, i as int)[j] == formats@[j]);
            }
        }
        i = i + 1;
    }
    assert(formats@.subrange(0, i as int) =~= formats@);
    Err(Error::UnsupportedSurfaceFormat)
}

/// The first allowed format of a capability list is unique, so the selection is
/// deterministic: two positions that are both "first allowed" are the same.
pub proof fn lemma_first_render_format_unique(formats: Seq<ColorFormat>, i: int, k: int)
    requires
        is_first_render_format(formats, i),
        is_first_render_format(formats, k),
    ensures
        i == k,
{
    if i < k {
        assert(!is_render_format(formats[i]));
    } else if k < i {
        assert(!is_render_format(formats[k]));
    }
}

/// When several allowed formats are listed, the one selected is never listed
/// after any of them: the backend's earliest allowed entry wins.
pub proof fn lemma_prefers_first_listed(formats: Seq<ColorFormat>, a: int, i: int)
    requires
        0 <= a < formats.len(),
        is_render_format(formats[a]),
        is_first_render_format(formats, i),
    ensures
        i <= a,
{
    if i > a {
        assert(!is_render_format(formats[a]));
    }
}

} // verus!
