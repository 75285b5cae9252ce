//! Swapchain planning: choosing image count, surface format, present mode
//! and extent from what the platform reports.
//!
//! The plan is computed from plain values queried by the caller; creating
//! and tearing down the native swapchain object is the caller's business.
//! Image count is clamped to the reported bounds with a preferred target of
//! three (triple buffering), where a reported maximum of zero means
//! unbounded. Surface formats are ranked: 10-bit-per-channel formats first
//! (to avoid banding), then 8-bit sRGB formats, then anything else. The
//! present mode must be the immediate (no vsync) one; planning fails when
//! the platform does not offer it. The extent is the surface's current
//! extent unless the platform reports it undefined (both dimensions at the
//! maximum representable value), in which case the window's pixel size is
//! substituted.

use vstd::prelude::*;

verus! {

/// The pixel formats the sandbox distinguishes; any other format is carried
/// through opaquely by its raw code.
#[derive(Copy, Clone, PartialEq, Eq, Structural, Debug)]
pub enum PixelFormat {
    A2B10G10R10UnormPack32,
    A2R10G10B10UnormPack32,
    R8Srgb,
    R8G8Srgb,
    R8G8B8Srgb,
    B8G8R8Srgb,
    R8G8B8A8Srgb,
    B8G8R8A8Srgb,
    A8B8G8R8SrgbPack32,
    Bc1RgbSrgbBlock,
    Bc1RgbaSrgbBlock,
    Bc2SrgbBlock,
    Bc3SrgbBlock,
    Bc7SrgbBlock,
    Etc2R8G8B8SrgbBlock,
    Etc2R8G8B8A1SrgbBlock,
    Etc2R8G8B8A8SrgbBlock,
    Astc4x4SrgbBlock,
    Astc5x4SrgbBlock,
    Astc5x5SrgbBlock,
    Astc6x5SrgbBlock,
    Astc6x6SrgbBlock,
    Astc8x5SrgbBlock,
    Astc8x6SrgbBlock,
    Astc8x8SrgbBlock,
    Astc10x5SrgbBlock,
    Astc10x6SrgbBlock,
    Astc10x8SrgbBlock,
    Astc12x10SrgbBlock,
    Astc12x12SrgbBlock,
    Other(i32),
}

/// How the window system presents finished images.
#[derive(Copy, Clone, PartialEq, Eq, Structural, Debug)]
pub enum PresentMode {
    Immediate,
    Mailbox,
    Fifo,
    FifoRelaxed,
    Other(i32),
}

/// A surface format as the platform reports it: a pixel format together
/// with the raw code of its color space.
#[derive(Copy, Clone, PartialEq, Eq, Structural, Debug)]
pub struct SurfaceFormat {
    pub format: PixelFormat,
    pub color_space: i32,
}

/// What the surface reports about itself: image count bounds and the
/// current extent in pixels.
#[derive(Copy, Clone, PartialEq, Eq, Structural, Debug)]
pub struct SurfaceCaps {
    pub min_image_count: u32,
    pub max_image_count: u32,
    pub current_width: u32,
    pub current_height: u32,
}

/// Everything needed to create a swapchain, decided from the queries above.
#[derive(Copy, Clone, PartialEq, Eq, Structural, Debug)]
pub struct SwapchainPlan {
    pub format: PixelFormat,
    pub color_space: i32,
    pub width: u32,
    pub height: u32,
    pub image_count: u32,
    pub present_mode: PresentMode,
}

/// The preferred number of swapchain images: triple buffering.
pub const PREFERRED_IMAGE_COUNT: u32 = 3;

/// Whether a format stores 10 bits per color channel.
pub open spec fn spec_is_ten_bit(format: PixelFormat) -> bool {
    format == PixelFormat::A2B10G10R10UnormPack32 || format == PixelFormat::A2R10G10B10UnormPack32
}

/// Whether a format is sRGB-encoded.
pub open spec fn spec_is_srgb(format: PixelFormat) -> bool {
    ||| format == PixelFormat::R8Srgb
    ||| format == PixelFormat::R8G8Srgb
    ||| format == PixelFormat::R8G8B8Srgb
    ||| format == PixelFormat::B8G8R8Srgb
    ||| format == PixelFormat::R8G8B8A8Srgb
    ||| format == PixelFormat::B8G8R8A8Srgb
    ||| format == PixelFormat::A8B8G8R8SrgbPack32
    ||| format == PixelFormat::Bc1RgbSrgbBlock
    ||| format == PixelFormat::Bc1RgbaSrgbBlock
    ||| format == PixelFormat::Bc2SrgbBlock
    ||| format == PixelFormat::Bc3SrgbBlock
    ||| format == PixelFormat::Bc7SrgbBlock
    ||| format == PixelFormat::Etc2R8G8B8SrgbBlock
    ||| format == PixelFormat::Etc2R8G8B8A1SrgbBlock
    ||| format == PixelFormat::Etc2R8G8B8A8SrgbBlock
    ||| format == PixelFormat::Astc4x4SrgbBlock
    ||| format == PixelFormat::Astc5x4SrgbBlock
    ||| format == PixelFormat::Astc5x5SrgbBlock
    ||| format == PixelFormat::Astc6x5SrgbBlock
    ||| format == PixelFormat::Astc6x6SrgbBlock
    ||| format == PixelFormat::Astc8x5SrgbBlock
    ||| format == PixelFormat::Astc8x6SrgbBlock
    ||| format == PixelFormat::Astc8x8SrgbBlock
    ||| format == PixelFormat::Astc10x5SrgbBlock
    ||| format == PixelFormat::Astc10x6SrgbBlock
    ||| format == PixelFormat::Astc10x8SrgbBlock
    ||| format == PixelFormat::Astc12x10SrgbBlock
    ||| format == PixelFormat::Astc12x12SrgbBlock
}

/// Whether a format is sRGB-encoded, so the fragment stage must correct its
/// color output.
pub fn is_srgb(format: PixelFormat) -> (r: bool)
    ensures
        r == spec_is_srgb(format),
{
    match format {
        PixelFormat::R8Srgb => true,
        PixelFormat::R8G8Srgb => true,
        PixelFormat::R8G8B8Srgb => true,
        PixelFormat::B8G8R8Srgb => true,
        PixelFormat::R8G8B8A8Srgb => true,
        PixelFormat::B8G8R8A8Srgb => true,
        PixelFormat::A8B8G8R8SrgbPack32 => true,
        PixelFormat::Bc1RgbSrgbBlock => true,
        PixelFormat::Bc1RgbaSrgbBlock => true,
        PixelFormat::Bc2SrgbBlock => true,
        PixelFormat::Bc3SrgbBlock => true,
        PixelFormat::Bc7SrgbBlock => true,
        PixelFormat::Etc2R8G8B8SrgbBlock => true,
        PixelFormat::Etc2R8G8B8A1SrgbBlock => true,
        PixelFormat::Etc2R8G8B8A8SrgbBlock => true,
        PixelFormat::Astc4x4SrgbBlock => true,
        PixelFormat::Astc5x4SrgbBlock => true,
        PixelFormat::Astc5x5SrgbBlock => true,
        PixelFormat::Astc6x5SrgbBlock => true,
        PixelFormat::Astc6x6SrgbBlock => true,
        PixelFormat::Astc8x5SrgbBlock => true,
        PixelFormat::Astc8x6SrgbBlock => true,
        PixelFormat::Astc8x8SrgbBlock => true,
        PixelFormat::Astc10x5SrgbBlock => true,
        PixelFormat::Astc10x6SrgbBlock => true,
        PixelFormat::Astc10x8SrgbBlock => true,
        PixelFormat::Astc12x10SrgbBlock => true,
        PixelFormat::Astc12x12SrgbBlock => true,
        _ => false,
    }
}

/// The four-byte push-constant value handed to the fragment stage: one when
/// the target format is sRGB-encoded, zero otherwise.
pub fn srgb_flag(format: PixelFormat) -> (r: u32)
    ensures
        r == if spec_is_srgb(format) {
            1u32
        } else {
            0u32
        },
{
    if is_srgb(format) {
        1
    } else {
        0
    }
}

/// The preference rank of a surface format: lower is better. 10-bit
/// formats come first, then 8-bit sRGB formats, then everything else.
pub open spec fn spec_format_rank(f: SurfaceFormat) -> int {
    if spec_is_ten_bit(f.format) {
        0
    } else if f.format == PixelFormat::R8G8B8A8Srgb || f.format == PixelFormat::B8G8R8A8Srgb {
        1
    } else {
        usize::MAX as int
    }
}

/// Ranks a surface format for selection; lower is better.
pub fn rank_surface_format(f: &SurfaceFormat) -> (r: usize)
    ensures
        r == spec_format_rank(*f),
{
    match f.format {
        PixelFormat::A2B10G10R10UnormPack32 => 0,
        PixelFormat::A2R10G10B10UnormPack32 => 0,
        PixelFormat::R8G8B8A8Srgb => 1,
        PixelFormat::B8G8R8A8Srgb => 1,
        _ => usize::MAX,
    }
}

/// The index of the first surface format with the best (lowest) rank.
pub open spec fn first_best_format(s: Seq<SurfaceFormat>) -> int
    decreases s.len(),
{
    if s.len() <= 1 {
        0
    } else {
        let k = first_best_format(s.drop_last());
        if spec_format_rank(s.last()) < spec_format_rank(s[k]) {
            s.len() - 1
        } else {
            k
        }
    }
}

/// The index of the first best-ranked format lies in range, no format ranks
/// below it, and every earlier format ranks strictly worse.
pub proof fn lemma_first_best_format(s: Seq<SurfaceFormat>)
    requires
        s.len() > 0,
    ensures
        0 <= first_best_format(s) < s.len(),
        forall|j: int|
            0 <= j < s.len() ==> spec_format_rank(s[first_best_format(s)]) <= spec_format_rank(
                #[trigger] s[j],
            ),
        forall|j: int|
            0 <= j < first_best_format(s) ==> spec_format_rank(#[trigger] s[j])
                > spec_format_rank(s[first_best_format(s)]),
    decreases s.len(),
{
    if s.len() > 1 {
        let t = s.drop_last();
        let k = first_best_format(t);
        lemma_first_best_format(t);
        assert(forall|j: int| 0 <= j < t.len() ==> t[j] == #[trigger] s[j]);
        assert(s.last() == s[s.len() - 1]);
        if spec_format_rank(s.last()) < spec_format_rank(s[k]) {
            assert(first_best_format(s) == s.len() - 1);
            assert forall|j: int| 0 <= j < s.len() - 1 implies spec_format_rank(#[trigger] s[j])
                > spec_format_rank(s[s.len() - 1]) by {
                assert(spec_format_rank(t[k]) <= spec_format_rank(t[j]));
            }
        } else {
            assert(first_best_format(s) == k);
        }
    }
}

/// Picks the most preferred surface format: the first one with the lowest
/// rank, as [`first_best_format`] defines it. Fails only on an empty list.
pub fn select_surface_format(formats: &Vec<SurfaceFormat>) -> (r: Option<SurfaceFormat>)
    ensures
        r is Some <==> formats@.len() > 0,
        r matches Some(f) ==> f == formats@[first_best_format(formats@)],
{
    if formats.len() == 0 {
        return None;
    }

    let mut best_idx: usize = 0;
    let mut best_rank: usize = rank_surface_format(&formats[0]);
    let mut idx: usize = 1;

    while idx < formats.len()
        invariant
            1 <= idx <= formats@.len(),
            0 <= best_idx < idx,
            best_idx == first_best_format(formats@.take(idx as int)),
            best_rank == spec_format_rank(formats@[best_idx as int]),
        decreases formats@.len() - idx,
    {
        let rank = rank_surface_format(&formats[idx]);

        proof {
            assert(formats@.take(idx + 1).drop_last() =~= formats@.take(idx as int));
            assert(formats@.take(idx + 1).last() == formats@[idx as int]);
        }

        if rank < best_rank {
            best_idx = idx;
            best_rank = rank;
        }

        idx = idx + 1;
    }

    proof {
        assert(formats@.take(formats@.len() as int) =~= formats@);
    }

    Some(formats[best_idx])
}

/// When a candidate set offers a 10-bit format, the selected format is a
/// 10-bit one, whatever else is offered.
pub proof fn lemma_ten_bit_preferred(s: Seq<SurfaceFormat>, i: int)
    requires
        0 <= i < s.len(),
        spec_is_ten_bit(s[i].format),
    ensures
        spec_is_ten_bit(s[first_best_format(s)].format),
{
    lemma_first_best_format(s);
    assert(spec_format_rank(s[first_best_format(s)]) <= spec_format_rank(s[i]));
}

/// When a candidate set offers no 10-bit format but does offer an 8-bit
/// sRGB format with alpha, the selected format is such an sRGB one.
pub proof fn lemma_srgb_preferred(s: Seq<SurfaceFormat>, i: int)
    requires
        0 <= i < s.len(),
        s[i].format == PixelFormat::R8G8B8A8Srgb || s[i].format == PixelFormat::B8G8R8A8Srgb,
        forall|j: int| 0 <= j < s.len() ==> !spec_is_ten_bit((#[trigger] s[j]).format),
    ensures
        s[first_best_format(s)].format == PixelFormat::R8G8B8A8Srgb || s[first_best_format(
            s,
        )].format == PixelFormat::B8G8R8A8Srgb,
{
    lemma_first_best_format(s);
    assert(spec_format_rank(s[first_best_format(s)]) <= spec_format_rank(s[i]));
}

/// Picks the immediate (no vsync) present mode when the platform offers it;
/// planning has no fallback, so anything else fails.
pub fn select_present_mode(modes: &Vec<PresentMode>) -> (r: Option<PresentMode>)
    ensures
        r is Some <==> modes@.contains(PresentMode::Immediate),
        r matches Some(m) ==> m == PresentMode::Immediate,
{
    let mut idx: usize = 0;

    while idx < modes.len()
        invariant
            0 <= idx <= modes@.len(),
            forall|j: int| 0 <= j < idx ==> modes@[j] != PresentMode::Immediate,
        decreases modes@.len() - idx,
    {
        match modes[idx] {
            PresentMode::Immediate => {
                return Some(PresentMode::Immediate);
            },
            _ => {},
        }
        idx = idx + 1;
    }

    proof {
        assert(forall|j: int| 0 <= j < modes@.len() ==> modes@[j] != PresentMode::Immediate);
    }

    None
}

/// The image count a plan asks for: the preferred count of three, clamped
/// to the reported bounds, where a reported maximum of zero means the
/// platform imposes no upper bound.
pub open spec fn spec_image_count(min_count: u32, max_count: u32) -> u32 {
    let cap: u32 = if max_count == 0 {
        u32::MAX
    } else {
        max_count
    };
    if min_count >= PREFERRED_IMAGE_COUNT {
        min_count
    } else if cap <= PREFERRED_IMAGE_COUNT {
        cap
    } else {
        PREFERRED_IMAGE_COUNT
    }
}

/// Clamps the preferred image count of three to the bounds the surface
/// reports; a reported maximum of zero means unbounded.
pub fn choose_image_count(min_count: u32, max_count: u32) -> (r: u32)
    requires
        max_count == 0 || min_count <= max_count,
    ensures
        r == spec_image_count(min_count, max_count),
        max_count == 0 ==> min_count <= r,
        max_count != 0 ==> min_count <= r <= max_count,
{
    let cap = if max_count == 0 {
        u32::MAX
    } else {
        max_count
    };

    if min_count >= PREFERRED_IMAGE_COUNT {
        min_count
    } else if cap <= PREFERRED_IMAGE_COUNT {
        cap
    } else {
        PREFERRED_IMAGE_COUNT
    }
}

/// The extent a plan uses: the surface's current extent, unless the
/// platform reports it undefined — both dimensions at the maximum
/// representable value — in which case the window's pixel size stands in.
pub open spec fn spec_extent(
    current_width: u32,
    current_height: u32,
    window_width: u32,
    window_height: u32,
) -> (u32, u32) {
    if current_width == u32::MAX && current_height == u32::MAX {
        (window_width, window_height)
    } else {
        (current_width, current_height)
    }
}

/// Chooses the plan's extent from the surface's report and the window's
/// actual pixel size.
pub fn choose_extent(
    current_width: u32,
    current_height: u32,
    window_width: u32,
    window_height: u32,
) -> (r: (u32, u32))
    ensures
        r == spec_extent(current_width, current_height, window_width, window_height),
{
    if current_width == u32::MAX && current_height == u32::MAX {
        (window_width, window_height)
    } else {
        (current_width, current_height)
    }
}

/// Builds the full swapchain plan from the platform's reports. Succeeds
/// exactly when the immediate present mode is offered and at least one
/// surface format is; every chosen field is pinned by the selection
/// functions above.
pub fn plan_swapchain(
    caps: &SurfaceCaps,
    formats: &Vec<SurfaceFormat>,
    modes: &Vec<PresentMode>,
    window_width: u32,
    window_height: u32,
) -> (r: Option<SwapchainPlan>)
    requires
        caps.max_image_count == 0 || caps.min_image_count <= caps.max_image_count,
    ensures
        r is Some <==> (modes@.contains(PresentMode::Immediate) && formats@.len() > 0),
        r matches Some(p) ==> {
            let chosen = formats@[first_best_format(formats@)];
            let extent = spec_extent(
                caps.current_width,
                caps.current_height,
                window_width,
                window_height,
            );
            &&& p.format == chosen.format
            &&& p.color_space == chosen.color_space
            &&& p.width == extent.0
            &&& p.height == extent.1
            &&& p.image_count == spec_image_count(caps.min_image_count, caps.max_image_count)
            &&& p.present_mode == PresentMode::Immediate
        },
{
    let present_mode = match select_present_mode(modes) {
        Some(m) => m,
        None => {
            return None;
        },
    };

    let chosen = match select_surface_format(formats) {
        Some(f) => f,
        None => {
            return None;
        },
    };

    let image_count = choose_image_count(caps.min_image_count, caps.max_image_count);
    let (width, height) = choose_extent(
        caps.current_width,
        caps.current_height,
        window_width,
        window_height,
    );

    Some(
        SwapchainPlan {
            format: chosen.format,
            color_space: chosen.color_space,
            width,
            height,
            image_count,
            present_mode,
        },
    )
}

} // verus!
