//! Surface capability model and the deterministic selection of a pixel
//! format, a present mode and a compositing alpha mode from the options a
//! hardware adapter advertises.
//!
//! Each selection is a total function over the advertised list: it never
//! fails, it always resolves to some value, and equal inputs give equal
//! results.

use vstd::prelude::*;

verus! {

/// A pixel format a surface can present in. The negotiation only
/// distinguishes the two 8-bit BGRA formats it prefers; every other
/// advertised format is carried through by an opaque tag so that the chosen
/// entry can be mapped back to the hardware's own list.
#[derive(Clone, Copy, PartialEq, Eq, Structural, Debug)]
pub enum SurfaceFormat {
    Bgra8UnormSrgb,
    Bgra8Unorm,
    Other(u32),
}

/// A presentation mode. `AutoNoVsync` is the preferred low-latency request;
/// `Immediate` and `Mailbox` are the low-latency fallbacks; `Fifo` is the
/// universally supported blocking mode. Other advertised modes are carried
/// through by an opaque tag.
#[derive(Clone, Copy, PartialEq, Eq, Structural, Debug)]
pub enum PresentMode {
    AutoNoVsync,
    Immediate,
    Mailbox,
    Fifo,
    Other(u32),
}

/// A compositing alpha mode. `Opaque` is preferred; `Auto` is the
/// platform-chosen default that every surface accepts.
#[derive(Clone, Copy, PartialEq, Eq, Structural, Debug)]
pub enum AlphaMode {
    Opaque,
    Auto,
    Other(u32),
}

/// What an adapter+surface pair advertises: the supported formats, present
/// modes and alpha modes, in the hardware's own order.
pub struct SurfaceCaps {
    pub formats: Vec<SurfaceFormat>,
    pub present_modes: Vec<PresentMode>,
    pub alpha_modes: Vec<AlphaMode>,
}

pub open spec fn has_srgb_bgra(formats: Seq<SurfaceFormat>) -> bool {
    exists|i: int| 0 <= i < formats.len() && formats[i] is Bgra8UnormSrgb
}

pub open spec fn has_linear_bgra(formats: Seq<SurfaceFormat>) -> bool {
    exists|i: int| 0 <= i < formats.len() && formats[i] is Bgra8Unorm
}

/// The format the negotiation settles on: a gamma-corrected 8-bit BGRA
/// format if one is advertised, else a linear 8-bit BGRA format, else the
/// first advertised format, else the linear BGRA default for an empty list.
pub open spec fn chosen_format(formats: Seq<SurfaceFormat>) -> SurfaceFormat {
    if has_srgb_bgra(formats) {
        SurfaceFormat::Bgra8UnormSrgb
    } else if has_linear_bgra(formats) {
        SurfaceFormat::Bgra8Unorm
    } else if formats.len() > 0 {
        formats[0]
    } else {
        SurfaceFormat::Bgra8Unorm
    }
}

/// Selects the pixel format from the advertised list.
pub fn pick_surface_format(formats: &Vec<SurfaceFormat>) -> (r: SurfaceFormat)
    ensures
        r == chosen_format(formats@),
{
    let mut i: usize = 0;
    let mut srgb: bool = false;
    let mut linear: bool = false;
    while i < formats.len()
        invariant
            i <= formats.len(),
            srgb <==> exists|j: int| 0 <= j < i && formats@[j] is Bgra8UnormSrgb,
            linear <==> exists|j: int| 0 <= j < i && formats@[j] is Bgra8Unorm,
        decreases formats.len() - i,
    {
        match formats[i] {
            SurfaceFormat::Bgra8UnormSrgb => {
                srgb = true;
            }
            SurfaceFormat::Bgra8Unorm => {
                linear = true;
            }
            SurfaceFormat::Other(_) => {}
        }
        i = i + 1;
    }
    if srgb {
        SurfaceFormat::Bgra8UnormSrgb
    } else if linear {
        SurfaceFormat::Bgra8Unorm
    } else if formats.len() > 0 {
        formats[0]
    } else {
        SurfaceFormat::Bgra8Unorm
    }
}

pub open spec fn is_low_latency(m: PresentMode) -> bool {
    m is Immediate || m is Mailbox
}

pub open spec fn has_auto_no_vsync(modes: Seq<PresentMode>) -> bool {
    exists|i: int| 0 <= i < modes.len() && modes[i] is AutoNoVsync
}

/// The first advertised low-latency fallback mode, if any.
pub open spec fn first_low_latency(modes: Seq<PresentMode>) -> Option<PresentMode>
    decreases modes.len(),
{
    if modes.len() == 0 {
        None
    } else if is_low_latency(modes[0]) {
        Some(modes[0])
    } else {
        first_low_latency(modes.drop_first())
    }
}

/// The present mode the negotiation settles on: the low-latency
/// `AutoNoVsync` request when advertised, else the first advertised
/// immediate or mailbox mode, else the universally supported `Fifo`.
pub open spec fn chosen_present_mode(modes: Seq<PresentMode>) -> PresentMode {
    if has_auto_no_vsync(modes) {
        PresentMode::AutoNoVsync
    } else {
        match first_low_latency(modes) {
            Some(m) => m,
            None => PresentMode::Fifo,
        }
    }
}

/// A prefix free of low-latency modes does not affect which fallback is
/// found first.
proof fn lemma_first_low_latency_skip(modes: Seq<PresentMode>, i: int)
    requires
        0 <= i <= modes.len(),
        forall|j: int| 0 <= j < i ==> !is_low_latency(modes[j]),
    ensures
        first_low_latency(modes) == first_low_latency(modes.skip(i)),
    decreases i,
{
    if i > 0 {
        lemma_first_low_latency_skip(modes, i - 1);
        assert(modes.skip(i - 1).drop_first() =~= modes.skip(i));
        assert(modes.skip(i - 1)[0] == modes[i - 1]);
    } else {
        assert(modes.skip(0) =~= modes);
    }
}

/// Selects the present mode from the advertised list.
pub fn pick_present_mode(modes: &Vec<PresentMode>) -> (r: PresentMode)
    ensures
        r == chosen_present_mode(modes@),
{
    let mut i: usize = 0;
    while i < modes.len()
        invariant
            i <= modes.len(),
            forall|j: int| 0 <= j < i ==> !(modes@[j] is AutoNoVsync),
        decreases modes.len() - i,
    {
        if matches!(modes[i], PresentMode::AutoNoVsync) {
            return PresentMode::AutoNoVsync;
        }
        i = i + 1;
    }
    let mut k: usize = 0;
    while k < modes.len()
        invariant
            k <= modes.len(),
            forall|j: int| 0 <= j < k ==> !is_low_latency(modes@[j]),
            !has_auto_no_vsync(modes@),
        decreases modes.len() - k,
    {
        if matches!(modes[k], PresentMode::Immediate | PresentMode::Mailbox) {
            proof {
                lemma_first_low_latency_skip(modes@, k as int);
                assert(modes@.skip(k as int)[0] == modes@[k as int]);
            }
            return modes[k];
        }
        k = k + 1;
    }
    proof {
        lemma_first_low_latency_skip(modes@, modes@.len() as int);
        assert(modes@.skip(modes@.len() as int) =~= Seq::<PresentMode>::empty());
    }
    PresentMode::Fifo
}

pub open spec fn has_opaque(modes: Seq<AlphaMode>) -> bool {
    exists|i: int| 0 <= i < modes.len() && modes[i] is Opaque
}

/// The alpha mode the negotiation settles on: `Opaque` when advertised,
/// else the platform-chosen `Auto` default.
pub open spec fn chosen_alpha_mode(modes: Seq<AlphaMode>) -> AlphaMode {
    if has_opaque(modes) {
        AlphaMode::Opaque
    } else {
        AlphaMode::Auto
    }
}

/// Selects the compositing alpha mode from the advertised list.
pub fn pick_alpha_mode(modes: &Vec<AlphaMode>) -> (r: AlphaMode)
    ensures
        r == chosen_alpha_mode(modes@),
{
    let mut i: usize = 0;
    while i < modes.len()
        invariant
            i <= modes.len(),
            forall|j: int| 0 <= j < i ==> !(modes@[j] is Opaque),
        decreases modes.len() - i,
    {
        if matches!(modes[i], AlphaMode::Opaque) {
            return AlphaMode::Opaque;
        }
        i = i + 1;
    }
    AlphaMode::Auto
}

} // verus!
