//! The live surface configuration and its reconfiguration protocol.
//!
//! `reconfigure` is the single path through which the configuration ever
//! changes: it clamps a degenerate observed size to at least 1x1 and asks
//! for a device-side reconfiguration only when forced or when the clamped
//! size differs from the applied one, so a tick with an unchanged size is a
//! pure read.

use vstd::prelude::*;

use crate::caps::AlphaMode;
use crate::caps::PresentMode;
use crate::caps::SurfaceCaps;
use crate::caps::SurfaceFormat;
use crate::caps::chosen_alpha_mode;
use crate::caps::chosen_format;
use crate::caps::chosen_present_mode;
use crate::caps::pick_alpha_mode;
use crate::caps::pick_present_mode;
use crate::caps::pick_surface_format;

verus! {

/// The applied surface configuration. The usage is always render-target;
/// width and height always hold the last successfully applied size and are
/// never zero after initialization.
#[derive(Clone, Copy, PartialEq, Eq, Structural, Debug)]
pub struct SurfaceConfig {
    pub format: SurfaceFormat,
    pub present_mode: PresentMode,
    pub alpha_mode: AlphaMode,
    pub width: u32,
    pub height: u32,
}

/// Clamps one observed dimension to the 1-pixel minimum.
pub open spec fn clamp_dim(d: u32) -> u32 {
    if d >= 1 {
        d
    } else {
        1u32
    }
}

impl SurfaceConfig {
    /// Well-formed configurations never have a zero dimension.
    pub open spec fn wf(self) -> bool {
        self.width >= 1 && self.height >= 1
    }

    /// The size the configuration works from on one reconfigure step: the
    /// observed window size when the query succeeded, else the previously
    /// applied size.
    pub open spec fn effective_size(self, observed: Option<(u32, u32)>) -> (u32, u32) {
        match observed {
            Some(s) => s,
            None => (self.width, self.height),
        }
    }

    /// One reconfigure step: the configuration afterwards, and whether a
    /// device-side reconfiguration is performed.
    pub open spec fn reconfigure_spec(self, observed: Option<(u32, u32)>, force: bool) -> (
        SurfaceConfig,
        bool,
    ) {
        let size = self.effective_size(observed);
        let w = clamp_dim(size.0);
        let h = clamp_dim(size.1);
        let apply = force || w != self.width || h != self.height;
        (
            SurfaceConfig {
                format: self.format,
                present_mode: self.present_mode,
                alpha_mode: self.alpha_mode,
                width: w,
                height: h,
            },
            apply,
        )
    }

    /// The configuration that negotiation settles on: the three
    /// deterministic selections, with a provisional 1x1 size.
    pub open spec fn negotiate_spec(caps: &SurfaceCaps) -> SurfaceConfig {
        SurfaceConfig {
            format: chosen_format(caps.formats@),
            present_mode: chosen_present_mode(caps.present_modes@),
            alpha_mode: chosen_alpha_mode(caps.alpha_modes@),
            width: 1,
            height: 1,
        }
    }

    /// Negotiates an initial configuration from the advertised
    /// capabilities, with a provisional 1x1 size that the first forced
    /// reconfigure replaces.
    pub fn negotiate(caps: &SurfaceCaps) -> (c: SurfaceConfig)
        ensures
            c == Self::negotiate_spec(caps),
            c.format == chosen_format(caps.formats@),
            c.present_mode == chosen_present_mode(caps.present_modes@),
            c.alpha_mode == chosen_alpha_mode(caps.alpha_modes@),
            c.width == 1 && c.height == 1,
            c.wf(),
    {
        SurfaceConfig {
            format: pick_surface_format(&caps.formats),
            present_mode: pick_present_mode(&caps.present_modes),
            alpha_mode: pick_alpha_mode(&caps.alpha_modes),
            width: 1,
            height: 1,
        }
    }

    /// Applies one reconfigure step for the observed window size (`None`
    /// when the size query failed). Returns whether the caller must now
    /// reconfigure the surface against the device; when it returns false
    /// the step was a pure read.
    pub fn reconfigure(&mut self, observed: Option<(u32, u32)>, force: bool) -> (applied: bool)
        ensures
            *final(self) == old(self).reconfigure_spec(observed, force).0,
            applied == old(self).reconfigure_spec(observed, force).1,
            final(self).wf(),
            final(self).width == clamp_dim(old(self).effective_size(observed).0),
            final(self).height == clamp_dim(old(self).effective_size(observed).1),
            final(self).format == old(self).format,
            final(self).present_mode == old(self).present_mode,
            final(self).alpha_mode == old(self).alpha_mode,
            force ==> applied,
    {
        let (ow, oh) = match observed {
            Some(s) => s,
            None => (self.width, self.height),
        };
        let w = if ow >= 1 {
            ow
        } else {
            1
        };
        let h = if oh >= 1 {
            oh
        } else {
            1
        };
        if force || w != self.width || h != self.height {
            self.width = w;
            self.height = h;
            true
        } else {
            false
        }
    }
}

/// Runs a whole sequence of reconfigure steps, one per observed size, as
/// the loop does over successive ticks.
pub open spec fn reconfigure_all(c: SurfaceConfig, observations: Seq<(u32, u32)>) -> SurfaceConfig
    decreases observations.len(),
{
    if observations.len() == 0 {
        c
    } else {
        reconfigure_all(
            c.reconfigure_spec(Some(observations[0]), false).0,
            observations.drop_first(),
        )
    }
}

/// Convergence: after any sequence of observed sizes, the applied
/// configuration carries exactly the clamp of the last observation — so for
/// a final size (w, h) with w, h >= 1 it is exactly (w, h), within one tick
/// of the last event.
pub proof fn lemma_reconfigure_converges(c: SurfaceConfig, observations: Seq<(u32, u32)>)
    requires
        observations.len() > 0,
    ensures
        reconfigure_all(c, observations).width == clamp_dim(observations.last().0),
        reconfigure_all(c, observations).height == clamp_dim(observations.last().1),
    decreases observations.len(),
{
    if observations.len() == 1 {
    } else {
        lemma_reconfigure_converges(
            c.reconfigure_spec(Some(observations[0]), false).0,
            observations.drop_first(),
        );
        assert(observations.drop_first().last() == observations.last());
    }
}

/// Idempotence: after one reconfigure step, repeating it with the same
/// observed size changes nothing and performs no device-side
/// reconfiguration.
pub proof fn lemma_reconfigure_idempotent(
    c: SurfaceConfig,
    observed: Option<(u32, u32)>,
    force: bool,
)
    requires
        c.wf(),
    ensures
        ({
            let (c1, _) = c.reconfigure_spec(observed, force);
            let (c2, applied2) = c1.reconfigure_spec(observed, false);
            c2 == c1 && !applied2
        }),
{
}

} // verus!
