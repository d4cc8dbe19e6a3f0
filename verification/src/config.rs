//! The surface configuration and the state that owns it: how the
//! configuration is built from the surface's capabilities, and how it
//! reacts to resize requests.

use vstd::prelude::*;
use crate::event::EventKind;

verus! {

/// What the configuration logic reads of one surface texture format: an
/// identifier the embedder assigns (its position in the backend's list
/// serves), and whether the format is a standard gamma-corrected (sRGB)
/// color format.
#[derive(Clone, Copy, PartialEq, Eq, Structural, Debug)]
pub struct FormatInfo {
    pub id: u32,
    pub srgb: bool,
}

/// The surface's capabilities, as plain values in the order the backend
/// reports them: the supported texture formats, present modes and alpha
/// modes, the latter two as embedder-assigned identifiers.
#[derive(Clone, Debug)]
pub struct SurfaceCaps {
    pub formats: Vec<FormatInfo>,
    pub present_modes: Vec<u32>,
    pub alpha_modes: Vec<u32>,
}

impl SurfaceCaps {
    /// A surface is usable only if it reports at least one format, one
    /// present mode and one alpha mode.
    pub open spec fn wf(self) -> bool {
        self.formats@.len() > 0 && self.present_modes@.len() > 0 && self.alpha_modes@.len() > 0
    }
}

/// The index of the first sRGB-flagged format in the list, if any.
pub open spec fn first_srgb_index(formats: Seq<FormatInfo>) -> Option<int>
    decreases formats.len(),
{
    if formats.len() == 0 {
        None
    } else if formats[0].srgb {
        Some(0int)
    } else {
        match first_srgb_index(formats.drop_first()) {
            Some(i) => Some(i + 1),
            None => None,
        }
    }
}

/// The format the configuration uses: the first format flagged as sRGB,
/// or, when none is flagged, the first format the backend reports.
/// Shader color output depends on this choice, so it is part of the
/// contract, not an implementation detail.
pub open spec fn spec_chosen_format(formats: Seq<FormatInfo>) -> FormatInfo
    recommends formats.len() > 0,
{
    match first_srgb_index(formats) {
        Some(i) => formats[i],
        None => formats[0],
    }
}

proof fn lemma_first_srgb_index_at(formats: Seq<FormatInfo>, i: int)
    requires
        0 <= i < formats.len(),
        formats[i].srgb,
        forall|j: int| 0 <= j < i ==> !formats[j].srgb,
    ensures
        first_srgb_index(formats) == Some(i),
    decreases i,
{
    if i > 0 {
        lemma_first_srgb_index_at(formats.drop_first(), i - 1);
    }
}

proof fn lemma_first_srgb_index_none(formats: Seq<FormatInfo>)
    requires
        forall|j: int| 0 <= j < formats.len() ==> !formats[j].srgb,
    ensures
        first_srgb_index(formats) is None,
    decreases formats.len(),
{
    if formats.len() > 0 {
        lemma_first_srgb_index_none(formats.drop_first());
    }
}

/// Picks the format a new configuration uses from the reported list:
/// the first sRGB-flagged one, else the first reported.
pub fn choose_format(formats: &Vec<FormatInfo>) -> (r: FormatInfo)
    requires
        formats@.len() > 0,
    ensures
        r == spec_chosen_format(formats@),
{
    let n: usize = formats.len();
    let mut i: usize = 0;
    while i < n
        invariant
            n == formats@.len(),
            0 <= i <= n,
            forall|j: int| 0 <= j < i ==> !formats@[j].srgb,
        decreases n - i,
    {
        if formats[i].srgb {
            proof {
                lemma_first_srgb_index_at(formats@, i as int);
            }
            return formats[i];
        }
        i += 1;
    }
    proof {
        lemma_first_srgb_index_none(formats@);
    }
    formats[0]
}

/// The surface configuration, as plain values. The texture usage (render
/// attachment) and the empty extra view-format list are fixed by
/// construction and are not modeled.
#[derive(Clone, Copy, PartialEq, Eq, Structural, Debug)]
pub struct SurfaceConfig {
    pub format: FormatInfo,
    pub width: u32,
    pub height: u32,
    pub present_mode: u32,
    pub alpha_mode: u32,
    pub desired_maximum_frame_latency: u32,
}

/// The configuration a fresh state holds: sized to the window, the chosen
/// format, the first reported present and alpha modes, and at most two
/// frames queued.
pub open spec fn spec_initial_config(caps: SurfaceCaps, width: u32, height: u32) -> SurfaceConfig
    recommends caps.wf(),
{
    SurfaceConfig {
        format: spec_chosen_format(caps.formats@),
        width: width,
        height: height,
        present_mode: caps.present_modes@[0],
        alpha_mode: caps.alpha_modes@[0],
        desired_maximum_frame_latency: 2,
    }
}

/// The mutable state of the application: the surface configuration as it
/// was last applied, and the last known window size.
#[derive(Clone, Copy, PartialEq, Eq, Structural, Debug)]
pub struct State {
    pub config: SurfaceConfig,
    pub width: u32,
    pub height: u32,
}

/// The state after a resize request: a request with a zero dimension is
/// ignored; otherwise the stored size and the configuration's dimensions
/// both become the requested values.
pub open spec fn spec_resize(s: State, new_width: u32, new_height: u32) -> State {
    if new_width > 0 && new_height > 0 {
        State {
            config: SurfaceConfig { width: new_width, height: new_height, ..s.config },
            width: new_width,
            height: new_height,
        }
    } else {
        s
    }
}

impl State {
    /// The configuration is only ever applied with positive dimensions,
    /// and it always agrees with the last known size.
    pub open spec fn wf(self) -> bool {
        &&& self.width > 0
        &&& self.height > 0
        &&& self.config.width == self.width
        &&& self.config.height == self.height
    }

    /// Builds the initial state from the surface's capabilities and the
    /// window's current physical size.
    pub fn new(caps: &SurfaceCaps, width: u32, height: u32) -> (s: State)
        requires
            caps.wf(),
            width > 0,
            height > 0,
        ensures
            s.wf(),
            s.width == width,
            s.height == height,
            s.config == spec_initial_config(*caps, width, height),
    {
        let format = choose_format(&caps.formats);
        State {
            config: SurfaceConfig {
                format: format,
                width: width,
                height: height,
                present_mode: caps.present_modes[0],
                alpha_mode: caps.alpha_modes[0],
                desired_maximum_frame_latency: 2,
            },
            width: width,
            height: height,
        }
    }

    /// Applies a resize request. A request with a zero dimension (a
    /// minimized window's transient event) leaves everything unchanged;
    /// otherwise the stored size and the configuration take the requested
    /// dimensions. Returns whether the configuration changed and must be
    /// re-applied to the surface.
    pub fn resize(&mut self, new_width: u32, new_height: u32) -> (applied: bool)
        ensures
            *final(self) == spec_resize(*old(self), new_width, new_height),
            applied == (new_width > 0 && new_height > 0),
            (new_width == 0 || new_height == 0) ==> *final(self) == *old(self),
            (new_width > 0 && new_height > 0) ==> {
                &&& final(self).width == new_width
                &&& final(self).height == new_height
                &&& final(self).config.width == new_width
                &&& final(self).config.height == new_height
            },
            final(self).config.format == old(self).config.format,
            final(self).config.present_mode == old(self).config.present_mode,
            final(self).config.alpha_mode == old(self).config.alpha_mode,
            final(self).config.desired_maximum_frame_latency
                == old(self).config.desired_maximum_frame_latency,
            old(self).wf() ==> final(self).wf(),
    {
        if new_width > 0 && new_height > 0 {
            self.width = new_width;
            self.height = new_height;
            self.config.width = new_width;
            self.config.height = new_height;
            true
        } else {
            false
        }
    }

    /// The input hook: a capability point where event handling can be
    /// layered in later. It currently consumes nothing, so every event
    /// falls through to the dispatcher's default transitions.
    pub fn input(&mut self, event: &EventKind) -> (consumed: bool)
        ensures
            *final(self) == *old(self),
            consumed == false,
    {
        let _ = event;
        false
    }

    /// The per-frame update step: there is no scene, so nothing changes.
    pub fn update(&mut self)
        ensures
            *final(self) == *old(self),
    {
    }
}

} // verus!
