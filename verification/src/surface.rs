use vstd::prelude::*;

use crate::data::{size_is_valid, MAX_FRAME_LATENCY, MIN_WINDOW_SIZE};
use crate::state_error::StateError;

verus! {

/// `wgpu::TextureFormat`, a pixel format. Nothing of its inside is used.
#[verifier::external_type_specification]
#[verifier::external_body]
pub struct ExTextureFormat(wgpu::TextureFormat);

/// `wgpu::PresentMode`, the way images reach the display. It is only
/// carried from the capabilities to the configuration.
#[verifier::external_type_specification]
#[verifier::external_body]
pub struct ExPresentMode(wgpu::PresentMode);

/// `wgpu::CompositeAlphaMode`, the way the compositor treats alpha. It is
/// only carried from the capabilities to the configuration.
#[verifier::external_type_specification]
#[verifier::external_body]
pub struct ExCompositeAlphaMode(wgpu::CompositeAlphaMode);

/// Whether a pixel format stores its colour channels sRGB-encoded: what
/// `wgpu::TextureFormat::is_srgb` answers for the format.
pub uninterp spec fn format_is_srgb(format: wgpu::TextureFormat) -> bool;

/// `wgpu::TextureFormat::is_srgb`, which wgpu hands on from wgpu-types. It
/// compares the format with what is left of it when an `Srgb` suffix is
/// removed, and says whether the two differ. It reads nothing but the format,
/// so the same format always gets the same answer. Which formats get `true`
/// is not stated here; the answer only has a name, `format_is_srgb`.
pub assume_specification[ wgpu::TextureFormat::is_srgb ](format: &wgpu::TextureFormat) -> (srgb:
    bool)
    ensures
        srgb == format_is_srgb(*format),
;

/// Whether `index` is the position of the first `true` in `flags`.
pub open spec fn is_first_set(flags: Seq<bool>, index: int) -> bool {
    &&& 0 <= index < flags.len()
    &&& flags[index]
    &&& forall|j: int| 0 <= j < index ==> !flags[j]
}

/// The position of the first `true` in `flags`, or 0 where no flag is set.
pub open spec fn preferred_index(flags: Seq<bool>) -> int {
    if exists|i: int| is_first_set(flags, i) {
        choose|i: int| is_first_set(flags, i)
    } else {
        0
    }
}

/// For each format, in order, whether it is sRGB-encoded.
pub open spec fn srgb_flags(formats: Seq<wgpu::TextureFormat>) -> Seq<bool> {
    Seq::new(formats.len(), |i: int| format_is_srgb(formats[i]))
}

/// The format a surface is configured with: the first sRGB format that is
/// advertised, or the first format of all where none is sRGB.
pub open spec fn preferred_format(formats: Seq<wgpu::TextureFormat>) -> wgpu::TextureFormat
    recommends
        formats.len() > 0,
{
    formats[preferred_index(srgb_flags(formats))]
}

/// Only one position can be the first set flag.
pub proof fn lemma_first_set_is_unique(flags: Seq<bool>, a: int, b: int)
    requires
        is_first_set(flags, a),
        is_first_set(flags, b),
    ensures
        a == b,
{
    if a < b {
        assert(!flags[a]);
    } else if b < a {
        assert(!flags[b]);
    }
}

/// Picks the position of the first set flag, or 0 where none is set.
pub fn first_set_or_zero(flags: &Vec<bool>) -> (index: usize)
    ensures
        index == preferred_index(flags@),
        (exists|i: int| 0 <= i < flags.len() && flags[i]) ==> is_first_set(flags@, index as int),
        (forall|i: int| 0 <= i < flags.len() ==> !flags[i]) ==> index == 0,
{
    let mut i: usize = 0;
    while i < flags.len()
        invariant
            i <= flags.len(),
            forall|j: int| 0 <= j < i ==> !flags[j],
        decreases flags.len() - i,
    {
        if flags[i] {
            proof {
                assert(is_first_set(flags@, i as int));
                let chosen = choose|k: int| is_first_set(flags@, k);
                lemma_first_set_is_unique(flags@, i as int, chosen);
            }
            return i;
        }
        i += 1;
    }
    proof {
        assert forall|k: int| !is_first_set(flags@, k) by {
            if 0 <= k < flags.len() {
                assert(!flags[k]);
            }
        }
    }
    0
}

/// The preferred format is one of the formats that are advertised. Where a
/// format is sRGB, it is the first such; where none is, it is the first
/// format of all.
pub proof fn lemma_preferred_format(formats: Seq<wgpu::TextureFormat>)
    requires
        formats.len() > 0,
    ensures
        0 <= preferred_index(srgb_flags(formats)) < formats.len(),
        (exists|i: int| 0 <= i < formats.len() && format_is_srgb(formats[i])) ==> format_is_srgb(
            preferred_format(formats),
        ) && forall|j: int|
            0 <= j < preferred_index(srgb_flags(formats)) ==> !format_is_srgb(formats[j]),
        (forall|i: int| 0 <= i < formats.len() ==> !format_is_srgb(formats[i]))
            ==> preferred_format(formats) == formats[0],
{
    let flags = srgb_flags(formats);
    if exists|i: int| is_first_set(flags, i) {
        let chosen = choose|i: int| is_first_set(flags, i);
        assert(flags[chosen] == format_is_srgb(formats[chosen]));
        assert forall|j: int| 0 <= j < chosen implies !format_is_srgb(formats[j]) by {
            assert(!flags[j]);
        }
        if forall|i: int| 0 <= i < formats.len() ==> !format_is_srgb(formats[i]) {
            assert(!format_is_srgb(formats[chosen]));
        }
    } else {
        if exists|i: int| 0 <= i < formats.len() && format_is_srgb(formats[i]) {
            let set = choose|i: int| 0 <= i < formats.len() && format_is_srgb(formats[i]);
            assert(flags[set]);
            lemma_some_flag_is_first(flags, set);
        }
    }
}

/// Where a flag is set, some position holds the first set flag.
pub proof fn lemma_some_flag_is_first(flags: Seq<bool>, set: int)
    requires
        0 <= set < flags.len(),
        flags[set],
    ensures
        exists|i: int| is_first_set(flags, i),
    decreases set,
{
    if forall|j: int| 0 <= j < set ==> !flags[j] {
        assert(is_first_set(flags, set));
    } else {
        let earlier = choose|j: int| 0 <= j < set && flags[j];
        lemma_some_flag_is_first(flags, earlier);
    }
}

/// Chooses the pixel format of the surface among those that the surface and
/// the adapter advertise: the first sRGB format, else the first format.
pub fn select_format(formats: &Vec<wgpu::TextureFormat>) -> (format: wgpu::TextureFormat)
    requires
        formats.len() > 0,
    ensures
        format == preferred_format(formats@),
        exists|i: int| 0 <= i < formats.len() && formats[i] == format,
        (exists|i: int| 0 <= i < formats.len() && format_is_srgb(formats[i])) ==> format_is_srgb(
            format,
        ),
        (forall|i: int| 0 <= i < formats.len() ==> !format_is_srgb(formats[i])) ==> format
            == formats[0],
{
    let mut flags: Vec<bool> = Vec::new();
    let mut i: usize = 0;
    while i < formats.len()
        invariant
            i <= formats.len(),
            flags.len() == i,
            forall|j: int| 0 <= j < i ==> flags[j] == format_is_srgb(formats[j]),
        decreases formats.len() - i,
    {
        let srgb = formats[i].is_srgb();
        flags.push(srgb);
        i += 1;
    }
    assert(flags@ =~= srgb_flags(formats@));
    let index = first_set_or_zero(&flags);
    proof {
        lemma_preferred_format(formats@);
    }
    formats[index]
}

/// What a surface supports together with the adapter that was found for it.
/// In each list the host puts first what the platform prefers.
#[derive(Debug, Clone)]
pub struct SurfaceCapabilities {
    pub formats: Vec<wgpu::TextureFormat>,
    pub present_modes: Vec<wgpu::PresentMode>,
    pub alpha_modes: Vec<wgpu::CompositeAlphaMode>,
}

impl SurfaceCapabilities {
    /// A surface that is compatible with its adapter advertises at least one
    /// format, one presentation mode and one alpha mode.
    pub open spec fn is_compatible(&self) -> bool {
        self.formats.len() > 0 && self.present_modes.len() > 0 && self.alpha_modes.len() > 0
    }

    /// Tests whether each list names at least one choice.
    pub fn compatible(&self) -> (ok: bool)
        ensures
            ok == self.is_compatible(),
    {
        self.formats.len() > 0 && self.present_modes.len() > 0 && self.alpha_modes.len() > 0
    }
}

/// The parameters that a surface is configured with. The host hands them to
/// the GPU whenever the library says that the surface is to be reconfigured.
#[derive(Debug, Clone, Copy, PartialEq, Eq)]
pub struct SurfaceConfig {
    pub format: wgpu::TextureFormat,
    pub width: u32,
    pub height: u32,
    pub present_mode: wgpu::PresentMode,
    pub alpha_mode: wgpu::CompositeAlphaMode,
    pub max_frame_latency: u32,
}

/// The configuration that a surface of the given size starts with: the
/// preferred format, the first presentation mode and the first alpha mode.
pub open spec fn initial_config(caps: SurfaceCapabilities, width: u32, height: u32) -> SurfaceConfig
    recommends
        caps.is_compatible(),
{
    SurfaceConfig {
        format: preferred_format(caps.formats@),
        width,
        height,
        present_mode: caps.present_modes[0],
        alpha_mode: caps.alpha_modes[0],
        max_frame_latency: MAX_FRAME_LATENCY,
    }
}

/// Why a surface of the given size that supports `caps` cannot be managed,
/// if it cannot. The size is looked at first.
pub open spec fn surface_error(caps: SurfaceCapabilities, width: u32, height: u32) -> Option<
    StateError,
> {
    if !size_is_valid(width, height) {
        Some(StateError::InvalidWindowSize { width, height })
    } else if !caps.is_compatible() {
        Some(StateError::NoAdapterFound)
    } else {
        None
    }
}

/// The configuration of the presentable surface and whether the surface has
/// been configured with it. The size never falls below the minimum.
#[derive(Debug)]
pub struct SurfaceManager {
    config: SurfaceConfig,
    is_configured: bool,
}

impl SurfaceManager {
    #[verifier::type_invariant]
    spec fn size_reaches_minimum(&self) -> bool {
        size_is_valid(self.config.width, self.config.height)
    }

    /// The configuration that was applied last, or that the first `configure`
    /// will start from.
    pub closed spec fn config(&self) -> SurfaceConfig {
        self.config
    }

    /// Whether the surface has been configured since it was created.
    pub closed spec fn configured(&self) -> bool {
        self.is_configured
    }

    /// A surface of the given size that supports `caps`. It is not yet
    /// configured: the first `configure` does that.
    ///
    /// A size below the minimum is rejected. So are capabilities with an
    /// empty list: they belong to a surface that the adapter cannot serve.
    pub fn new(caps: &SurfaceCapabilities, width: u32, height: u32) -> (result: Result<
        SurfaceManager,
        StateError,
    >)
        ensures
            match surface_error(*caps, width, height) {
                Some(error) => result matches Err(e) && e == error,
                None => result matches Ok(surface) && surface.config() == initial_config(
                    *caps,
                    width,
                    height,
                ) && !surface.configured(),
            },
    {
        if width < MIN_WINDOW_SIZE || height < MIN_WINDOW_SIZE {
            return Err(StateError::InvalidWindowSize { width, height });
        }
        if !caps.compatible() {
            return Err(StateError::NoAdapterFound);
        }
        Ok(
            SurfaceManager {
                config: SurfaceConfig {
                    format: select_format(&caps.formats),
                    width,
                    height,
                    present_mode: caps.present_modes[0],
                    alpha_mode: caps.alpha_modes[0],
                    max_frame_latency: MAX_FRAME_LATENCY,
                },
                is_configured: false,
            },
        )
    }

    /// Takes a new size for the surface. A size below the minimum is rejected
    /// and nothing changes. Otherwise the size is stored, the surface counts as
    /// configured, and the host gets the configuration to apply to it.
    pub fn configure(&mut self, width: u32, height: u32) -> (applied: Result<
        SurfaceConfig,
        StateError,
    >)
        ensures
            !size_is_valid(width, height) ==> applied == Err::<SurfaceConfig, StateError>(
                StateError::InvalidWindowSize { width, height },
            ) && *final(self) == *old(self),
            size_is_valid(width, height) ==> applied == Ok::<SurfaceConfig, StateError>(
                final(self).config(),
            ) && final(self).configured() && final(self).config() == (SurfaceConfig {
                width,
                height,
                ..old(self).config()
            }),
            size_is_valid(final(self).config().width, final(self).config().height),
    {
        proof {
            use_type_invariant(&*self);
        }
        if width < MIN_WINDOW_SIZE || height < MIN_WINDOW_SIZE {
            return Err(StateError::InvalidWindowSize { width, height });
        }
        self.config = SurfaceConfig { width, height, ..self.config };
        self.is_configured = true;
        Ok(self.config)
    }

    /// Whether the surface has been configured.
    pub fn is_configured(&self) -> (configured: bool)
        ensures
            configured == self.configured(),
    {
        self.is_configured
    }

    /// The current configuration. Its size reaches the minimum.
    pub fn current_config(&self) -> (config: SurfaceConfig)
        ensures
            config == self.config(),
            size_is_valid(config.width, config.height),
    {
        proof {
            use_type_invariant(self);
        }
        self.config
    }
}

} // verus!
