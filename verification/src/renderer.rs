//! The renderer's surface state: format negotiation, surface
//! configuration, resize handling, the stored clear colour, and the
//! recover-or-fail decision taken when acquiring a frame fails.
//!
//! The GPU device, queue and surface live with the host; every decision
//! about them — which format to pick, when a resize is a no-op, when a
//! failed frame is retried and when it is fatal — is taken here and
//! verified.

use vstd::prelude::*;
use crate::texture::TextureFormatKind;

verus! {

/// A clear colour: four `f64` bit patterns (red, green, blue, alpha).
#[derive(Clone, Copy, PartialEq, Eq, Structural, Debug)]
pub struct ClearColor {
    pub r: u64,
    pub g: u64,
    pub b: u64,
    pub a: u64,
}

/// The default clear colour, `(0.1, 0.2, 0.3, 1.0)`.
pub open spec fn spec_default_clear_color() -> ClearColor {
    ClearColor {
        r: 0x3fb9_9999_9999_999au64,
        g: 0x3fc9_9999_9999_999au64,
        b: 0x3fd3_3333_3333_3333u64,
        a: 0x3ff0_0000_0000_0000u64,
    }
}

/// The surface configuration: the negotiated format and the pixel size
/// the surface is configured at.
#[derive(Clone, Copy, PartialEq, Eq, Structural, Debug)]
pub struct SurfaceConfigDesc {
    pub format: TextureFormatKind,
    pub width: u32,
    pub height: u32,
}

/// The index of the first sRGB-capable format in `formats`, if any.
pub open spec fn spec_first_srgb_index(formats: Seq<TextureFormatKind>) -> Option<int> {
    if exists|i: int| 0 <= i < formats.len() && formats[i].spec_is_srgb() {
        Some(
            choose|i: int|
                0 <= i < formats.len() && formats[i].spec_is_srgb() && forall|j: int|
                    0 <= j < i ==> !formats[j].spec_is_srgb(),
        )
    } else {
        None
    }
}

/// The format the renderer selects from a surface's supported list: the
/// first sRGB-capable one, else the first.
pub open spec fn spec_chosen_format(formats: Seq<TextureFormatKind>) -> TextureFormatKind
    recommends
        formats.len() > 0,
{
    match spec_first_srgb_index(formats) {
        Some(i) => formats[i],
        None => formats[0],
    }
}

/// Selects the surface format: the first sRGB-capable format of the list,
/// else the first format.
pub fn choose_surface_format(formats: &Vec<TextureFormatKind>) -> (r: TextureFormatKind)
    requires
        formats@.len() > 0,
    ensures
        r == spec_chosen_format(formats@),
        (exists|i: int| 0 <= i < formats@.len() && formats@[i].spec_is_srgb())
            ==> r.spec_is_srgb(),
{
    let mut i: usize = 0;
    while i < formats.len()
        invariant
            0 <= i <= formats@.len(),
            forall|j: int| 0 <= j < i ==> !formats@[j].spec_is_srgb(),
        decreases formats@.len() - i,
    {
        if formats[i].is_srgb() {
            proof {
                let k = i as int;
                assert(0 <= k < formats@.len() && formats@[k].spec_is_srgb() && forall|j: int|
                    0 <= j < k ==> !formats@[j].spec_is_srgb());
                let c = choose|c: int|
                    0 <= c < formats@.len() && formats@[c].spec_is_srgb() && forall|j: int|
                        0 <= j < c ==> !formats@[j].spec_is_srgb();
                if c < k {
                    assert(!formats@[c].spec_is_srgb());
                }
                if k < c {
                    assert(!formats@[k].spec_is_srgb());
                }
                assert(c == k);
            }
            return formats[i];
        }
        i += 1;
    }
    proof {
        assert(forall|i: int| 0 <= i < formats@.len() ==> !formats@[i].spec_is_srgb());
    }
    formats[0]
}

/// Why acquiring the next surface image failed.
#[derive(Clone, Copy, PartialEq, Eq, Structural, Debug)]
pub enum SurfaceErrorKind {
    /// The surface was lost and must be reconfigured.
    Lost,
    /// The surface no longer matches the window and must be reconfigured.
    Outdated,
    /// The surface timed out handing out an image.
    Timeout,
    /// The system is out of memory.
    OutOfMemory,
}

/// What the frame loop must do after a failed acquire.
#[derive(Clone, Copy, PartialEq, Eq, Structural, Debug)]
pub enum FrameAction {
    /// Reconfigure the surface at the last known size and retry the frame.
    ReconfigureAndRetry,
    /// Give up: repeated failure after reconfiguration is fatal.
    Fatal,
}

/// The renderer's verified state: surface configuration, stored size,
/// clear colour, and how many acquires in a row have failed.
#[derive(Clone, Copy, Debug)]
pub struct Renderer {
    pub config: SurfaceConfigDesc,
    pub size: (u32, u32),
    pub clear_color: ClearColor,
    pub consecutive_acquire_failures: u32,
}

impl Renderer {
    /// Create the renderer state for a freshly configured surface: the
    /// format is the first sRGB-capable one offered (else the first), the
    /// size is the window's current pixel size, and the clear colour is
    /// the default.
    pub fn new(width: u32, height: u32, formats: &Vec<TextureFormatKind>) -> (r: Renderer)
        requires
            formats@.len() > 0,
        ensures
            r.config == (SurfaceConfigDesc {
                format: spec_chosen_format(formats@),
                width,
                height,
            }),
            r.size == (width, height),
            r.clear_color == spec_default_clear_color(),
            r.consecutive_acquire_failures == 0,
    {
        let format = choose_surface_format(formats);
        Renderer {
            config: SurfaceConfigDesc { format, width, height },
            size: (width, height),
            clear_color: ClearColor {
                r: 0x3fb9_9999_9999_999a,
                g: 0x3fc9_9999_9999_999a,
                b: 0x3fd3_3333_3333_3333,
                a: 0x3ff0_0000_0000_0000,
            },
            consecutive_acquire_failures: 0,
        }
    }

    /// Get the current surface configuration.
    pub fn config(&self) -> (r: SurfaceConfigDesc)
        ensures
            r == self.config,
    {
        self.config
    }

    /// Get the current surface size.
    pub fn size(&self) -> (r: (u32, u32))
        ensures
            r == self.size,
    {
        self.size
    }

    /// Set the clear colour used when rendering a bare frame; the four
    /// channels are `f64` bit patterns.
    pub fn set_clear_color(&mut self, r: u64, g: u64, b: u64, a: u64)
        ensures
            *final(self) == (Renderer { clear_color: ClearColor { r, g, b, a }, ..*old(self) }),
    {
        self.clear_color = ClearColor { r, g, b, a };
    }

    /// Resize the surface. A zero width or height is rejected: the stored
    /// size and configuration are left unchanged (the caller logs and
    /// carries on). Otherwise both are updated and the surface must be
    /// reconfigured by the host.
    pub fn resize(&mut self, width: u32, height: u32) -> (reconfigure: bool)
        ensures
            (width == 0 || height == 0) ==> (*final(self) == *old(self) && !reconfigure),
            (width > 0 && height > 0) ==> (reconfigure && *final(self) == (Renderer {
                config: SurfaceConfigDesc { format: old(self).config.format, width, height },
                size: (width, height),
                ..*old(self)
            })),
    {
        if width > 0 && height > 0 {
            self.size = (width, height);
            self.config = SurfaceConfigDesc { format: self.config.format, width, height };
            true
        } else {
            false
        }
    }

    /// Record a successfully acquired frame: the failure streak resets.
    pub fn on_frame_acquired(&mut self)
        ensures
            *final(self) == (Renderer { consecutive_acquire_failures: 0u32, ..*old(self) }),
    {
        self.consecutive_acquire_failures = 0;
    }

    /// Decide what to do about a failed acquire: the first failure of a
    /// streak asks the host to reconfigure the surface at the last known
    /// size and retry the frame; failing again right after a
    /// reconfiguration is fatal.
    pub fn on_acquire_error(&mut self, error: SurfaceErrorKind) -> (action: FrameAction)
        ensures
            old(self).consecutive_acquire_failures == 0 ==> (action
                == FrameAction::ReconfigureAndRetry && *final(self) == (Renderer {
                consecutive_acquire_failures: 1u32,
                ..*old(self)
            })),
            old(self).consecutive_acquire_failures > 0 ==> (action == FrameAction::Fatal
                && *final(self) == *old(self)),
    {
        if self.consecutive_acquire_failures == 0 {
            self.consecutive_acquire_failures = 1;
            FrameAction::ReconfigureAndRetry
        } else {
            FrameAction::Fatal
        }
    }
}

} // verus!
