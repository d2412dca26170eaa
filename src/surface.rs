//! The presentation surface: its configuration, the choice of its pixel
//! format, what a failed frame acquisition means, and the startup errors.

use vstd::prelude::*;

verus! {

/// How finished frames are handed to the display.
#[derive(Clone, Copy, Debug, PartialEq, Eq, Structural)]
pub enum PresentMode {
    /// Frames replace the shown image at once, tearing allowed.
    Immediate,
    /// Frames wait for the display's vertical blank.
    Fifo,
}

/// The negotiated contract between the application and the presentation
/// backend. Its size must equal the window's size, or presentation fails.
#[derive(Clone, Copy, Debug, PartialEq, Eq, Structural)]
pub struct SurfaceConfig {
    /// Position of the chosen format in the list the surface supports.
    pub format: usize,
    pub width: u32,
    pub height: u32,
    pub present_mode: PresentMode,
}

impl SurfaceConfig {
    /// The first configuration of a surface: the chosen format, the window's
    /// current size, presentation synchronised to the display.
    pub fn new(format: usize, width: u32, height: u32) -> (r: Self)
        ensures
            r == (SurfaceConfig { format, width, height, present_mode: PresentMode::Fifo }),
    {
        SurfaceConfig { format, width, height, present_mode: PresentMode::Fifo }
    }

    /// Takes a new size; the format and presentation mode stay.
    pub fn resize(&mut self, width: u32, height: u32)
        ensures
            *final(self) == (SurfaceConfig { width, height, ..*old(self) }),
    {
        self.width = width;
        self.height = height;
    }
}

/// No format before position `i` is sRGB.
pub open spec fn none_srgb_before(srgb: Seq<bool>, i: int) -> bool {
    forall|j: int| 0 <= j < i ==> !#[trigger] srgb[j]
}

/// The format a surface is configured with, given for each format it
/// supports (in the surface's order) whether it is sRGB: the first sRGB
/// format; else the first format; none when the surface supports none.
pub open spec fn preferred_format(srgb: Seq<bool>) -> Option<usize> {
    if srgb.len() == 0 {
        None
    } else if exists|i: int| 0 <= i < srgb.len() && #[trigger] srgb[i] {
        Some(
            (choose|i: int| 0 <= i < srgb.len() && srgb[i] && none_srgb_before(srgb, i)) as usize,
        )
    } else {
        Some(0)
    }
}

/// Picks the surface format: the first sRGB one among those supported,
/// else the first supported one. `srgb[i]` tells whether the surface's
/// `i`-th format is sRGB.
pub fn choose_format(srgb: &Vec<bool>) -> (r: Option<usize>)
    ensures
        r == preferred_format(srgb@),
        r is None <==> srgb@.len() == 0,
        r matches Some(i) ==> i < srgb@.len() && none_srgb_before(srgb@, i as int),
        r matches Some(i) ==> srgb@[i as int] || (i == 0 && none_srgb_before(
            srgb@,
            srgb@.len() as int,
        )),
{
    if srgb.len() == 0 {
        return None;
    }
    let mut i: usize = 0;
    while i < srgb.len()
        invariant
            i <= srgb@.len(),
            none_srgb_before(srgb@, i as int),
        decreases srgb@.len() - i,
    {
        if srgb[i] {
            proof {
                let k = choose|k: int|
                    0 <= k < srgb@.len() && srgb@[k] && none_srgb_before(srgb@, k);
                assert(k == i as int) by {
                    if k < i as int {
                        assert(!srgb@[k]);
                    } else if k > i as int {
                        assert(!srgb@[i as int]);
                    }
                }
            }
            return Some(i);
        }
        i += 1;
    }
    Some(0)
}

/// wgpu's texture format, carried through without being looked into.
#[verifier::external_type_specification]
#[verifier::external_body]
pub struct ExTextureFormat(wgpu::TextureFormat);

/// Whether a texture format stores colour in the sRGB encoding.
pub uninterp spec fn srgb_of(f: wgpu::TextureFormat) -> bool;

/// Relies on wgpu::TextureFormat::is_srgb, which tells whether a format
/// stores colour in the sRGB encoding: its answer depends on the format alone.
pub assume_specification[ wgpu::TextureFormat::is_srgb ](f: &wgpu::TextureFormat) -> (r: bool)
    ensures
        r == srgb_of(*f),
;

/// Picks the format to configure a surface with, among the formats it
/// supports in the surface's order: the first sRGB one, else the first one;
/// none when the surface supports none.
pub fn surface_format(formats: &Vec<wgpu::TextureFormat>) -> (r: Option<usize>)
    ensures
        r == preferred_format(formats@.map_values(|f: wgpu::TextureFormat| srgb_of(f))),
        r is None <==> formats@.len() == 0,
{
    let mut srgb: Vec<bool> = Vec::new();
    let mut i: usize = 0;
    while i < formats.len()
        invariant
            i <= formats@.len(),
            srgb@.len() == i,
            forall|j: int| 0 <= j < i ==> srgb@[j] == srgb_of(#[trigger] formats@[j]),
        decreases formats@.len() - i,
    {
        srgb.push(formats[i].is_srgb());
        i += 1;
    }
    assert(srgb@ =~= formats@.map_values(|f: wgpu::TextureFormat| srgb_of(f)));
    choose_format(&srgb)
}

/// Why the next presentable image could not be acquired.
#[derive(Clone, Copy, Debug, PartialEq, Eq, Structural)]
pub enum FrameError {
    /// The backend produced no image within its deadline.
    Timeout,
    /// The surface configuration no longer matches the window.
    Outdated,
    /// The surface became invalid.
    Lost,
    /// The backend could not allocate the image.
    OutOfMemory,
}

/// The name under which an acquisition failure is reported.
pub open spec fn reason_text(e: FrameError) -> Seq<char> {
    match e {
        FrameError::Timeout => "Timeout"@,
        FrameError::Outdated => "Outdated"@,
        FrameError::Lost => "Lost"@,
        FrameError::OutOfMemory => "OutOfMemory"@,
    }
}

impl FrameError {
    pub fn reason(&self) -> (r: &'static str)
        ensures
            r@ == reason_text(*self),
    {
        proof {
            reveal_strlit("Timeout");
            reveal_strlit("Outdated");
            reveal_strlit("Lost");
            reveal_strlit("OutOfMemory");
        }
        match self {
            FrameError::Timeout => "Timeout",
            FrameError::Outdated => "Outdated",
            FrameError::Lost => "Lost",
            FrameError::OutOfMemory => "OutOfMemory",
        }
    }
}

/// What to do with a frame once acquisition has been attempted.
#[derive(Clone, Copy, Debug, PartialEq, Eq, Structural)]
pub enum FrameStep {
    /// Record the pass, submit it and present the image.
    Render,
    /// Reconfigure the surface as it stands and skip this frame.
    Reconfigure(FrameError),
}

/// Every acquisition failure is recoverable: the surface is reconfigured
/// with its configuration unchanged and the frame is skipped.
pub fn frame_step(acquired: Result<(), FrameError>) -> (r: FrameStep)
    ensures
        acquired is Ok ==> r == FrameStep::Render,
        acquired matches Err(e) ==> r == FrameStep::Reconfigure(e),
{
    match acquired {
        Ok(()) => FrameStep::Render,
        Err(e) => FrameStep::Reconfigure(e),
    }
}

/// Vertices of the one triangle drawn each frame; its geometry comes from
/// the shader, with no vertex buffer.
pub const TRIANGLE_VERTICES: u32 = 3;

/// Instances of the triangle drawn each frame.
pub const TRIANGLE_INSTANCES: u32 = 1;

/// Why the graphics context could not be created. Each is fatal.
#[derive(Debug, PartialEq, Eq)]
pub enum InitError {
    /// The window system could not create the window.
    WindowCreation(String),
    /// No surface could be bound to the window.
    SurfaceCreation(String),
    /// No adapter supports the surface.
    NoAdapter,
    /// The logical device could not be created.
    DeviceCreation(String),
    /// The surface supports no format at all.
    NoSurfaceFormat,
}

/// The human-readable reason carried by a startup error.
pub open spec fn init_message(e: InitError) -> Seq<char> {
    match e {
        InitError::WindowCreation(s) => s@,
        InitError::SurfaceCreation(s) => s@,
        InitError::NoAdapter => "No adapter found"@,
        InitError::DeviceCreation(s) => s@,
        InitError::NoSurfaceFormat => "No surface format supported"@,
    }
}

impl InitError {
    pub fn message(&self) -> (r: String)
        ensures
            r@ == init_message(*self),
    {
        match self {
            InitError::WindowCreation(s) => s.clone(),
            InitError::SurfaceCreation(s) => s.clone(),
            InitError::NoAdapter => {
                proof {
                    reveal_strlit("No adapter found");
                }
                "No adapter found".to_string()
            },
            InitError::DeviceCreation(s) => s.clone(),
            InitError::NoSurfaceFormat => {
                proof {
                    reveal_strlit("No surface format supported");
                }
                "No surface format supported".to_string()
            },
        }
    }
}

} // verus!
