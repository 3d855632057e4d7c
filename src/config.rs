use vstd::prelude::*;
use crate::palette::{lookup_spec, palette_name, PaletteName};
use vstd::string::StringSliceAdditionalSpecFns;

verus! {

/// Why a configuration or an output request was refused.
#[derive(Clone, Copy, Debug, PartialEq, Eq, Structural)]
pub enum ConfigError {
    /// A decimal string whose exponent is not an `i32`.
    MalformedDecimal,
    /// A decimal string so long that its precision does not fit in 64 bits.
    PrecisionTooLarge,
    /// A palette name outside the registry.
    UnknownPalette,
    /// A width or height of zero.
    ZeroDimension,
    /// An iteration cap of zero.
    ZeroIterations,
    /// A batch bound of zero.
    ZeroBatch,
    /// An iteration cap or a render target beyond what the 32-bit pixel
    /// counters and 64-bit buffer sizes can hold.
    TooLarge,
    /// A request for no frames at all.
    ZeroFrames,
    /// An output file that is neither `.png` nor `.mp4`.
    UnsupportedOutput,
    /// A single frame requested into a file that is not `.png`.
    InvalidImageFormat,
    /// Several frames requested into a file that is not `.mp4`.
    InvalidVideoFormat,
}

/// Super-sampling factor per axis when super-sampling is on.
pub const SSAA_SAMPLES: u32 = 2;

/// Largest iteration cap: the kernel's counters and uniforms are 32-bit
/// signed.
pub const MAX_ITERATIONS: usize = 0x7fff_ffff;

/// Largest number of kernel pixels: the remaining-work counter is 32-bit.
pub const MAX_TARGET_PIXELS: u64 = 0xffff_ffff;

/// The checked render settings the core works with.
#[derive(Clone, Copy, Debug, PartialEq, Eq, Structural)]
pub struct RenderSettings {
    pub iterations: u32,
    pub width: u32,
    pub height: u32,
    /// Kernel pixels per output pixel along each axis.
    pub ssaa_factor: u32,
    pub batch_iter: u32,
    pub palette: PaletteName,
}

pub open spec fn factor_of(ssaa: bool) -> nat {
    if ssaa { SSAA_SAMPLES as nat } else { 1 }
}

/// Which error, if any, a configuration is refused with. The checks run in
/// this order: palette, iteration cap, dimensions, batch bound, size.
pub open spec fn config_error(
    iterations: nat,
    width: nat,
    height: nat,
    ssaa: bool,
    batch_iter: nat,
    palette: Seq<u8>,
) -> Option<ConfigError> {
    let k = factor_of(ssaa);
    if lookup_spec(palette) is None {
        Some(ConfigError::UnknownPalette)
    } else if iterations == 0 {
        Some(ConfigError::ZeroIterations)
    } else if width == 0 || height == 0 {
        Some(ConfigError::ZeroDimension)
    } else if batch_iter == 0 {
        Some(ConfigError::ZeroBatch)
    } else if iterations > MAX_ITERATIONS || batch_iter > u32::MAX || (width * k) * (height * k)
        > MAX_TARGET_PIXELS {
        Some(ConfigError::TooLarge)
    } else {
        None
    }
}

/// Checks a configuration and brings it to the core's integer types.
pub fn validate(
    iterations: usize,
    width: usize,
    height: usize,
    ssaa: bool,
    batch_iter: usize,
    palette: &str,
) -> (r: Result<RenderSettings, ConfigError>)
    ensures
        match config_error(
            iterations as nat,
            width as nat,
            height as nat,
            ssaa,
            batch_iter as nat,
            palette.spec_bytes(),
        ) {
            Some(e) => r == Err::<RenderSettings, ConfigError>(e),
            None => r is Ok && ({
                let s = r->Ok_0;
                &&& s.iterations == iterations
                &&& s.width == width
                &&& s.height == height
                &&& s.ssaa_factor == factor_of(ssaa)
                &&& s.batch_iter == batch_iter
                &&& Some(s.palette) == lookup_spec(palette.spec_bytes())
                &&& (s.width * s.ssaa_factor) * (s.height * s.ssaa_factor) <= MAX_TARGET_PIXELS
            }),
        },
{
    let p = match palette_name(palette) {
        Ok(p) => p,
        Err(e) => {
            return Err(e);
        },
    };
    if iterations == 0 {
        return Err(ConfigError::ZeroIterations);
    }
    if width == 0 || height == 0 {
        return Err(ConfigError::ZeroDimension);
    }
    if batch_iter == 0 {
        return Err(ConfigError::ZeroBatch);
    }
    let k: u32 = if ssaa { SSAA_SAMPLES } else { 1 };
    if iterations > MAX_ITERATIONS || batch_iter > u32::MAX as usize {
        return Err(ConfigError::TooLarge);
    }
    let w64: u64 = width as u64;
    let h64: u64 = height as u64;
    if w64 > MAX_TARGET_PIXELS || h64 > MAX_TARGET_PIXELS {
        proof {
            let w = width as nat;
            let h = height as nat;
            let kk = factor_of(ssaa);
            assert((w * kk) * (h * kk) >= w * h) by (nonlinear_arith)
                requires kk >= 1;
            assert(w * h >= w && w * h >= h) by (nonlinear_arith)
                requires w >= 1, h >= 1;
        }
        return Err(ConfigError::TooLarge);
    }
    assert(k <= 2);
    let tw: u128 = w64 as u128 * k as u128;
    let th: u128 = h64 as u128 * k as u128;
    assert(tw * th <= 0x4_0000_0000u128 * 0x4_0000_0000u128) by (nonlinear_arith)
        requires tw <= 0x4_0000_0000u128, th <= 0x4_0000_0000u128, tw >= 0, th >= 0;
    if tw * th > MAX_TARGET_PIXELS as u128 {
        return Err(ConfigError::TooLarge);
    }
    proof {
        let kk = k as nat;
        assert(tw <= MAX_TARGET_PIXELS && th <= MAX_TARGET_PIXELS) by (nonlinear_arith)
            requires tw * th <= MAX_TARGET_PIXELS, tw >= 1, th >= 1;
        assert(width as nat * kk <= tw);
    }
    Ok(RenderSettings {
        iterations: iterations as u32,
        width: width as u32,
        height: height as u32,
        ssaa_factor: k,
        batch_iter: batch_iter as u32,
        palette: p,
    })
}

/// The kind of file a render is written to.
#[derive(Clone, Copy, Debug, PartialEq, Eq, Structural)]
pub enum OutputKind {
    Png,
    Mp4,
}

pub open spec fn ends_with(b: Seq<u8>, suffix: Seq<u8>) -> bool {
    b.len() >= suffix.len() && b.subrange(b.len() - suffix.len(), b.len() as int) == suffix
}

pub open spec fn png_suffix() -> Seq<u8> {
    seq![46u8, 112, 110, 103]
}

pub open spec fn mp4_suffix() -> Seq<u8> {
    seq![46u8, 109, 112, 52]
}

/// The checks on an output request, in order: the file is `.png` or `.mp4`,
/// at least one frame is asked for, one frame goes to a `.png` and several
/// to an `.mp4`.
pub open spec fn output_spec(frames: nat, path: Seq<u8>) -> Result<OutputKind, ConfigError> {
    let png = ends_with(path, png_suffix());
    let mp4 = ends_with(path, mp4_suffix());
    if !png && !mp4 {
        Err(ConfigError::UnsupportedOutput)
    } else if frames == 0 {
        Err(ConfigError::ZeroFrames)
    } else if frames == 1 && !png {
        Err(ConfigError::InvalidImageFormat)
    } else if frames > 1 && !mp4 {
        Err(ConfigError::InvalidVideoFormat)
    } else if frames == 1 {
        Ok(OutputKind::Png)
    } else {
        Ok(OutputKind::Mp4)
    }
}

fn has_suffix(b: &[u8], s0: u8, s1: u8, s2: u8, s3: u8) -> (r: bool)
    ensures
        r == ends_with(b@, seq![s0, s1, s2, s3]),
{
    let n = b.len();
    if n < 4 {
        return false;
    }
    let r = b[n - 4] == s0 && b[n - 3] == s1 && b[n - 2] == s2 && b[n - 1] == s3;
    let ghost t = b@.subrange(n - 4, n as int);
    assert(r ==> t =~= seq![s0, s1, s2, s3]);
    assert(t == seq![s0, s1, s2, s3] ==> (t[0] == s0 && t[1] == s1 && t[2] == s2 && t[3] == s3));
    r
}

/// Checks that `frames` frames can be written to `path`, and says whether
/// as an image or a video.
pub fn check_output(frames: usize, path: &str) -> (r: Result<OutputKind, ConfigError>)
    ensures
        r == output_spec(frames as nat, path.spec_bytes()),
{
    let b = path.as_bytes();
    let png = has_suffix(b, 46, 112, 110, 103);
    let mp4 = has_suffix(b, 46, 109, 112, 52);
    assert(png_suffix() == seq![46u8, 112u8, 110u8, 103u8]);
    assert(mp4_suffix() == seq![46u8, 109u8, 112u8, 52u8]);
    if !png && !mp4 {
        Err(ConfigError::UnsupportedOutput)
    } else if frames == 0 {
        Err(ConfigError::ZeroFrames)
    } else if frames == 1 && !png {
        Err(ConfigError::InvalidImageFormat)
    } else if frames > 1 && !mp4 {
        Err(ConfigError::InvalidVideoFormat)
    } else if frames == 1 {
        Ok(OutputKind::Png)
    } else {
        Ok(OutputKind::Mp4)
    }
}

} // verus!
