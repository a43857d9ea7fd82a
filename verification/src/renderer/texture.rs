//! Texture sampling parameters and their OpenGL values.
use vstd::prelude::*;

verus! {

/// Minification filter of a texture.
#[derive(Copy, Clone, Debug, PartialEq, Eq, Structural)]
pub enum TextureFilterMin {
    Linear,
    Nearest,
    LinearMipmap,
    NearestMipmap,
}

/// Magnification filter of a texture.
#[derive(Copy, Clone, Debug, PartialEq, Eq, Structural)]
pub enum TextureFilterMag {
    Linear,
    Nearest,
}

/// What texture coordinates outside the texture sample.
#[derive(Copy, Clone, Debug, PartialEq, Eq, Structural)]
pub enum TextureWrapMode {
    Clamp,
    Repeat,
}

/// `glow::LINEAR`, which glow defines as `0x2601`.
#[verifier::external_body]
fn gl_linear() -> (value: u32)
    ensures
        value == 0x2601,
{
    glow::LINEAR
}

/// `glow::NEAREST`, which glow defines as `0x2600`.
#[verifier::external_body]
fn gl_nearest() -> (value: u32)
    ensures
        value == 0x2600,
{
    glow::NEAREST
}

/// `glow::LINEAR_MIPMAP_LINEAR`, which glow defines as `0x2703`.
#[verifier::external_body]
fn gl_linear_mipmap_linear() -> (value: u32)
    ensures
        value == 0x2703,
{
    glow::LINEAR_MIPMAP_LINEAR
}

/// `glow::NEAREST_MIPMAP_NEAREST`, which glow defines as `0x2700`.
#[verifier::external_body]
fn gl_nearest_mipmap_nearest() -> (value: u32)
    ensures
        value == 0x2700,
{
    glow::NEAREST_MIPMAP_NEAREST
}

/// `glow::REPEAT`, which glow defines as `0x2901`.
#[verifier::external_body]
fn gl_repeat() -> (value: u32)
    ensures
        value == 0x2901,
{
    glow::REPEAT
}

/// `glow::CLAMP_TO_EDGE`, which glow defines as `0x812F`.
#[verifier::external_body]
fn gl_clamp_to_edge() -> (value: u32)
    ensures
        value == 0x812F,
{
    glow::CLAMP_TO_EDGE
}

/// OpenGL value of a minification filter.
pub open spec fn min_filter_gl(filter: TextureFilterMin) -> i32 {
    match filter {
        TextureFilterMin::Linear => 0x2601,
        TextureFilterMin::Nearest => 0x2600,
        TextureFilterMin::LinearMipmap => 0x2703,
        TextureFilterMin::NearestMipmap => 0x2700,
    }
}

/// OpenGL value of a magnification filter.
pub open spec fn mag_filter_gl(filter: TextureFilterMag) -> i32 {
    match filter {
        TextureFilterMag::Linear => 0x2601,
        TextureFilterMag::Nearest => 0x2600,
    }
}

/// OpenGL value of a wrap mode.
pub open spec fn wrap_mode_gl(mode: TextureWrapMode) -> i32 {
    match mode {
        TextureWrapMode::Repeat => 0x2901,
        TextureWrapMode::Clamp => 0x812F,
    }
}

/// OpenGL value of a minification filter (`TEXTURE_MIN_FILTER` parameter).
pub fn min_filter_value(filter: TextureFilterMin) -> (value: i32)
    ensures
        value == min_filter_gl(filter),
{
    let value = match filter {
        TextureFilterMin::Linear => gl_linear(),
        TextureFilterMin::Nearest => gl_nearest(),
        TextureFilterMin::LinearMipmap => gl_linear_mipmap_linear(),
        TextureFilterMin::NearestMipmap => gl_nearest_mipmap_nearest(),
    };
    value as i32
}

/// OpenGL value of a magnification filter (`TEXTURE_MAG_FILTER` parameter).
pub fn mag_filter_value(filter: TextureFilterMag) -> (value: i32)
    ensures
        value == mag_filter_gl(filter),
{
    let value = match filter {
        TextureFilterMag::Linear => gl_linear(),
        TextureFilterMag::Nearest => gl_nearest(),
    };
    value as i32
}

/// OpenGL value of a wrap mode (`TEXTURE_WRAP_S` and `TEXTURE_WRAP_T` parameters).
pub fn wrap_mode_value(mode: TextureWrapMode) -> (value: i32)
    ensures
        value == wrap_mode_gl(mode),
{
    let value = match mode {
        TextureWrapMode::Repeat => gl_repeat(),
        TextureWrapMode::Clamp => gl_clamp_to_edge(),
    };
    value as i32
}

/// Whether a minification filter samples mipmaps, which must then be generated.
pub fn uses_mipmaps(filter: TextureFilterMin) -> (mipmaps: bool)
    ensures
        mipmaps == (filter == TextureFilterMin::LinearMipmap || filter
            == TextureFilterMin::NearestMipmap),
{
    filter == TextureFilterMin::LinearMipmap || filter == TextureFilterMin::NearestMipmap
}

} // verus!
