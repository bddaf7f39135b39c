//! Choice of the shader dialect handed to the GUI renderer.

use vstd::prelude::*;

verus! {

/// The shading-language version a graphics driver reports, reduced to the two
/// facts the dialect choice depends on.
#[derive(Clone, Copy, Debug, PartialEq, Eq, Structural)]
pub struct ShadingLanguage {
    /// `true` for an embedded (OpenGL ES) profile, `false` for desktop OpenGL.
    pub is_embedded: bool,
    /// Major version number of the shading language.
    pub major: u32,
}

/// The shader dialects the GUI renderer is started with.
#[derive(Clone, Copy, Debug, PartialEq, Eq, Structural)]
pub enum Shaders {
    /// Desktop GLSL 4.00 and later.
    GlSl400,
    /// Desktop GLSL 1.30 and later.
    GlSl130,
    /// Desktop GLSL 1.10, the oldest desktop dialect.
    GlSl110,
    /// Embedded GLSL ES 3.00 and later.
    GlSlEs300,
    /// Embedded GLSL ES 1.00.
    GlSlEs100,
}

/// The dialect that belongs to a reported shading-language version.
pub open spec fn dialect_for(version: ShadingLanguage) -> Shaders {
    if version.is_embedded {
        if version.major >= 3 {
            Shaders::GlSlEs300
        } else {
            Shaders::GlSlEs100
        }
    } else if version.major >= 4 {
        Shaders::GlSl400
    } else if version.major >= 3 {
        Shaders::GlSl130
    } else {
        Shaders::GlSl110
    }
}

/// Picks the shader dialect for the version the driver reports.
pub fn select_shaders(version: ShadingLanguage) -> (shaders: Shaders)
    ensures
        shaders == dialect_for(version),
{
    if version.is_embedded {
        if version.major >= 3 {
            Shaders::GlSlEs300
        } else {
            Shaders::GlSlEs100
        }
    } else if version.major >= 4 {
        Shaders::GlSl400
    } else if version.major >= 3 {
        Shaders::GlSl130
    } else {
        Shaders::GlSl110
    }
}

} // verus!
