//! Which set of shaders suits the OpenGL context that the colour-picker overlay is drawn in.

use vstd::prelude::*;

verus! {

/// The shader dialects that the overlay is ever started with.
#[derive(Clone, Copy, Debug, PartialEq, Eq, Structural)]
pub enum ShaderDialect {
    /// GLSL 4.00, for OpenGL 4.0 and later.
    GlSl400,
    /// GLSL 1.30, for OpenGL 3.0 and later.
    GlSl130,
    /// GLSL 1.10, for OpenGL 2.0 and later.
    GlSl110,
    /// GLSL ES 3.00, for OpenGL ES 3.0 and later.
    GlSlEs300,
    /// GLSL ES 1.00, for OpenGL ES 2.0 and later.
    GlSlEs100,
}

/// The dialect for a context whose shading language has the given major version: the newest one
/// of its family (embedded or desktop) that the version reaches, and the oldest of the family
/// when it reaches none.
pub open spec fn dialect_for(is_embedded: bool, major: u32) -> ShaderDialect {
    if is_embedded {
        if major >= 3 {
            ShaderDialect::GlSlEs300
        } else {
            ShaderDialect::GlSlEs100
        }
    } else if major >= 4 {
        ShaderDialect::GlSl400
    } else if major == 3 {
        ShaderDialect::GlSl130
    } else {
        ShaderDialect::GlSl110
    }
}

/// Picks the shader dialect for a context from what its shading language reports.
pub fn select_dialect(is_embedded: bool, major: u32) -> (dialect: ShaderDialect)
    ensures
        dialect == dialect_for(is_embedded, major),
{
    if is_embedded {
        if major >= 3 {
            ShaderDialect::GlSlEs300
        } else {
            ShaderDialect::GlSlEs100
        }
    } else if major >= 4 {
        ShaderDialect::GlSl400
    } else if major >= 3 {
        ShaderDialect::GlSl130
    } else {
        ShaderDialect::GlSl110
    }
}

} // verus!
