//! Shaders used in the example render pass: a vertex program that hands
//! the interpolator a per-vertex color, and a fragment program that
//! writes it out.

use vstd::prelude::*;
use crate::shader::ShaderSource;

verus! {

/// The source text of the example vertex program.
pub open spec fn example_vertex_source() -> Seq<char> {
    "#version 300 es\nin vec3 tt_vert_position;\nin vec3 tt_vert_normal;\nin vec3 tt_vert_texture;\nout vec3 tt_frag_color;\nvoid main() {\n    tt_frag_color = tt_vert_texture;\n    gl_Position = vec4(tt_vert_position, 1.0);\n}\n"@
}

/// The source text of the example fragment program.
pub open spec fn example_fragment_source() -> Seq<char> {
    "#version 300 es\nprecision mediump float;\nin vec3 tt_frag_color;\nout vec4 tt_output;\nvoid main() {\n    tt_output = vec4(tt_frag_color, 1.0);\n}\n"@
}

/// Vertex program of the example shader.
pub fn vertex() -> (r: ShaderSource)
    ensures
        r matches ShaderSource::Glsl(s) && s@ == example_vertex_source(),
{
    ShaderSource::Glsl(
        "#version 300 es\nin vec3 tt_vert_position;\nin vec3 tt_vert_normal;\nin vec3 tt_vert_texture;\nout vec3 tt_frag_color;\nvoid main() {\n    tt_frag_color = tt_vert_texture;\n    gl_Position = vec4(tt_vert_position, 1.0);\n}\n".to_owned(),
    )
}

/// Fragment program of the example shader.
pub fn fragment() -> (r: ShaderSource)
    ensures
        r matches ShaderSource::Glsl(s) && s@ == example_fragment_source(),
{
    ShaderSource::Glsl(
        "#version 300 es\nprecision mediump float;\nin vec3 tt_frag_color;\nout vec4 tt_output;\nvoid main() {\n    tt_output = vec4(tt_frag_color, 1.0);\n}\n".to_owned(),
    )
}

} // verus!
