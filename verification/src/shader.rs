//! The shader pipeline's decisions: the two fixed GLSL sources, the
//! reading of a compile-status query, and the diagnostic message that is
//! printed when a stage fails to compile. The compilation itself is done
//! by the graphics driver outside the library; this module computes
//! everything the program decides from the driver's answers.

use vstd::prelude::*;
use vstd::string::StringExecFns;

verus! {

/// The two stages of the shader pair.
#[derive(Clone, Copy, PartialEq, Eq, Structural, Debug)]
pub enum ShaderStage {
    Vertex,
    Fragment,
}

/// The name under which a stage is reported in diagnostics.
pub open spec fn stage_label_spec(stage: ShaderStage) -> Seq<char> {
    match stage {
        ShaderStage::Vertex => "Vertex shader"@,
        ShaderStage::Fragment => "Fragment shader"@,
    }
}

/// The name under which a stage is reported in diagnostics.
pub fn stage_label(stage: ShaderStage) -> (r: &'static str)
    ensures
        r@ == stage_label_spec(stage),
{
    match stage {
        ShaderStage::Vertex => "Vertex shader",
        ShaderStage::Fragment => "Fragment shader",
    }
}

/// A queried compile status reports failure exactly when its low byte is
/// zero, the byte the driver uses for its boolean false.
pub open spec fn compile_status_failed(status: i32) -> bool {
    status as u8 == 0u8
}

/// Whether a compile-status value reports failure.
pub fn compile_failed(status: i32) -> (r: bool)
    ensures
        r == compile_status_failed(status),
{
    let low: u8 = #[verifier::truncate] (status as u8);
    low == 0u8
}

/// The diagnostic printed for a failed stage: the stage name, a fixed
/// middle, and the driver's info log. It is never empty and it starts
/// with the stage name.
pub fn compile_failure_message(stage: ShaderStage, info_log: &str) -> (m: String)
    ensures
        m@ == stage_label_spec(stage) + " compilation failed "@ + info_log@,
        m@.len() > 0,
{
    let mut m = stage_label(stage).to_owned();
    m.append(" compilation failed ");
    m.append(info_log);
    proof {
        reveal_strlit(" compilation failed ");
    }
    m
}

/// The outcome of one stage's compilation, judged from the status and
/// info log the driver reports: no message on success, the diagnostic on
/// failure. The shader object is kept either way, as the program keeps
/// (and later links) the shader id regardless of failure.
pub fn compile_report(stage: ShaderStage, status: i32, info_log: &str) -> (r: Option<String>)
    ensures
        r is Some <==> compile_status_failed(status),
        r matches Some(m) ==> {
            &&& m@ == stage_label_spec(stage) + " compilation failed "@ + info_log@
            &&& m@.len() > 0
        },
{
    if compile_failed(status) {
        Some(compile_failure_message(stage, info_log))
    } else {
        None
    }
}

/// The fixed vertex-stage source: it passes the position attribute at
/// location zero through to the clip-space position.
pub open spec fn vertex_shader_source_spec() -> Seq<char> {
    "#version 330 core\nlayout(location = 0) in vec4 position;\n\nvoid main() {\n    gl_Position = position;\n}\n"@
}

/// The fixed vertex-stage source.
pub fn vertex_shader_source() -> (s: &'static str)
    ensures
        s@ == vertex_shader_source_spec(),
{
    "#version 330 core\nlayout(location = 0) in vec4 position;\n\nvoid main() {\n    gl_Position = position;\n}\n"
}

/// The fixed fragment-stage source: it writes the constant opaque red
/// color to the output at location zero.
pub open spec fn fragment_shader_source_spec() -> Seq<char> {
    "#version 330 core\nlayout(location = 0) out vec4 color;\n\nvoid main() {\n    color = vec4(1.0, 0.0, 0.0, 1.0);\n}\n"@
}

/// The fixed fragment-stage source.
pub fn fragment_shader_source() -> (s: &'static str)
    ensures
        s@ == fragment_shader_source_spec(),
{
    "#version 330 core\nlayout(location = 0) out vec4 color;\n\nvoid main() {\n    color = vec4(1.0, 0.0, 0.0, 1.0);\n}\n"
}

/// Both fixed sources are non-empty and declare the same GLSL version,
/// the one the requested core-profile context serves.
pub proof fn lemma_sources_declare_glsl_version()
    ensures
        vertex_shader_source_spec().len() > 0,
        fragment_shader_source_spec().len() > 0,
        vertex_shader_source_spec().subrange(0, 17) == "#version 330 core"@,
        fragment_shader_source_spec().subrange(0, 17) == "#version 330 core"@,
{
    reveal_strlit("#version 330 core");
    reveal_strlit(
        "#version 330 core\nlayout(location = 0) in vec4 position;\n\nvoid main() {\n    gl_Position = position;\n}\n",
    );
    reveal_strlit(
        "#version 330 core\nlayout(location = 0) out vec4 color;\n\nvoid main() {\n    color = vec4(1.0, 0.0, 0.0, 1.0);\n}\n",
    );
    assert(vertex_shader_source_spec().subrange(0, 17) =~= "#version 330 core"@);
    assert(fragment_shader_source_spec().subrange(0, 17) =~= "#version 330 core"@);
}

} // verus!
