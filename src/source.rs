//! The shader text that a rebuild compiles, with the built-in default that
//! replaces a missing source file.
use vstd::prelude::*;

verus! {

/// Name of the shader source file that is watched and compiled.
pub const PATH: &'static str = "shader.glsl";

/// Fragment shader written to [`PATH`] when the file does not exist.
pub const DEFAULT_FRAG_REF: &'static str = "#version 450\n\nlayout(location = 0) out vec4 o_color;\n\nlayout(binding = 0) uniform UBO {\n    float time;\n} ubo;\n\nvoid main() {\n    float t = ubo.time;\n    o_color = vec4(0.5 + 0.5 * sin(t), 0.5 + 0.5 * cos(t), 0.5, 1.0);\n}\n";

/// The text to compile, and whether it must first be written to [`PATH`].
pub struct ShaderSource {
    pub text: String,
    /// The file was missing: `text` is the default and belongs on disk.
    pub write_default: bool,
}

/// Chooses the text to compile from what was read from [`PATH`]
/// (`None` when the file could not be opened). A missing file is replaced
/// by the default text, which the caller writes to disk.
pub fn reader(on_disk: Option<String>) -> (r: ShaderSource)
    ensures
        on_disk is None ==> r.write_default && r.text@ == DEFAULT_FRAG_REF@,
        on_disk is Some ==> !r.write_default && r.text@ == on_disk->Some_0@,
{
    match on_disk {
        Some(text) => ShaderSource { text, write_default: false },
        None => ShaderSource { text: DEFAULT_FRAG_REF.to_owned(), write_default: true },
    }
}

} // verus!
