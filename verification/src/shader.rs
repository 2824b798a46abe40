//! Shader programs by name: which compiled files make up a program.

use vstd::prelude::*;

verus! {

/// A shader program: a vertex and a fragment stage, compiled ahead of time
/// into one file each.
#[derive(Debug)]
pub struct Shader {
    pub label: String,
    /// Name of the program: the path of its files without their endings.
    pub filename: String,
    /// The file that holds the compiled vertex stage.
    pub vertex_file: String,
    /// The file that holds the compiled fragment stage.
    pub fragment_file: String,
}

/// The value of a [`Shader`].
pub struct ShaderView {
    pub label: Seq<char>,
    pub filename: Seq<char>,
    pub vertex_file: Seq<char>,
    pub fragment_file: Seq<char>,
}

impl View for Shader {
    type V = ShaderView;

    open spec fn view(&self) -> ShaderView {
        ShaderView {
            label: self.label@,
            filename: self.filename@,
            vertex_file: self.vertex_file@,
            fragment_file: self.fragment_file@,
        }
    }
}

/// The program named `filename`: its stages are looked for in
/// `filename.vert.spv` and `filename.frag.spv`.
pub open spec fn program(label: Seq<char>, filename: Seq<char>) -> ShaderView {
    ShaderView {
        label,
        filename,
        vertex_file: filename + ".vert.spv"@,
        fragment_file: filename + ".frag.spv"@,
    }
}

/// Entry point of both stages.
pub const ENTRY_POINT: &'static str = "main";

/// What is wrong with a compiled shader stage.
#[derive(Clone, Copy, Debug, PartialEq, Eq)]
pub enum ShaderError {
    /// The file does not hold a whole number of 32-bit words.
    Length,
    /// The file does not start with the number that marks SPIR-V, stored
    /// with its low byte first.
    Magic,
}

/// The number that a SPIR-V module starts with.
pub const SPIRV_MAGIC: u32 = 0x0723_0203;

/// The first four bytes of `bytes` as a little-endian word.
pub open spec fn first_word_le(bytes: Seq<u8>) -> int {
    bytes[0] + 0x100 * bytes[1] + 0x1_0000 * bytes[2] + 0x100_0000 * bytes[3]
}

/// The first thing wrong with a compiled shader stage, if anything is.
pub open spec fn spirv_error(bytes: Seq<u8>) -> Option<ShaderError> {
    if bytes.len() % 4 != 0 {
        Some(ShaderError::Length)
    } else if bytes.len() < 4 || first_word_le(bytes) != SPIRV_MAGIC {
        Some(ShaderError::Magic)
    } else {
        None
    }
}

impl Shader {
    /// The program with the given label and name.
    pub fn new(label: &str, filename: &str) -> (shader: Shader)
        ensures
            shader@ == program(label@, filename@),
    {
        let mut vertex_file = String::from_str(filename);
        vertex_file.append(".vert.spv");
        let mut fragment_file = String::from_str(filename);
        fragment_file.append(".frag.spv");
        Shader {
            label: String::from_str(label),
            filename: String::from_str(filename),
            vertex_file,
            fragment_file,
        }
    }

    /// Checks that `bytes` can be a compiled shader stage: a whole number of
    /// 32-bit words, the first of which marks SPIR-V in little-endian byte
    /// order.
    pub fn compile_shader(bytes: &[u8]) -> (r: Result<(), ShaderError>)
        ensures
            match r {
                Ok(()) => spirv_error(bytes@).is_none(),
                Err(e) => spirv_error(bytes@) == Some(e),
            },
    {
        if bytes.len() % 4 != 0 {
            return Err(ShaderError::Length);
        }
        if bytes.len() < 4 {
            return Err(ShaderError::Magic);
        }
        let b0: u32 = bytes[0] as u32;
        let b1: u32 = bytes[1] as u32;
        let b2: u32 = bytes[2] as u32;
        let b3: u32 = bytes[3] as u32;
        let le: u32 = b0 + 0x100 * b1 + 0x1_0000 * b2 + 0x100_0000 * b3;
        if le != SPIRV_MAGIC {
            return Err(ShaderError::Magic);
        }
        Ok(())
    }
}

} // verus!
