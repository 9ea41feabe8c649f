//! Shader stages and compiled stage programs.
//!
//! Sources are compiled outside this library. What comes back is taken here as
//! a plain value: the bytes of a bytecode module, or the compiler's complaint.
//! The device takes a module as 32-bit words; the bytes are turned into words
//! by the device library's own reader.

use vstd::prelude::*;
use crate::error::RenderError;
use crate::vertex::word_at;

verus! {

/// The programmable stage a shader is written for.
#[derive(Clone, Copy, Debug, PartialEq, Eq, Structural)]
pub enum ShaderStage {
    Vertex,
    Fragment,
    Compute,
}

/// First word of every bytecode module.
pub const MODULE_MAGIC: u32 = 0x0723_0203;

/// The word whose big-endian image starts at `at`.
pub open spec fn word_at_be(bytes: Seq<u8>, at: int) -> u32 {
    (16777216 * bytes[at] + 65536 * bytes[at + 1] + 256 * bytes[at + 2] + bytes[at + 3]) as u32
}

/// The words of a bytecode module given as bytes.
///
/// The bytes are a module as far as its container goes when they are a whole,
/// positive number of words and the first word is the magic number, in one byte
/// order or the other; the words are then read in that byte order.
pub open spec fn module_words(code: Seq<u8>) -> Option<Seq<u32>> {
    if code.len() == 0 || code.len() % 4 != 0 {
        None
    } else if word_at(code, 0) == MODULE_MAGIC {
        Some(Seq::new(code.len() / 4, |k: int| word_at(code, 4 * k)))
    } else if word_at_be(code, 0) == MODULE_MAGIC {
        Some(Seq::new(code.len() / 4, |k: int| word_at_be(code, 4 * k)))
    } else {
        None
    }
}

/// Calls `wgpu::read_spirv`, which is `gfx_hal::pso::read_spirv`, on the bytes
/// in memory.
///
/// Trusted, not proved: the reader fails when the length is not a multiple of
/// four, when there is no word at all, and when the first word is the magic
/// number in neither byte order; otherwise it returns every word, read in the
/// byte order in which the first one is the magic number.
#[verifier::external_body]
fn read_module(code: &[u8]) -> (r: Option<Vec<u32>>)
    ensures
        match r {
            Some(words) => module_words(code@) == Some(words@),
            None => module_words(code@) is None,
        },
{
    wgpu::read_spirv(std::io::Cursor::new(code)).ok()
}

/// The program of one stage, as the compiler gave it.
#[derive(Debug)]
pub struct CompiledShader {
    pub stage: ShaderStage,
    pub code: Vec<u8>,
}

/// Mathematical content of a [`CompiledShader`].
pub struct ShaderView {
    pub stage: ShaderStage,
    pub code: Seq<u8>,
}

impl View for CompiledShader {
    type V = ShaderView;

    open spec fn view(&self) -> ShaderView {
        ShaderView { stage: self.stage, code: self.code@ }
    }
}

impl ShaderView {
    /// The program can fill the slot of `stage` in a pipeline: it was compiled
    /// for that stage and its bytes are a module.
    pub open spec fn fills(self, stage: ShaderStage) -> bool {
        self.stage == stage && module_words(self.code) is Some
    }
}

impl CompiledShader {
    /// Takes the outcome of compiling the source of one stage: the bytecode
    /// becomes the program of that stage, unchanged; a complaint of the
    /// compiler is a `ShaderCompileError`, whatever it says.
    pub fn from_output(stage: ShaderStage, output: Result<Vec<u8>, String>) -> (r: Result<
        CompiledShader,
        RenderError,
    >)
        ensures
            match output {
                Ok(code) => r matches Ok(shader) && shader@ == (ShaderView { stage, code: code@ }),
                Err(_) => r == Err::<CompiledShader, RenderError>(RenderError::ShaderCompileError),
            },
    {
        match output {
            Ok(code) => Ok(CompiledShader { stage, code }),
            Err(_) => Err(RenderError::ShaderCompileError),
        }
    }

    /// The words of the program, if its bytes are a module.
    pub fn words(&self) -> (r: Option<Vec<u32>>)
        ensures
            match r {
                Some(words) => module_words(self@.code) == Some(words@),
                None => module_words(self@.code) is None,
            },
    {
        read_module(self.code.as_slice())
    }
}

/// The words of a module are as many as its bytes hold, and the first is the
/// magic number.
pub proof fn lemma_module_words(code: Seq<u8>)
    requires
        module_words(code) is Some,
    ensures
        module_words(code)->Some_0.len() == code.len() / 4,
        module_words(code)->Some_0.len() >= 1,
        module_words(code)->Some_0[0] == MODULE_MAGIC,
{
}

} // verus!
