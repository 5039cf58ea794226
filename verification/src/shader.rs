//! Shader-module planning: bytecode packing into 32-bit words and the
//! stage-binding description.

use vstd::prelude::*;
use crate::BootstrapError;

verus! {

/// Pipeline stage a shader module binds to.
#[derive(Clone, Copy, Debug, PartialEq, Eq, Structural)]
pub enum ShaderType {
    Vertex,
    Fragment,
}

/// Stage flag bit for vertex shaders.
pub const STAGE_VERTEX: u32 = 0x1;

/// Stage flag bit for fragment shaders.
pub const STAGE_FRAGMENT: u32 = 0x10;

/// The stage flag word for a shader type.
pub open spec fn stage_flag_spec(t: ShaderType) -> u32 {
    match t {
        ShaderType::Vertex => STAGE_VERTEX,
        ShaderType::Fragment => STAGE_FRAGMENT,
    }
}

/// Maps a shader type to its stage flag word.
pub fn shader_stage_flag(t: &ShaderType) -> (f: u32)
    ensures
        f == stage_flag_spec(*t),
{
    match t {
        ShaderType::Vertex => STAGE_VERTEX,
        ShaderType::Fragment => STAGE_FRAGMENT,
    }
}

/// The entry-point name every stage binds to.
pub fn shader_entry_point() -> (s: &'static str)
    ensures
        s@ == "main"@,
{
    "main"
}

/// The 32-bit word at word-index `i` of the bytecode, assembled
/// least-significant byte first.
pub open spec fn word_at(bytes: Seq<u8>, i: int) -> u32 {
    (bytes[4 * i] + bytes[4 * i + 1] * 0x100 + bytes[4 * i + 2] * 0x10000 + bytes[4 * i + 3]
        * 0x1000000) as u32
}

/// Packs raw shader bytecode into the 32-bit words module creation takes,
/// least-significant byte first. Errs exactly when the byte length is not a
/// whole number of words — no byte is ever silently dropped.
pub fn pack_shader_words(bytes: &[u8]) -> (r: Result<Vec<u32>, BootstrapError>)
    ensures
        bytes@.len() % 4 == 0 <==> r is Ok,
        r is Err ==> r == Err::<Vec<u32>, BootstrapError>(BootstrapError::ShaderCodeMisaligned),
        r matches Ok(words) ==> words@.len() == bytes@.len() / 4 && (forall|i: int|
            0 <= i < words@.len() ==> words@[i] == word_at(bytes@, i)),
{
    let n = bytes.len();
    if n % 4 != 0 {
        return Err(BootstrapError::ShaderCodeMisaligned);
    }
    let count = n / 4;
    let mut words: Vec<u32> = Vec::new();
    let mut i: usize = 0;
    while i < count
        invariant
            n == bytes@.len(),
            n % 4 == 0,
            count == n / 4,
            0 <= i <= count,
            words@.len() == i,
            forall|j: int| 0 <= j < i ==> words@[j] == word_at(bytes@, j),
        decreases count - i,
    {
        let b0 = bytes[4 * i] as u32;
        let b1 = bytes[4 * i + 1] as u32;
        let b2 = bytes[4 * i + 2] as u32;
        let b3 = bytes[4 * i + 3] as u32;
        words.push(b0 + b1 * 0x100 + b2 * 0x10000 + b3 * 0x1000000);
        i += 1;
    }
    Ok(words)
}

} // verus!
