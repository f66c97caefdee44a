//! Shader stages and SPIR-V modules.
use vstd::prelude::*;

verus! {

/// The stage a shader runs in.
#[derive(Debug, Clone, Copy, PartialEq, Eq, Structural)]
pub enum ShaderKind {
    Vertex,
    Fragment,
}

/// A shader module created on the device: its raw handle and its stage.
#[derive(Debug, Clone, Copy, PartialEq, Eq, Structural)]
pub struct Shader {
    pub raw: u64,
    pub kind: ShaderKind,
}

/// The first word of every SPIR-V module.
pub const SPIRV_MAGIC: u32 = 0x0723_0203;

/// The little-endian word at word index `i` of `b`.
pub open spec fn le_u32_at(b: Seq<u8>, i: int) -> u32 {
    (b[4 * i] as int + 256 * b[4 * i + 1] as int + 65536 * b[4 * i + 2] as int + 16777216 * b[4
        * i + 3] as int) as u32
}

/// The big-endian word at word index `i` of `b`.
pub open spec fn be_u32_at(b: Seq<u8>, i: int) -> u32 {
    (16777216 * b[4 * i] as int + 65536 * b[4 * i + 1] as int + 256 * b[4 * i + 2] as int + b[4
        * i + 3] as int) as u32
}

/// The words of a SPIR-V binary: its length is a positive multiple of four and
/// its first word is the magic number in one byte order, which then is the
/// order of every word. `None` for anything else.
pub open spec fn spirv_words(b: Seq<u8>) -> Option<Seq<u32>> {
    if b.len() == 0 || b.len() % 4 != 0 {
        None
    } else if le_u32_at(b, 0) == SPIRV_MAGIC {
        Some(Seq::new(b.len() / 4, |i: int| le_u32_at(b, i)))
    } else if be_u32_at(b, 0) == SPIRV_MAGIC {
        Some(Seq::new(b.len() / 4, |i: int| be_u32_at(b, i)))
    } else {
        None
    }
}

/// Relies on ash's `util::read_spv`: it rejects a length that is not a multiple
/// of four, reads native-endian words, byte-swaps them all when the first word
/// is the byte-swapped magic number, and then rejects a module whose first word
/// is not the magic number (an empty one included).
#[verifier::external_body]
fn read_spirv(bytes: &[u8]) -> (r: Option<Vec<u32>>)
    ensures
        match spirv_words(bytes@) {
            Some(w) => r is Some && r->Some_0@ == w,
            None => r is None,
        },
{
    ash::util::read_spv(&mut std::io::Cursor::new(bytes)).ok()
}

/// A SPIR-V module, as the words the device reads.
#[derive(Debug, Clone)]
pub struct Spirv {
    pub data: Vec<u32>,
}

impl Spirv {
    /// Decodes a SPIR-V binary; `None` when `bytes` is not one.
    pub fn from_bytes(bytes: &[u8]) -> (r: Option<Spirv>)
        ensures
            match spirv_words(bytes@) {
                Some(w) => r is Some && r->Some_0.data@ == w,
                None => r is None,
            },
    {
        match read_spirv(bytes) {
            Some(data) => Some(Spirv { data }),
            None => None,
        }
    }

    /// The module's words.
    pub fn words(&self) -> (r: &Vec<u32>)
        ensures
            r@ == self.data@,
    {
        &self.data
    }
}

} // verus!
