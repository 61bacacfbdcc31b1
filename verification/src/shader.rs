//! Where a stage's program comes from, and the binary form it is built from.
//!
//! A program is either source text in a file, compiled when the stage is
//! built, or a binary that was compiled beforehand. Both end as the same
//! sequence of 32-bit words.

use vstd::prelude::*;
use crate::error::{StageError, StageResource};

verus! {

/// The directory that holds the stages' source text.
pub const SHADER_DIR: &'static str = "shaders";

/// The word that four bytes spell, lowest byte first.
pub open spec fn word_of(b0: u8, b1: u8, b2: u8, b3: u8) -> u32 {
    (b0 + 256 * b1 + 65536 * b2 + 16777216 * b3) as u32
}

/// The words that `bytes` spell, four bytes to a word.
pub open spec fn words_of(bytes: Seq<u8>) -> Seq<u32> {
    Seq::new(
        (bytes.len() / 4) as nat,
        |i: int| word_of(bytes[4 * i], bytes[4 * i + 1], bytes[4 * i + 2], bytes[4 * i + 3]),
    )
}

/// A compiled program as the device takes it: 32-bit words.
#[derive(Debug)]
pub struct ShaderBinary {
    pub words: Vec<u32>,
}

impl View for ShaderBinary {
    type V = Seq<u32>;

    open spec fn view(&self) -> Seq<u32> {
        self.words@
    }
}

/// What `ShaderBinary::from_bytes` makes of `bytes`.
pub open spec fn binary_of(bytes: Seq<u8>) -> Result<Seq<u32>, StageError> {
    if bytes.len() % 4 == 0 {
        Ok(words_of(bytes))
    } else {
        Err(StageError::ResourceCreationError { resource: StageResource::ShaderModule })
    }
}

/// `made` holds what `expected` says: the same words, or the same error.
pub open spec fn is_binary(made: Result<ShaderBinary, StageError>, expected: Result<
    Seq<u32>,
    StageError,
>) -> bool {
    match (made, expected) {
        (Ok(binary), Ok(words)) => binary@ == words,
        (Err(e), Err(x)) => e == x,
        _ => false,
    }
}

/// Packs `bytes` into words, four bytes to a word, lowest byte first. A byte
/// count that is no multiple of four cannot be packed.
pub fn pack_words(bytes: &Vec<u8>) -> (packed: Option<Vec<u32>>)
    ensures
        match packed {
            Some(words) => bytes@.len() % 4 == 0 && words@ == words_of(bytes@),
            None => bytes@.len() % 4 != 0,
        },
{
    if bytes.len() % 4 != 0 {
        return None;
    }
    let count: usize = bytes.len() / 4;
    let mut words: Vec<u32> = Vec::new();
    let mut i: usize = 0;
    while i < count
        invariant
            i <= count,
            count == bytes.len() / 4,
            words.len() == i,
            forall|k: int| 0 <= k < i ==> words@[k] == #[trigger] words_of(bytes@)[k],
        decreases count - i,
    {
        let b0: u32 = bytes[4 * i] as u32;
        let b1: u32 = bytes[4 * i + 1] as u32;
        let b2: u32 = bytes[4 * i + 2] as u32;
        let b3: u32 = bytes[4 * i + 3] as u32;
        words.push(b0 + 256 * b1 + 65536 * b2 + 16777216 * b3);
        i += 1;
    }
    assert(words@ =~= words_of(bytes@));
    Some(words)
}

impl ShaderBinary {
    /// Frames a binary that is held as bytes. A byte count that is no
    /// multiple of four cannot be a program: no shader module can be made
    /// of it.
    pub fn from_bytes(bytes: &Vec<u8>) -> (made: Result<ShaderBinary, StageError>)
        ensures
            is_binary(made, binary_of(bytes@)),
    {
        match pack_words(bytes) {
            Some(words) => Ok(ShaderBinary { words }),
            None => Err(
                StageError::ResourceCreationError { resource: StageResource::ShaderModule },
            ),
        }
    }
}

/// Where a stage's program comes from.
#[derive(Debug)]
pub enum ShaderSource {
    /// Source text in the file at `path`, to be compiled when the stage is built.
    Text { path: String },
    /// A binary compiled beforehand.
    Binary { bytes: Vec<u8> },
}

impl ShaderSource {
    /// The file whose text has to be compiled before the source can be
    /// resolved; `None` for a binary, which needs no compiler.
    pub fn path_to_compile(&self) -> (path: Option<&String>)
        ensures
            match *self {
                ShaderSource::Text { path: p } => path == Some(&p),
                ShaderSource::Binary { .. } => path is None,
            },
    {
        match self {
            ShaderSource::Text { path } => Some(path),
            ShaderSource::Binary { .. } => None,
        }
    }

    /// Resolves the source to the binary that the builder takes. `compiled`
    /// is what the compiler made of the text, `None` where it reported
    /// errors; for a source that is a binary already it is not looked at.
    pub fn resolve(self, compiled: Option<Vec<u8>>) -> (made: Result<ShaderBinary, StageError>)
        ensures
            is_binary(made, resolve_spec(self, compiled)),
    {
        match self {
            ShaderSource::Binary { bytes } => ShaderBinary::from_bytes(&bytes),
            ShaderSource::Text { .. } => match compiled {
                Some(bytes) => ShaderBinary::from_bytes(&bytes),
                None => Err(StageError::ShaderCompileError),
            },
        }
    }
}

/// What resolving `source` gives when the compiler's answer is `compiled`.
pub open spec fn resolve_spec(source: ShaderSource, compiled: Option<Vec<u8>>) -> Result<
    Seq<u32>,
    StageError,
> {
    match source {
        ShaderSource::Binary { bytes } => binary_of(bytes@),
        ShaderSource::Text { .. } => match compiled {
            Some(bytes) => binary_of(bytes@),
            None => Err(StageError::ShaderCompileError),
        },
    }
}

} // verus!
