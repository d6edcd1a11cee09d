//! The error taxonomy of a parse call.
use vstd::prelude::*;

verus! {

/// prost's decode error, carried through unopened.
#[verifier::external_type_specification]
#[verifier::external_body]
pub struct ExDecodeError(prost::DecodeError);

/// The statement holds a NUL byte, which the engine's string convention cannot carry.
#[derive(Debug)]
pub struct NulError {
    pub position: usize,
    pub bytes: Vec<u8>,
}

impl NulError {
    /// Index of the first NUL byte in the rejected statement.
    pub fn nul_position(&self) -> (r: usize)
        ensures
            r == self.position,
    {
        self.position
    }

    /// The bytes of the rejected statement.
    pub fn into_vec(self) -> (r: Vec<u8>)
        ensures
            r@ == self.bytes@,
    {
        self.bytes
    }
}

#[derive(Debug)]
pub enum Error {
    /// The statement cannot be handed to the engine.
    Conversion(NulError),
    /// The engine's structured payload does not match the parse-tree schema.
    Decode(prost::DecodeError),
    /// The engine rejected the statement; its message is carried along.
    Parse(String),
}

} // verus!
