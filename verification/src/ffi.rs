//! Types exchanged with foreign code and with the front end's JSON messages.
use vstd::prelude::*;

verus! {

/// How the bytes of a string handed to foreign code are to be read.
#[derive(Clone, Copy, Debug)]
pub enum ffiDataType {
    UTF8_STRING,
    ASCII_STRING,
    U8_BYTES,
}

impl Default for ffiDataType {
    fn default() -> (d: ffiDataType)
        ensures
            d == ffiDataType::UTF8_STRING,
    {
        ffiDataType::UTF8_STRING
    }
}

/// The operation a JSON command asks for.
#[derive(Clone, Copy, Debug, PartialEq, Eq, Structural, Hash)]
pub enum opCode {
    INIT,
    DEINIT,
    CFG,
    STATUS,
    EXIT,
}

impl Default for opCode {
    fn default() -> (o: opCode)
        ensures
            o == opCode::DEINIT,
    {
        opCode::DEINIT
    }
}

/// Whether a JSON message is a command or an event.
#[derive(Clone, Copy, Debug, PartialEq, Eq, Structural)]
pub enum msgType {
    CMD,
    EVENT,
}

impl Default for msgType {
    fn default() -> (m: msgType)
        ensures
            m == msgType::EVENT,
    {
        msgType::EVENT
    }
}

/// A block of data handed to foreign code.
#[derive(Clone, Copy, Debug)]
pub struct voidData {
    pub data: [u32; 10],
    pub number: u32,
}

} // verus!
