//! Plain data types shared by the manager, the serial reader and the front end.
use vstd::prelude::*;

verus! {

/// How the bytes received from a port are cut into frames.
#[derive(Clone, Copy, Debug)]
pub enum frameType {
    /// Lines of UTF-8 text separated by `\n`.
    ASCII,
    /// Consistent Overhead Byte Stuffing.
    COBS,
    /// Reserved for a user-defined framing; nothing is decoded.
    CUSTOM,
}

/// Whether a serial session is active.
#[derive(Clone, Copy, Debug, PartialEq, Eq, Structural)]
pub enum serialState {
    IDLE,
    RUNNING,
}

impl Default for serialState {
    fn default() -> (s: serialState)
        ensures
            s == serialState::IDLE,
    {
        serialState::IDLE
    }
}

impl serialState {
    /// The text shown for the state.
    pub fn to_string(&self) -> (s: String)
        ensures
            s@ == (match *self {
                serialState::IDLE => "IDLE STATE"@,
                serialState::RUNNING => "RUNNING STATE"@,
            }),
    {
        match self {
            serialState::IDLE => "IDLE STATE".to_owned(),
            serialState::RUNNING => "RUNNING STATE".to_owned(),
        }
    }
}

/// The parameters of a serial session.
#[derive(Debug)]
pub struct serialSettings {
    pub parity: u8,
    pub stop_bits: u8,
    pub port_name: String,
    pub baud_rate: u32,
    pub decoder: frameType,
}

impl Clone for serialSettings {
    fn clone(&self) -> (r: serialSettings)
        ensures
            r == *self,
    {
        serialSettings {
            parity: self.parity,
            stop_bits: self.stop_bits,
            port_name: self.port_name.clone(),
            baud_rate: self.baud_rate,
            decoder: self.decoder,
        }
    }
}

/// A command for the session manager.
#[derive(Debug)]
pub enum serialCtrl {
    /// Start again with the settings last used.
    PLAY,
    /// Stop the running session and keep its settings.
    PAUSE,
    /// Stop the running session and forget its settings.
    EXIT,
    /// Leave the manager's loop.
    EXIT_THREAD,
    /// The reader thread has ended on its own.
    SERIAL_EXIT,
    /// Start a session with these settings.
    NEW(serialSettings),
}

impl Clone for serialCtrl {
    fn clone(&self) -> (r: serialCtrl)
        ensures
            r == *self,
    {
        match self {
            serialCtrl::PLAY => serialCtrl::PLAY,
            serialCtrl::PAUSE => serialCtrl::PAUSE,
            serialCtrl::EXIT => serialCtrl::EXIT,
            serialCtrl::EXIT_THREAD => serialCtrl::EXIT_THREAD,
            serialCtrl::SERIAL_EXIT => serialCtrl::SERIAL_EXIT,
            serialCtrl::NEW(cfg) => serialCtrl::NEW(cfg.clone()),
        }
    }
}

/// Data produced by a serial session.
#[derive(Debug)]
pub enum message {
    BYTES(Vec<u8>),
    ASCII(String),
}

} // verus!
