//! Servo command words and the message that carries them to the
//! microcontroller.

pub mod movement;

use crate::communication::MESSAGE_LEN;
use vstd::prelude::*;

verus! {

/// Longest pulse, in microseconds, that a servo is driven with.
pub const MAX_SERVO: u16 = 2400;

/// Shortest pulse, in microseconds, that a servo is driven with.
pub const MIN_SERVO: u16 = 250;

/// One pulse width per servo of the arm.
#[derive(Debug, Copy, Clone)]
pub struct Servos {
    pub base: u16,
    pub shoulder: u16,
    pub elbow: u16,
    pub claw: u16,
}

/// The two bytes of a 16-bit word, least significant first.
pub open spec fn le_bytes(word: u16) -> Seq<u8> {
    seq![(word % 256) as u8, (word / 256) as u8]
}

/// The word whose little-endian bytes are `low` and `high`.
pub open spec fn le_word(low: u8, high: u8) -> int {
    low + 256 * high
}

impl Servos {
    /// The command on the wire: the four words in the order base, shoulder,
    /// elbow, claw, each as two little-endian bytes.
    pub open spec fn message(self) -> Seq<u8> {
        le_bytes(self.base) + le_bytes(self.shoulder) + le_bytes(self.elbow) + le_bytes(self.claw)
    }

    /// Encodes the command for transmission.
    pub fn to_message(&self) -> (message: Vec<u8>)
        ensures
            message@ == self.message(),
            message@.len() == MESSAGE_LEN,
    {
        let mut message: Vec<u8> = Vec::new();
        message.push((self.base % 256) as u8);
        message.push((self.base / 256) as u8);
        message.push((self.shoulder % 256) as u8);
        message.push((self.shoulder / 256) as u8);
        message.push((self.elbow % 256) as u8);
        message.push((self.elbow / 256) as u8);
        message.push((self.claw % 256) as u8);
        message.push((self.claw / 256) as u8);
        message
    }
}

/// Each byte pair of an encoded command gives its word back, so the encoding
/// loses nothing: commands with the same message are the same command.
pub proof fn lemma_message_decodes(servos: Servos)
    ensures
        servos.message().len() == MESSAGE_LEN,
        le_word(servos.message()[0], servos.message()[1]) == servos.base,
        le_word(servos.message()[2], servos.message()[3]) == servos.shoulder,
        le_word(servos.message()[4], servos.message()[5]) == servos.elbow,
        le_word(servos.message()[6], servos.message()[7]) == servos.claw,
{
}

/// Two commands that encode to the same bytes are equal.
pub proof fn lemma_message_injective(a: Servos, b: Servos)
    requires
        a.message() == b.message(),
    ensures
        a == b,
{
    lemma_message_decodes(a);
    lemma_message_decodes(b);
}

} // verus!
