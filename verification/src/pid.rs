//! The PID coefficient registers of the SM40BL and STS3025BL servos.
//!
//! The three coefficients are consecutive one-byte registers: P at 21, D at
//! 22 and I at 23. Gains travel as `u16` values; only their low byte reaches
//! the register.
use vstd::prelude::*;
use crate::error::MotorError;

verus! {

/// Address of the P coefficient, the first of the three registers.
pub const PID_GAIN_ADDR: u8 = 21;

/// Number of bytes the three coefficients take.
pub const PID_GAIN_LEN: u8 = 3;

/// Register bytes for the gains, in register order: P, D, I.
pub open spec fn pid_register_bytes(p_gain: u16, i_gain: u16, d_gain: u16) -> Seq<u8> {
    seq![(p_gain % 256) as u8, (d_gain % 256) as u8, (i_gain % 256) as u8]
}

/// The gains `(P, I, D)` that three register bytes P, D, I hold.
pub open spec fn pid_gains_of(bytes: Seq<u8>) -> (u16, u16, u16) {
    (bytes[0] as u16, bytes[2] as u16, bytes[1] as u16)
}

fn low_byte(x: u16) -> (b: u8)
    ensures
        b == x % 256,
{
    (x % 256) as u8
}

/// Bytes to write at `PID_GAIN_ADDR` to set the gains: the low byte of P,
/// of D, then of I.
pub fn encode_pid_gains(p_gain: u16, i_gain: u16, d_gain: u16) -> (data: Vec<u8>)
    ensures
        data@ == pid_register_bytes(p_gain, i_gain, d_gain),
{
    let mut data: Vec<u8> = Vec::new();
    data.push(low_byte(p_gain));
    data.push(low_byte(d_gain));
    data.push(low_byte(i_gain));
    assert(data@ =~= pid_register_bytes(p_gain, i_gain, d_gain));
    data
}

/// The gains `(P, I, D)` read back from the three registers; a reply of any
/// other length is a communication error.
pub fn decode_pid_gains(data: &[u8]) -> (gains: Result<(u16, u16, u16), MotorError>)
    ensures
        data@.len() == 3 ==> gains == Ok::<(u16, u16, u16), MotorError>(pid_gains_of(data@)),
        data@.len() != 3 ==> gains matches Err(MotorError::CommunicationError()),
{
    if data.len() != 3 {
        return Err(MotorError::CommunicationError());
    }
    let p_gain = data[0] as u16;
    let d_gain = data[1] as u16;
    let i_gain = data[2] as u16;
    Ok((p_gain, i_gain, d_gain))
}

/// Reading back what was written gives the low bytes of the gains written.
pub proof fn lemma_pid_round_trip(p_gain: u16, i_gain: u16, d_gain: u16)
    ensures
        pid_register_bytes(p_gain, i_gain, d_gain).len() == 3,
        pid_gains_of(pid_register_bytes(p_gain, i_gain, d_gain)) == (
            (p_gain % 256) as u16,
            (i_gain % 256) as u16,
            (d_gain % 256) as u16,
        ),
{
}

/// Writing back what was read leaves the three registers as they were.
pub proof fn lemma_pid_register_round_trip(bytes: Seq<u8>)
    requires
        bytes.len() == 3,
    ensures
        ({
            let (p, i, d) = pid_gains_of(bytes);
            pid_register_bytes(p, i, d) == bytes
        }),
{
    let (p, i, d) = pid_gains_of(bytes);
    assert(pid_register_bytes(p, i, d) =~= bytes);
}

} // verus!
