//! What the results of the native initiator calls mean.
//!
//! The native calls themselves are made by the caller; the functions here
//! prepare what those calls take and turn what they return into values:
//! a count or status that is negative is an error classified by its code.

use crate::bits::{bits_from_bytes, bits_len, bits_of, bits_to_bytes, pack_bits, parity_bytes, parity_track, unpack_bits};
use crate::device::{TargetAndCount, TargetResultEnum};
use crate::error::{NfcError, NfcResult, status_error};
use crate::layout::{zero_buffer, zeros};
use crate::target::{RawTarget, Target};
use bit_vec::BitVec;
use vstd::prelude::*;

verus! {

/// The result of a call that searches for one target (polling, passive
/// selection, DEP selection), given the count it returned and the record it
/// filled: no target for zero, an error for a negative count, and the
/// decoded record otherwise.
pub fn target_reply(count: i32, raw: &RawTarget) -> (r: NfcResult<TargetResultEnum>)
    requires
        count > 0 ==> raw@.wf(),
    ensures
        count == 0 ==> r matches Ok(TargetResultEnum::Empty),
        count < 0 ==> r == Err::<TargetResultEnum, NfcError>(status_error(count)),
        count > 0 ==> (r matches Ok(TargetResultEnum::Found(f)) && f.count == count
            && raw@.decodes_to(f.target)),
{
    if count == 0 {
        Ok(TargetResultEnum::Empty)
    } else if count < 0 {
        Err(NfcError::from_status(count))
    } else {
        Ok(TargetResultEnum::Found(TargetAndCount { count, target: Target::decode(raw) }))
    }
}

/// The targets that a passive listing found, given the count it returned
/// and the records it filled: the first `count` records, never more; an
/// error for a negative count.
pub fn target_list_reply(count: i32, raws: &[RawTarget]) -> (r: NfcResult<Vec<Target>>)
    requires
        count >= 0 ==> count <= raws@.len(),
        count >= 0 ==> forall|i: int| 0 <= i < count ==> (#[trigger] raws@[i])@.wf(),
    ensures
        count < 0 ==> r == Err::<Vec<Target>, NfcError>(status_error(count)),
        count >= 0 ==> (r matches Ok(v) && v@.len() == count && forall|i: int|
            0 <= i < count ==> (#[trigger] raws@[i])@.decodes_to(v@[i])),
{
    if count < 0 {
        return Err(NfcError::from_status(count));
    }
    let n = count as usize;
    let mut targets: Vec<Target> = Vec::new();
    let mut i: usize = 0;
    while i < n
        invariant
            n == count,
            n <= raws@.len(),
            forall|k: int| 0 <= k < n ==> (#[trigger] raws@[k])@.wf(),
            i <= n,
            targets@.len() == i,
            forall|k: int| 0 <= k < i ==> (#[trigger] raws@[k])@.decodes_to(targets@[k]),
        decreases n - i,
    {
        targets.push(Target::decode(&raws[i]));
        i = i + 1;
    }
    Ok(targets)
}

/// The result of a byte exchange, given what the native call returned and
/// the receive buffer it filled: the buffer, or an error for a negative
/// result.
pub fn bytes_reply(res: i32, received: Vec<u8>) -> (r: NfcResult<Vec<u8>>)
    ensures
        res < 0 ==> r == Err::<Vec<u8>, NfcError>(status_error(res)),
        res >= 0 ==> (r matches Ok(v) && v@ == received@),
{
    if res < 0 {
        Err(NfcError::from_status(res))
    } else {
        Ok(received)
    }
}

/// The receive buffer of a byte exchange: `receive_size` zero bytes.
pub fn receive_buffer(receive_size: usize) -> (r: Vec<u8>)
    ensures
        r@ == zeros(receive_size as nat),
{
    zero_buffer(receive_size)
}

/// What a bit exchange hands to the native layer.
pub struct BitFrame {
    /// The bits to send, packed most significant first.
    pub send: Vec<u8>,
    /// How many bits to send.
    pub send_bit_count: usize,
    /// The parity bits to send, one byte per bit.
    pub send_parity: Vec<u8>,
    /// Buffer for the bits received.
    pub receive: Vec<u8>,
    /// Buffer for the parity bits received.
    pub receive_parity: Vec<u8>,
}

impl BitFrame {
    /// The frame for sending `send` with `parity_bits` and receiving up to
    /// `receive_bits` bits.
    pub fn new(send: &BitVec, parity_bits: &BitVec, receive_bits: usize) -> (r: BitFrame)
        ensures
            r.send@ == pack_bits(bits_of(*send)),
            r.send_bit_count == bits_of(*send).len(),
            r.send_parity@ == parity_track(bits_of(*parity_bits)),
            r.receive@ == zeros(receive_bits as nat),
            r.receive_parity@ == zeros((receive_bits / 8) as nat),
    {
        BitFrame {
            send: bits_to_bytes(send),
            send_bit_count: bits_len(send),
            send_parity: parity_bytes(parity_bits),
            receive: zero_buffer(receive_bits),
            receive_parity: zero_buffer(receive_bits / 8),
        }
    }
}

/// The result of a bit exchange, given what the native call returned and the
/// two receive buffers it filled: the received bits and parity bits, or an
/// error for a negative result.
pub fn bits_reply(res: i32, received: &[u8], parity: &[u8]) -> (r: NfcResult<(BitVec, BitVec)>)
    requires
        received@.len() * 8 <= usize::MAX,
        parity@.len() * 8 <= usize::MAX,
    ensures
        res < 0 ==> r == Err::<(BitVec, BitVec), NfcError>(status_error(res)),
        res >= 0 ==> (r matches Ok(p) && bits_of(p.0) == unpack_bits(received@) && bits_of(p.1)
            == unpack_bits(parity@)),
{
    if res < 0 {
        Err(NfcError::from_status(res))
    } else {
        Ok((bits_from_bytes(received), bits_from_bytes(parity)))
    }
}

/// The result of a call that returns a plain status, such as setting a
/// property: success for zero, an error for anything else.
pub fn status_reply(status: i32) -> (r: NfcResult<()>)
    ensures
        status == 0 ==> r is Ok,
        status != 0 ==> r == Err::<(), NfcError>(status_error(status)),
{
    if status == 0 {
        Ok(())
    } else {
        Err(NfcError::from_status(status))
    }
}

/// The result of deselecting the target: success for a non-negative
/// result, an error for a negative one.
pub fn deselect_reply(res: i32) -> (r: NfcResult<()>)
    ensures
        res >= 0 ==> r is Ok,
        res < 0 ==> r == Err::<(), NfcError>(status_error(res)),
{
    if res >= 0 {
        Ok(())
    } else {
        Err(NfcError::from_status(res))
    }
}

/// Whether a presence check found the target: the native call returned zero.
pub fn presence_reply(status: i32) -> (r: bool)
    ensures
        r == (status == 0),
{
    status == 0
}

} // verus!
