//! The wire codec for the bridge protocol.
//!
//! Every message on the transport is a one-byte discriminant followed by a
//! payload whose length is fixed by the discriminant — except for the LED
//! updates, which carry an explicit one-byte length prefix.  Multi-byte
//! integers are little-endian.  The codec is pure: encoding is a total
//! function of the message, decoding never reads past the declared length
//! and rejects truncated input.

use vstd::prelude::*;

verus! {

/// Discriminant of a JVS input poll request.
pub const TAG_JVS_POLL: u8 = 0x01;

/// Discriminant of a JVS input poll response.
pub const TAG_JVS_POLL_RESPONSE: u8 = 0x02;

/// Discriminant of a coin counter read request.
pub const TAG_COIN_COUNTER_READ: u8 = 0x03;

/// Discriminant of a coin counter read response.
pub const TAG_COIN_COUNTER_READ_RESPONSE: u8 = 0x04;

/// Discriminant of a sender-initiated slider pressure push.
pub const TAG_SLIDER_INPUT: u8 = 0x05;

/// Discriminant of a slider LED update.
pub const TAG_SLIDER_LED_UPDATE: u8 = 0x06;

/// Discriminant of an LED board update.
pub const TAG_LED_UPDATE: u8 = 0x07;

/// Discriminant of a keepalive ping.
pub const TAG_PING: u8 = 0x08;

/// Discriminant of a keepalive pong.
pub const TAG_PONG: u8 = 0x09;

/// Discriminant of a slider state read request.
pub const TAG_SLIDER_STATE_READ: u8 = 0x0A;

/// Discriminant of a slider state read response.
pub const TAG_SLIDER_STATE_READ_RESPONSE: u8 = 0x0B;

/// Discriminant of a combined full-state read request.
pub const TAG_JVS_FULL_STATE_READ: u8 = 0x0C;

/// Discriminant of a combined full-state read response.
pub const TAG_JVS_FULL_STATE_READ_RESPONSE: u8 = 0x0D;

/// Number of pressure bytes in a slider snapshot, one per sensor zone.
pub const PRESSURE_LEN: usize = 32;

/// Why a byte buffer failed to decode.
#[derive(Debug, Clone, Copy, PartialEq, Eq, Structural)]
pub enum DecodeError {
    /// The input held no bytes at all.
    Empty,
    /// A declared field could not be fully read.
    Truncated,
    /// The leading byte is not a known discriminant.
    UnknownDiscriminant(u8),
}

/// A protocol message exchanged with the backend.
#[derive(Debug, Clone, PartialEq)]
pub enum ChuniMessage {
    /// JVS input poll request.
    JvsPoll,
    /// JVS input poll response: operator button bits and IR beam bits.
    JvsPollResponse { opbtn: u8, beams: u8 },
    /// Coin counter read request.
    CoinCounterRead,
    /// Coin counter read response.
    CoinCounterReadResponse { count: u16 },
    /// Slider pressure input data, one byte per sensor zone.
    SliderInput { pressure: Vec<u8> },
    /// Slider state read request.
    SliderStateRead,
    /// Slider state read response.
    SliderStateReadResponse { pressure: Vec<u8> },
    /// Slider LED update carrying raw RGB data.
    SliderLedUpdate { rgb_data: Vec<u8> },
    /// LED board update: board index plus raw RGB data.
    LedUpdate { board: u8, rgb_data: Vec<u8> },
    /// Keepalive ping.
    Ping,
    /// Keepalive pong.
    Pong,
    /// Combined full-state read request.
    JvsFullStateRead,
    /// Combined full-state read response.
    JvsFullStateReadResponse { opbtn: u8, beams: u8, pressure: Vec<u8>, coin_counter: u16 },
}

/// The mathematical shape of a message: byte buffers become sequences.
pub ghost enum MsgModel {
    JvsPoll,
    JvsPollResponse { opbtn: u8, beams: u8 },
    CoinCounterRead,
    CoinCounterReadResponse { count: u16 },
    SliderInput { pressure: Seq<u8> },
    SliderStateRead,
    SliderStateReadResponse { pressure: Seq<u8> },
    SliderLedUpdate { rgb_data: Seq<u8> },
    LedUpdate { board: u8, rgb_data: Seq<u8> },
    Ping,
    Pong,
    JvsFullStateRead,
    JvsFullStateReadResponse { opbtn: u8, beams: u8, pressure: Seq<u8>, coin_counter: u16 },
}

impl View for ChuniMessage {
    type V = MsgModel;

    open spec fn view(&self) -> MsgModel {
        match self {
            ChuniMessage::JvsPoll => MsgModel::JvsPoll,
            ChuniMessage::JvsPollResponse { opbtn, beams } => MsgModel::JvsPollResponse {
                opbtn: *opbtn,
                beams: *beams,
            },
            ChuniMessage::CoinCounterRead => MsgModel::CoinCounterRead,
            ChuniMessage::CoinCounterReadResponse { count } => MsgModel::CoinCounterReadResponse {
                count: *count,
            },
            ChuniMessage::SliderInput { pressure } => MsgModel::SliderInput {
                pressure: pressure@,
            },
            ChuniMessage::SliderStateRead => MsgModel::SliderStateRead,
            ChuniMessage::SliderStateReadResponse { pressure } => MsgModel::SliderStateReadResponse {
                pressure: pressure@,
            },
            ChuniMessage::SliderLedUpdate { rgb_data } => MsgModel::SliderLedUpdate {
                rgb_data: rgb_data@,
            },
            ChuniMessage::LedUpdate { board, rgb_data } => MsgModel::LedUpdate {
                board: *board,
                rgb_data: rgb_data@,
            },
            ChuniMessage::Ping => MsgModel::Ping,
            ChuniMessage::Pong => MsgModel::Pong,
            ChuniMessage::JvsFullStateRead => MsgModel::JvsFullStateRead,
            ChuniMessage::JvsFullStateReadResponse { opbtn, beams, pressure, coin_counter } => {
                MsgModel::JvsFullStateReadResponse {
                    opbtn: *opbtn,
                    beams: *beams,
                    pressure: pressure@,
                    coin_counter: *coin_counter,
                }
            },
        }
    }
}

impl MsgModel {
    /// A message is constructible when every pressure snapshot holds exactly
    /// one byte per sensor zone and RGB payloads fit the one-byte length
    /// prefix.
    pub open spec fn wf(self) -> bool {
        match self {
            MsgModel::SliderInput { pressure } => pressure.len() == PRESSURE_LEN,
            MsgModel::SliderStateReadResponse { pressure } => pressure.len() == PRESSURE_LEN,
            MsgModel::SliderLedUpdate { rgb_data } => rgb_data.len() <= 255,
            MsgModel::LedUpdate { rgb_data, .. } => rgb_data.len() <= 255,
            MsgModel::JvsFullStateReadResponse { pressure, .. } => pressure.len() == PRESSURE_LEN,
            _ => true,
        }
    }
}

/// The two little-endian bytes of a 16-bit value, low byte first.
pub open spec fn spec_u16_le(v: u16) -> Seq<u8> {
    seq![(v & 0xff) as u8, (v >> 8) as u8]
}

/// The 16-bit value read from two little-endian bytes.
pub open spec fn spec_u16_of_le(lo: u8, hi: u8) -> u16 {
    (lo as u16) | ((hi as u16) << 8)
}

/// The encoded form of a message: its discriminant followed by its payload.
pub open spec fn spec_encode(m: MsgModel) -> Seq<u8> {
    match m {
        MsgModel::JvsPoll => seq![TAG_JVS_POLL],
        MsgModel::JvsPollResponse { opbtn, beams } => seq![TAG_JVS_POLL_RESPONSE, opbtn, beams],
        MsgModel::CoinCounterRead => seq![TAG_COIN_COUNTER_READ],
        MsgModel::CoinCounterReadResponse { count } => seq![TAG_COIN_COUNTER_READ_RESPONSE]
            + spec_u16_le(count),
        MsgModel::SliderInput { pressure } => seq![TAG_SLIDER_INPUT] + pressure,
        MsgModel::SliderStateRead => seq![TAG_SLIDER_STATE_READ],
        MsgModel::SliderStateReadResponse { pressure } => seq![TAG_SLIDER_STATE_READ_RESPONSE]
            + pressure,
        MsgModel::SliderLedUpdate { rgb_data } => seq![TAG_SLIDER_LED_UPDATE, rgb_data.len() as u8]
            + rgb_data,
        MsgModel::LedUpdate { board, rgb_data } => seq![TAG_LED_UPDATE, board, rgb_data.len() as u8]
            + rgb_data,
        MsgModel::Ping => seq![TAG_PING],
        MsgModel::Pong => seq![TAG_PONG],
        MsgModel::JvsFullStateRead => seq![TAG_JVS_FULL_STATE_READ],
        MsgModel::JvsFullStateReadResponse { opbtn, beams, pressure, coin_counter } => {
            seq![TAG_JVS_FULL_STATE_READ_RESPONSE, opbtn, beams] + pressure
                + spec_u16_le(coin_counter)
        },
    }
}

/// The message read from a byte buffer, or the exact reason it is rejected:
/// `Empty` for a zero-length buffer, `UnknownDiscriminant` for an
/// unrecognized leading byte, `Truncated` when a declared field cannot be
/// fully read.  Bytes past the declared length are ignored.
pub open spec fn spec_decode(b: Seq<u8>) -> Result<MsgModel, DecodeError> {
    if b.len() == 0 {
        Err(DecodeError::Empty)
    } else {
        let tag = b[0];
        if tag == TAG_JVS_POLL {
            Ok(MsgModel::JvsPoll)
        } else if tag == TAG_JVS_POLL_RESPONSE {
            if b.len() >= 3 {
                Ok(MsgModel::JvsPollResponse { opbtn: b[1], beams: b[2] })
            } else {
                Err(DecodeError::Truncated)
            }
        } else if tag == TAG_COIN_COUNTER_READ {
            Ok(MsgModel::CoinCounterRead)
        } else if tag == TAG_COIN_COUNTER_READ_RESPONSE {
            if b.len() >= 3 {
                Ok(MsgModel::CoinCounterReadResponse { count: spec_u16_of_le(b[1], b[2]) })
            } else {
                Err(DecodeError::Truncated)
            }
        } else if tag == TAG_SLIDER_INPUT {
            if b.len() >= 33 {
                Ok(MsgModel::SliderInput { pressure: b.subrange(1, 33) })
            } else {
                Err(DecodeError::Truncated)
            }
        } else if tag == TAG_SLIDER_LED_UPDATE {
            if b.len() >= 2 && b.len() >= 2 + b[1] {
                Ok(MsgModel::SliderLedUpdate { rgb_data: b.subrange(2, 2 + b[1]) })
            } else {
                Err(DecodeError::Truncated)
            }
        } else if tag == TAG_LED_UPDATE {
            if b.len() >= 3 && b.len() >= 3 + b[2] {
                Ok(MsgModel::LedUpdate { board: b[1], rgb_data: b.subrange(3, 3 + b[2]) })
            } else {
                Err(DecodeError::Truncated)
            }
        } else if tag == TAG_PING {
            Ok(MsgModel::Ping)
        } else if tag == TAG_PONG {
            Ok(MsgModel::Pong)
        } else if tag == TAG_SLIDER_STATE_READ {
            Ok(MsgModel::SliderStateRead)
        } else if tag == TAG_SLIDER_STATE_READ_RESPONSE {
            if b.len() >= 33 {
                Ok(MsgModel::SliderStateReadResponse { pressure: b.subrange(1, 33) })
            } else {
                Err(DecodeError::Truncated)
            }
        } else if tag == TAG_JVS_FULL_STATE_READ {
            Ok(MsgModel::JvsFullStateRead)
        } else if tag == TAG_JVS_FULL_STATE_READ_RESPONSE {
            if b.len() >= 37 {
                Ok(MsgModel::JvsFullStateReadResponse {
                    opbtn: b[1],
                    beams: b[2],
                    pressure: b.subrange(3, 35),
                    coin_counter: spec_u16_of_le(b[35], b[36]),
                })
            } else {
                Err(DecodeError::Truncated)
            }
        } else {
            Err(DecodeError::UnknownDiscriminant(tag))
        }
    }
}

/// Appends every byte of `src` to `dst`, in order.
fn push_bytes(dst: &mut Vec<u8>, src: &Vec<u8>)
    ensures
        final(dst)@ == old(dst)@ + src@,
{
    let mut i: usize = 0;
    while i < src.len()
        invariant
            i <= src@.len(),
            dst@ == old(dst)@ + src@.subrange(0, i as int),
        decreases src@.len() - i,
    {
        dst.push(src[i]);
        proof {
            assert(old(dst)@ + src@.subrange(0, i as int) + seq![src@[i as int]] =~= old(dst)@
                + src@.subrange(0, i as int + 1));
        }
        i = i + 1;
    }
    proof {
        assert(src@.subrange(0, src@.len() as int) =~= src@);
    }
}

impl ChuniMessage {
    /// A message is constructible when its model is: pressure snapshots hold
    /// exactly one byte per sensor zone and RGB payloads fit the one-byte
    /// length prefix.
    pub open spec fn wf(&self) -> bool {
        self@.wf()
    }

    /// Decides executably whether this message is constructible.
    pub fn is_well_formed(&self) -> (b: bool)
        ensures
            b == self.wf(),
    {
        match self {
            ChuniMessage::SliderInput { pressure } => pressure.len() == PRESSURE_LEN,
            ChuniMessage::SliderStateReadResponse { pressure } => pressure.len() == PRESSURE_LEN,
            ChuniMessage::SliderLedUpdate { rgb_data } => rgb_data.len() <= 255,
            ChuniMessage::LedUpdate { rgb_data, .. } => rgb_data.len() <= 255,
            ChuniMessage::JvsFullStateReadResponse { pressure, .. } => pressure.len()
                == PRESSURE_LEN,
            _ => true,
        }
    }

    /// Encodes the message to its exact wire bytes.
    pub fn serialize(&self) -> (data: Vec<u8>)
        requires
            self.wf(),
        ensures
            data@ == spec_encode(self@),
    {
        let mut data: Vec<u8> = Vec::new();
        match self {
            ChuniMessage::JvsPoll => {
                data.push(TAG_JVS_POLL);
            },
            ChuniMessage::JvsPollResponse { opbtn, beams } => {
                data.push(TAG_JVS_POLL_RESPONSE);
                data.push(*opbtn);
                data.push(*beams);
            },
            ChuniMessage::CoinCounterRead => {
                data.push(TAG_COIN_COUNTER_READ);
            },
            ChuniMessage::CoinCounterReadResponse { count } => {
                data.push(TAG_COIN_COUNTER_READ_RESPONSE);
                data.push((*count & 0xff) as u8);
                data.push((*count >> 8) as u8);
            },
            ChuniMessage::SliderInput { pressure } => {
                data.push(TAG_SLIDER_INPUT);
                push_bytes(&mut data, pressure);
            },
            ChuniMessage::SliderStateRead => {
                data.push(TAG_SLIDER_STATE_READ);
            },
            ChuniMessage::SliderStateReadResponse { pressure } => {
                data.push(TAG_SLIDER_STATE_READ_RESPONSE);
                push_bytes(&mut data, pressure);
            },
            ChuniMessage::SliderLedUpdate { rgb_data } => {
                data.push(TAG_SLIDER_LED_UPDATE);
                data.push(rgb_data.len() as u8);
                push_bytes(&mut data, rgb_data);
            },
            ChuniMessage::LedUpdate { board, rgb_data } => {
                data.push(TAG_LED_UPDATE);
                data.push(*board);
                data.push(rgb_data.len() as u8);
                push_bytes(&mut data, rgb_data);
            },
            ChuniMessage::Ping => {
                data.push(TAG_PING);
            },
            ChuniMessage::Pong => {
                data.push(TAG_PONG);
            },
            ChuniMessage::JvsFullStateRead => {
                data.push(TAG_JVS_FULL_STATE_READ);
            },
            ChuniMessage::JvsFullStateReadResponse { opbtn, beams, pressure, coin_counter } => {
                data.push(TAG_JVS_FULL_STATE_READ_RESPONSE);
                data.push(*opbtn);
                data.push(*beams);
                push_bytes(&mut data, pressure);
                data.push((*coin_counter & 0xff) as u8);
                data.push((*coin_counter >> 8) as u8);
            },
        }
        proof {
            assert(data@ =~= spec_encode(self@));
        }
        data
    }

    /// Decodes the leading message of a byte buffer, rejecting empty,
    /// unknown-discriminant and truncated input exactly as `spec_decode`
    /// says.  Bytes past the declared length are ignored.
    pub fn deserialize(data: &[u8]) -> (r: Result<ChuniMessage, DecodeError>)
        ensures
            r matches Ok(m) ==> spec_decode(data@) == Ok::<MsgModel, DecodeError>(m@) && m.wf(),
            r matches Err(e) ==> spec_decode(data@) == Err::<MsgModel, DecodeError>(e),
    {
        if data.len() == 0 {
            return Err(DecodeError::Empty);
        }
        let tag = data[0];
        if tag == TAG_JVS_POLL {
            Ok(ChuniMessage::JvsPoll)
        } else if tag == TAG_JVS_POLL_RESPONSE {
            if data.len() >= 3 {
                Ok(ChuniMessage::JvsPollResponse { opbtn: data[1], beams: data[2] })
            } else {
                Err(DecodeError::Truncated)
            }
        } else if tag == TAG_COIN_COUNTER_READ {
            Ok(ChuniMessage::CoinCounterRead)
        } else if tag == TAG_COIN_COUNTER_READ_RESPONSE {
            if data.len() >= 3 {
                let count: u16 = (data[1] as u16) | ((data[2] as u16) << 8);
                Ok(ChuniMessage::CoinCounterReadResponse { count })
            } else {
                Err(DecodeError::Truncated)
            }
        } else if tag == TAG_SLIDER_INPUT {
            if data.len() >= 33 {
                Ok(ChuniMessage::SliderInput { pressure: copy_range(data, 1, 33) })
            } else {
                Err(DecodeError::Truncated)
            }
        } else if tag == TAG_SLIDER_LED_UPDATE {
            if data.len() >= 2 {
                let n = data[1] as usize;
                if data.len() - 2 >= n {
                    Ok(ChuniMessage::SliderLedUpdate { rgb_data: copy_range(data, 2, 2 + n) })
                } else {
                    Err(DecodeError::Truncated)
                }
            } else {
                Err(DecodeError::Truncated)
            }
        } else if tag == TAG_LED_UPDATE {
            if data.len() >= 3 {
                let n = data[2] as usize;
                if data.len() - 3 >= n {
                    Ok(ChuniMessage::LedUpdate {
                        board: data[1],
                        rgb_data: copy_range(data, 3, 3 + n),
                    })
                } else {
                    Err(DecodeError::Truncated)
                }
            } else {
                Err(DecodeError::Truncated)
            }
        } else if tag == TAG_PING {
            Ok(ChuniMessage::Ping)
        } else if tag == TAG_PONG {
            Ok(ChuniMessage::Pong)
        } else if tag == TAG_SLIDER_STATE_READ {
            Ok(ChuniMessage::SliderStateRead)
        } else if tag == TAG_SLIDER_STATE_READ_RESPONSE {
            if data.len() >= 33 {
                Ok(ChuniMessage::SliderStateReadResponse { pressure: copy_range(data, 1, 33) })
            } else {
                Err(DecodeError::Truncated)
            }
        } else if tag == TAG_JVS_FULL_STATE_READ {
            Ok(ChuniMessage::JvsFullStateRead)
        } else if tag == TAG_JVS_FULL_STATE_READ_RESPONSE {
            if data.len() >= 37 {
                let coin_counter: u16 = (data[35] as u16) | ((data[36] as u16) << 8);
                Ok(ChuniMessage::JvsFullStateReadResponse {
                    opbtn: data[1],
                    beams: data[2],
                    pressure: copy_range(data, 3, 35),
                    coin_counter,
                })
            } else {
                Err(DecodeError::Truncated)
            }
        } else {
            Err(DecodeError::UnknownDiscriminant(tag))
        }
    }
}

/// Copies the bytes of `data` between `start` and `end` into a fresh buffer.
fn copy_range(data: &[u8], start: usize, end: usize) -> (out: Vec<u8>)
    requires
        start <= end <= data@.len(),
    ensures
        out@ == data@.subrange(start as int, end as int),
{
    let mut out: Vec<u8> = Vec::new();
    let mut i: usize = start;
    while i < end
        invariant
            start <= i <= end <= data@.len(),
            out@ == data@.subrange(start as int, i as int),
        decreases end - i,
    {
        out.push(data[i]);
        proof {
            assert(data@.subrange(start as int, i as int) + seq![data@[i as int]] =~= data@.subrange(
                start as int,
                i as int + 1,
            ));
        }
        i = i + 1;
    }
    out
}

/// Round trip: decoding the encoding of any constructible message yields
/// that message back unchanged.
pub proof fn lemma_round_trip(m: MsgModel)
    requires
        m.wf(),
    ensures
        spec_decode(spec_encode(m)) == Ok::<MsgModel, DecodeError>(m),
{
    let e = spec_encode(m);
    match m {
        MsgModel::CoinCounterReadResponse { count } => {
            lemma_u16_le_round_trip(count);
        },
        MsgModel::SliderInput { pressure } => {
            assert(e.subrange(1, 33) =~= pressure);
        },
        MsgModel::SliderStateReadResponse { pressure } => {
            assert(e.subrange(1, 33) =~= pressure);
        },
        MsgModel::SliderLedUpdate { rgb_data } => {
            assert(e[1] == rgb_data.len() as u8);
            assert(e.subrange(2, 2 + e[1]) =~= rgb_data);
        },
        MsgModel::LedUpdate { board, rgb_data } => {
            assert(e[2] == rgb_data.len() as u8);
            assert(e.subrange(3, 3 + e[2]) =~= rgb_data);
        },
        MsgModel::JvsFullStateReadResponse { opbtn, beams, pressure, coin_counter } => {
            assert(e.subrange(3, 35) =~= pressure);
            assert(e[35] == (coin_counter & 0xff) as u8);
            assert(e[36] == (coin_counter >> 8) as u8);
            lemma_u16_le_round_trip(coin_counter);
        },
        _ => {},
    }
}

/// Reading back the two little-endian bytes of a 16-bit value yields the
/// value.
pub proof fn lemma_u16_le_round_trip(v: u16)
    ensures
        spec_u16_of_le((v & 0xff) as u8, (v >> 8) as u8) == v,
{
    assert((((v & 0xff) as u8) as u16) | (((((v >> 8) as u8) as u16)) << 8) == v) by (bit_vector);
}

/// Truncation is always rejected: cutting at least one byte off the end of
/// any constructible message's encoding (while keeping the discriminant)
/// decodes to `Truncated`.
pub proof fn lemma_truncated_rejected(m: MsgModel, n: int)
    requires
        m.wf(),
        1 <= n < spec_encode(m).len(),
    ensures
        spec_decode(spec_encode(m).take(n)) == Err::<MsgModel, DecodeError>(DecodeError::Truncated),
{
    let e = spec_encode(m);
    let t = e.take(n);
    assert(t[0] == e[0]);
    match m {
        MsgModel::SliderLedUpdate { rgb_data } => {
            if n >= 2 {
                assert(t[1] == e[1]);
                assert(t[1] == rgb_data.len() as u8);
                assert(t.len() < 2 + t[1]);
            }
        },
        MsgModel::LedUpdate { board, rgb_data } => {
            if n >= 3 {
                assert(t[2] == e[2]);
                assert(t[2] == rgb_data.len() as u8);
                assert(t.len() < 3 + t[2]);
            }
        },
        _ => {},
    }
}

} // verus!

