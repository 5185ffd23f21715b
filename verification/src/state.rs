//! The shared device-state cache.
//!
//! One value of `DeviceState` holds the last-known input bits, coin count,
//! slider pressure snapshot and the three LED board buffers.  The process
//! glue keeps it behind one exclusive lock; everything the lock guards is
//! the in-memory logic verified here.  The contracts pin the two rules the
//! entry-point surface depends on: a cache refresh changes exactly the
//! fields the reply carries — a failed exchange leaves the cache untouched
//! — and an LED write of the wrong shape is rejected with no mutation.
//! The non-blocking fast path is the `*_or_default` pair: the glue hands
//! them the state only when it won the lock without waiting, and they
//! answer with the defined zero values otherwise.

use vstd::prelude::*;

use crate::protocol::{ChuniMessage, PRESSURE_LEN};

verus! {

/// Byte length of the billboard-left LED board buffer.
pub const LED_BOARD_0_LEN: usize = 159;

/// Byte length of the billboard-right LED board buffer.
pub const LED_BOARD_1_LEN: usize = 189;

/// Byte length of the slider LED board buffer.
pub const LED_BOARD_2_LEN: usize = 93;

/// Number of LED boards.
pub const LED_BOARD_COUNT: u8 = 3;

/// An LED write that was refused: the board index or the buffer length did
/// not match, and the stored state was left unchanged.
#[derive(Debug, Clone, Copy, PartialEq, Eq, Structural)]
pub struct RejectedError;

/// A sequence of `n` zero bytes.
pub open spec fn zero_seq(n: int) -> Seq<u8> {
    Seq::new(n as nat, |i: int| 0u8)
}

/// The fixed byte length of an LED board's buffer.
pub open spec fn spec_board_len(board: u8) -> int
    recommends
        board < LED_BOARD_COUNT,
{
    if board == 0 {
        LED_BOARD_0_LEN as int
    } else if board == 1 {
        LED_BOARD_1_LEN as int
    } else {
        LED_BOARD_2_LEN as int
    }
}

/// The fixed byte length of an LED board's buffer.
pub fn board_len(board: u8) -> (n: usize)
    requires
        board < LED_BOARD_COUNT,
    ensures
        n == spec_board_len(board),
{
    if board == 0 {
        LED_BOARD_0_LEN
    } else if board == 1 {
        LED_BOARD_1_LEN
    } else {
        LED_BOARD_2_LEN
    }
}

/// The cache of last-known device state.
#[derive(Debug, Clone, PartialEq)]
pub struct DeviceState {
    /// Operator button bits from the last successful poll.
    pub opbtn: u8,
    /// IR beam bits from the last successful poll.
    pub beams: u8,
    /// Coin count from the last successful counter read.
    pub coin_count: u16,
    /// Pressure snapshot from the last successful slider read, one byte
    /// per sensor zone.
    pub slider_pressure: Vec<u8>,
    /// Whether the LED subsystem was initialized.
    pub led_initialized: bool,
    /// Billboard-left LED buffer.
    pub led_board_0: Vec<u8>,
    /// Billboard-right LED buffer.
    pub led_board_1: Vec<u8>,
    /// Slider LED buffer.
    pub led_board_2: Vec<u8>,
}

impl DeviceState {
    /// The cache invariant: the pressure snapshot always holds one byte
    /// per sensor zone, and once the LED subsystem is initialized every
    /// board buffer keeps its fixed size — before that they are empty.
    pub open spec fn wf(self) -> bool {
        &&& self.slider_pressure@.len() == PRESSURE_LEN
        &&& (self.led_initialized ==> {
            &&& self.led_board_0@.len() == LED_BOARD_0_LEN
            &&& self.led_board_1@.len() == LED_BOARD_1_LEN
            &&& self.led_board_2@.len() == LED_BOARD_2_LEN
        })
        &&& (!self.led_initialized ==> {
            &&& self.led_board_0@.len() == 0
            &&& self.led_board_1@.len() == 0
            &&& self.led_board_2@.len() == 0
        })
    }

    /// The stored buffer of one LED board.
    pub open spec fn spec_board(self, board: u8) -> Seq<u8>
        recommends
            board < LED_BOARD_COUNT,
    {
        if board == 0 {
            self.led_board_0@
        } else if board == 1 {
            self.led_board_1@
        } else {
            self.led_board_2@
        }
    }

    /// The fresh cache: all inputs zero, LED subsystem not yet initialized.
    pub fn new() -> (s: DeviceState)
        ensures
            s.wf(),
            s.opbtn == 0,
            s.beams == 0,
            s.coin_count == 0,
            s.slider_pressure@ == zero_seq(PRESSURE_LEN as int),
            !s.led_initialized,
    {
        DeviceState {
            opbtn: 0,
            beams: 0,
            coin_count: 0,
            slider_pressure: zero_bytes(PRESSURE_LEN),
            led_initialized: false,
            led_board_0: Vec::new(),
            led_board_1: Vec::new(),
            led_board_2: Vec::new(),
        }
    }

    /// The last-known input bits, returned without touching the transport.
    pub fn read_cached_input(&self) -> (r: (u8, u8))
        ensures
            r == (self.opbtn, self.beams),
    {
        (self.opbtn, self.beams)
    }

    /// The last-known coin count, returned without touching the transport.
    pub fn read_coin_counter(&self) -> (r: u16)
        ensures
            r == self.coin_count,
    {
        self.coin_count
    }

    /// Where a poll reply takes the cache: a poll response installs its
    /// bits, anything else leaves the cache untouched.
    pub open spec fn spec_refresh_input(self, reply: Option<ChuniMessage>) -> DeviceState {
        match reply {
            Some(ChuniMessage::JvsPollResponse { opbtn, beams }) => DeviceState {
                opbtn,
                beams,
                ..self
            },
            _ => self,
        }
    }

    /// Folds the outcome of a poll exchange into the cache and returns the
    /// now-authoritative input bits: the fresh ones on a poll response,
    /// the previously cached ones on no or any other reply.
    pub fn refresh_input(&mut self, reply: Option<ChuniMessage>) -> (r: (u8, u8))
        requires
            old(self).wf(),
        ensures
            final(self).wf(),
            *final(self) == old(self).spec_refresh_input(reply),
            r == (final(self).opbtn, final(self).beams),
    {
        match reply {
            Some(ChuniMessage::JvsPollResponse { opbtn, beams }) => {
                self.opbtn = opbtn;
                self.beams = beams;
                (opbtn, beams)
            },
            _ => (self.opbtn, self.beams),
        }
    }

    /// Where a counter reply takes the cache: a counter response installs
    /// its count, anything else leaves the cache untouched.
    pub open spec fn spec_refresh_coin(self, reply: Option<ChuniMessage>) -> DeviceState {
        match reply {
            Some(ChuniMessage::CoinCounterReadResponse { count }) => DeviceState {
                coin_count: count,
                ..self
            },
            _ => self,
        }
    }

    /// Folds the outcome of a coin-counter exchange into the cache and
    /// returns the now-authoritative count.
    pub fn refresh_coin(&mut self, reply: Option<ChuniMessage>) -> (r: u16)
        requires
            old(self).wf(),
        ensures
            final(self).wf(),
            *final(self) == old(self).spec_refresh_coin(reply),
            r == final(self).coin_count,
    {
        match reply {
            Some(ChuniMessage::CoinCounterReadResponse { count }) => {
                self.coin_count = count;
                count
            },
            _ => self.coin_count,
        }
    }

    /// Where a slider reply takes the cache: a well-formed slider state
    /// response installs its snapshot, anything else — no reply, another
    /// kind, a snapshot of the wrong size — leaves the cache untouched.
    pub open spec fn spec_slider_frame(self, reply: Option<ChuniMessage>) -> DeviceState {
        match reply {
            Some(ChuniMessage::SliderStateReadResponse { pressure }) => {
                if pressure@.len() == PRESSURE_LEN {
                    DeviceState { slider_pressure: pressure, ..self }
                } else {
                    self
                }
            },
            _ => self,
        }
    }

    /// Folds the outcome of one streaming-loop exchange into the cache and
    /// returns the snapshot owed to the registered callback: always the
    /// now-cached pressure, never garbage, whatever the reply was.
    pub fn slider_frame(&mut self, reply: Option<ChuniMessage>) -> (frame: Vec<u8>)
        requires
            old(self).wf(),
        ensures
            final(self).wf(),
            *final(self) == old(self).spec_slider_frame(reply),
            frame@ == final(self).slider_pressure@,
            frame@.len() == PRESSURE_LEN,
    {
        match reply {
            Some(ChuniMessage::SliderStateReadResponse { pressure }) => {
                if pressure.len() == PRESSURE_LEN {
                    self.slider_pressure = pressure;
                }
            },
            _ => {},
        }
        clone_bytes(&self.slider_pressure)
    }

    /// Initializes the LED subsystem: on first call the three board
    /// buffers are installed zeroed at their fixed sizes; afterwards the
    /// call is an exact no-op.
    pub fn led_init(&mut self)
        requires
            old(self).wf(),
        ensures
            final(self).wf(),
            final(self).led_initialized,
            old(self).led_initialized ==> *final(self) == *old(self),
            !old(self).led_initialized ==> {
                &&& final(self).led_board_0@ == zero_seq(LED_BOARD_0_LEN as int)
                &&& final(self).led_board_1@ == zero_seq(LED_BOARD_1_LEN as int)
                &&& final(self).led_board_2@ == zero_seq(LED_BOARD_2_LEN as int)
                &&& final(self).opbtn == old(self).opbtn
                &&& final(self).beams == old(self).beams
                &&& final(self).coin_count == old(self).coin_count
                &&& final(self).slider_pressure == old(self).slider_pressure
            },
    {
        if !self.led_initialized {
            self.led_board_0 = zero_bytes(LED_BOARD_0_LEN);
            self.led_board_1 = zero_bytes(LED_BOARD_1_LEN);
            self.led_board_2 = zero_bytes(LED_BOARD_2_LEN);
            self.led_initialized = true;
        }
    }

    /// Where an accepted LED write takes the cache: the addressed board
    /// holds the replacement buffer, everything else is untouched.
    pub open spec fn spec_write_board(self, board: u8, data: Vec<u8>) -> DeviceState
        recommends
            board < LED_BOARD_COUNT,
    {
        if board == 0 {
            DeviceState { led_board_0: data, ..self }
        } else if board == 1 {
            DeviceState { led_board_1: data, ..self }
        } else {
            DeviceState { led_board_2: data, ..self }
        }
    }

    /// Replaces one LED board's buffer.  The write is accepted exactly
    /// when the board index exists, the LED subsystem is initialized and
    /// the replacement has the board's fixed size; otherwise it is
    /// rejected with no state mutation at all.
    pub fn write_led_buffer(&mut self, board: u8, data: Vec<u8>) -> (r: Result<
        (),
        RejectedError,
    >)
        requires
            old(self).wf(),
        ensures
            final(self).wf(),
            r is Ok <==> (board < LED_BOARD_COUNT && old(self).led_initialized && data@.len()
                == spec_board_len(board)),
            r is Ok ==> *final(self) == old(self).spec_write_board(board, data),
            r is Err ==> *final(self) == *old(self),
    {
        if board >= LED_BOARD_COUNT || !self.led_initialized {
            return Err(RejectedError);
        }
        if data.len() != board_len(board) {
            return Err(RejectedError);
        }
        if board == 0 {
            self.led_board_0 = data;
        } else if board == 1 {
            self.led_board_1 = data;
        } else {
            self.led_board_2 = data;
        }
        Ok(())
    }

    /// A copy of one LED board's stored buffer.
    pub fn read_led_buffer(&self, board: u8) -> (r: Vec<u8>)
        requires
            board < LED_BOARD_COUNT,
        ensures
            r@ == self.spec_board(board),
    {
        if board == 0 {
            clone_bytes(&self.led_board_0)
        } else if board == 1 {
            clone_bytes(&self.led_board_1)
        } else {
            clone_bytes(&self.led_board_2)
        }
    }
}

/// The non-blocking input read: the glue passes the cache only when it
/// acquired the lock without waiting, and the defined zero default is
/// answered otherwise — the caller's real-time thread never blocks.
pub fn cached_input_or_default(state: Option<&DeviceState>) -> (r: (u8, u8))
    ensures
        state matches Some(s) ==> r == (s.opbtn, s.beams),
        state is None ==> r == (0u8, 0u8),
{
    match state {
        Some(s) => s.read_cached_input(),
        None => (0, 0),
    }
}

/// The non-blocking coin read: as `cached_input_or_default`, with zero as
/// the contended default.
pub fn cached_coins_or_default(state: Option<&DeviceState>) -> (r: u16)
    ensures
        state matches Some(s) ==> r == s.coin_count,
        state is None ==> r == 0,
{
    match state {
        Some(s) => s.read_coin_counter(),
        None => 0,
    }
}

/// A fresh buffer of `n` zero bytes.
fn zero_bytes(n: usize) -> (v: Vec<u8>)
    ensures
        v@ == zero_seq(n as int),
{
    let mut v: Vec<u8> = Vec::new();
    let mut i: usize = 0;
    while i < n
        invariant
            i <= n,
            v@ =~= zero_seq(i as int),
        decreases n - i,
    {
        v.push(0);
        i = i + 1;
    }
    proof {
        assert(v@ =~= zero_seq(n as int));
    }
    v
}

/// A fresh copy of a byte buffer.
fn clone_bytes(src: &Vec<u8>) -> (out: Vec<u8>)
    ensures
        out@ == src@,
{
    let mut out: Vec<u8> = Vec::new();
    let mut i: usize = 0;
    while i < src.len()
        invariant
            i <= src@.len(),
            out@ == src@.subrange(0, i as int),
        decreases src@.len() - i,
    {
        out.push(src[i]);
        proof {
            assert(src@.subrange(0, i as int) + seq![src@[i as int]] =~= src@.subrange(
                0,
                i as int + 1,
            ));
        }
        i = i + 1;
    }
    proof {
        assert(src@.subrange(0, src@.len() as int) =~= src@);
    }
    out
}

} // verus!
