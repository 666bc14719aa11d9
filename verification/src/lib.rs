//! Driver core for a two-wire-controlled audio codec device, together with a
//! parser for the chunked container format its sample data arrives in.
//!
//! The driver encodes 9-bit control registers into the 2-byte frames the
//! control bus expects, applies a fixed initialization sequence over an
//! injected write channel, and forwards sample buffers to an injected
//! streaming channel.  The parser walks a RIFF/WAVE header once, left to
//! right, and computes the byte offset where the raw sample payload begins.

use vstd::prelude::*;

pub mod register;
pub mod wave_header;

use crate::register::{spec_frame, Register};

verus! {

/// A failure of the underlying control-bus write channel.
#[derive(Debug, Copy, Clone, PartialEq, Eq, Structural)]
pub enum BusError {
    Nack,
    ArbitrationLost,
    Timeout,
}

/// A failure of the underlying sample-streaming channel.
#[derive(Debug, Copy, Clone, PartialEq, Eq, Structural)]
pub enum StreamError {
    Overrun,
    Underrun,
}

/// Every way an operation of this crate can fail.
#[derive(Debug, Copy, Clone, PartialEq, Eq, Structural)]
pub enum Error {
    /// The control-bus write channel failed; not retried.
    Bus(BusError),
    /// The streaming channel failed; not retried.
    Stream(StreamError),
    /// An expected literal tag did not match at the given input position.
    MalformedContainer(usize),
    /// The container's audio-format code is not the supported one.
    UnsupportedFormat,
}

/// The fixed 7-bit bus address the device answers on.
pub const DEVICE_ADDRESS: u8 = 0x1A;

/// A byte-oriented write channel to a device on the control bus.  The
/// injected hardware handle implements this; `history` is its abstraction,
/// the frames the channel has accepted so far.
pub trait ControlBus {
    /// The (device address, frame) pairs the channel has accepted, in order.
    /// An implementation gives this its own meaning by overriding it; the
    /// default says nothing.
    open spec fn history(&self) -> Seq<(u8, (u8, u8))> {
        arbitrary()
    }

    /// Send one 2-byte frame to the device at `address`, blocking until the
    /// bus accepts or refuses it.  A refused frame leaves no trace.
    fn write(&mut self, address: u8, frame: (u8, u8)) -> (r: Result<(), BusError>)
        ensures
            r is Ok ==> final(self).history() == old(self).history().push((address, frame)),
            r is Err ==> final(self).history() == old(self).history(),
    ;
}

/// A sample-buffer streaming channel to the device's audio bus.  The
/// injected hardware handle implements this; `accepted` is its abstraction,
/// the playback samples the channel has accepted so far.
pub trait AudioBus {
    /// The playback samples the channel has accepted, in order.  An
    /// implementation gives this its own meaning by overriding it; the
    /// default says nothing.
    open spec fn accepted(&self) -> Seq<u16> {
        arbitrary()
    }

    /// Forward a buffer of samples, blocking until the channel accepts or
    /// refuses it.  A refused buffer leaves no trace.
    fn write(&mut self, data: &[u16]) -> (r: Result<(), StreamError>)
        ensures
            r is Ok ==> final(self).accepted() == old(self).accepted() + data@,
            r is Err ==> final(self).accepted() == old(self).accepted(),
    ;

    /// Read one buffer of captured samples into `buf`, blocking.  Reading
    /// does not touch the playback side.
    fn read(&mut self, buf: &mut Vec<u16>) -> (r: Result<(), StreamError>)
        ensures
            final(self).accepted() == old(self).accepted(),
    ;
}

/// The ordered (address, value) writes that bring the device from reset into
/// its operating configuration: full reset first, then power, clocking,
/// interface, signal-path, volume and output-stage registers.  Order
/// matters; later writes depend on device state the earlier ones establish.
pub open spec fn spec_init_writes() -> Seq<(u8, u16)> {
    seq![
        (0x0Fu8, 0xFFFFu16),
        (0x19u8, 0xE8u16),
        (0x1Au8, 0x1F8u16),
        (0x2Fu8, 0x3Cu16),
        (0x04u8, 0x00u16),
        (0x07u8, 0x02u16),
        (0x00u8, 0x13Fu16),
        (0x01u8, 0x13Fu16),
        (0x20u8, 0x108u16),
        (0x21u8, 0x00u16),
        (0x2Bu8, 0x00u16),
        (0x2Cu8, 0x00u16),
        (0x05u8, 0x0Cu16),
        (0x15u8, 0x1C3u16),
        (0x16u8, 0x1C3u16),
        (0x17u8, 0x1C4u16),
        (0x14u8, 0xF9u16),
        (0x0Au8, 0x100u16),
        (0x0Bu8, 0x100u16),
        (0x05u8, 0x00u16),
        (0x06u8, 0x00u16),
        (0x10u8, 0x00u16),
        (0x31u8, 0xF7u16),
    ]
}

/// The control-bus history a run of writes leaves behind when every write is
/// accepted: one frame per entry, all to the fixed device address.
pub open spec fn spec_write_history(writes: Seq<(u8, u16)>) -> Seq<(u8, (u8, u8))> {
    writes.map_values(|w: (u8, u16)| (DEVICE_ADDRESS, spec_frame(w.0, w.1)))
}

/// The initialization sequence as an in-memory table, in the order it is
/// applied.
pub fn init_sequence() -> (v: Vec<(u8, u16)>)
    ensures
        v@ == spec_init_writes(),
{
    let mut v: Vec<(u8, u16)> = Vec::new();
    v.push((0x0F, 0xFFFF));
    v.push((0x19, 0xE8));
    v.push((0x1A, 0x1F8));
    v.push((0x2F, 0x3C));
    v.push((0x04, 0x00));
    v.push((0x07, 0x02));
    v.push((0x00, 0x13F));
    v.push((0x01, 0x13F));
    v.push((0x20, 0x108));
    v.push((0x21, 0x00));
    v.push((0x2B, 0x00));
    v.push((0x2C, 0x00));
    v.push((0x05, 0x0C));
    v.push((0x15, 0x1C3));
    v.push((0x16, 0x1C3));
    v.push((0x17, 0x1C4));
    v.push((0x14, 0xF9));
    v.push((0x0A, 0x100));
    v.push((0x0B, 0x100));
    v.push((0x05, 0x00));
    v.push((0x06, 0x00));
    v.push((0x10, 0x00));
    v.push((0x31, 0xF7));
    v
}

/// Apply the initialization sequence to a control channel, strictly in
/// order, stopping at the first refused write: on success the channel has
/// accepted exactly the sequence's frames, and on failure exactly the frames
/// of a proper prefix, with nothing written past the refusal.  Registers
/// already written stay written; recovery is the caller's full device reset.
pub fn apply_init_sequence<B: ControlBus>(bus: &mut B) -> (r: Result<(), BusError>)
    ensures
        match r {
            Ok(()) => final(bus).history() == old(bus).history() + spec_write_history(
                spec_init_writes(),
            ),
            Err(_) => exists|k: int|
                0 <= k < spec_init_writes().len() && final(bus).history() == old(bus).history()
                    + spec_write_history(spec_init_writes().take(k)),
        },
{
    let ghost entry_history = bus.history();
    let table = init_sequence();
    let mut i: usize = 0;
    while i < table.len()
        invariant
            i <= table@.len(),
            table@ == spec_init_writes(),
            entry_history == old(bus).history(),
            bus.history() == entry_history + spec_write_history(spec_init_writes().take(i as int)),
        decreases table@.len() - i,
    {
        let (a, v) = table[i];
        let frame = crate::register::frame_bytes(a, v);
        let r = bus.write(DEVICE_ADDRESS, frame);
        match r {
            Ok(()) => {},
            Err(e) => {
                return Err(e);
            },
        }
        i = i + 1;
    }
    Ok(())
}

/// The codec device: a control channel for register writes and a streaming
/// channel for audio samples, both injected.
pub struct Wm8960<I2C, I2S> {
    i2c: I2C,
    i2s: I2S,
}

impl<I2C: ControlBus, I2S: AudioBus> Wm8960<I2C, I2S> {
    /// The frames the control channel has accepted so far.
    pub closed spec fn control_history(&self) -> Seq<(u8, (u8, u8))> {
        self.i2c.history()
    }

    /// The playback samples the streaming channel has accepted so far.
    pub closed spec fn audio_accepted(&self) -> Seq<u16> {
        self.i2s.accepted()
    }

    /// Take ownership of the two channels and run the initialization
    /// sequence, strictly in order, abandoning on the first refused write.
    /// On success the control channel has accepted exactly the sequence's
    /// frames and the driver is ready; any bus failure is returned as is.
    pub fn new(i2c: I2C, i2s: I2S) -> (r: Result<Self, Error>)
        ensures
            match r {
                Ok(wm) => wm.control_history() == i2c.history() + spec_write_history(
                    spec_init_writes(),
                ) && wm.audio_accepted() == i2s.accepted(),
                Err(e) => e is Bus,
            },
    {
        let mut wm = Wm8960 { i2c, i2s };
        match apply_init_sequence(&mut wm.i2c) {
            Ok(()) => Ok(wm),
            Err(e) => Err(Error::Bus(e)),
        }
    }

    /// Forward a buffer of samples to the streaming channel in one blocking
    /// call; its error is returned unchanged.
    pub fn write_audio(&mut self, data: &[u16]) -> (r: Result<(), Error>)
        ensures
            final(self).control_history() == old(self).control_history(),
            match r {
                Ok(()) => final(self).audio_accepted() == old(self).audio_accepted() + data@,
                Err(e) => e is Stream && final(self).audio_accepted() == old(
                    self,
                ).audio_accepted(),
            },
    {
        match self.i2s.write(data) {
            Ok(()) => Ok(()),
            Err(e) => Err(Error::Stream(e)),
        }
    }

    /// Pull one buffer of captured samples from the streaming channel and
    /// discard it.  The record path is otherwise unsupported.
    pub fn read_audio(&mut self) -> (r: Result<(), Error>)
        ensures
            final(self).control_history() == old(self).control_history(),
            final(self).audio_accepted() == old(self).audio_accepted(),
            r matches Err(e) ==> e is Stream,
    {
        let mut data: Vec<u16> = Vec::new();
        let mut i: usize = 0;
        while i < 24
            invariant
                i <= 24,
            decreases 24 - i,
        {
            data.push(0);
            i = i + 1;
        }
        match self.i2s.read(&mut data) {
            Ok(()) => Ok(()),
            Err(e) => Err(Error::Stream(e)),
        }
    }

    /// Write a 9-bit value to a register named in the catalog: encode the
    /// (address, value) pair as its wire frame and send it to the fixed
    /// device address in one blocking bus transaction.
    pub fn write_control_register(&mut self, reg: Register, data: u16) -> (r: Result<(), Error>)
        ensures
            final(self).audio_accepted() == old(self).audio_accepted(),
            match r {
                Ok(()) => final(self).control_history() == old(self).control_history().push(
                    (DEVICE_ADDRESS, spec_frame(reg.spec_addr(), data)),
                ),
                Err(e) => e is Bus && final(self).control_history() == old(
                    self,
                ).control_history(),
            },
    {
        let a = reg.addr();
        self.write_reg(a, data)
    }

    /// Write a 9-bit value to a raw register address, keeping only the low
    /// seven address bits and the low nine value bits, as the wire format
    /// does.
    pub fn write_reg(&mut self, reg: u8, data: u16) -> (r: Result<(), Error>)
        ensures
            final(self).audio_accepted() == old(self).audio_accepted(),
            match r {
                Ok(()) => final(self).control_history() == old(self).control_history().push(
                    (DEVICE_ADDRESS, spec_frame(reg, data)),
                ),
                Err(e) => e is Bus && final(self).control_history() == old(
                    self,
                ).control_history(),
            },
    {
        let frame = crate::register::frame_bytes(reg, data);
        match self.i2c.write(DEVICE_ADDRESS, frame) {
            Ok(()) => Ok(()),
            Err(e) => Err(Error::Bus(e)),
        }
    }
}

} // verus!
