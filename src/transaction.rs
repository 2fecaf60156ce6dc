//! Bus transactions: the sequence of primitive bus operations that each
//! driver operation performs, as a state machine that the caller drives.

use vstd::prelude::*;
use crate::error::AdcError;
use crate::reading::{interpret, interpreted, DeviceModel};
use crate::registers::{
    build_conversion_word, conversion_word, gain_field, sample_rate_field, with_field, with_gain,
    with_mode, with_sample_rate, word_from_bytes, word_of, word_to_bytes, Modes, Pointers,
    SampleRates, MODE_MASK, PGA, PGA_MASK, RATE_MASK,
};
use i2cdev::linux::LinuxI2CError;

verus! {

/// Time a single conversion is given to complete, in microseconds. It exceeds
/// the conversion time at the lowest sample rate.
pub const SETTLE_MICROS: u32 = 10_000;

/// Pause after a bare command byte, in microseconds.
pub const COMMAND_MICROS: u32 = 10;

/// One primitive operation on the bus.
#[derive(Clone, Copy, Debug, PartialEq, Eq, Structural)]
pub enum BusAction {
    /// Send one byte: a register pointer or a command.
    WriteByte(u8),
    /// Receive one byte.
    ReadByte,
    /// Write a register: its address, then the high and the low byte.
    WriteBlock(u8, u8, u8),
    /// Wait this many microseconds.
    Delay(u32),
    /// Nothing more to do: the transaction has its outcome.
    Finish,
}

/// What a transaction does on the bus. Every operation on a field of the
/// configuration register begins by reading that register.
#[derive(Clone, Copy, Debug, PartialEq, Eq, Structural)]
pub enum Op {
    /// Refused before any bus traffic.
    Rejected,
    /// Read the first byte of a register.
    ReadByteAt(u8),
    /// Read a 16-bit register.
    ReadWordAt(u8),
    /// Write a 16-bit register.
    WriteWordAt(u8, u16),
    /// Send a command byte and pause.
    Command(u8),
    /// Read-modify-write of the gain field.
    SetGain(PGA),
    /// Read the gain field.
    GetGain,
    /// Read-modify-write of the sample-rate field.
    SetSampleRate(SampleRates),
    /// Read the sample-rate field.
    GetSampleRate,
    /// Read-modify-write of the mode bit.
    SetMode(Modes),
    /// Start continuous conversion of the input selection, keeping the
    /// configured gain, sample rate and comparator.
    StartContinuous(u16),
    /// Read the configuration, then the conversion register without starting
    /// a conversion, interpreted for the model.
    Fetch(DeviceModel),
    /// Start a single-shot conversion of the input selection, keeping the
    /// configured gain, sample rate and comparator, wait for it, and read the
    /// result, interpreted for the model.
    Convert(u16, DeviceModel),
}

/// The `k`-th action of reading a register: select it, then receive bytes.
pub open spec fn read_step(register: u8, k: int) -> BusAction {
    if k == 0 {
        BusAction::WriteByte(register)
    } else {
        BusAction::ReadByte
    }
}

/// The block write that stores `word` in `register`.
pub open spec fn block(register: u8, word: u16) -> BusAction {
    BusAction::WriteBlock(register, (word as int / 256) as u8, (word as int % 256) as u8)
}

/// Whether an operation begins by reading the configuration register.
pub open spec fn reads_config_first(op: Op) -> bool {
    match op {
        Op::SetGain(_) | Op::GetGain | Op::SetSampleRate(_) | Op::GetSampleRate | Op::SetMode(_)
        | Op::StartContinuous(_) | Op::Fetch(_) | Op::Convert(_, _) => true,
        _ => false,
    }
}

/// The number of bus actions of an operation.
pub open spec fn length(op: Op) -> int {
    match op {
        Op::Rejected => 0,
        Op::ReadByteAt(_) => 2,
        Op::ReadWordAt(_) => 3,
        Op::WriteWordAt(_, _) => 1,
        Op::Command(_) => 2,
        Op::SetGain(_) => 4,
        Op::GetGain => 3,
        Op::SetSampleRate(_) => 4,
        Op::GetSampleRate => 3,
        Op::SetMode(_) => 4,
        Op::StartContinuous(_) => 4,
        Op::Fetch(_) => 6,
        Op::Convert(_, _) => 8,
    }
}

/// The action at position `stage` of an operation, where `config` is the
/// configuration word it read.
pub open spec fn action_at(op: Op, stage: int, config: u16) -> BusAction {
    let cfg = Pointers::Config.spec_value();
    let convert = Pointers::Convert.spec_value();
    if stage < 0 || stage >= length(op) {
        BusAction::Finish
    } else if reads_config_first(op) && stage < 3 {
        read_step(cfg, stage)
    } else {
        match op {
            Op::ReadByteAt(p) => read_step(p, stage),
            Op::ReadWordAt(p) => read_step(p, stage),
            Op::WriteWordAt(p, v) => block(p, v),
            Op::Command(c) => if stage == 0 {
                BusAction::WriteByte(c)
            } else {
                BusAction::Delay(COMMAND_MICROS)
            },
            Op::SetGain(g) => block(cfg, with_field(config, PGA_MASK, g.spec_value())),
            Op::SetSampleRate(r) => block(cfg, with_field(config, RATE_MASK, r.spec_value())),
            Op::SetMode(m) => block(cfg, with_field(config, MODE_MASK, m.spec_value())),
            Op::StartContinuous(mux) => block(cfg, conversion_word(config, Modes::Continuous, mux)),
            Op::Fetch(_) => read_step(convert, stage - 3),
            Op::Convert(mux, _) => if stage == 3 {
                block(cfg, conversion_word(config, Modes::Single, mux))
            } else if stage == 4 {
                BusAction::Delay(SETTLE_MICROS)
            } else {
                read_step(convert, stage - 5)
            },
            _ => BusAction::Finish,
        }
    }
}

/// The value an operation returns once all its actions succeeded, where
/// `word` holds the bytes received last and `config` the configuration word
/// read. Writes return the word written, a command its byte.
pub open spec fn result_of(op: Op, word: u16, config: u16) -> u16 {
    match op {
        Op::Rejected => 0,
        Op::ReadByteAt(_) => word,
        Op::ReadWordAt(_) => word,
        Op::WriteWordAt(_, v) => v,
        Op::Command(c) => c as u16,
        Op::SetGain(g) => with_field(config, PGA_MASK, g.spec_value()),
        Op::GetGain => config & PGA_MASK,
        Op::SetSampleRate(r) => with_field(config, RATE_MASK, r.spec_value()),
        Op::GetSampleRate => config & RATE_MASK,
        Op::SetMode(m) => with_field(config, MODE_MASK, m.spec_value()),
        Op::StartContinuous(mux) => conversion_word(config, Modes::Continuous, mux),
        Op::Fetch(model) => interpreted(word, model),
        Op::Convert(_, model) => interpreted(word, model),
    }
}

/// The received-bytes word after `action` succeeded with `byte`: selecting a
/// register clears it, a received byte is shifted in as the low byte.
pub open spec fn word_after(word: u16, action: BusAction, byte: u8) -> u16 {
    match action {
        BusAction::WriteByte(_) => 0,
        BusAction::ReadByte => word_of((word as int % 256) as u8, byte),
        _ => word,
    }
}

/// A driver operation in progress on the bus. Only the driver makes them.
pub struct Transaction {
    pub(crate) op: Op,
    /// Number of actions completed.
    pub(crate) stage: u8,
    /// Bytes received so far, the latest as the low byte.
    pub(crate) word: u16,
    /// The configuration word read at the start, where the operation reads one.
    pub(crate) config: u16,
    /// Set once the transaction is over.
    pub(crate) outcome: Option<Result<u16, AdcError>>,
}

impl Transaction {
    /// The operation.
    pub open(crate) spec fn spec_op(&self) -> Op {
        self.op
    }

    /// The number of actions completed.
    pub open(crate) spec fn spec_stage(&self) -> u8 {
        self.stage
    }

    /// The bytes received so far.
    pub open(crate) spec fn spec_word(&self) -> u16 {
        self.word
    }

    /// The configuration word read at the start.
    pub open(crate) spec fn spec_config(&self) -> u16 {
        self.config
    }

    /// The outcome, once the transaction is over.
    pub open(crate) spec fn spec_outcome(&self) -> Option<Result<u16, AdcError>> {
        self.outcome
    }

    /// A running transaction is short of its last action; every transaction
    /// that is over has an outcome.
    pub open(crate) spec fn wf(&self) -> bool {
        self.outcome is None ==> self.stage < length(self.op)
    }

    /// The action that the transaction asks for next.
    pub open(crate) spec fn pending(&self) -> BusAction {
        if self.outcome is Some {
            BusAction::Finish
        } else {
            action_at(self.op, self.stage as int, self.config)
        }
    }

    /// The transaction after the bus answered its pending action with `reply`.
    pub open(crate) spec fn answered(self, reply: Result<u8, LinuxI2CError>) -> Transaction {
        if self.outcome is Some {
            self
        } else {
            match reply {
                Err(e) => Transaction { outcome: Some(Err(AdcError::I2cError(e))), ..self },
                Ok(b) => {
                    let word = word_after(self.word, self.pending(), b);
                    let stage = (self.stage + 1) as u8;
                    let config = if stage == 3 && reads_config_first(self.op) {
                        word
                    } else {
                        self.config
                    };
                    Transaction {
                        op: self.op,
                        stage,
                        word,
                        config,
                        outcome: if stage >= length(self.op) {
                            Some(Ok(result_of(self.op, word, config)))
                        } else {
                            None
                        },
                    }
                },
            }
        }
    }

    /// A transaction that has not yet touched the bus.
    pub open(crate) spec fn started(op: Op) -> Transaction {
        Transaction { op, stage: 0, word: 0, config: 0, outcome: None }
    }

    /// A transaction refused with `error` before any bus traffic.
    pub open(crate) spec fn refused(error: AdcError) -> Transaction {
        Transaction { op: Op::Rejected, stage: 0, word: 0, config: 0, outcome: Some(Err(error)) }
    }

    /// Starts an operation.
    pub(crate) fn start(op: Op) -> (r: Transaction)
        requires
            op != Op::Rejected,
        ensures
            r == Transaction::started(op),
            r.wf(),
    {
        Transaction { op, stage: 0, word: 0, config: 0, outcome: None }
    }

    /// Refuses an operation: the transaction is over before it began.
    pub(crate) fn refuse(error: AdcError) -> (r: Transaction)
        ensures
            r == Transaction::refused(error),
            r.wf(),
            r.pending() == BusAction::Finish,
    {
        Transaction { op: Op::Rejected, stage: 0, word: 0, config: 0, outcome: Some(Err(error)) }
    }

    /// The operation.
    pub fn op(&self) -> (r: Op)
        ensures
            r == self.spec_op(),
    {
        self.op
    }

    /// Whether the transaction is over.
    pub fn is_finished(&self) -> (r: bool)
        ensures
            r == (self.spec_outcome() is Some),
    {
        self.outcome.is_some()
    }

    /// The bus action to perform next; `Finish` once the transaction is over.
    pub fn next_action(&self) -> (r: BusAction)
        ensures
            r == self.pending(),
    {
        if self.outcome.is_some() || self.stage >= op_length(self.op) {
            return BusAction::Finish;
        }
        let cfg = Pointers::Config.value();
        let convert = Pointers::Convert.value();
        let stage = self.stage;
        if reads_config(self.op) && stage < 3 {
            return read_action(cfg, stage);
        }
        match self.op {
            Op::ReadByteAt(p) => read_action(p, stage),
            Op::ReadWordAt(p) => read_action(p, stage),
            Op::WriteWordAt(p, v) => block_action(p, v),
            Op::Command(c) => if stage == 0 {
                BusAction::WriteByte(c)
            } else {
                BusAction::Delay(COMMAND_MICROS)
            },
            Op::SetGain(g) => block_action(cfg, with_gain(self.config, g)),
            Op::SetSampleRate(r) => block_action(cfg, with_sample_rate(self.config, r)),
            Op::SetMode(m) => block_action(cfg, with_mode(self.config, m)),
            Op::StartContinuous(mux) => block_action(
                cfg,
                build_conversion_word(self.config, Modes::Continuous, mux),
            ),
            Op::Fetch(_) => read_action(convert, stage - 3),
            Op::Convert(mux, _) => if stage == 3 {
                block_action(cfg, build_conversion_word(self.config, Modes::Single, mux))
            } else if stage == 4 {
                BusAction::Delay(SETTLE_MICROS)
            } else {
                read_action(convert, stage - 5)
            },
            _ => BusAction::Finish,
        }
    }

    /// Takes the bus's answer to the pending action: the byte received for a
    /// `ReadByte` (ignored otherwise), or the bus error, which ends the
    /// transaction with that error unchanged.
    pub fn answer(&mut self, reply: Result<u8, LinuxI2CError>)
        requires
            old(self).wf(),
        ensures
            *final(self) == old(self).answered(reply),
            final(self).wf(),
    {
        if self.outcome.is_some() {
            return;
        }
        match reply {
            Err(e) => {
                self.outcome = Some(Err(AdcError::I2cError(e)));
            },
            Ok(b) => {
                let action = self.next_action();
                let word = match action {
                    BusAction::WriteByte(_) => 0,
                    BusAction::ReadByte => word_from_bytes((self.word % 256) as u8, b),
                    _ => self.word,
                };
                let stage = self.stage + 1;
                if stage == 3 && reads_config(self.op) {
                    self.config = word;
                }
                self.stage = stage;
                self.word = word;
                if stage >= op_length(self.op) {
                    self.outcome = Some(Ok(op_result(self.op, word, self.config)));
                }
            },
        }
    }

    /// The outcome of a finished transaction.
    pub fn into_outcome(self) -> (r: Result<u16, AdcError>)
        requires
            self.spec_outcome() is Some,
        ensures
            self.spec_outcome() == Some(r),
    {
        match self.outcome {
            Some(r) => r,
            None => Ok(0),
        }
    }
}

fn reads_config(op: Op) -> (r: bool)
    ensures
        r == reads_config_first(op),
{
    match op {
        Op::SetGain(_) | Op::GetGain | Op::SetSampleRate(_) | Op::GetSampleRate | Op::SetMode(_)
        | Op::StartContinuous(_) | Op::Fetch(_) | Op::Convert(_, _) => true,
        _ => false,
    }
}

fn read_action(register: u8, stage: u8) -> (r: BusAction)
    ensures
        r == read_step(register, stage as int),
{
    if stage == 0 {
        BusAction::WriteByte(register)
    } else {
        BusAction::ReadByte
    }
}

fn block_action(register: u8, word: u16) -> (r: BusAction)
    ensures
        r == block(register, word),
{
    let (high, low) = word_to_bytes(word);
    BusAction::WriteBlock(register, high, low)
}

fn op_length(op: Op) -> (r: u8)
    ensures
        r as int == length(op),
{
    match op {
        Op::Rejected => 0,
        Op::ReadByteAt(_) => 2,
        Op::ReadWordAt(_) => 3,
        Op::WriteWordAt(_, _) => 1,
        Op::Command(_) => 2,
        Op::SetGain(_) => 4,
        Op::GetGain => 3,
        Op::SetSampleRate(_) => 4,
        Op::GetSampleRate => 3,
        Op::SetMode(_) => 4,
        Op::StartContinuous(_) => 4,
        Op::Fetch(_) => 6,
        Op::Convert(_, _) => 8,
    }
}

fn op_result(op: Op, word: u16, config: u16) -> (r: u16)
    ensures
        r == result_of(op, word, config),
{
    match op {
        Op::Rejected => 0,
        Op::ReadByteAt(_) => word,
        Op::ReadWordAt(_) => word,
        Op::WriteWordAt(_, v) => v,
        Op::Command(c) => c as u16,
        Op::SetGain(g) => with_gain(config, g),
        Op::GetGain => gain_field(config),
        Op::SetSampleRate(r) => with_sample_rate(config, r),
        Op::GetSampleRate => sample_rate_field(config),
        Op::SetMode(m) => with_mode(config, m),
        Op::StartContinuous(mux) => build_conversion_word(config, Modes::Continuous, mux),
        Op::Fetch(model) => interpret(word, model),
        Op::Convert(_, model) => interpret(word, model),
    }
}

} // verus!
