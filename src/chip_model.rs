//! A model of an ideal chip answering transactions, and what driving the
//! driver's transactions against it achieves.

use vstd::prelude::*;
use crate::driver::{is_differential_code, lemma_input_codes_in_field, single_ended_code};
use crate::error::AdcError;
use crate::reading::{interpreted, DeviceModel};
use crate::registers::{
    conversion_word, lemma_conversion_word, lemma_gain_in_field, lemma_with_field, with_field,
    word_of, Modes, Pointers, KEPT_MASK, MODE_MASK, MUX_MASK, OS_MASK, PGA, PGA_MASK,
};
use crate::transaction::{block, length, reads_config_first, result_of, BusAction, Op, Transaction};
use i2cdev::linux::LinuxI2CError;

verus! {

/// The four registers of an ideal chip, its register pointer (the low two bits
/// of the last pointer byte), and whether the next byte read is the low byte.
pub struct Chip {
    pub convert: u16,
    pub config: u16,
    pub low_threshold: u16,
    pub high_threshold: u16,
    pub pointer: u8,
    pub low_byte_next: bool,
}

impl Chip {
    /// The register a pointer selects.
    pub open spec fn register(self, pointer: u8) -> u16 {
        match pointer % 4 {
            0 => self.convert,
            1 => self.config,
            2 => self.low_threshold,
            _ => self.high_threshold,
        }
    }

    /// The chip after a register is written; the conversion register is
    /// read-only.
    pub open spec fn stored(self, pointer: u8, word: u16) -> Chip {
        match pointer % 4 {
            0 => self,
            1 => Chip { config: word, ..self },
            2 => Chip { low_threshold: word, ..self },
            _ => Chip { high_threshold: word, ..self },
        }
    }

    /// How the chip answers one bus action: its new state and the byte it
    /// returns (zero where nothing is read).
    pub open spec fn answer(self, action: BusAction) -> (Chip, u8) {
        match action {
            BusAction::WriteByte(p) => (Chip { pointer: p % 4, low_byte_next: false, ..self }, 0),
            BusAction::ReadByte => {
                let w = self.register(self.pointer) as int;
                let byte = if self.low_byte_next {
                    w % 256
                } else {
                    w / 256
                };
                (Chip { low_byte_next: !self.low_byte_next, ..self }, byte as u8)
            },
            BusAction::WriteBlock(r, high, low) => {
                let c = self.stored(r, word_of(high, low));
                (Chip { pointer: r % 4, low_byte_next: false, ..c }, 0)
            },
            _ => (self, 0),
        }
    }
}

/// Drives a transaction against the chip for at most `fuel` actions.
pub open spec fn run(tx: Transaction, chip: Chip, fuel: nat) -> (Transaction, Chip)
    decreases fuel,
{
    if fuel == 0 || tx.spec_outcome() is Some {
        (tx, chip)
    } else {
        let (c, byte) = chip.answer(tx.pending());
        run(tx.answered(Ok(byte)), c, (fuel - 1) as nat)
    }
}

/// Feeds a sequence of bus replies to a transaction.
pub open spec fn answered_all(
    tx: Transaction,
    replies: Seq<Result<u8, LinuxI2CError>>,
) -> Transaction
    decreases replies.len(),
{
    if replies.len() == 0 {
        tx
    } else {
        answered_all(tx.answered(replies[0]), replies.drop_first())
    }
}

/// An outcome that a transaction reached on the bus: a value or a bus error.
pub open spec fn bus_outcome(outcome: Option<Result<u16, AdcError>>) -> bool {
    match outcome {
        None => true,
        Some(Ok(_)) => true,
        Some(Err(AdcError::I2cError(_))) => true,
        _ => false,
    }
}

/// An operation that was started, whatever the bus answers, ends only in a
/// value or a bus error: never in a refusal of its inputs.
pub proof fn lemma_started_never_refused(op: Op, replies: Seq<Result<u8, LinuxI2CError>>)
    requires
        op != Op::Rejected,
    ensures
        bus_outcome(answered_all(Transaction::started(op), replies).spec_outcome()),
{
    lemma_answers_keep_bus_outcome(Transaction::started(op), replies);
}

proof fn lemma_answers_keep_bus_outcome(tx: Transaction, replies: Seq<Result<u8, LinuxI2CError>>)
    requires
        bus_outcome(tx.spec_outcome()),
    ensures
        bus_outcome(answered_all(tx, replies).spec_outcome()),
    decreases replies.len(),
{
    if replies.len() > 0 {
        lemma_answers_keep_bus_outcome(tx.answered(replies[0]), replies.drop_first());
    }
}

/// A refused transaction asks for no bus action, and leaves the chip as it was
/// however long it is driven.
pub proof fn lemma_refused_is_silent(error: AdcError, chip: Chip, fuel: nat)
    ensures
        Transaction::refused(error).pending() == BusAction::Finish,
        run(Transaction::refused(error), chip, fuel) == (Transaction::refused(error), chip),
{
}

/// A finished transaction ignores every further reply.
proof fn lemma_finished_stays(tx: Transaction, replies: Seq<Result<u8, LinuxI2CError>>)
    requires
        tx.spec_outcome() is Some,
    ensures
        answered_all(tx, replies) == tx,
    decreases replies.len(),
{
    if replies.len() > 0 {
        lemma_finished_stays(tx.answered(replies[0]), replies.drop_first());
    }
}

/// A single-ended reading (the transaction `QwiicADC::get_single_ended`
/// returns) of channel 0..=3 never ends in `InvalidChannel`, whatever the bus
/// answers; for any other channel it is refused with that channel and asks
/// for no bus action, whatever replies it is given.
pub proof fn lemma_single_ended_validation(
    channel: u8,
    model: DeviceModel,
    replies: Seq<Result<u8, LinuxI2CError>>,
)
    ensures
        channel <= 3 ==> bus_outcome(
            answered_all(
                Transaction::started(Op::Convert(single_ended_code(channel), model)),
                replies,
            ).spec_outcome(),
        ),
        channel > 3 ==> ({
            let refused = Transaction::refused(AdcError::InvalidChannel(channel));
            &&& refused.pending() == BusAction::Finish
            &&& answered_all(refused, replies) == refused
        }),
{
    if channel <= 3 {
        lemma_started_never_refused(
            Op::Convert(single_ended_code(channel), model),
            replies,
        );
    } else {
        lemma_finished_stays(Transaction::refused(AdcError::InvalidChannel(channel)), replies);
    }
}

/// A differential reading (the transaction `QwiicADC::get_differential`
/// returns) of one of the four pairings never ends in a refusal, whatever the
/// bus answers; any other code is refused with that code and asks for no bus
/// action.
pub proof fn lemma_differential_validation(
    mode: u16,
    model: DeviceModel,
    replies: Seq<Result<u8, LinuxI2CError>>,
)
    ensures
        is_differential_code(mode) ==> bus_outcome(
            answered_all(Transaction::started(Op::Convert(mode, model)), replies).spec_outcome(),
        ),
        !is_differential_code(mode) ==> ({
            let refused = Transaction::refused(AdcError::InvalidDifferentialMode(mode));
            &&& refused.pending() == BusAction::Finish
            &&& answered_all(refused, replies) == refused
        }),
{
    if is_differential_code(mode) {
        lemma_started_never_refused(Op::Convert(mode, model), replies);
    } else {
        lemma_finished_stays(Transaction::refused(AdcError::InvalidDifferentialMode(mode)), replies);
    }
}

/// The first three actions of an operation that begins by reading the
/// configuration register: afterwards the transaction holds the register's
/// word and the chip's registers are as they were.
proof fn lemma_config_read(op: Op, chip: Chip) -> (r: (Transaction, Chip))
    requires
        reads_config_first(op),
    ensures
        r.0.spec_op() == op,
        r.0.spec_stage() == 3,
        r.0.spec_word() == chip.config,
        r.0.spec_config() == chip.config,
        r.0.spec_outcome() == (if length(op) == 3 {
            Some(Ok::<u16, AdcError>(result_of(op, chip.config, chip.config)))
        } else {
            None::<Result<u16, AdcError>>
        }),
        r.1.config == chip.config,
        r.1.convert == chip.convert,
        r.1.low_threshold == chip.low_threshold,
        r.1.high_threshold == chip.high_threshold,
        forall|fuel: nat| run(Transaction::started(op), chip, fuel + 3) == run(r.0, r.1, fuel),
{
    let t0 = Transaction::started(op);
    let (c1, b1) = chip.answer(t0.pending());
    let t1 = t0.answered(Ok(b1));
    assert(t1.spec_word() == 0 && c1.pointer == 1 && !c1.low_byte_next);
    let (c2, b2) = c1.answer(t1.pending());
    let t2 = t1.answered(Ok(b2));
    assert(b2 as int == chip.config as int / 256);
    assert(t2.spec_word() == b2 as u16);
    let (c3, b3) = c2.answer(t2.pending());
    let t3 = t2.answered(Ok(b3));
    assert(b3 as int == chip.config as int % 256);
    assert(t3.spec_word() == chip.config);
    assert forall|fuel: nat| run(Transaction::started(op), chip, fuel + 3) == run(t3, c3, fuel) by {
        assert(run(t0, chip, fuel + 3) == run(t1, c1, fuel + 2));
        assert(run(t1, c1, fuel + 2) == run(t2, c2, fuel + 1));
        assert(run(t2, c2, fuel + 1) == run(t3, c3, fuel));
    }
    (t3, c3)
}

/// Setting the gain and then reading it back gives exactly the gain pattern,
/// and the other bits of the configuration register keep their values.
pub proof fn lemma_gain_round_trip(chip: Chip, gain: PGA)
    ensures
        ({
            let (set, c1) = run(Transaction::started(Op::SetGain(gain)), chip, 4);
            let (get, _) = run(Transaction::started(Op::GetGain), c1, 3);
            &&& set.spec_outcome() == Some(
                Ok::<u16, AdcError>(with_field(chip.config, PGA_MASK, gain.spec_value())),
            )
            &&& c1.config & !PGA_MASK == chip.config & !PGA_MASK
            &&& get.spec_outcome() == Some(Ok::<u16, AdcError>(gain.spec_value()))
        }),
{
    let new_config = with_field(chip.config, PGA_MASK, gain.spec_value());
    lemma_gain_in_field(gain);
    lemma_with_field(chip.config, PGA_MASK, gain.spec_value());
    let (t3, c3) = lemma_config_read(Op::SetGain(gain), chip);
    assert(run(Transaction::started(Op::SetGain(gain)), chip, 4) == run(t3, c3, 1));
    let (c4, b4) = c3.answer(t3.pending());
    let t4 = t3.answered(Ok(b4));
    assert(c4.config == new_config);
    assert(run(t3, c3, 1) == run(t4, c4, 0));
    let (g3, d3) = lemma_config_read(Op::GetGain, c4);
    assert(run(Transaction::started(Op::GetGain), c4, 3) == run(g3, d3, 0));
}

/// Writing the low threshold and then the high threshold stores both: the
/// second write leaves the first register as it was, and each reads back.
pub proof fn lemma_thresholds_independent(chip: Chip, low: u16, high: u16)
    ensures
        ({
            let low_ptr = Pointers::LowThresh.spec_value();
            let high_ptr = Pointers::HighThresh.spec_value();
            let (_, c1) = run(Transaction::started(Op::WriteWordAt(low_ptr, low)), chip, 1);
            let (_, c2) = run(Transaction::started(Op::WriteWordAt(high_ptr, high)), c1, 1);
            &&& c1.low_threshold == low
            &&& c1.high_threshold == chip.high_threshold
            &&& c2.low_threshold == low
            &&& c2.high_threshold == high
            &&& run(Transaction::started(Op::ReadWordAt(low_ptr)), c2, 3).0.spec_outcome() == Some(
                Ok::<u16, AdcError>(low),
            )
            &&& run(Transaction::started(Op::ReadWordAt(high_ptr)), c2, 3).0.spec_outcome() == Some(
                Ok::<u16, AdcError>(high),
            )
        }),
{
    reveal_with_fuel(run, 4);
}

/// A single-shot conversion reads the configuration register, writes back
/// the word that starts the conversion, which keeps the register's gain,
/// sample rate and comparator fields, and returns the conversion register
/// interpreted for the model. The transaction holds the configuration it
/// read, whose gain the driver records for the reading.
pub proof fn lemma_conversion_sequence(chip: Chip, mux: u16, model: DeviceModel)
    requires
        mux & !MUX_MASK == 0,
    ensures
        ({
            let (tx, c) = run(Transaction::started(Op::Convert(mux, model)), chip, 8);
            &&& c.config == conversion_word(chip.config, Modes::Single, mux)
            &&& c.config & KEPT_MASK == chip.config & KEPT_MASK
            &&& c.config & MUX_MASK == mux
            &&& c.config & OS_MASK == OS_MASK
            &&& c.config & MODE_MASK == Modes::Single.spec_value()
            &&& c.convert == chip.convert
            &&& tx.spec_config() == chip.config
            &&& tx.spec_outcome() == Some(Ok::<u16, AdcError>(interpreted(chip.convert, model)))
        }),
{
    lemma_conversion_word(chip.config, Modes::Single, mux);
    let (t3, c3) = lemma_config_read(Op::Convert(mux, model), chip);
    assert(run(Transaction::started(Op::Convert(mux, model)), chip, 8) == run(t3, c3, 5));
    let word = conversion_word(chip.config, Modes::Single, mux);
    let (c4, b4) = c3.answer(t3.pending());
    let t4 = t3.answered(Ok(b4));
    assert(t3.pending() == block(1, word));
    assert(word_of((word as int / 256) as u8, (word as int % 256) as u8) == word);
    assert(c4.config == word && c4.convert == chip.convert);
    assert(run(t3, c3, 5) == run(t4, c4, 4));
    let (c5, b5) = c4.answer(t4.pending());
    let t5 = t4.answered(Ok(b5));
    assert(c5 == c4);
    assert(run(t4, c4, 4) == run(t5, c5, 3));
    let (c6, b6) = c5.answer(t5.pending());
    let t6 = t5.answered(Ok(b6));
    assert(t6.spec_word() == 0 && c6.pointer == 0 && !c6.low_byte_next);
    assert(run(t5, c5, 3) == run(t6, c6, 2));
    let (c7, b7) = c6.answer(t6.pending());
    let t7 = t6.answered(Ok(b7));
    assert(b7 as int == chip.convert as int / 256);
    assert(t7.spec_word() == b7 as u16);
    assert(run(t6, c6, 2) == run(t7, c7, 1));
    let (c8, b8) = c7.answer(t7.pending());
    let t8 = t7.answered(Ok(b8));
    assert(b8 as int == chip.convert as int % 256);
    assert(t8.spec_word() == chip.convert);
    assert(t8.spec_config() == chip.config);
    assert(run(t7, c7, 1) == run(t8, c8, 0));
}

/// A single-ended reading of channel 0..=3, or a differential reading of one
/// of the four pairings, keeps the chip's gain, sample rate and comparator
/// fields: only the start bit, the mode bit and the input selection change.
pub proof fn lemma_reading_keeps_settings(chip: Chip, channel: u8, mode: u16, model: DeviceModel)
    ensures
        channel <= 3 ==> ({
            let (_, c) = run(
                Transaction::started(Op::Convert(single_ended_code(channel), model)),
                chip,
                8,
            );
            &&& c.config & KEPT_MASK == chip.config & KEPT_MASK
            &&& c.config & MUX_MASK == single_ended_code(channel)
        }),
        is_differential_code(mode) ==> ({
            let (_, c) = run(Transaction::started(Op::Convert(mode, model)), chip, 8);
            &&& c.config & KEPT_MASK == chip.config & KEPT_MASK
            &&& c.config & MUX_MASK == mode
        }),
{
    lemma_input_codes_in_field(channel, mode);
    if channel <= 3 {
        lemma_conversion_sequence(chip, single_ended_code(channel), model);
    }
    if is_differential_code(mode) {
        lemma_conversion_sequence(chip, mode, model);
    }
}

} // verus!
