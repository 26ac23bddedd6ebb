//! # Over The Air Updates (OTA)
//!
//! The OTA data partition holds two selection entries of 32 bytes, one for
//! each of the two application slots. The entry with the higher sequence
//! number names the slot that boots next.

use crate::partitions::{slice_at, splice, DataPartitionSubType, Error, FlashRegion, PartitionType};
use vstd::prelude::*;
use vstd::std_specs::convert::TryFromSpecImpl;

verus! {

/// Where the selection entry of slot 0 starts.
pub const SLOT0_DATA_OFFSET: usize = 0x0000;

/// Where the selection entry of slot 1 starts.
pub const SLOT1_DATA_OFFSET: usize = 0x1000;

/// The size of the OTA data partition.
pub const OTA_DATA_SIZE: usize = 0x2000;

/// The size of a selection entry.
pub const ENTRY_SIZE: usize = 0x20;

/// Where in an entry the image state starts; the sequence number takes the
/// first four bytes, a label the next twenty.
pub const ENTRY_STATE_OFFSET: usize = 24;

/// Where in an entry the checksum of the sequence number starts.
pub const ENTRY_CRC_OFFSET: usize = 28;

/// The sequence number of an entry that was never written.
pub const ERASED_SEQ: u32 = 0xffff_ffff;

/// Representation of the current OTA slot.
#[derive(Debug, PartialEq, Eq, Clone, Copy, Hash, Structural)]
pub enum Slot {
    /// If there is a `firmware` app-partition it's used. Otherwise OTA-0
    Unset,
    /// OTA-0
    Slot0,
    /// OTA-1
    Slot1,
}

impl Slot {
    /// The slot represented as `usize`
    pub fn number(&self) -> (n: usize)
        ensures
            n == (if *self == Slot::Slot1 {
                1usize
            } else {
                0usize
            }),
    {
        match self {
            Slot::Unset => 0,
            Slot::Slot0 => 0,
            Slot::Slot1 => 1,
        }
    }

    /// See [`Slot::next`].
    pub open spec fn spec_next(self) -> Slot {
        if self == Slot::Slot0 {
            Slot::Slot1
        } else {
            Slot::Slot0
        }
    }

    /// The next logical OTA slot
    pub fn next(&self) -> (slot: Slot)
        ensures
            slot == self.spec_next(),
            slot != Slot::Unset,
            slot != *self,
    {
        match self {
            Slot::Unset => Slot::Slot0,
            Slot::Slot0 => Slot::Slot1,
            Slot::Slot1 => Slot::Slot0,
        }
    }

    /// The slot with the given position among the variants, if there is one.
    pub fn from_repr(discriminant: usize) -> (slot: Option<Slot>)
        ensures
            slot == (if discriminant == 0 {
                Some(Slot::Unset)
            } else if discriminant == 1 {
                Some(Slot::Slot0)
            } else if discriminant == 2 {
                Some(Slot::Slot1)
            } else {
                None
            }),
    {
        match discriminant {
            0 => Some(Slot::Unset),
            1 => Some(Slot::Slot0),
            2 => Some(Slot::Slot1),
            _ => None,
        }
    }

    /// Where the selection entry of the slot starts in the OTA data.
    pub open spec fn spec_offset(self) -> usize {
        if self == Slot::Slot0 {
            SLOT0_DATA_OFFSET
        } else {
            SLOT1_DATA_OFFSET
        }
    }

    /// Where the selection entry of the slot starts in the OTA data.
    pub fn offset(&self) -> (offset: usize)
        ensures
            offset == self.spec_offset(),
    {
        match self {
            Slot::Slot0 => SLOT0_DATA_OFFSET,
            _ => SLOT1_DATA_OFFSET,
        }
    }
}

/// OTA image states for checking operability of the app.
#[derive(Debug, PartialEq, Eq, Clone, Copy, Hash, Structural)]
pub enum OtaImageState {
    /// Monitor the first boot. In bootloader this state is changed to
    /// `PendingVerify`.
    ///
    /// You want to set this state after activating a newly installed update.
    New,
    /// First boot for this app was. This state is usually only set by the
    /// bootloader.
    PendingVerify,
    /// App was confirmed as workable. App can boot and work without limits.
    Valid,
    /// App was confirmed as non-workable.
    ///
    /// This app will not be selected to boot at all.
    Invalid,
    /// App could not confirm the workable or non-workable.
    ///
    /// In bootloader `PendingVerify` state will be changed to `Aborted` by the
    /// bootloader. This app will not selected to boot at all.
    Aborted,
    /// Undefined. App can boot and work without limits.
    Undefined,
}

impl OtaImageState {
    /// The word that stands for the state in a selection entry.
    pub open spec fn spec_repr(self) -> u32 {
        match self {
            OtaImageState::New => 0x0,
            OtaImageState::PendingVerify => 0x1,
            OtaImageState::Valid => 0x2,
            OtaImageState::Invalid => 0x3,
            OtaImageState::Aborted => 0x4,
            OtaImageState::Undefined => 0xFFFF_FFFF,
        }
    }

    /// The state that `value` stands for, if it stands for one.
    pub open spec fn spec_from_repr(value: u32) -> Option<OtaImageState> {
        if value == 0x0 {
            Some(OtaImageState::New)
        } else if value == 0x1 {
            Some(OtaImageState::PendingVerify)
        } else if value == 0x2 {
            Some(OtaImageState::Valid)
        } else if value == 0x3 {
            Some(OtaImageState::Invalid)
        } else if value == 0x4 {
            Some(OtaImageState::Aborted)
        } else if value == 0xFFFF_FFFF {
            Some(OtaImageState::Undefined)
        } else {
            None
        }
    }

    /// The word that stands for the state in a selection entry.
    pub fn repr(self) -> (value: u32)
        ensures
            value == self.spec_repr(),
            OtaImageState::spec_from_repr(value) == Some(self),
    {
        match self {
            OtaImageState::New => 0x0,
            OtaImageState::PendingVerify => 0x1,
            OtaImageState::Valid => 0x2,
            OtaImageState::Invalid => 0x3,
            OtaImageState::Aborted => 0x4,
            OtaImageState::Undefined => 0xFFFF_FFFF,
        }
    }

    /// The state that `value` stands for, if it stands for one.
    pub fn from_repr(value: u32) -> (state: Option<OtaImageState>)
        ensures
            state == OtaImageState::spec_from_repr(value),
            state matches Some(s) ==> s.spec_repr() == value,
    {
        match value {
            0x0 => Some(OtaImageState::New),
            0x1 => Some(OtaImageState::PendingVerify),
            0x2 => Some(OtaImageState::Valid),
            0x3 => Some(OtaImageState::Invalid),
            0x4 => Some(OtaImageState::Aborted),
            0xFFFF_FFFF => Some(OtaImageState::Undefined),
            _ => None,
        }
    }
}

impl TryFrom<u32> for OtaImageState {
    type Error = Error;

    /// The state that `value` stands for, or [`Error::Invalid`].
    fn try_from(value: u32) -> (state: Result<Self, Error>) {
        match OtaImageState::from_repr(value) {
            Some(state) => Ok(state),
            None => Err(Error::Invalid),
        }
    }
}

impl TryFromSpecImpl<u32> for OtaImageState {
    open spec fn obeys_try_from_spec() -> bool {
        true
    }

    open spec fn try_from_spec(value: u32) -> Result<Self, Error> {
        match OtaImageState::spec_from_repr(value) {
            Some(s) => Ok(s),
            None => Err(Error::Invalid),
        }
    }
}

impl Default for OtaImageState {
    fn default() -> (state: OtaImageState)
        ensures
            state == OtaImageState::Undefined,
    {
        OtaImageState::Undefined
    }
}

/// The four bytes of `x`, least significant first.
pub open spec fn le_bytes(x: u32) -> Seq<u8> {
    seq![
        (x % 256) as u8,
        (x / 256 % 256) as u8,
        (x / 65536 % 256) as u8,
        (x / 16777216) as u8,
    ]
}

/// The word whose bytes, least significant first, are the first four of
/// `bytes`.
pub open spec fn le_u32(bytes: Seq<u8>) -> u32 {
    (bytes[0] + 256 * bytes[1] + 65536 * bytes[2] + 16777216 * bytes[3]) as u32
}

/// The word at `offset` in `data`.
pub open spec fn word_at(data: Seq<u8>, offset: int) -> u32 {
    le_u32(slice_at(data, offset, 4))
}

/// Splitting a word into bytes and joining them gives the word back.
pub proof fn lemma_le_round_trip(x: u32)
    ensures
        le_bytes(x).len() == 4,
        le_u32(le_bytes(x)) == x,
{
}

/// A word written at `offset` is read back from there, and every word that
/// does not overlap it is read back as before.
pub proof fn lemma_word_written(data: Seq<u8>, offset: int, x: u32, other: int)
    requires
        0 <= offset,
        offset + 4 <= data.len(),
    ensures
        word_at(splice(data, offset, le_bytes(x)), offset) == x,
        0 <= other && other + 4 <= data.len() && (other + 4 <= offset || offset + 4 <= other)
            ==> word_at(splice(data, offset, le_bytes(x)), other) == word_at(data, other),
{
    lemma_le_round_trip(x);
    let written = splice(data, offset, le_bytes(x));
    assert(slice_at(written, offset, 4) =~= le_bytes(x));
    if 0 <= other && other + 4 <= data.len() && (other + 4 <= offset || offset + 4 <= other) {
        assert(slice_at(written, other, 4) =~= slice_at(data, other, 4));
    }
}

/// The bytes of `x`, least significant first.
pub fn u32_to_le(x: u32) -> (bytes: Vec<u8>)
    ensures
        bytes@ == le_bytes(x),
{
    let mut bytes: Vec<u8> = Vec::new();
    bytes.push((x % 256) as u8);
    bytes.push((x / 256 % 256) as u8);
    bytes.push((x / 65536 % 256) as u8);
    bytes.push((x / 16777216) as u8);
    assert(bytes@ =~= le_bytes(x));
    bytes
}

/// The word whose bytes, least significant first, are `bytes`.
pub fn u32_from_le(bytes: &Vec<u8>) -> (x: u32)
    requires
        bytes@.len() == 4,
    ensures
        x == le_u32(bytes@),
{
    bytes[0] as u32 + 256 * (bytes[1] as u32) + 65536 * (bytes[2] as u32) + 16777216 * (
    bytes[3] as u32)
}

/// The checksum of `bytes`: the CRC of width 32 with polynomial
/// `0x04c11db7`, initial value 0, reflected input and output, and final
/// inversion.
pub uninterp spec fn crc32_le(bytes: Seq<u8>) -> u32;

/// `crc::Crc::<u32>::checksum`, on an instance that `crc::Crc::<u32>::new`
/// makes for the algorithm that [`crc32_le`] names. The result depends on
/// the bytes alone.
#[verifier::external_body]
fn checksum(bytes: &Vec<u8>) -> (sum: u32)
    ensures
        sum == crc32_le(bytes@),
{
    crc::Crc::<u32>::new(
        &crc::Algorithm {
            width: 32,
            poly: 0x04c11db7,
            init: 0,
            refin: true,
            refout: true,
            xorout: 0xffffffff,
            check: 0,
            residue: 0,
        },
    ).checksum(bytes)
}

/// The checksum that guards the sequence number `seq` in a selection entry.
pub fn sequence_checksum(seq: u32) -> (sum: u32)
    ensures
        sum == crc32_le(le_bytes(seq)),
{
    let bytes = u32_to_le(seq);
    checksum(&bytes)
}

/// The slot that boots with the sequence numbers `seq0` and `seq1` in the
/// two entries: none while both are erased, else the one that is not
/// erased, else slot 0 if its number is the higher and slot 1 if not.
pub open spec fn selected_slot(seq0: u32, seq1: u32) -> Slot {
    if seq0 == ERASED_SEQ && seq1 == ERASED_SEQ {
        Slot::Unset
    } else if seq0 == ERASED_SEQ {
        Slot::Slot1
    } else if seq1 == ERASED_SEQ {
        Slot::Slot0
    } else if seq0 > seq1 {
        Slot::Slot0
    } else {
        Slot::Slot1
    }
}

/// The sequence number that selects a slot over the entries with `seq0` and
/// `seq1`: one more than the highest that is not erased, and 1 while both
/// are erased.
pub open spec fn next_sequence(seq0: u32, seq1: u32) -> u32 {
    if seq0 == ERASED_SEQ && seq1 == ERASED_SEQ {
        1
    } else if seq0 == ERASED_SEQ {
        (seq1 + 1) as u32
    } else if seq1 == ERASED_SEQ {
        (seq0 + 1) as u32
    } else if seq0 >= seq1 {
        (seq0 + 1) as u32
    } else {
        (seq1 + 1) as u32
    }
}

/// OTA data with both entries erased.
pub open spec fn erased(data: Seq<u8>) -> Seq<u8> {
    splice(
        splice(data, SLOT0_DATA_OFFSET as int, Seq::new(ENTRY_SIZE as nat, |i: int| 0xffu8)),
        SLOT1_DATA_OFFSET as int,
        Seq::new(ENTRY_SIZE as nat, |i: int| 0xffu8),
    )
}

/// OTA data in which the entry of `slot` got the sequence number `seq` and
/// the checksum `crc`; the label and the state in the entry stay.
pub open spec fn with_sequence(data: Seq<u8>, slot: Slot, seq: u32, crc: u32) -> Seq<u8> {
    splice(
        splice(data, slot.spec_offset() as int, le_bytes(seq)),
        slot.spec_offset() + ENTRY_CRC_OFFSET,
        le_bytes(crc),
    )
}

/// OTA data in which the entry of `slot` got the image state `state`.
pub open spec fn with_state(data: Seq<u8>, slot: Slot, state: OtaImageState) -> Seq<u8> {
    splice(data, slot.spec_offset() + ENTRY_STATE_OFFSET, le_bytes(state.spec_repr()))
}

/// OTA data after `slot` was made current: erased for [`Slot::Unset`], else
/// with the next sequence number and its checksum in the entry of `slot`.
pub open spec fn with_current_slot(data: Seq<u8>, slot: Slot) -> Seq<u8> {
    if slot == Slot::Unset {
        erased(data)
    } else {
        let seq = next_sequence(
            word_at(data, SLOT0_DATA_OFFSET as int),
            word_at(data, SLOT1_DATA_OFFSET as int),
        );
        with_sequence(data, slot, seq, crc32_le(le_bytes(seq)))
    }
}

/// This is used to manipulate the OTA-data partition.
///
/// This will ever only deal with OTA-0 and OTA-1 since these two slots are
/// supported by the ESP-IDF bootloader.
#[derive(Debug)]
pub struct Ota {
    flash: FlashRegion,
}

impl View for Ota {
    type V = Seq<u8>;

    closed spec fn view(&self) -> Seq<u8> {
        self.flash@
    }
}

impl Ota {
    /// The OTA data has its size.
    pub closed spec fn wf(&self) -> bool {
        &&& self.flash@.len() == OTA_DATA_SIZE
        &&& self.flash.kind() == PartitionType::Data(DataPartitionSubType::Ota)
    }

    /// The sequence number in the entry of slot 0.
    pub open spec fn seq0(&self) -> u32 {
        word_at(self@, SLOT0_DATA_OFFSET as int)
    }

    /// The sequence number in the entry of slot 1.
    pub open spec fn seq1(&self) -> u32 {
        word_at(self@, SLOT1_DATA_OFFSET as int)
    }

    /// The slot that boots next.
    pub open spec fn selected(&self) -> Slot {
        selected_slot(self.seq0(), self.seq1())
    }

    /// The word that stands for the image state in the entry of `slot`.
    pub open spec fn state_word(&self, slot: Slot) -> u32 {
        word_at(self@, slot.spec_offset() + ENTRY_STATE_OFFSET)
    }

    /// Create a [Ota] instance from the given [FlashRegion]
    ///
    /// # Errors
    /// A [Error::InvalidPartition] if the given flash region
    /// doesn't represent a Data/Ota partition or the size is unexpected
    pub fn new(flash: FlashRegion) -> (ota: Result<Ota, Error>)
        ensures
            (flash@.len() == OTA_DATA_SIZE && flash.kind() == PartitionType::Data(
                DataPartitionSubType::Ota,
            )) <==> ota is Ok,
            ota matches Ok(o) ==> o.wf() && o@ == flash@,
            ota matches Err(e) ==> e == (Error::InvalidPartition {
                expected_size: OTA_DATA_SIZE,
                expected_type: PartitionType::Data(DataPartitionSubType::Ota),
            }),
    {
        if flash.capacity() != 0x2000 || flash.partition_type() != PartitionType::Data(
            DataPartitionSubType::Ota,
        ) {
            return Err(
                Error::InvalidPartition {
                    expected_size: 0x2000,
                    expected_type: PartitionType::Data(DataPartitionSubType::Ota),
                },
            );
        }
        Ok(Ota { flash })
    }

    /// The OTA data.
    pub fn flash(&self) -> (flash: &FlashRegion)
        ensures
            flash@ == self@,
    {
        &self.flash
    }

    /// Gives the OTA data back.
    pub fn into_flash(self) -> (flash: FlashRegion)
        ensures
            flash@ == self@,
    {
        self.flash
    }

    fn read_word(&self, offset: usize) -> (word: Result<u32, Error>)
        requires
            self.wf(),
            offset + 4 <= OTA_DATA_SIZE,
        ensures
            word == Ok::<u32, Error>(word_at(self@, offset as int)),
    {
        let bytes = self.flash.read(offset, 4)?;
        Ok(u32_from_le(&bytes))
    }

    fn write_word(&mut self, offset: usize, word: u32) -> (done: Result<(), Error>)
        requires
            old(self).wf(),
            offset + 4 <= OTA_DATA_SIZE,
        ensures
            final(self).wf(),
            done is Ok,
            final(self)@ == splice(old(self)@, offset as int, le_bytes(word)),
    {
        let bytes = u32_to_le(word);
        self.flash.write(offset, &bytes)
    }

    fn get_slot_seq(&mut self) -> (seqs: Result<(u32, u32), Error>)
        requires
            old(self).wf(),
        ensures
            final(self).wf(),
            final(self)@ == old(self)@,
            seqs == Ok::<(u32, u32), Error>((old(self).seq0(), old(self).seq1())),
    {
        let seq0 = self.read_word(SLOT0_DATA_OFFSET)?;
        let seq1 = self.read_word(SLOT1_DATA_OFFSET)?;
        Ok((seq0, seq1))
    }

    /// Returns the currently active OTA-slot.
    pub fn current_slot(&mut self) -> (slot: Result<Slot, Error>)
        requires
            old(self).wf(),
        ensures
            final(self).wf(),
            final(self)@ == old(self)@,
            slot == Ok::<Slot, Error>(old(self).selected()),
    {
        let (seq0, seq1) = self.get_slot_seq()?;

        let slot = if seq0 == 0xffffffff && seq1 == 0xffffffff {
            Slot::Unset
        } else if seq0 == 0xffffffff {
            Slot::Slot1
        } else if seq1 == 0xffffffff {
            Slot::Slot0
        } else if seq0 > seq1 {
            Slot::Slot0
        } else {
            Slot::Slot1
        };

        Ok(slot)
    }

    /// Erases both selection entries.
    pub fn reset(&mut self) -> (done: Result<(), Error>)
        requires
            old(self).wf(),
        ensures
            final(self).wf(),
            done is Ok,
            final(self)@ == erased(old(self)@),
            final(self).selected() == Slot::Unset,
    {
        let mut blank: Vec<u8> = Vec::new();
        let mut i: usize = 0;
        while i < ENTRY_SIZE
            invariant
                i <= ENTRY_SIZE,
                blank@ == Seq::new(i as nat, |k: int| 0xffu8),
            decreases ENTRY_SIZE - i,
        {
            blank.push(0xff);
            i += 1;
        }
        self.flash.write(SLOT0_DATA_OFFSET, &blank)?;
        self.flash.write(SLOT1_DATA_OFFSET, &blank)?;
        proof {
            let data = final(self)@;
            assert(slice_at(data, SLOT0_DATA_OFFSET as int, 4) =~= seq![0xffu8, 0xffu8, 0xffu8, 0xffu8]);
            assert(slice_at(data, SLOT1_DATA_OFFSET as int, 4) =~= seq![0xffu8, 0xffu8, 0xffu8, 0xffu8]);
        }
        Ok(())
    }

    /// Puts the sequence number `seq`, guarded by the checksum `crc`, into
    /// the selection entry of `slot`, which by that becomes current if `seq`
    /// is the higher of the two numbers.
    pub fn write_sequence(&mut self, slot: Slot, seq: u32, crc: u32) -> (done: Result<(), Error>)
        requires
            old(self).wf(),
            slot != Slot::Unset,
        ensures
            final(self).wf(),
            done is Ok,
            final(self)@ == with_sequence(old(self)@, slot, seq, crc),
            word_at(final(self)@, slot.spec_offset() as int) == seq,
            word_at(final(self)@, slot.spec_offset() + ENTRY_CRC_OFFSET) == crc,
            word_at(final(self)@, slot.spec_next().spec_offset() as int) == word_at(
                old(self)@,
                slot.spec_next().spec_offset() as int,
            ),
            final(self).state_word(Slot::Slot0) == old(self).state_word(Slot::Slot0),
            final(self).state_word(Slot::Slot1) == old(self).state_word(Slot::Slot1),
    {
        let offset: usize = slot.offset();
        let ghost before = self@;
        self.write_word(offset, seq)?;
        let ghost between = self@;
        self.write_word(offset + ENTRY_CRC_OFFSET, crc)?;
        proof {
            let other = slot.spec_next().spec_offset() as int;
            lemma_word_written(before, offset as int, seq, other);
            lemma_word_written(before, offset as int, seq, SLOT0_DATA_OFFSET + ENTRY_STATE_OFFSET);
            lemma_word_written(before, offset as int, seq, SLOT1_DATA_OFFSET + ENTRY_STATE_OFFSET);
            lemma_word_written(between, offset + ENTRY_CRC_OFFSET, crc, offset as int);
            lemma_word_written(between, offset + ENTRY_CRC_OFFSET, crc, other);
            lemma_word_written(
                between,
                offset + ENTRY_CRC_OFFSET,
                crc,
                SLOT0_DATA_OFFSET + ENTRY_STATE_OFFSET,
            );
            lemma_word_written(
                between,
                offset + ENTRY_CRC_OFFSET,
                crc,
                SLOT1_DATA_OFFSET + ENTRY_STATE_OFFSET,
            );
        }
        Ok(())
    }

    /// Sets the currently active OTA-slot.
    ///
    /// Passing [Slot::Unset] will reset the OTA-data. Any other slot gets
    /// the next sequence number and is then the current one, unless that
    /// number is the one that marks an erased entry.
    pub fn set_current_slot(&mut self, slot: Slot) -> (done: Result<(), Error>)
        requires
            old(self).wf(),
        ensures
            final(self).wf(),
            done is Ok,
            final(self)@ == with_current_slot(old(self)@, slot),
            slot == Slot::Unset || next_sequence(old(self).seq0(), old(self).seq1()) != ERASED_SEQ
                ==> final(self).selected() == slot,
    {
        if slot == Slot::Unset {
            self.reset()?;
            return Ok(());
        }
        let (seq0, seq1) = self.get_slot_seq()?;

        let new_seq: u32 = {
            if seq0 == 0xffffffff && seq1 == 0xffffffff {
                1
            } else if seq0 == 0xffffffff {
                seq1 + 1
            } else if seq1 == 0xffffffff {
                seq0 + 1
            } else if seq0 >= seq1 {
                seq0 + 1
            } else {
                seq1 + 1
            }
        };

        let checksum = sequence_checksum(new_seq);

        self.write_sequence(slot, new_seq, checksum)?;

        Ok(())
    }

    /// Set the [OtaImageState] of the currently selected slot.
    ///
    /// # Errors
    /// A [Error::InvalidState] if the currently selected
    /// slot is [Slot::Unset]
    pub fn set_current_ota_state(&mut self, state: OtaImageState) -> (done: Result<(), Error>)
        requires
            old(self).wf(),
        ensures
            final(self).wf(),
            old(self).selected() != Slot::Unset <==> done is Ok,
            done matches Err(e) ==> e == Error::InvalidState && final(self)@ == old(self)@,
            done is Ok ==> {
                &&& final(self)@ == with_state(old(self)@, old(self).selected(), state)
                &&& final(self).selected() == old(self).selected()
                &&& final(self).state_word(old(self).selected()) == state.spec_repr()
            },
    {
        match self.current_slot()? {
            Slot::Unset => Err(Error::InvalidState),
            slot => {
                let ghost before = self@;
                let offset: usize = slot.offset() + ENTRY_STATE_OFFSET;
                self.write_word(offset, state.repr())?;
                proof {
                    lemma_word_written(
                        before,
                        offset as int,
                        state.spec_repr(),
                        SLOT0_DATA_OFFSET as int,
                    );
                    lemma_word_written(
                        before,
                        offset as int,
                        state.spec_repr(),
                        SLOT1_DATA_OFFSET as int,
                    );
                }
                Ok(())
            },
        }
    }

    /// Get the [OtaImageState] of the currently selected slot.
    ///
    /// # Errors
    /// A [Error::InvalidState] if the currently selected
    /// slot is [Slot::Unset]; a [Error::Invalid] if the entry of the
    /// selected slot holds a word that stands for no state.
    pub fn current_ota_state(&mut self) -> (state: Result<OtaImageState, Error>)
        requires
            old(self).wf(),
        ensures
            final(self).wf(),
            final(self)@ == old(self)@,
            state == (if old(self).selected() == Slot::Unset {
                Err::<OtaImageState, Error>(Error::InvalidState)
            } else {
                match OtaImageState::spec_from_repr(old(self).state_word(old(self).selected())) {
                    Some(s) => Ok::<OtaImageState, Error>(s),
                    None => Err::<OtaImageState, Error>(Error::Invalid),
                }
            }),
    {
        match self.current_slot()? {
            Slot::Unset => Err(Error::InvalidState),
            slot => {
                let word = self.read_word(slot.offset() + ENTRY_STATE_OFFSET)?;
                OtaImageState::try_from(word)
            },
        }
    }
}

} // verus!
