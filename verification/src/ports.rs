//! Device inputs and outputs: the records the driver reports when they are
//! enumerated, and the cursors that sequence the enumeration.

use vstd::prelude::*;

use crate::bytestr::{byte_array_to_str, field_decodes, spec_field_text};
use crate::codec::{read_u32_at, read_u64_at, spec_u32_at, spec_u64_at};
use crate::error::StreamError;

verus! {

/// Total size in bytes of an encoded input record: an index word, a 32-byte
/// zero-padded name, the type, audio-set and tuner words, a 64-bit analog
/// standard set, the status and capability words and sixteen reserved bytes.
pub const INPUT_RECORD_SIZE: usize = 80;

/// Total size in bytes of an encoded output record: laid out as the input
/// record, with a modulator word in place of the tuner word, no status word,
/// and twelve reserved bytes.
pub const OUTPUT_RECORD_SIZE: usize = 72;

/// Input type code: the input is fed by a tuner.
pub const INPUT_TYPE_TUNER: u32 = 1;

/// Input type code: the input is a camera or other baseband source.
pub const INPUT_TYPE_CAMERA: u32 = 2;

/// Input type code: the input is a touch device.
pub const INPUT_TYPE_TOUCH: u32 = 3;

/// Output type code: the output drives a modulator.
pub const OUTPUT_TYPE_MODULATOR: u32 = 1;

/// Output type code: the output is an analog baseband output.
pub const OUTPUT_TYPE_ANALOG: u32 = 2;

/// What kind of device an input is.
#[derive(Clone, Copy, PartialEq, Eq, Structural, Debug)]
pub struct InputType {
    /// The driver's numeric input-type code.
    pub code: u32,
}

/// What kind of device an output is.
#[derive(Clone, Copy, PartialEq, Eq, Structural, Debug)]
pub struct OutputType {
    /// The driver's numeric output-type code.
    pub code: u32,
}

/// A set of supported analog video standards.
#[derive(Clone, Copy, PartialEq, Eq, Structural, Debug)]
pub struct AnalogStd {
    /// One bit per analog standard.
    pub bits: u64,
}

/// The current status of an input.
#[derive(Clone, Copy, PartialEq, Eq, Structural, Debug)]
pub struct InputStatus {
    /// One bit per status condition.
    pub bits: u32,
}

/// The capability flags of an input.
#[derive(Clone, Copy, PartialEq, Eq, Structural, Debug)]
pub struct InputCapabilities {
    /// One bit per input capability.
    pub bits: u32,
}

/// The capability flags of an output.
#[derive(Clone, Copy, PartialEq, Eq, Structural, Debug)]
pub struct OutputCapabilities {
    /// One bit per output capability.
    pub bits: u32,
}

/// The name field of an input or output record.
pub open spec fn spec_name_field(bytes: Seq<u8>) -> Seq<u8> {
    bytes.subrange(4, 36)
}

/// True when a byte sequence is a decodable input record: the right size,
/// with a terminated UTF-8 name.
pub open spec fn input_record_ok(bytes: Seq<u8>) -> bool {
    bytes.len() == INPUT_RECORD_SIZE && field_decodes(spec_name_field(bytes))
}

/// True when a byte sequence is a decodable output record.
pub open spec fn output_record_ok(bytes: Seq<u8>) -> bool {
    bytes.len() == OUTPUT_RECORD_SIZE && field_decodes(spec_name_field(bytes))
}

/// True when `inp` holds exactly the fields spelled by the record `bytes`.
pub open spec fn input_matches_record(inp: Input, bytes: Seq<u8>) -> bool {
    &&& inp.index == spec_u32_at(bytes, 0)
    &&& inp.name_text@ == spec_field_text(spec_name_field(bytes))
    &&& inp.ty.code == spec_u32_at(bytes, 36)
    &&& inp.audioset_mask == spec_u32_at(bytes, 40)
    &&& inp.tuner_index == spec_u32_at(bytes, 44)
    &&& inp.std_bits.bits == spec_u64_at(bytes, 48)
    &&& inp.status_bits.bits == spec_u32_at(bytes, 56)
    &&& inp.caps.bits == spec_u32_at(bytes, 60)
}

/// True when `out` holds exactly the fields spelled by the record `bytes`.
pub open spec fn output_matches_record(out: Output, bytes: Seq<u8>) -> bool {
    &&& out.index == spec_u32_at(bytes, 0)
    &&& out.name_text@ == spec_field_text(spec_name_field(bytes))
    &&& out.ty.code == spec_u32_at(bytes, 36)
    &&& out.audioset_mask == spec_u32_at(bytes, 40)
    &&& out.modulator_index == spec_u32_at(bytes, 44)
    &&& out.std_bits.bits == spec_u64_at(bytes, 48)
    &&& out.caps.bits == spec_u32_at(bytes, 56)
}

/// Information about one device input.
#[derive(Debug)]
pub struct Input {
    /// The input's ordinal index.
    pub index: u32,
    /// The input's name.
    pub name_text: String,
    /// What kind of device the input is.
    pub ty: InputType,
    /// The selectable audio sources while this input is active.
    pub audioset_mask: u32,
    /// The tuner index, meaningful for tuner inputs only.
    pub tuner_index: u32,
    /// The supported analog video standards.
    pub std_bits: AnalogStd,
    /// The input's current status.
    pub status_bits: InputStatus,
    /// The input's capability flags.
    pub caps: InputCapabilities,
}

impl Input {
    /// Returns the name of the input.
    pub fn name(&self) -> (r: &str)
        ensures
            r@ == self.name_text@,
    {
        self.name_text.as_str()
    }

    /// Returns what kind of device this input is.
    pub fn input_type(&self) -> (r: InputType)
        ensures
            r == self.ty,
    {
        self.ty
    }

    /// Returns the set of selectable audio sources when this input is
    /// active.
    pub fn audioset(&self) -> (r: u32)
        ensures
            r == self.audioset_mask,
    {
        self.audioset_mask
    }

    /// Returns the tuner index; meaningful only for tuner inputs.
    pub fn tuner(&self) -> (r: u32)
        ensures
            r == self.tuner_index,
    {
        self.tuner_index
    }

    /// Returns the set of supported analog video standards for this input.
    pub fn analog_std(&self) -> (r: AnalogStd)
        ensures
            r == self.std_bits,
    {
        self.std_bits
    }

    /// Returns the current status of the input; most fields are valid only
    /// while the input is selected as active.
    pub fn status(&self) -> (r: InputStatus)
        ensures
            r == self.status_bits,
    {
        self.status_bits
    }

    /// Returns the capability flags of this input.
    pub fn capabilities(&self) -> (r: InputCapabilities)
        ensures
            r == self.caps,
    {
        self.caps
    }
}

/// Information about one device output.
#[derive(Debug)]
pub struct Output {
    /// The output's ordinal index.
    pub index: u32,
    /// The output's name.
    pub name_text: String,
    /// What kind of device the output is.
    pub ty: OutputType,
    /// The selectable audio sources while this output is active.
    pub audioset_mask: u32,
    /// The modulator index, meaningful for modulator outputs only.
    pub modulator_index: u32,
    /// The supported analog video standards.
    pub std_bits: AnalogStd,
    /// The output's capability flags.
    pub caps: OutputCapabilities,
}

impl Output {
    /// Returns the output's name.
    pub fn name(&self) -> (r: &str)
        ensures
            r@ == self.name_text@,
    {
        self.name_text.as_str()
    }

    /// Returns what kind of device this output is.
    pub fn output_type(&self) -> (r: OutputType)
        ensures
            r == self.ty,
    {
        self.ty
    }

    /// Returns the set of selectable audio sources when this output is
    /// active.
    pub fn audioset(&self) -> (r: u32)
        ensures
            r == self.audioset_mask,
    {
        self.audioset_mask
    }

    /// Returns the modulator index; meaningful only for modulator outputs.
    pub fn modulator(&self) -> (r: u32)
        ensures
            r == self.modulator_index,
    {
        self.modulator_index
    }

    /// Returns the set of supported analog video standards.
    pub fn analog_std(&self) -> (r: AnalogStd)
        ensures
            r == self.std_bits,
    {
        self.std_bits
    }

    /// Returns the capability flags of this output.
    pub fn capabilities(&self) -> (r: OutputCapabilities)
        ensures
            r == self.caps,
    {
        self.caps
    }
}

/// Decodes a driver-returned input record.
///
/// The name is fixed-width, zero-padded UTF-8 (in practice ASCII); a missing
/// terminator, text that is not UTF-8, or a record of the wrong size is a
/// `MalformedResponse`.
pub fn decode_input(bytes: &[u8]) -> (r: Result<Input, StreamError>)
    ensures
        r is Ok <==> input_record_ok(bytes@),
        r matches Ok(inp) ==> input_matches_record(inp, bytes@),
        r matches Err(e) ==> e == StreamError::MalformedResponse,
{
    let n = bytes.len();
    if n != INPUT_RECORD_SIZE {
        return Err(StreamError::MalformedResponse);
    }
    let name_text = match byte_array_to_str(vstd::slice::slice_subrange(bytes, 4, 36)) {
        Ok(s) => s,
        Err(_) => {
            return Err(StreamError::MalformedResponse);
        },
    };
    Ok(
        Input {
            index: read_u32_at(bytes, 0),
            name_text,
            ty: InputType { code: read_u32_at(bytes, 36) },
            audioset_mask: read_u32_at(bytes, 40),
            tuner_index: read_u32_at(bytes, 44),
            std_bits: AnalogStd { bits: read_u64_at(bytes, 48) },
            status_bits: InputStatus { bits: read_u32_at(bytes, 56) },
            caps: InputCapabilities { bits: read_u32_at(bytes, 60) },
        },
    )
}

/// Decodes a driver-returned output record.
///
/// The name is fixed-width, zero-padded UTF-8 (in practice ASCII); a missing
/// terminator, text that is not UTF-8, or a record of the wrong size is a
/// `MalformedResponse`.
pub fn decode_output(bytes: &[u8]) -> (r: Result<Output, StreamError>)
    ensures
        r is Ok <==> output_record_ok(bytes@),
        r matches Ok(out) ==> output_matches_record(out, bytes@),
        r matches Err(e) ==> e == StreamError::MalformedResponse,
{
    let n = bytes.len();
    if n != OUTPUT_RECORD_SIZE {
        return Err(StreamError::MalformedResponse);
    }
    let name_text = match byte_array_to_str(vstd::slice::slice_subrange(bytes, 4, 36)) {
        Ok(s) => s,
        Err(_) => {
            return Err(StreamError::MalformedResponse);
        },
    };
    Ok(
        Output {
            index: read_u32_at(bytes, 0),
            name_text,
            ty: OutputType { code: read_u32_at(bytes, 36) },
            audioset_mask: read_u32_at(bytes, 40),
            modulator_index: read_u32_at(bytes, 44),
            std_bits: AnalogStd { bits: read_u64_at(bytes, 48) },
            caps: OutputCapabilities { bits: read_u32_at(bytes, 56) },
        },
    )
}

/// What the driver answered to one "enumerate input/output" request.
pub enum EnumReply {
    /// The record for the requested index.
    Record(Vec<u8>),
    /// The requested index is past the last input or output: enumeration is
    /// complete.
    InvalidIndex,
    /// The request failed hard.
    Failed,
}

/// Cursor over the inputs of a device.
///
/// The caller issues one "enumerate input" request per step, at the index
/// the cursor names, and feeds the reply back in; the cursor decides whether
/// the enumeration yields a record, ends, or fails, and never asks again
/// after the end or after a failure.
pub struct InputIter {
    /// The index the next request must carry.
    pub next_index: u32,
    /// True once enumeration has ended or failed.
    pub finished: bool,
}

impl InputIter {
    /// A cursor standing before the first input.
    pub fn new() -> (r: InputIter)
        ensures
            r.next_index == 0,
            !r.finished,
    {
        InputIter { next_index: 0, finished: false }
    }

    /// The index the next "enumerate input" request must carry, or `None`
    /// when the enumeration is over.
    pub fn pending_index(&self) -> (r: Option<u32>)
        ensures
            r == if self.finished {
                None::<u32>
            } else {
                Some(self.next_index)
            },
    {
        if self.finished {
            None
        } else {
            Some(self.next_index)
        }
    }

    /// Steps the enumeration with the driver's reply.
    ///
    /// `InvalidIndex` ends the enumeration silently; a hard failure ends it
    /// with an `Io` error. A record that decodes, and whose index field
    /// echoes the index the cursor asked for, is yielded exactly as decoded
    /// and the cursor advances; any other record ends the enumeration with
    /// `MalformedResponse`. A finished cursor yields nothing, whatever the
    /// reply.
    pub fn next(&mut self, reply: &EnumReply) -> (r: Option<Result<Input, StreamError>>)
        requires
            old(self).next_index < u32::MAX,
        ensures
            old(self).finished ==> r is None && *final(self) == *old(self),
            !old(self).finished ==> match reply {
                EnumReply::InvalidIndex => r is None && final(self).finished
                    && final(self).next_index == old(self).next_index,
                EnumReply::Failed => r == Some(Err::<Input, StreamError>(StreamError::Io))
                    && final(self).finished && final(self).next_index == old(self).next_index,
                EnumReply::Record(bytes) => match r {
                    Some(Ok(inp)) => {
                        &&& input_record_ok(bytes@)
                        &&& input_matches_record(inp, bytes@)
                        &&& inp.index == old(self).next_index
                        &&& !final(self).finished
                        &&& final(self).next_index == old(self).next_index + 1
                    },
                    Some(Err(e)) => e == StreamError::MalformedResponse && final(self).finished
                        && final(self).next_index == old(self).next_index && !(input_record_ok(
                        bytes@,
                    ) && spec_u32_at(bytes@, 0) == old(self).next_index),
                    None => false,
                },
            },
    {
        if self.finished {
            return None;
        }
        match reply {
            EnumReply::InvalidIndex => {
                self.finished = true;
                None
            },
            EnumReply::Failed => {
                self.finished = true;
                Some(Err(StreamError::Io))
            },
            EnumReply::Record(bytes) => match decode_input(bytes.as_slice()) {
                Ok(inp) => {
                    if inp.index != self.next_index {
                        self.finished = true;
                        return Some(Err(StreamError::MalformedResponse));
                    }
                    self.next_index = self.next_index + 1;
                    Some(Ok(inp))
                },
                Err(e) => {
                    self.finished = true;
                    Some(Err(e))
                },
            },
        }
    }
}

/// Cursor over the outputs of a device.
///
/// The caller issues one "enumerate output" request per step, at the index
/// the cursor names, and feeds the reply back in, as with [`InputIter`].
pub struct OutputIter {
    /// The index the next request must carry.
    pub next_index: u32,
    /// True once enumeration has ended or failed.
    pub finished: bool,
}

impl OutputIter {
    /// A cursor standing before the first output.
    pub fn new() -> (r: OutputIter)
        ensures
            r.next_index == 0,
            !r.finished,
    {
        OutputIter { next_index: 0, finished: false }
    }

    /// The index the next "enumerate output" request must carry, or `None`
    /// when the enumeration is over.
    pub fn pending_index(&self) -> (r: Option<u32>)
        ensures
            r == if self.finished {
                None::<u32>
            } else {
                Some(self.next_index)
            },
    {
        if self.finished {
            None
        } else {
            Some(self.next_index)
        }
    }

    /// Steps the enumeration with the driver's reply, as with
    /// [`InputIter::next`]: a record that decodes with the requested index
    /// is yielded exactly as decoded, anything else ends the enumeration.
    pub fn next(&mut self, reply: &EnumReply) -> (r: Option<Result<Output, StreamError>>)
        requires
            old(self).next_index < u32::MAX,
        ensures
            old(self).finished ==> r is None && *final(self) == *old(self),
            !old(self).finished ==> match reply {
                EnumReply::InvalidIndex => r is None && final(self).finished
                    && final(self).next_index == old(self).next_index,
                EnumReply::Failed => r == Some(Err::<Output, StreamError>(StreamError::Io))
                    && final(self).finished && final(self).next_index == old(self).next_index,
                EnumReply::Record(bytes) => match r {
                    Some(Ok(out)) => {
                        &&& output_record_ok(bytes@)
                        &&& output_matches_record(out, bytes@)
                        &&& out.index == old(self).next_index
                        &&& !final(self).finished
                        &&& final(self).next_index == old(self).next_index + 1
                    },
                    Some(Err(e)) => e == StreamError::MalformedResponse && final(self).finished
                        && final(self).next_index == old(self).next_index && !(output_record_ok(
                        bytes@,
                    ) && spec_u32_at(bytes@, 0) == old(self).next_index),
                    None => false,
                },
            },
    {
        if self.finished {
            return None;
        }
        match reply {
            EnumReply::InvalidIndex => {
                self.finished = true;
                None
            },
            EnumReply::Failed => {
                self.finished = true;
                Some(Err(StreamError::Io))
            },
            EnumReply::Record(bytes) => match decode_output(bytes.as_slice()) {
                Ok(out) => {
                    if out.index != self.next_index {
                        self.finished = true;
                        return Some(Err(StreamError::MalformedResponse));
                    }
                    self.next_index = self.next_index + 1;
                    Some(Ok(out))
                },
                Err(e) => {
                    self.finished = true;
                    Some(Err(e))
                },
            },
        }
    }
}

} // verus!
