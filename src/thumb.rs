use crate::cond::{cond_at, lemma_cond_round_trip, lemma_mask_round_trip, Cond};
use crate::error::CodecError;
use vstd::prelude::*;

verus! {

/// A 16-bit Thumb instruction, classified.
#[derive(Debug, Clone, Copy, PartialEq, Eq, Structural)]
pub enum ThumbOp {
    /// `if cond { PC += offset * 2 }`, with PC four bytes past this
    /// instruction. `offset` is the raw signed byte, before any shift. Only a
    /// `cond` other than `AL` and `EXT` survives encoding and decoding: their
    /// masks select the other two forms of the group.
    ConditionalBranch { cond: Cond, offset: i8 },
    /// The immediate means something only to the interrupt handler.
    SoftwareInterrupt { immediate: u8 },
    /// An undefined instruction that no future revision will define. The low
    /// eight bits are ignored.
    UndefinedInstruction,
    /// An undefined instruction that a future revision may define; many bit
    /// patterns map to it.
    UndefinedFutureUse,
    /// An encoding whose behaviour the architecture leaves unspecified.
    UNPREDICTABLE,
}

/// Bits 15..12 of a word: its classification group.
pub open spec fn group_of(w: u16) -> int {
    w as int / 4096
}

/// Bits 11..8 of a word: the sub-group, or the condition mask of a branch.
pub open spec fn subgroup_of(w: u16) -> int {
    (w as int / 256) % 16
}

/// Bits 7..0 of a word.
pub open spec fn low_byte(w: u16) -> int {
    w as int % 256
}

/// The byte `b` read as a two's-complement number.
pub open spec fn signed_of_byte(b: int) -> int {
    if b < 128 {
        b
    } else {
        b - 256
    }
}

/// The two's-complement byte of `o`.
pub open spec fn byte_of_offset(o: i8) -> int {
    if o < 0 {
        o + 256
    } else {
        o as int
    }
}

/// The slots of the miscellaneous group that are unassigned, and reserved
/// for future use.
pub open spec fn is_future_use_slot(sub: int) -> bool {
    sub == 0b0001 || sub == 0b0011 || sub == 0b0111 || sub == 0b1000 || sub == 0b1001
        || sub == 0b1011
}

/// A condition that a conditional branch can carry.
pub open spec fn is_branch_cond(c: Cond) -> bool {
    c != Cond::AL && c != Cond::EXT
}

/// What `ThumbOp::decode` gives for the word `w`.
pub open spec fn decoded(w: u16) -> Result<ThumbOp, CodecError> {
    let sub = subgroup_of(w);
    if group_of(w) == 0b1011 && is_future_use_slot(sub) {
        Ok(ThumbOp::UndefinedFutureUse)
    } else if group_of(w) == 0b1101 {
        if sub == 0b1110 {
            Ok(ThumbOp::UndefinedInstruction)
        } else if sub == 0b1111 {
            Ok(ThumbOp::SoftwareInterrupt { immediate: low_byte(w) as u8 })
        } else {
            Ok(
                ThumbOp::ConditionalBranch {
                    cond: cond_at(sub),
                    offset: signed_of_byte(low_byte(w)) as i8,
                },
            )
        }
    } else {
        Err(CodecError::Unclassified(w))
    }
}

/// What `ThumbOp::encode` gives for `op`.
pub open spec fn encoded(op: ThumbOp) -> Result<u16, CodecError> {
    match op {
        ThumbOp::UndefinedFutureUse => Ok(0b1011_0001_0000_0000),
        ThumbOp::UndefinedInstruction => Ok(0b1101_1110_0000_0000),
        ThumbOp::SoftwareInterrupt { immediate } => Ok(
            (0b1101_1111_0000_0000 + immediate) as u16,
        ),
        ThumbOp::ConditionalBranch { cond, offset } => Ok(
            (0b1101_0000_0000_0000 + cond.mask() * 256 + byte_of_offset(offset)) as u16,
        ),
        ThumbOp::UNPREDICTABLE => Err(CodecError::NotEncodable),
    }
}

impl ThumbOp {
    /// Classifies the instruction word `opcode`. The top four bits select a
    /// group; only the miscellaneous group (its unassigned slots) and the
    /// conditional branch / software interrupt group are classified, every
    /// other word gives `Unclassified`.
    pub fn decode(opcode: u16) -> (r: Result<ThumbOp, CodecError>)
        ensures
            r == decoded(opcode),
    {
        let group: u16 = opcode >> 12;
        let sub: u16 = (opcode >> 8) & 0b1111;
        let low: u16 = opcode & 0b1111_1111;
        assert(opcode >> 12 == opcode / 4096) by (bit_vector);
        assert((opcode >> 8) & 0b1111 == (opcode / 256) % 16) by (bit_vector);
        assert(opcode & 0b1111_1111 == opcode % 256) by (bit_vector);
        match group {
            0b1011 => match sub {
                0b0001 | 0b0011 | 0b0111 | 0b1000 | 0b1001 | 0b1011 => Ok(
                    ThumbOp::UndefinedFutureUse,
                ),
                _ => Err(CodecError::Unclassified(opcode)),
            },
            0b1101 => match Cond::from_mask(sub) {
                Ok(Cond::AL) => Ok(ThumbOp::UndefinedInstruction),
                Ok(Cond::EXT) => Ok(ThumbOp::SoftwareInterrupt { immediate: low as u8 }),
                Ok(cond) => {
                    let offset: i8 = if low < 128 {
                        low as i8
                    } else {
                        (low as i16 - 256) as i8
                    };
                    Ok(ThumbOp::ConditionalBranch { cond, offset })
                },
                // not reached: `sub` is below 16
                Err(e) => Err(e),
            },
            _ => Err(CodecError::Unclassified(opcode)),
        }
    }

    /// The instruction word of the instruction: a fixed representative for
    /// the two undefined forms, the fields packed into their bits for the
    /// others. `UNPREDICTABLE` has no encoding yet.
    pub fn encode(self) -> (r: Result<u16, CodecError>)
        ensures
            r == encoded(self),
    {
        match self {
            ThumbOp::UndefinedFutureUse => Ok(0b1011_0001_0000_0000),
            ThumbOp::UndefinedInstruction => Ok(0b1101_1110_0000_0000),
            ThumbOp::SoftwareInterrupt { immediate } => Ok(0b1101_1111_0000_0000 + immediate as u16),
            ThumbOp::ConditionalBranch { cond, offset } => {
                let byte: u16 = if offset < 0 {
                    (offset as i16 + 256) as u16
                } else {
                    offset as u16
                };
                Ok(0b1101_0000_0000_0000 + cond.to_mask() * 256 + byte)
            },
            ThumbOp::UNPREDICTABLE => Err(CodecError::NotEncodable),
        }
    }
}

/// Encoding an instruction and decoding the word gives the instruction back,
/// for every instruction that has an encoding and, for a branch, a condition
/// other than `AL` and `EXT`.
pub proof fn lemma_decode_encode(op: ThumbOp)
    requires
        !(op is UNPREDICTABLE),
        op is ConditionalBranch ==> is_branch_cond(op->ConditionalBranch_cond),
    ensures
        encoded(op) is Ok,
        decoded(encoded(op)->Ok_0) == Ok::<ThumbOp, CodecError>(op),
{
    if let ThumbOp::ConditionalBranch { cond, offset } = op {
        lemma_cond_round_trip(cond);
    }
}

/// Decoding a word of the branch and software interrupt group, other than an
/// undefined instruction, and encoding the result gives the word back.
pub proof fn lemma_encode_decode(w: u16)
    requires
        group_of(w) == 0b1101,
        subgroup_of(w) != 0b1110,
    ensures
        decoded(w) is Ok,
        encoded(decoded(w)->Ok_0) == Ok::<u16, CodecError>(w),
{
    if subgroup_of(w) < 0b1110 {
        lemma_mask_round_trip(subgroup_of(w) as u16);
    }
}

} // verus!
