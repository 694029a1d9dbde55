use arm_opcode::{CodecError, Cond, ThumbOp};

#[test]
fn test_conditional_branch() {
    for offset in i8::MIN..=i8::MAX {
        for cond in Cond::array().iter().cloned() {
            if cond == Cond::AL || cond == Cond::EXT {
                continue;
            }
            let start = ThumbOp::ConditionalBranch { cond, offset };
            let decoded = ThumbOp::decode(start.encode().unwrap()).unwrap();
            assert_eq!(start, decoded);
        }
    }
}

#[test]
fn test_undefined() {
    assert_eq!(
        ThumbOp::decode(ThumbOp::UndefinedInstruction.encode().unwrap()).unwrap(),
        ThumbOp::UndefinedInstruction
    );
}

#[test]
fn future_use_round_trip() {
    assert_eq!(
        ThumbOp::decode(ThumbOp::UndefinedFutureUse.encode().unwrap()),
        Ok(ThumbOp::UndefinedFutureUse)
    );
}

#[test]
fn software_interrupt_round_trip() {
    for immediate in 0..=u8::MAX {
        let op = ThumbOp::SoftwareInterrupt { immediate };
        assert_eq!(ThumbOp::decode(op.encode().unwrap()), Ok(op));
    }
}

#[test]
fn decode_vectors() {
    assert_eq!(
        ThumbOp::decode(0b1101_1111_0000_0101),
        Ok(ThumbOp::SoftwareInterrupt { immediate: 5 })
    );
    assert_eq!(
        ThumbOp::decode(0b1101_1110_0000_0000),
        Ok(ThumbOp::UndefinedInstruction)
    );
    assert_eq!(
        ThumbOp::decode(0b1101_0000_1111_1110),
        Ok(ThumbOp::ConditionalBranch { cond: Cond::EQ, offset: -2 })
    );
    assert_eq!(
        ThumbOp::decode(0b1101_1101_0111_1111),
        Ok(ThumbOp::ConditionalBranch { cond: Cond::LE, offset: 127 })
    );
    assert_eq!(
        ThumbOp::decode(0b1101_1010_1000_0000),
        Ok(ThumbOp::ConditionalBranch { cond: Cond::GE, offset: -128 })
    );
}

#[test]
fn undefined_ignores_low_byte() {
    assert_eq!(
        ThumbOp::decode(0b1101_1110_1010_0101),
        Ok(ThumbOp::UndefinedInstruction)
    );
}

#[test]
fn miscellaneous_group() {
    for sub in 0u16..16 {
        let word = 0b1011_0000_0000_0000 | (sub << 8) | 0x5A;
        let expected = match sub {
            0b0001 | 0b0011 | 0b0111 | 0b1000 | 0b1001 | 0b1011 => Ok(ThumbOp::UndefinedFutureUse),
            _ => Err(CodecError::Unclassified(word)),
        };
        assert_eq!(ThumbOp::decode(word), expected);
    }
}

#[test]
fn unclassified_groups() {
    for group in 0u16..16 {
        if group == 0b1011 || group == 0b1101 {
            continue;
        }
        let word = (group << 12) | 0x0123;
        assert_eq!(ThumbOp::decode(word), Err(CodecError::Unclassified(word)));
    }
}

#[test]
fn encode_vectors() {
    assert_eq!(ThumbOp::UndefinedFutureUse.encode(), Ok(0b1011_0001_0000_0000));
    assert_eq!(ThumbOp::UndefinedInstruction.encode(), Ok(0b1101_1110_0000_0000));
    assert_eq!(
        ThumbOp::SoftwareInterrupt { immediate: 0xA5 }.encode(),
        Ok(0b1101_1111_1010_0101)
    );
    assert_eq!(
        ThumbOp::ConditionalBranch { cond: Cond::GE, offset: -128 }.encode(),
        Ok(0b1101_1010_1000_0000)
    );
    assert_eq!(
        ThumbOp::ConditionalBranch { cond: Cond::NE, offset: -1 }.encode(),
        Ok(0b1101_0001_1111_1111)
    );
    assert_eq!(
        ThumbOp::ConditionalBranch { cond: Cond::LS, offset: 3 }.encode(),
        Ok(0b1101_1001_0000_0011)
    );
}

#[test]
fn unpredictable_has_no_encoding() {
    assert_eq!(ThumbOp::UNPREDICTABLE.encode(), Err(CodecError::NotEncodable));
}

#[test]
fn branch_group_words_round_trip() {
    for low in 0u16..256 {
        for sub in 0u16..16 {
            if sub == 0b1110 {
                continue;
            }
            let word = 0b1101_0000_0000_0000 | (sub << 8) | low;
            let op = ThumbOp::decode(word).unwrap();
            assert_eq!(op.encode(), Ok(word));
        }
    }
}
