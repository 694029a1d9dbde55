use crate::error::CodecError;
use vstd::prelude::*;
use vstd::utf8::encode_utf8_decode_utf8;

verus! {

/// The condition under which a conditional instruction executes.
#[derive(Debug, Clone, Copy, PartialEq, Eq, Structural)]
pub enum Cond {
    /// Equal (Z set).
    EQ,
    /// Not equal (Z clear).
    NE,
    /// Carry set, or unsigned higher or same (C set).
    CSHS,
    /// Carry clear, or unsigned lower (C clear).
    CCLO,
    /// Minus, negative (N set).
    MI,
    /// Plus, positive or zero (N clear).
    PL,
    /// Overflow (V set).
    VS,
    /// No overflow (V clear).
    VC,
    /// Unsigned higher (C set and Z clear).
    HI,
    /// Unsigned lower or same (C clear or Z set).
    LS,
    /// Signed greater than or equal (N == V).
    GE,
    /// Signed less than (N != V).
    LT,
    /// Signed greater than (Z clear and N == V).
    GT,
    /// Signed less than or equal (Z set or N != V).
    LE,
    /// Always.
    AL,
    /// Not a condition: the slot that later revisions reuse for extensions.
    EXT,
}

/// The condition whose mask is `m`, for `m` in `0..16` (`EXT` for all `m`
/// from 15 on).
pub open spec fn cond_at(m: int) -> Cond {
    if m == 0 {
        Cond::EQ
    } else if m == 1 {
        Cond::NE
    } else if m == 2 {
        Cond::CSHS
    } else if m == 3 {
        Cond::CCLO
    } else if m == 4 {
        Cond::MI
    } else if m == 5 {
        Cond::PL
    } else if m == 6 {
        Cond::VS
    } else if m == 7 {
        Cond::VC
    } else if m == 8 {
        Cond::HI
    } else if m == 9 {
        Cond::LS
    } else if m == 10 {
        Cond::GE
    } else if m == 11 {
        Cond::LT
    } else if m == 12 {
        Cond::GT
    } else if m == 13 {
        Cond::LE
    } else if m == 14 {
        Cond::AL
    } else {
        Cond::EXT
    }
}

/// What `Cond::from_mask` gives for `m`.
pub open spec fn cond_from_mask(m: u16) -> Result<Cond, CodecError> {
    if m < 16 {
        Ok(cond_at(m as int))
    } else {
        Err(CodecError::MaskOutOfRange(m))
    }
}

/// The condition that the text `s` names, if any. Matching is exact: only
/// the lower-case mnemonics are known, and `hs` and `lo` stand beside `cs` and
/// `cc`.
pub open spec fn cond_from_mnemonic(s: Seq<char>) -> Option<Cond> {
    if s == "eq"@ {
        Some(Cond::EQ)
    } else if s == "ne"@ {
        Some(Cond::NE)
    } else if s == "cs"@ || s == "hs"@ {
        Some(Cond::CSHS)
    } else if s == "cc"@ || s == "lo"@ {
        Some(Cond::CCLO)
    } else if s == "mi"@ {
        Some(Cond::MI)
    } else if s == "pl"@ {
        Some(Cond::PL)
    } else if s == "vs"@ {
        Some(Cond::VS)
    } else if s == "vc"@ {
        Some(Cond::VC)
    } else if s == "hi"@ {
        Some(Cond::HI)
    } else if s == "ls"@ {
        Some(Cond::LS)
    } else if s == "ge"@ {
        Some(Cond::GE)
    } else if s == "lt"@ {
        Some(Cond::LT)
    } else if s == "gt"@ {
        Some(Cond::GT)
    } else if s == "le"@ {
        Some(Cond::LE)
    } else if s == "al"@ {
        Some(Cond::AL)
    } else {
        None
    }
}

/// Whether two byte slices hold the same bytes.
fn bytes_equal(a: &[u8], b: &[u8]) -> (r: bool)
    ensures
        r == (a@ == b@),
{
    if a.len() != b.len() {
        return false;
    }
    let mut i: usize = 0;
    while i < a.len()
        invariant
            i <= a@.len(),
            a@.len() == b@.len(),
            forall|j: int| 0 <= j < i ==> a@[j] == b@[j],
        decreases a@.len() - i,
    {
        if a[i] != b[i] {
            return false;
        }
        i = i + 1;
    }
    assert(a@ =~= b@);
    true
}

/// Whether two strings hold the same characters.
fn text_equal(a: &str, b: &str) -> (r: bool)
    ensures
        r == (a@ == b@),
{
    let r = bytes_equal(a.as_bytes(), b.as_bytes());
    proof {
        encode_utf8_decode_utf8(a@);
        encode_utf8_decode_utf8(b@);
    }
    r
}

impl Cond {
    /// The 4-bit value that encodes the condition.
    pub open spec fn mask(self) -> u16 {
        match self {
            Cond::EQ => 0,
            Cond::NE => 1,
            Cond::CSHS => 2,
            Cond::CCLO => 3,
            Cond::MI => 4,
            Cond::PL => 5,
            Cond::VS => 6,
            Cond::VC => 7,
            Cond::HI => 8,
            Cond::LS => 9,
            Cond::GE => 10,
            Cond::LT => 11,
            Cond::GT => 12,
            Cond::LE => 13,
            Cond::AL => 14,
            Cond::EXT => 15,
        }
    }

    /// The canonical assembly mnemonic of the condition; empty for `EXT`,
    /// which has none.
    pub open spec fn mnemonic(self) -> Seq<char> {
        match self {
            Cond::EQ => "eq"@,
            Cond::NE => "ne"@,
            Cond::CSHS => "cs"@,
            Cond::CCLO => "cc"@,
            Cond::MI => "mi"@,
            Cond::PL => "pl"@,
            Cond::VS => "vs"@,
            Cond::VC => "vc"@,
            Cond::HI => "hi"@,
            Cond::LS => "ls"@,
            Cond::GE => "ge"@,
            Cond::LT => "lt"@,
            Cond::GT => "gt"@,
            Cond::LE => "le"@,
            Cond::AL => "al"@,
            Cond::EXT => Seq::empty(),
        }
    }

    /// The 4-bit value that encodes the condition.
    pub fn to_mask(self) -> (r: u16)
        ensures
            r == self.mask(),
            r < 16,
    {
        match self {
            Cond::EQ => 0,
            Cond::NE => 1,
            Cond::CSHS => 2,
            Cond::CCLO => 3,
            Cond::MI => 4,
            Cond::PL => 5,
            Cond::VS => 6,
            Cond::VC => 7,
            Cond::HI => 8,
            Cond::LS => 9,
            Cond::GE => 10,
            Cond::LT => 11,
            Cond::GT => 12,
            Cond::LE => 13,
            Cond::AL => 14,
            Cond::EXT => 15,
        }
    }

    /// The condition that the 4-bit value `mask` encodes; masks of 16 and
    /// more are refused.
    pub fn from_mask(mask: u16) -> (r: Result<Cond, CodecError>)
        ensures
            r == cond_from_mask(mask),
    {
        match mask {
            0 => Ok(Cond::EQ),
            1 => Ok(Cond::NE),
            2 => Ok(Cond::CSHS),
            3 => Ok(Cond::CCLO),
            4 => Ok(Cond::MI),
            5 => Ok(Cond::PL),
            6 => Ok(Cond::VS),
            7 => Ok(Cond::VC),
            8 => Ok(Cond::HI),
            9 => Ok(Cond::LS),
            10 => Ok(Cond::GE),
            11 => Ok(Cond::LT),
            12 => Ok(Cond::GT),
            13 => Ok(Cond::LE),
            14 => Ok(Cond::AL),
            15 => Ok(Cond::EXT),
            _ => Err(CodecError::MaskOutOfRange(mask)),
        }
    }

    /// The condition that the mnemonic `m` names. Matching is case-sensitive
    /// and takes no surrounding blanks; anything but the fifteen lower-case
    /// mnemonics (with the aliases `hs` and `lo`) is refused.
    pub fn from_mnemonic(m: &str) -> (r: Result<Cond, CodecError>)
        ensures
            match r {
                Ok(c) => cond_from_mnemonic(m@) == Some(c),
                Err(e) => {
                    &&& cond_from_mnemonic(m@) is None
                    &&& e is UnknownMnemonic
                    &&& e->UnknownMnemonic_0@ == m@
                },
            },
    {
        if text_equal(m, "eq") {
            Ok(Cond::EQ)
        } else if text_equal(m, "ne") {
            Ok(Cond::NE)
        } else if text_equal(m, "cs") || text_equal(m, "hs") {
            Ok(Cond::CSHS)
        } else if text_equal(m, "cc") || text_equal(m, "lo") {
            Ok(Cond::CCLO)
        } else if text_equal(m, "mi") {
            Ok(Cond::MI)
        } else if text_equal(m, "pl") {
            Ok(Cond::PL)
        } else if text_equal(m, "vs") {
            Ok(Cond::VS)
        } else if text_equal(m, "vc") {
            Ok(Cond::VC)
        } else if text_equal(m, "hi") {
            Ok(Cond::HI)
        } else if text_equal(m, "ls") {
            Ok(Cond::LS)
        } else if text_equal(m, "ge") {
            Ok(Cond::GE)
        } else if text_equal(m, "lt") {
            Ok(Cond::LT)
        } else if text_equal(m, "gt") {
            Ok(Cond::GT)
        } else if text_equal(m, "le") {
            Ok(Cond::LE)
        } else if text_equal(m, "al") {
            Ok(Cond::AL)
        } else {
            Err(CodecError::UnknownMnemonic(m.to_owned()))
        }
    }

    /// The canonical assembly mnemonic of the condition; the empty string for
    /// `EXT`.
    pub fn to_mnemonic(self) -> (r: &'static str)
        ensures
            r@ == self.mnemonic(),
    {
        proof {
            reveal_strlit("");
        }
        match self {
            Cond::EQ => "eq",
            Cond::NE => "ne",
            Cond::CSHS => "cs",
            Cond::CCLO => "cc",
            Cond::MI => "mi",
            Cond::PL => "pl",
            Cond::VS => "vs",
            Cond::VC => "vc",
            Cond::HI => "hi",
            Cond::LS => "ls",
            Cond::GE => "ge",
            Cond::LT => "lt",
            Cond::GT => "gt",
            Cond::LE => "le",
            Cond::AL => "al",
            Cond::EXT => "",
        }
    }

    /// All sixteen conditions, in ascending order of their masks.
    pub fn array() -> (r: [Cond; 16])
        ensures
            forall|i: int| 0 <= i < 16 ==> #[trigger] r@[i] == cond_at(i),
    {
        [
            Cond::EQ,
            Cond::NE,
            Cond::CSHS,
            Cond::CCLO,
            Cond::MI,
            Cond::PL,
            Cond::VS,
            Cond::VC,
            Cond::HI,
            Cond::LS,
            Cond::GE,
            Cond::LT,
            Cond::GT,
            Cond::LE,
            Cond::AL,
            Cond::EXT,
        ]
    }
}

/// Decoding a mask in `0..16` and encoding the condition again gives the mask
/// back.
pub proof fn lemma_mask_round_trip(m: u16)
    requires
        m < 16,
    ensures
        cond_from_mask(m) is Ok,
        cond_from_mask(m)->Ok_0.mask() == m,
{
}

/// Encoding a condition and decoding its mask again gives the condition back.
pub proof fn lemma_cond_round_trip(c: Cond)
    ensures
        cond_from_mask(c.mask()) == Ok::<Cond, CodecError>(c),
{
}

/// Reading the mnemonic of any condition but `EXT` gives the condition back.
pub proof fn lemma_mnemonic_round_trip(c: Cond)
    requires
        c != Cond::EXT,
    ensures
        cond_from_mnemonic(c.mnemonic()) == Some(c),
{
    reveal_strlit("eq");
    reveal_strlit("ne");
    reveal_strlit("cs");
    reveal_strlit("hs");
    reveal_strlit("cc");
    reveal_strlit("lo");
    reveal_strlit("mi");
    reveal_strlit("pl");
    reveal_strlit("vs");
    reveal_strlit("vc");
    reveal_strlit("hi");
    reveal_strlit("ls");
    reveal_strlit("ge");
    reveal_strlit("lt");
    reveal_strlit("gt");
    reveal_strlit("le");
    reveal_strlit("al");
    // Two literals differ as soon as a character does.
    assert("eq"@[0] == 'e' && "eq"@[1] == 'q');
    assert("ne"@[0] == 'n' && "ne"@[1] == 'e');
    assert("cs"@[0] == 'c' && "cs"@[1] == 's');
    assert("hs"@[0] == 'h' && "hs"@[1] == 's');
    assert("cc"@[0] == 'c' && "cc"@[1] == 'c');
    assert("lo"@[0] == 'l' && "lo"@[1] == 'o');
    assert("mi"@[0] == 'm' && "mi"@[1] == 'i');
    assert("pl"@[0] == 'p' && "pl"@[1] == 'l');
    assert("vs"@[0] == 'v' && "vs"@[1] == 's');
    assert("vc"@[0] == 'v' && "vc"@[1] == 'c');
    assert("hi"@[0] == 'h' && "hi"@[1] == 'i');
    assert("ls"@[0] == 'l' && "ls"@[1] == 's');
    assert("ge"@[0] == 'g' && "ge"@[1] == 'e');
    assert("lt"@[0] == 'l' && "lt"@[1] == 't');
    assert("gt"@[0] == 'g' && "gt"@[1] == 't');
    assert("le"@[0] == 'l' && "le"@[1] == 'e');
    assert("al"@[0] == 'a' && "al"@[1] == 'l');
}

} // verus!
