use vstd::pervasive::unreached;
use vstd::prelude::*;

verus! {

/// Flipping this bit of a predicate's code negates the predicate.
pub const RESULT_BIT: i32 = 0x04;

/// Flipping this bit of a predicate's code flips what it answers when an operand is a NaN.
pub const ORDER_BIT: i32 = 0x08;

/// Flipping this bit of a predicate's code flips whether it signals on a quiet NaN.
pub const SIGNAL_BIT: i32 = 0x10;

/// How two floating point operands can stand to each other.
#[derive(Debug, Clone, Copy, PartialEq, Eq, Structural, Hash)]
pub enum Relation {
    /// The first operand is less than the second.
    Less,
    /// The operands are equal.
    Equal,
    /// The first operand is greater than the second.
    Greater,
    /// At least one operand is a NaN.
    Unordered,
}

/// An AVX Floating Point Predicate.
#[allow(non_camel_case_types)]
#[derive(Debug, Clone, Copy, PartialEq, Eq, Structural, PartialOrd, Ord, Hash)]
pub enum Cmp {
    /// Equal (ordered, quiet)
    ///
    /// Maps to `_CMP_EQ_OQ`.
    EQ,
    /// Equal (ordered, loud)
    ///
    /// Maps to `_CMP_EQ_OS`.
    EQ_LOUD,
    /// Equal (unordered, quiet)
    ///
    /// Maps to `_CMP_EQ_UQ`.
    EQ_UNORD,
    /// Equal (unordered, loud)
    ///
    /// Maps to `_CMP_EQ_US`.
    EQ_UNORD_LOUD,
    /// Not-equal (ordered, quiet)
    ///
    /// Maps to `_CMP_NEQ_OQ`.
    NEQ,
    /// Not-equal (ordered, loud)
    ///
    /// Maps to `_CMP_NEQ_OS`.
    NEQ_LOUD,
    /// Not-equal (unordered, quiet)
    ///
    /// Maps to `_CMP_NEQ_UQ`.
    NEQ_UNORD,
    /// Not-equal (unordered, loud)
    ///
    /// Maps to `_CMP_NEQ_US`.
    NEQ_UNORD_LOUD,
    /// Greater-than-or-equal (ordered, quiet)
    ///
    /// Maps to `_CMP_GE_OQ`.
    GE,
    /// Greater than-or-equal (ordered, loud)
    ///
    /// Maps to `_CMP_GE_OS`.
    GE_LOUD,
    /// Not-greater-than-or-equal (unordered, quiet)
    ///
    /// Maps to `_CMP_NGE_UQ`.
    NGE,
    /// Not-greater-than-or-equal (unordered, loud)
    ///
    /// Maps to `_CMP_NGE_US`.
    NGE_LOUD,
    /// Greater-than (ordered, quiet)
    ///
    /// Maps to `_CMP_GT_OQ`.
    GT,
    /// Greater-than (ordered, loud)
    ///
    /// Maps to `_CMP_GT_OS`.
    GT_LOUD,
    /// Not-greater-than (unordered, quiet)
    ///
    /// Maps to `_CMP_NGT_UQ`.
    NGT,
    /// Not-greater-than (unordered, loud)
    ///
    /// Maps to `_CMP_NGT_US`.
    NGT_LOUD,
    /// Less-than-or-equal (ordered, quiet)
    ///
    /// Maps to `_CMP_LE_OQ`.
    LE,
    /// Less-than-or-equal (ordered, loud)
    ///
    /// Maps to `_CMP_LE_OS`.
    LE_LOUD,
    /// Not-less-than-or-equal (unordered, quiet)
    ///
    /// Maps to `_CMP_NLE_UQ`.
    NLE,
    /// Not-less-than-or-equal (unordered, loud)
    ///
    /// Maps to `_CMP_NLE_US`.
    NLE_LOUD,
    /// Less-than (ordered, quiet)
    ///
    /// Maps to `_CMP_LT_OQ`.
    LT,
    /// Less-than (ordered, loud)
    ///
    /// Maps to `_CMP_LT_OS`.
    LT_LOUD,
    /// Not-less-than (unordered, quiet)
    ///
    /// Maps to `_CMP_NLT_UQ`.
    NLT,
    /// Not-less-than (unordered, loud)
    ///
    /// Maps to `_CMP_NLT_US`.
    NLT_LOUD,
    /// True (unordered, quiet)
    ///
    /// Maps to `_CMP_TRUE_UQ`.
    TRUE,
    /// True (unordered, loud)
    ///
    /// Maps to `_CMP_TRUE_US`.
    TRUE_LOUD,
    /// False (ordered, quiet)
    ///
    /// Maps to `_CMP_FALSE_OQ`.
    FALSE,
    /// False (ordered, loud)
    ///
    /// Maps to `_CMP_FALSE_OS`.
    FALSE_LOUD,
    /// Ordered (quiet)
    ///
    /// Maps to `_CMP_ORD_Q`.
    ORD,
    /// Ordered (loud)
    ///
    /// Maps to `_CMP_ORD_S`.
    ORD_LOUD,
    /// Unordered (quiet)
    ///
    /// Maps to `_CMP_UNORD_Q`.
    UNORD,
    /// Unordered (loud)
    ///
    /// Maps to `_CMP_UNORD_S`.
    UNORD_LOUD,
}

/// The [`Order`] of a predicate dictates whether it returns `false` or `true` upon
/// encountering a `NaN`.
#[derive(Debug, Clone, Copy, PartialEq, Eq, Structural, PartialOrd, Ord, Hash, Default)]
pub enum Order {
    /// The comparison results in `false` when comparing with a `NaN`.
    #[default]
    Ordered,
    /// The comparison results in `true` when comparing with a `NaN`.
    Unorderd,
}

/// The [`Noise`] of a predicate dictates whether it is a signalling or non-signalling
/// operation.
#[derive(Debug, Clone, Copy, PartialEq, Eq, Structural, PartialOrd, Ord, Hash, Default)]
pub enum Noise {
    /// The comparison is quiet.
    #[default]
    Quiet,
    /// The comparison is loud.
    Loud,
}

/// The answers on the three relations of ordered operands, each negated.
pub open spec fn negated(answers: (bool, bool, bool)) -> (bool, bool, bool) {
    (!answers.0, !answers.1, !answers.2)
}

/// The relation that the two lowest bits of a code select, before negation: 0 is equal,
/// 1 is less-than, 2 is less-than-or-equal and 3 is unordered.
pub open spec fn base_holds(base: int, rel: Relation) -> bool {
    if base == 0 {
        rel == Relation::Equal
    } else if base == 1 {
        rel == Relation::Less
    } else if base == 2 {
        rel == Relation::Less || rel == Relation::Equal
    } else {
        rel == Relation::Unordered
    }
}

/// What the predicate with the given code answers on operands that stand in `rel`, read
/// off the bits of the code: the base relation, negated by the result bit, and on a NaN
/// flipped once more by the order bit.
pub open spec fn code_holds(code: int, rel: Relation) -> bool {
    let plain = base_holds(code % 4, rel);
    let negated = (code / 4) % 2 == 1;
    let flipped = (code / 8) % 2 == 1;
    if rel == Relation::Unordered {
        (plain != negated) != flipped
    } else {
        plain != negated
    }
}

/// Whether the predicate with the given code signals on a quiet NaN, read off the bits of
/// the code: less-than and less-than-or-equal signal, equal and unordered do not, and the
/// signal bit flips either.
pub open spec fn code_signals(code: int) -> bool {
    let base = code % 4;
    (base == 1 || base == 2) != ((code / 16) % 2 == 1)
}

impl Cmp {
    /// The immediate operand that selects this predicate in an AVX compare instruction.
    pub open spec fn code(self) -> i32 {
        match self {
            Cmp::EQ => 0x00,
            Cmp::EQ_LOUD => 0x10,
            Cmp::EQ_UNORD => 0x08,
            Cmp::EQ_UNORD_LOUD => 0x18,
            Cmp::NEQ => 0x0c,
            Cmp::NEQ_LOUD => 0x1c,
            Cmp::NEQ_UNORD => 0x04,
            Cmp::NEQ_UNORD_LOUD => 0x14,
            Cmp::GE => 0x1d,
            Cmp::GE_LOUD => 0x0d,
            Cmp::NGE => 0x19,
            Cmp::NGE_LOUD => 0x09,
            Cmp::GT => 0x1e,
            Cmp::GT_LOUD => 0x0e,
            Cmp::NGT => 0x1a,
            Cmp::NGT_LOUD => 0x0a,
            Cmp::LE => 0x12,
            Cmp::LE_LOUD => 0x02,
            Cmp::NLE => 0x16,
            Cmp::NLE_LOUD => 0x06,
            Cmp::LT => 0x11,
            Cmp::LT_LOUD => 0x01,
            Cmp::NLT => 0x15,
            Cmp::NLT_LOUD => 0x05,
            Cmp::TRUE => 0x0f,
            Cmp::TRUE_LOUD => 0x1f,
            Cmp::FALSE => 0x0b,
            Cmp::FALSE_LOUD => 0x1b,
            Cmp::ORD => 0x07,
            Cmp::ORD_LOUD => 0x17,
            Cmp::UNORD => 0x03,
            Cmp::UNORD_LOUD => 0x13,
        }
    }

    /// What this predicate answers on operands that stand in `rel`.
    pub open spec fn holds(self, rel: Relation) -> bool {
        match self {
            Cmp::EQ | Cmp::EQ_LOUD => rel == Relation::Equal,
            Cmp::EQ_UNORD | Cmp::EQ_UNORD_LOUD => rel == Relation::Equal || rel
                == Relation::Unordered,
            Cmp::NEQ | Cmp::NEQ_LOUD => rel == Relation::Less || rel == Relation::Greater,
            Cmp::NEQ_UNORD | Cmp::NEQ_UNORD_LOUD => rel != Relation::Equal,
            Cmp::GE | Cmp::GE_LOUD => rel == Relation::Greater || rel == Relation::Equal,
            Cmp::NGE | Cmp::NGE_LOUD => rel == Relation::Less || rel == Relation::Unordered,
            Cmp::GT | Cmp::GT_LOUD => rel == Relation::Greater,
            Cmp::NGT | Cmp::NGT_LOUD => rel != Relation::Greater,
            Cmp::LE | Cmp::LE_LOUD => rel == Relation::Less || rel == Relation::Equal,
            Cmp::NLE | Cmp::NLE_LOUD => rel == Relation::Greater || rel == Relation::Unordered,
            Cmp::LT | Cmp::LT_LOUD => rel == Relation::Less,
            Cmp::NLT | Cmp::NLT_LOUD => rel != Relation::Less,
            Cmp::TRUE | Cmp::TRUE_LOUD => true,
            Cmp::FALSE | Cmp::FALSE_LOUD => false,
            Cmp::ORD | Cmp::ORD_LOUD => rel != Relation::Unordered,
            Cmp::UNORD | Cmp::UNORD_LOUD => rel == Relation::Unordered,
        }
    }

    /// Whether this predicate signals when an operand is a quiet NaN.
    pub open spec fn signals(self) -> bool {
        code_signals(self.code() as int)
    }

    /// What this predicate answers on each of the three relations of ordered operands:
    /// less, equal, greater.
    pub open spec fn on_ordered(self) -> (bool, bool, bool) {
        (self.holds(Relation::Less), self.holds(Relation::Equal), self.holds(Relation::Greater))
    }

    /// What this predicate answers when an operand is a NaN.
    pub open spec fn on_nan(self) -> bool {
        self.holds(Relation::Unordered)
    }

    /// The raw code of this predicate.
    pub fn to_i32(self) -> (r: i32)
        ensures
            r == self.code(),
            0 <= r < 32,
    {
        match self {
            Cmp::EQ => 0x00,
            Cmp::EQ_LOUD => 0x10,
            Cmp::EQ_UNORD => 0x08,
            Cmp::EQ_UNORD_LOUD => 0x18,
            Cmp::NEQ => 0x0c,
            Cmp::NEQ_LOUD => 0x1c,
            Cmp::NEQ_UNORD => 0x04,
            Cmp::NEQ_UNORD_LOUD => 0x14,
            Cmp::GE => 0x1d,
            Cmp::GE_LOUD => 0x0d,
            Cmp::NGE => 0x19,
            Cmp::NGE_LOUD => 0x09,
            Cmp::GT => 0x1e,
            Cmp::GT_LOUD => 0x0e,
            Cmp::NGT => 0x1a,
            Cmp::NGT_LOUD => 0x0a,
            Cmp::LE => 0x12,
            Cmp::LE_LOUD => 0x02,
            Cmp::NLE => 0x16,
            Cmp::NLE_LOUD => 0x06,
            Cmp::LT => 0x11,
            Cmp::LT_LOUD => 0x01,
            Cmp::NLT => 0x15,
            Cmp::NLT_LOUD => 0x05,
            Cmp::TRUE => 0x0f,
            Cmp::TRUE_LOUD => 0x1f,
            Cmp::FALSE => 0x0b,
            Cmp::FALSE_LOUD => 0x1b,
            Cmp::ORD => 0x07,
            Cmp::ORD_LOUD => 0x17,
            Cmp::UNORD => 0x03,
            Cmp::UNORD_LOUD => 0x13,
        }
    }

    /// Create an AVX floating point predicate from an [`i32`].
    pub fn from_i32(i: i32) -> (r: Option<Cmp>)
        ensures
            r.is_some() == (0 <= i < 32),
            r matches Some(c) ==> c.code() == i,
    {
        match i {
            0x00 => Some(Cmp::EQ),
            0x01 => Some(Cmp::LT_LOUD),
            0x02 => Some(Cmp::LE_LOUD),
            0x03 => Some(Cmp::UNORD),
            0x04 => Some(Cmp::NEQ_UNORD),
            0x05 => Some(Cmp::NLT_LOUD),
            0x06 => Some(Cmp::NLE_LOUD),
            0x07 => Some(Cmp::ORD),
            0x08 => Some(Cmp::EQ_UNORD),
            0x09 => Some(Cmp::NGE_LOUD),
            0x0a => Some(Cmp::NGT_LOUD),
            0x0b => Some(Cmp::FALSE),
            0x0c => Some(Cmp::NEQ),
            0x0d => Some(Cmp::GE_LOUD),
            0x0e => Some(Cmp::GT_LOUD),
            0x0f => Some(Cmp::TRUE),
            0x10 => Some(Cmp::EQ_LOUD),
            0x11 => Some(Cmp::LT),
            0x12 => Some(Cmp::LE),
            0x13 => Some(Cmp::UNORD_LOUD),
            0x14 => Some(Cmp::NEQ_UNORD_LOUD),
            0x15 => Some(Cmp::NLT),
            0x16 => Some(Cmp::NLE),
            0x17 => Some(Cmp::ORD_LOUD),
            0x18 => Some(Cmp::EQ_UNORD_LOUD),
            0x19 => Some(Cmp::NGE),
            0x1a => Some(Cmp::NGT),
            0x1b => Some(Cmp::FALSE_LOUD),
            0x1c => Some(Cmp::NEQ_LOUD),
            0x1d => Some(Cmp::GE),
            0x1e => Some(Cmp::GT),
            0x1f => Some(Cmp::TRUE_LOUD),
            _ => None,
        }
    }

    /// The text that describes this predicate.
    pub open spec fn description_text(self) -> Seq<char> {
        match self {
            Cmp::EQ => " Equal (ordered, quiet)"@,
            Cmp::EQ_LOUD => " Equal (ordered, loud)"@,
            Cmp::EQ_UNORD => " Equal (unordered, quiet)"@,
            Cmp::EQ_UNORD_LOUD => " Equal (unordered, loud)"@,
            Cmp::NEQ => " Not-equal (ordered, quiet)"@,
            Cmp::NEQ_LOUD => " Not-equal (ordered, loud)"@,
            Cmp::NEQ_UNORD => " Not-equal (unordered, quiet)"@,
            Cmp::NEQ_UNORD_LOUD => " Not-equal (unordered, loud)"@,
            Cmp::GE => " Greater-than-or-equal (ordered, quiet)"@,
            Cmp::GE_LOUD => " Greater than-or-equal (ordered, loud)"@,
            Cmp::NGE => " Not-greater-than-or-equal (unordered, quiet)"@,
            Cmp::NGE_LOUD => " Not-greater-than-or-equal (unordered, loud)"@,
            Cmp::GT => " Greater-than (ordered, quiet)"@,
            Cmp::GT_LOUD => " Greater-than (ordered, loud)"@,
            Cmp::NGT => " Not-greater-than (unordered, quiet)"@,
            Cmp::NGT_LOUD => " Not-greater-than (unordered, loud)"@,
            Cmp::LE => " Less-than-or-equal (ordered, quiet)"@,
            Cmp::LE_LOUD => " Less-than-or-equal (ordered, loud)"@,
            Cmp::NLE => " Not-less-than-or-equal (unordered, quiet)"@,
            Cmp::NLE_LOUD => " Not-less-than-or-equal (unordered, loud)"@,
            Cmp::LT => " Less-than (ordered, quiet)"@,
            Cmp::LT_LOUD => " Less-than (ordered, loud)"@,
            Cmp::NLT => " Not-less-than (unordered, quiet)"@,
            Cmp::NLT_LOUD => " Not-less-than (unordered, loud)"@,
            Cmp::TRUE => " True (unordered, quiet)"@,
            Cmp::TRUE_LOUD => " True (unordered, loud)"@,
            Cmp::FALSE => " False (ordered, quiet)"@,
            Cmp::FALSE_LOUD => " False (ordered, loud)"@,
            Cmp::ORD => " Ordered (quiet)"@,
            Cmp::ORD_LOUD => " Ordered (loud)"@,
            Cmp::UNORD => " Unordered (quiet)"@,
            Cmp::UNORD_LOUD => " Unordered (loud)"@,
        }
    }

    /// Get a description of this AVX floating point comparison predicate.
    pub fn description(self) -> (r: &'static str)
        ensures
            r@ == self.description_text(),
    {
        match self {
            Cmp::EQ => " Equal (ordered, quiet)",
            Cmp::EQ_LOUD => " Equal (ordered, loud)",
            Cmp::EQ_UNORD => " Equal (unordered, quiet)",
            Cmp::EQ_UNORD_LOUD => " Equal (unordered, loud)",
            Cmp::NEQ => " Not-equal (ordered, quiet)",
            Cmp::NEQ_LOUD => " Not-equal (ordered, loud)",
            Cmp::NEQ_UNORD => " Not-equal (unordered, quiet)",
            Cmp::NEQ_UNORD_LOUD => " Not-equal (unordered, loud)",
            Cmp::GE => " Greater-than-or-equal (ordered, quiet)",
            Cmp::GE_LOUD => " Greater than-or-equal (ordered, loud)",
            Cmp::NGE => " Not-greater-than-or-equal (unordered, quiet)",
            Cmp::NGE_LOUD => " Not-greater-than-or-equal (unordered, loud)",
            Cmp::GT => " Greater-than (ordered, quiet)",
            Cmp::GT_LOUD => " Greater-than (ordered, loud)",
            Cmp::NGT => " Not-greater-than (unordered, quiet)",
            Cmp::NGT_LOUD => " Not-greater-than (unordered, loud)",
            Cmp::LE => " Less-than-or-equal (ordered, quiet)",
            Cmp::LE_LOUD => " Less-than-or-equal (ordered, loud)",
            Cmp::NLE => " Not-less-than-or-equal (unordered, quiet)",
            Cmp::NLE_LOUD => " Not-less-than-or-equal (unordered, loud)",
            Cmp::LT => " Less-than (ordered, quiet)",
            Cmp::LT_LOUD => " Less-than (ordered, loud)",
            Cmp::NLT => " Not-less-than (unordered, quiet)",
            Cmp::NLT_LOUD => " Not-less-than (unordered, loud)",
            Cmp::TRUE => " True (unordered, quiet)",
            Cmp::TRUE_LOUD => " True (unordered, loud)",
            Cmp::FALSE => " False (ordered, quiet)",
            Cmp::FALSE_LOUD => " False (ordered, loud)",
            Cmp::ORD => " Ordered (quiet)",
            Cmp::ORD_LOUD => " Ordered (loud)",
            Cmp::UNORD => " Unordered (quiet)",
            Cmp::UNORD_LOUD => " Unordered (loud)",
        }
    }

    /// Get the name of this AVX floating point comparison predicate.
    pub fn name(self) -> (r: &'static str)
        ensures
            r@ == "Cmp"@,
    {
        "Cmp"
    }

    /// The name of this predicate in C intrinsics, as text.
    pub open spec fn c_name_text(self) -> Seq<char> {
        match self {
            Cmp::EQ => "_CMP_EQ_OQ"@,
            Cmp::EQ_LOUD => "_CMP_EQ_OS"@,
            Cmp::EQ_UNORD => "_CMP_EQ_UQ"@,
            Cmp::EQ_UNORD_LOUD => "_CMP_EQ_US"@,
            Cmp::NEQ => "_CMP_NEQ_OQ"@,
            Cmp::NEQ_LOUD => "_CMP_NEQ_OS"@,
            Cmp::NEQ_UNORD => "_CMP_NEQ_UQ"@,
            Cmp::NEQ_UNORD_LOUD => "_CMP_NEQ_US"@,
            Cmp::GE => "_CMP_GE_OQ"@,
            Cmp::GE_LOUD => "_CMP_GE_OS"@,
            Cmp::NGE => "_CMP_NGE_UQ"@,
            Cmp::NGE_LOUD => "_CMP_NGE_US"@,
            Cmp::GT => "_CMP_GT_OQ"@,
            Cmp::GT_LOUD => "_CMP_GT_OS"@,
            Cmp::NGT => "_CMP_NGT_UQ"@,
            Cmp::NGT_LOUD => "_CMP_NGT_US"@,
            Cmp::LE => "_CMP_LE_OQ"@,
            Cmp::LE_LOUD => "_CMP_LE_OS"@,
            Cmp::NLE => "_CMP_NLE_UQ"@,
            Cmp::NLE_LOUD => "_CMP_NLE_US"@,
            Cmp::LT => "_CMP_LT_OQ"@,
            Cmp::LT_LOUD => "_CMP_LT_OS"@,
            Cmp::NLT => "_CMP_NLT_UQ"@,
            Cmp::NLT_LOUD => "_CMP_NLT_US"@,
            Cmp::TRUE => "_CMP_TRUE_UQ"@,
            Cmp::TRUE_LOUD => "_CMP_TRUE_US"@,
            Cmp::FALSE => "_CMP_FALSE_OQ"@,
            Cmp::FALSE_LOUD => "_CMP_FALSE_OS"@,
            Cmp::ORD => "_CMP_ORD_Q"@,
            Cmp::ORD_LOUD => "_CMP_ORD_S"@,
            Cmp::UNORD => "_CMP_UNORD_Q"@,
            Cmp::UNORD_LOUD => "_CMP_UNORD_S"@,
        }
    }

    /// Get the name of this AVX floating point comparison predicate
    /// used in C intrinsics.
    pub fn c_name(self) -> (r: &'static str)
        ensures
            r@ == self.c_name_text(),
    {
        match self {
            Cmp::EQ => "_CMP_EQ_OQ",
            Cmp::EQ_LOUD => "_CMP_EQ_OS",
            Cmp::EQ_UNORD => "_CMP_EQ_UQ",
            Cmp::EQ_UNORD_LOUD => "_CMP_EQ_US",
            Cmp::NEQ => "_CMP_NEQ_OQ",
            Cmp::NEQ_LOUD => "_CMP_NEQ_OS",
            Cmp::NEQ_UNORD => "_CMP_NEQ_UQ",
            Cmp::NEQ_UNORD_LOUD => "_CMP_NEQ_US",
            Cmp::GE => "_CMP_GE_OQ",
            Cmp::GE_LOUD => "_CMP_GE_OS",
            Cmp::NGE => "_CMP_NGE_UQ",
            Cmp::NGE_LOUD => "_CMP_NGE_US",
            Cmp::GT => "_CMP_GT_OQ",
            Cmp::GT_LOUD => "_CMP_GT_OS",
            Cmp::NGT => "_CMP_NGT_UQ",
            Cmp::NGT_LOUD => "_CMP_NGT_US",
            Cmp::LE => "_CMP_LE_OQ",
            Cmp::LE_LOUD => "_CMP_LE_OS",
            Cmp::NLE => "_CMP_NLE_UQ",
            Cmp::NLE_LOUD => "_CMP_NLE_US",
            Cmp::LT => "_CMP_LT_OQ",
            Cmp::LT_LOUD => "_CMP_LT_OS",
            Cmp::NLT => "_CMP_NLT_UQ",
            Cmp::NLT_LOUD => "_CMP_NLT_US",
            Cmp::TRUE => "_CMP_TRUE_UQ",
            Cmp::TRUE_LOUD => "_CMP_TRUE_US",
            Cmp::FALSE => "_CMP_FALSE_OQ",
            Cmp::FALSE_LOUD => "_CMP_FALSE_OS",
            Cmp::ORD => "_CMP_ORD_Q",
            Cmp::ORD_LOUD => "_CMP_ORD_S",
            Cmp::UNORD => "_CMP_UNORD_Q",
            Cmp::UNORD_LOUD => "_CMP_UNORD_S",
        }
    }

    /// Get the name of this AVX floating point comparison predicate
    /// used in C intrinsics without the `_CMP_` prefix.
    pub fn c_name_stripped(self) -> (r: &'static str)
        ensures
            "_CMP_"@ + r@ == self.c_name_text(),
    {
        proof {
            reveal_strlit("_CMP_");
        }
        match self {
            Cmp::EQ => {
                proof {
                    reveal_strlit("_CMP_EQ_OQ");
                    reveal_strlit("EQ_OQ");
                    assert("_CMP_"@ + "EQ_OQ"@ =~= "_CMP_EQ_OQ"@);
                }
                "EQ_OQ"
            },
            Cmp::EQ_LOUD => {
                proof {
                    reveal_strlit("_CMP_EQ_OS");
                    reveal_strlit("EQ_OS");
                    assert("_CMP_"@ + "EQ_OS"@ =~= "_CMP_EQ_OS"@);
                }
                "EQ_OS"
            },
            Cmp::EQ_UNORD => {
                proof {
                    reveal_strlit("_CMP_EQ_UQ");
                    reveal_strlit("EQ_UQ");
                    assert("_CMP_"@ + "EQ_UQ"@ =~= "_CMP_EQ_UQ"@);
                }
                "EQ_UQ"
            },
            Cmp::EQ_UNORD_LOUD => {
                proof {
                    reveal_strlit("_CMP_EQ_US");
                    reveal_strlit("EQ_US");
                    assert("_CMP_"@ + "EQ_US"@ =~= "_CMP_EQ_US"@);
                }
                "EQ_US"
            },
            Cmp::NEQ => {
                proof {
                    reveal_strlit("_CMP_NEQ_OQ");
                    reveal_strlit("NEQ_OQ");
                    assert("_CMP_"@ + "NEQ_OQ"@ =~= "_CMP_NEQ_OQ"@);
                }
                "NEQ_OQ"
            },
            Cmp::NEQ_LOUD => {
                proof {
                    reveal_strlit("_CMP_NEQ_OS");
                    reveal_strlit("NEQ_OS");
                    assert("_CMP_"@ + "NEQ_OS"@ =~= "_CMP_NEQ_OS"@);
                }
                "NEQ_OS"
            },
            Cmp::NEQ_UNORD => {
                proof {
                    reveal_strlit("_CMP_NEQ_UQ");
                    reveal_strlit("NEQ_UQ");
                    assert("_CMP_"@ + "NEQ_UQ"@ =~= "_CMP_NEQ_UQ"@);
                }
                "NEQ_UQ"
            },
            Cmp::NEQ_UNORD_LOUD => {
                proof {
                    reveal_strlit("_CMP_NEQ_US");
                    reveal_strlit("NEQ_US");
                    assert("_CMP_"@ + "NEQ_US"@ =~= "_CMP_NEQ_US"@);
                }
                "NEQ_US"
            },
            Cmp::GE => {
                proof {
                    reveal_strlit("_CMP_GE_OQ");
                    reveal_strlit("GE_OQ");
                    assert("_CMP_"@ + "GE_OQ"@ =~= "_CMP_GE_OQ"@);
                }
                "GE_OQ"
            },
            Cmp::GE_LOUD => {
                proof {
                    reveal_strlit("_CMP_GE_OS");
                    reveal_strlit("GE_OS");
                    assert("_CMP_"@ + "GE_OS"@ =~= "_CMP_GE_OS"@);
                }
                "GE_OS"
            },
            Cmp::NGE => {
                proof {
                    reveal_strlit("_CMP_NGE_UQ");
                    reveal_strlit("NGE_UQ");
                    assert("_CMP_"@ + "NGE_UQ"@ =~= "_CMP_NGE_UQ"@);
                }
                "NGE_UQ"
            },
            Cmp::NGE_LOUD => {
                proof {
                    reveal_strlit("_CMP_NGE_US");
                    reveal_strlit("NGE_US");
                    assert("_CMP_"@ + "NGE_US"@ =~= "_CMP_NGE_US"@);
                }
                "NGE_US"
            },
            Cmp::GT => {
                proof {
                    reveal_strlit("_CMP_GT_OQ");
                    reveal_strlit("GT_OQ");
                    assert("_CMP_"@ + "GT_OQ"@ =~= "_CMP_GT_OQ"@);
                }
                "GT_OQ"
            },
            Cmp::GT_LOUD => {
                proof {
                    reveal_strlit("_CMP_GT_OS");
                    reveal_strlit("GT_OS");
                    assert("_CMP_"@ + "GT_OS"@ =~= "_CMP_GT_OS"@);
                }
                "GT_OS"
            },
            Cmp::NGT => {
                proof {
                    reveal_strlit("_CMP_NGT_UQ");
                    reveal_strlit("NGT_UQ");
                    assert("_CMP_"@ + "NGT_UQ"@ =~= "_CMP_NGT_UQ"@);
                }
                "NGT_UQ"
            },
            Cmp::NGT_LOUD => {
                proof {
                    reveal_strlit("_CMP_NGT_US");
                    reveal_strlit("NGT_US");
                    assert("_CMP_"@ + "NGT_US"@ =~= "_CMP_NGT_US"@);
                }
                "NGT_US"
            },
            Cmp::LE => {
                proof {
                    reveal_strlit("_CMP_LE_OQ");
                    reveal_strlit("LE_OQ");
                    assert("_CMP_"@ + "LE_OQ"@ =~= "_CMP_LE_OQ"@);
                }
                "LE_OQ"
            },
            Cmp::LE_LOUD => {
                proof {
                    reveal_strlit("_CMP_LE_OS");
                    reveal_strlit("LE_OS");
                    assert("_CMP_"@ + "LE_OS"@ =~= "_CMP_LE_OS"@);
                }
                "LE_OS"
            },
            Cmp::NLE => {
                proof {
                    reveal_strlit("_CMP_NLE_UQ");
                    reveal_strlit("NLE_UQ");
                    assert("_CMP_"@ + "NLE_UQ"@ =~= "_CMP_NLE_UQ"@);
                }
                "NLE_UQ"
            },
            Cmp::NLE_LOUD => {
                proof {
                    reveal_strlit("_CMP_NLE_US");
                    reveal_strlit("NLE_US");
                    assert("_CMP_"@ + "NLE_US"@ =~= "_CMP_NLE_US"@);
                }
                "NLE_US"
            },
            Cmp::LT => {
                proof {
                    reveal_strlit("_CMP_LT_OQ");
                    reveal_strlit("LT_OQ");
                    assert("_CMP_"@ + "LT_OQ"@ =~= "_CMP_LT_OQ"@);
                }
                "LT_OQ"
            },
            Cmp::LT_LOUD => {
                proof {
                    reveal_strlit("_CMP_LT_OS");
                    reveal_strlit("LT_OS");
                    assert("_CMP_"@ + "LT_OS"@ =~= "_CMP_LT_OS"@);
                }
                "LT_OS"
            },
            Cmp::NLT => {
                proof {
                    reveal_strlit("_CMP_NLT_UQ");
                    reveal_strlit("NLT_UQ");
                    assert("_CMP_"@ + "NLT_UQ"@ =~= "_CMP_NLT_UQ"@);
                }
                "NLT_UQ"
            },
            Cmp::NLT_LOUD => {
                proof {
                    reveal_strlit("_CMP_NLT_US");
                    reveal_strlit("NLT_US");
                    assert("_CMP_"@ + "NLT_US"@ =~= "_CMP_NLT_US"@);
                }
                "NLT_US"
            },
            Cmp::TRUE => {
                proof {
                    reveal_strlit("_CMP_TRUE_UQ");
                    reveal_strlit("TRUE_UQ");
                    assert("_CMP_"@ + "TRUE_UQ"@ =~= "_CMP_TRUE_UQ"@);
                }
                "TRUE_UQ"
            },
            Cmp::TRUE_LOUD => {
                proof {
                    reveal_strlit("_CMP_TRUE_US");
                    reveal_strlit("TRUE_US");
                    assert("_CMP_"@ + "TRUE_US"@ =~= "_CMP_TRUE_US"@);
                }
                "TRUE_US"
            },
            Cmp::FALSE => {
                proof {
                    reveal_strlit("_CMP_FALSE_OQ");
                    reveal_strlit("FALSE_OQ");
                    assert("_CMP_"@ + "FALSE_OQ"@ =~= "_CMP_FALSE_OQ"@);
                }
                "FALSE_OQ"
            },
            Cmp::FALSE_LOUD => {
                proof {
                    reveal_strlit("_CMP_FALSE_OS");
                    reveal_strlit("FALSE_OS");
                    assert("_CMP_"@ + "FALSE_OS"@ =~= "_CMP_FALSE_OS"@);
                }
                "FALSE_OS"
            },
            Cmp::ORD => {
                proof {
                    reveal_strlit("_CMP_ORD_Q");
                    reveal_strlit("ORD_Q");
                    assert("_CMP_"@ + "ORD_Q"@ =~= "_CMP_ORD_Q"@);
                }
                "ORD_Q"
            },
            Cmp::ORD_LOUD => {
                proof {
                    reveal_strlit("_CMP_ORD_S");
                    reveal_strlit("ORD_S");
                    assert("_CMP_"@ + "ORD_S"@ =~= "_CMP_ORD_S"@);
                }
                "ORD_S"
            },
            Cmp::UNORD => {
                proof {
                    reveal_strlit("_CMP_UNORD_Q");
                    reveal_strlit("UNORD_Q");
                    assert("_CMP_"@ + "UNORD_Q"@ =~= "_CMP_UNORD_Q"@);
                }
                "UNORD_Q"
            },
            Cmp::UNORD_LOUD => {
                proof {
                    reveal_strlit("_CMP_UNORD_S");
                    reveal_strlit("UNORD_S");
                    assert("_CMP_"@ + "UNORD_S"@ =~= "_CMP_UNORD_S"@);
                }
                "UNORD_S"
            },
        }
    }

    /// Get the noise level of this predicate.
    pub fn noise(self) -> (r: Noise)
        ensures
            (r == Noise::Loud) == self.signals(),
    {
        match self {
            Cmp::EQ
            | Cmp::EQ_UNORD
            | Cmp::NEQ
            | Cmp::NEQ_UNORD
            | Cmp::GE
            | Cmp::NGE
            | Cmp::GT
            | Cmp::NGT
            | Cmp::LE
            | Cmp::NLE
            | Cmp::LT
            | Cmp::NLT
            | Cmp::TRUE
            | Cmp::FALSE
            | Cmp::ORD
            | Cmp::UNORD => Noise::Quiet,
            Cmp::EQ_LOUD
            | Cmp::EQ_UNORD_LOUD
            | Cmp::NEQ_LOUD
            | Cmp::NEQ_UNORD_LOUD
            | Cmp::GE_LOUD
            | Cmp::NGE_LOUD
            | Cmp::GT_LOUD
            | Cmp::NGT_LOUD
            | Cmp::LE_LOUD
            | Cmp::NLE_LOUD
            | Cmp::LT_LOUD
            | Cmp::NLT_LOUD
            | Cmp::TRUE_LOUD
            | Cmp::FALSE_LOUD
            | Cmp::ORD_LOUD
            | Cmp::UNORD_LOUD => Noise::Loud,
        }
    }

    /// Get the [`Order`] of this predicate.
    pub fn order(self) -> (r: Order)
        ensures
            (r == Order::Unorderd) == self.on_nan(),
    {
        match self {
            Cmp::EQ
            | Cmp::EQ_LOUD
            | Cmp::NEQ
            | Cmp::NEQ_LOUD
            | Cmp::GE
            | Cmp::GE_LOUD
            | Cmp::GT
            | Cmp::GT_LOUD
            | Cmp::LE
            | Cmp::LE_LOUD
            | Cmp::LT
            | Cmp::LT_LOUD
            | Cmp::FALSE
            | Cmp::FALSE_LOUD
            | Cmp::ORD
            | Cmp::ORD_LOUD => Order::Ordered,
            Cmp::EQ_UNORD
            | Cmp::EQ_UNORD_LOUD
            | Cmp::NEQ_UNORD
            | Cmp::NEQ_UNORD_LOUD
            | Cmp::NGE
            | Cmp::NGE_LOUD
            | Cmp::NGT
            | Cmp::NGT_LOUD
            | Cmp::NLE
            | Cmp::NLE_LOUD
            | Cmp::NLT
            | Cmp::NLT_LOUD
            | Cmp::TRUE
            | Cmp::TRUE_LOUD
            | Cmp::UNORD
            | Cmp::UNORD_LOUD => Order::Unorderd,
        }
    }

    /// Get this predicate with the inverse [`Noise`].
    pub fn inverse_noise(self) -> (r: Cmp)
        ensures
            r.code() == self.code() ^ SIGNAL_BIT,
            r.signals() != self.signals(),
            r.on_nan() == self.on_nan(),
            r.on_ordered() == self.on_ordered(),
    {
        let code = self.to_i32();
        proof {
            lemma_flip_bit(code);
        }
        match Cmp::from_i32(code ^ SIGNAL_BIT) {
            Some(pred) => pred,
            None => unreached(),
        }
    }

    /// Get this predicate with the inverse [`Order`].
    pub fn inverse_order(self) -> (r: Cmp)
        ensures
            r.code() == self.code() ^ ORDER_BIT,
            r.on_nan() != self.on_nan(),
            r.on_ordered() == self.on_ordered(),
            r.signals() == self.signals(),
    {
        let code = self.to_i32();
        proof {
            lemma_flip_bit(code);
        }
        match Cmp::from_i32(code ^ ORDER_BIT) {
            Some(pred) => pred,
            None => unreached(),
        }
    }

    /// Get the inverse of this predicate.
    pub fn inverse(self) -> (r: Cmp)
        ensures
            r.code() == self.code() ^ RESULT_BIT,
            r.on_nan() == !self.on_nan(),
            r.on_ordered() == negated(self.on_ordered()),
            r.signals() == self.signals(),
    {
        let code = self.to_i32();
        proof {
            lemma_flip_bit(code);
        }
        match Cmp::from_i32(code ^ RESULT_BIT) {
            Some(pred) => pred,
            None => unreached(),
        }
    }

    /// Get the inverse of this predicate while preserving its [`Order`].
    pub fn reverse(self) -> (r: Cmp)
        ensures
            r.code() == self.code() ^ RESULT_BIT ^ ORDER_BIT,
            r.on_nan() == self.on_nan(),
            r.on_ordered() == negated(self.on_ordered()),
            r.signals() == self.signals(),
    {
        self.inverse().inverse_order()
    }

    /// Whether this is one of the four predicates that, of ordered operands, hold of equal
    /// ones only.
    pub fn is_eq(self) -> (r: bool)
        ensures
            r == (self.on_ordered() == (false, true, false)),
    {
        matches!(self, Cmp::EQ | Cmp::EQ_LOUD | Cmp::EQ_UNORD | Cmp::EQ_UNORD_LOUD)
    }

    /// Whether this is one of the four predicates that, of ordered operands, hold of
    /// unequal ones only.
    pub fn is_neq(self) -> (r: bool)
        ensures
            r == (self.on_ordered() == (true, false, true)),
    {
        matches!(self, Cmp::NEQ | Cmp::NEQ_LOUD | Cmp::NEQ_UNORD | Cmp::NEQ_UNORD_LOUD)
    }

    /// Whether this predicate is greater-than-or-equal, false on a NaN.
    pub fn is_ge(self) -> (r: bool)
        ensures
            r == (self.on_ordered() == (false, true, true) && !self.on_nan()),
    {
        matches!(self, Cmp::GE | Cmp::GE_LOUD)
    }

    /// Whether this predicate is not-greater-than-or-equal, true on a NaN.
    pub fn is_nge(self) -> (r: bool)
        ensures
            r == (self.on_ordered() == (true, false, false) && self.on_nan()),
    {
        matches!(self, Cmp::NGE | Cmp::NGE_LOUD)
    }

    /// Whether this predicate is greater-than, false on a NaN.
    pub fn is_gt(self) -> (r: bool)
        ensures
            r == (self.on_ordered() == (false, false, true) && !self.on_nan()),
    {
        matches!(self, Cmp::GT | Cmp::GT_LOUD)
    }

    /// Whether this predicate is not-greater-than, true on a NaN.
    pub fn is_ngt(self) -> (r: bool)
        ensures
            r == (self.on_ordered() == (true, true, false) && self.on_nan()),
    {
        matches!(self, Cmp::NGT | Cmp::NGT_LOUD)
    }

    /// Whether this predicate is less-than-or-equal, false on a NaN.
    pub fn is_le(self) -> (r: bool)
        ensures
            r == (self.on_ordered() == (true, true, false) && !self.on_nan()),
    {
        matches!(self, Cmp::LE | Cmp::LE_LOUD)
    }

    /// Whether this predicate is not-less-than-or-equal, true on a NaN.
    pub fn is_nle(self) -> (r: bool)
        ensures
            r == (self.on_ordered() == (false, false, true) && self.on_nan()),
    {
        matches!(self, Cmp::NLE | Cmp::NLE_LOUD)
    }

    /// Whether this predicate is less-than, false on a NaN.
    pub fn is_lt(self) -> (r: bool)
        ensures
            r == (self.on_ordered() == (true, false, false) && !self.on_nan()),
    {
        matches!(self, Cmp::LT | Cmp::LT_LOUD)
    }

    /// Whether this predicate is not-less-than, true on a NaN.
    pub fn is_nlt(self) -> (r: bool)
        ensures
            r == (self.on_ordered() == (false, true, true) && self.on_nan()),
    {
        matches!(self, Cmp::NLT | Cmp::NLT_LOUD)
    }

    /// Whether this predicate holds of no operands.
    pub fn is_false(self) -> (r: bool)
        ensures
            r == (forall|rel: Relation| !self.holds(rel)),
    {
        proof {
            if self.on_ordered() == (false, false, false) && !self.on_nan() {
                assert forall|rel: Relation| !self.holds(rel) by {}
            } else {
                assert(self.holds(Relation::Less) || self.holds(Relation::Equal) || self.holds(
                    Relation::Greater,
                ) || self.holds(Relation::Unordered));
            }
        }
        matches!(self, Cmp::FALSE | Cmp::FALSE_LOUD)
    }

    /// Whether this predicate holds of all operands.
    pub fn is_true(self) -> (r: bool)
        ensures
            r == (forall|rel: Relation| self.holds(rel)),
    {
        proof {
            if self.on_ordered() == (true, true, true) && self.on_nan() {
                assert forall|rel: Relation| self.holds(rel) by {}
            } else {
                assert(!self.holds(Relation::Less) || !self.holds(Relation::Equal) || !self.holds(
                    Relation::Greater,
                ) || !self.holds(Relation::Unordered));
            }
        }
        matches!(self, Cmp::TRUE | Cmp::TRUE_LOUD)
    }

    /// Whether this predicate holds exactly when neither operand is a NaN.
    pub fn is_ord(self) -> (r: bool)
        ensures
            r == (self.on_ordered() == (true, true, true) && !self.on_nan()),
    {
        matches!(self, Cmp::ORD | Cmp::ORD_LOUD)
    }

    /// Whether this predicate holds exactly when an operand is a NaN.
    pub fn is_unord(self) -> (r: bool)
        ensures
            r == (self.on_ordered() == (false, false, false) && self.on_nan()),
    {
        matches!(self, Cmp::UNORD | Cmp::UNORD_LOUD)
    }
}

impl Order {
    pub fn is_ordered(self) -> (r: bool)
        ensures
            r == (self == Order::Ordered),
    {
        matches!(self, Order::Ordered)
    }

    pub fn is_unordered(self) -> (r: bool)
        ensures
            r == (self == Order::Unorderd),
    {
        matches!(self, Order::Unorderd)
    }
}

impl Noise {
    pub fn is_quiet(self) -> (r: bool)
        ensures
            r == (self == Noise::Quiet),
    {
        matches!(self, Noise::Quiet)
    }

    pub fn is_loud(self) -> (r: bool)
        ensures
            r == (self == Noise::Loud),
    {
        matches!(self, Noise::Loud)
    }
}

/// Flipping one of the three flag bits of a code moves it by that bit's value and keeps it
/// a code.
proof fn lemma_flip_bit(code: i32)
    requires
        0 <= code < 32,
    ensures
        code ^ RESULT_BIT == (if (code / 4) % 2 == 0 { code + 4 } else { code - 4 }),
        code ^ ORDER_BIT == (if (code / 8) % 2 == 0 { code + 8 } else { code - 8 }),
        code ^ SIGNAL_BIT == (if (code / 16) % 2 == 0 { code + 16 } else { code - 16 }),
{
    assert(0 <= code < 32 ==> code ^ 0x04 == (if (code / 4) % 2 == 0 { code + 4 } else { code - 4 }))
        by (bit_vector);
    assert(0 <= code < 32 ==> code ^ 0x08 == (if (code / 8) % 2 == 0 { code + 8 } else { code - 8 }))
        by (bit_vector);
    assert(0 <= code < 32 ==> code ^ 0x10 == (if (code / 16) % 2 == 0 { code + 16 } else { code - 16 }))
        by (bit_vector);
}

/// The code of every predicate encodes what the predicate means: its answers on all four
/// relations, and whether it signals, can be read off the bits of the code.
pub proof fn lemma_code_encodes_meaning(pred: Cmp, rel: Relation)
    ensures
        0 <= pred.code() < 32,
        pred.holds(rel) == code_holds(pred.code() as int, rel),
        pred.signals() == code_signals(pred.code() as int),
{
}

/// Two predicates with the same code are the same predicate.
pub proof fn lemma_code_injective(a: Cmp, b: Cmp)
    requires
        a.code() == b.code(),
    ensures
        a == b,
{
}

} // verus!
