//! Password strength: a score from 0 to 255 and the rank shown for it.
use vstd::prelude::*;

verus! {

/// Relies on `char::is_numeric`: whether a character is in one of Unicode's
/// number categories (Nd, Nl, No).
pub uninterp spec fn numeric_char(c: char) -> bool;

/// Relies on `char::is_uppercase`: whether a character has Unicode's
/// `Uppercase` property.
pub uninterp spec fn uppercase_char(c: char) -> bool;

/// ASCII punctuation: `! " # $ % & ' ( ) * + , - . /`, `: ; < = > ? @`,
/// `[ \ ] ^ _ backtick` and `{ | } ~`.
pub open spec fn ascii_punctuation(c: char) -> bool {
    let u = c as u32;
    (0x21 <= u <= 0x2f) || (0x3a <= u <= 0x40) || (0x5b <= u <= 0x60) || (0x7b <= u <= 0x7e)
}

/// How many times `c` occurs in `s`.
pub open spec fn occurrences(s: Seq<char>, c: char) -> nat
    decreases s.len(),
{
    if s.len() == 0 {
        0
    } else {
        occurrences(s.drop_last(), c) + if s.last() == c {
            1nat
        } else {
            0nat
        }
    }
}

/// What one character adds to the score: one for its place in the length,
/// one if it is numeric, one if it is uppercase, two if it is punctuation,
/// then four if it occurs once in the password, two if it occurs twice,
/// and one less otherwise.
pub open spec fn weight(numeric: bool, upper: bool, punct: bool, count: nat) -> int {
    1 + (if numeric {
        1int
    } else {
        0int
    }) + (if upper {
        1int
    } else {
        0int
    }) + (if punct {
        2int
    } else {
        0int
    }) + (if count == 1 {
        4int
    } else if count == 2 {
        2int
    } else {
        -1int
    })
}

/// The weight of the character at position `i` of `s`, within `s`.
pub open spec fn weight_at(s: Seq<char>, i: int) -> int {
    weight(numeric_char(s[i]), uppercase_char(s[i]), ascii_punctuation(s[i]), occurrences(s, s[i]))
}

/// Sum of the weights of the first `n` characters of `s`.
pub open spec fn weight_sum(s: Seq<char>, n: nat) -> int
    decreases n,
{
    if n == 0 {
        0
    } else {
        weight_sum(s, (n - 1) as nat) + weight_at(s, n - 1)
    }
}

/// The strength score of a password: the sum of its characters' weights,
/// capped at 255.
pub open spec fn power_score(s: Seq<char>) -> u8 {
    let total = weight_sum(s, s.len());
    if total >= 255 {
        255u8
    } else {
        total as u8
    }
}

/// Relies on `char::is_numeric`.
#[verifier::external_body]
fn is_numeric(c: char) -> (r: bool)
    ensures
        r == numeric_char(c),
{
    c.is_numeric()
}

/// Relies on `char::is_uppercase`.
#[verifier::external_body]
fn is_uppercase(c: char) -> (r: bool)
    ensures
        r == uppercase_char(c),
{
    c.is_uppercase()
}

/// Relies on `char::is_ascii_punctuation`, documented as the four ASCII
/// ranges of `ascii_punctuation`.
#[verifier::external_body]
fn is_ascii_punctuation(c: char) -> (r: bool)
    ensures
        r == ascii_punctuation(c),
{
    c.is_ascii_punctuation()
}

/// The characters of a string, in order.
pub fn chars_of(text: &str) -> (r: Vec<char>)
    ensures
        r@ == text@,
{
    let n = text.unicode_len();
    let mut out: Vec<char> = Vec::new();
    let mut i: usize = 0;
    while i < n
        invariant
            n == text@.len(),
            i <= n,
            out@ == text@.take(i as int),
        decreases n - i,
    {
        out.push(text.get_char(i));
        assert(text@.take(i as int).push(text@[i as int]) =~= text@.take((i + 1) as int));
        i = i + 1;
    }
    assert(text@.take(n as int) =~= text@);
    out
}

/// How many times `c` occurs in `chars`.
pub fn count_of(chars: &Vec<char>, c: char) -> (r: usize)
    ensures
        r == occurrences(chars@, c),
{
    let n = chars.len();
    let mut count: usize = 0;
    let mut i: usize = 0;
    while i < n
        invariant
            n == chars@.len(),
            i <= n,
            count == occurrences(chars@.take(i as int), c),
            count <= i,
        decreases n - i,
    {
        assert(chars@.take((i + 1) as int).drop_last() =~= chars@.take(i as int));
        if chars[i] == c {
            count = count + 1;
        }
        i = i + 1;
    }
    assert(chars@.take(n as int) =~= chars@);
    count
}

/// What one character adds to the strength score, given its classes and how
/// many times it occurs in the password.
pub fn char_weight(numeric: bool, upper: bool, punct: bool, count: usize) -> (r: u8)
    ensures
        r as int == weight(numeric, upper, punct, count as nat),
{
    let mut w: u8 = 1;
    if numeric {
        w = w + 1;
    }
    if upper {
        w = w + 1;
    }
    if punct {
        w = w + 2;
    }
    if count == 1 {
        w + 4
    } else if count == 2 {
        w + 2
    } else {
        w - 1
    }
}

/// A strength rank, carrying the score it was computed from.
pub enum Power {
    NoPower,
    BabyPower(u8),
    LowPower(u8),
    MediumPower(u8),
    HighPower(u8),
    MaxPower(u8),
}

impl Power {
    /// The rank of a score: 0, 1 to 10, 11 to 25, 26 to 100, 101 to 200,
    /// 201 to 255.
    pub open spec fn rank_of(nb: u8) -> Power {
        if nb == 0 {
            Power::NoPower
        } else if nb <= 10 {
            Power::BabyPower(nb)
        } else if nb <= 25 {
            Power::LowPower(nb)
        } else if nb <= 100 {
            Power::MediumPower(nb)
        } else if nb <= 200 {
            Power::HighPower(nb)
        } else {
            Power::MaxPower(nb)
        }
    }

    pub fn rank(nb: u8) -> (r: Power)
        ensures
            r == Power::rank_of(nb),
    {
        if nb == 0 {
            Power::NoPower
        } else if nb <= 10 {
            Power::BabyPower(nb)
        } else if nb <= 25 {
            Power::LowPower(nb)
        } else if nb <= 100 {
            Power::MediumPower(nb)
        } else if nb <= 200 {
            Power::HighPower(nb)
        } else {
            Power::MaxPower(nb)
        }
    }

    /// The sentence shown for a rank.
    pub fn display(&self) -> (r: &'static str)
        ensures
            r@ == match *self {
                Power::NoPower => "Cannot live"@,
                Power::BabyPower(_) => "I am a baby and I cry a lot"@,
                Power::LowPower(_) => "I am so weak "@,
                Power::MediumPower(_) => "I am ok "@,
                Power::HighPower(_) => "I feel so good "@,
                Power::MaxPower(_) => "Mouahaha I am so OP"@,
            },
    {
        match self {
            Power::NoPower => "Cannot live",
            Power::BabyPower(_) => "I am a baby and I cry a lot",
            Power::LowPower(_) => "I am so weak ",
            Power::MediumPower(_) => "I am ok ",
            Power::HighPower(_) => "I feel so good ",
            Power::MaxPower(_) => "Mouahaha I am so OP",
        }
    }

    /// The style class of a rank.
    pub fn class(&self) -> (r: &'static str)
        ensures
            r@ == match *self {
                Power::NoPower => "no-power"@,
                Power::BabyPower(_) => "baby-power"@,
                Power::LowPower(_) => "low-power"@,
                Power::MediumPower(_) => "medium-power"@,
                Power::HighPower(_) => "high-power"@,
                Power::MaxPower(_) => "max-power"@,
            },
    {
        match self {
            Power::NoPower => "no-power",
            Power::BabyPower(_) => "baby-power",
            Power::LowPower(_) => "low-power",
            Power::MediumPower(_) => "medium-power",
            Power::HighPower(_) => "high-power",
            Power::MaxPower(_) => "max-power",
        }
    }

    /// The score a rank carries; none for `NoPower`.
    pub open spec fn units_of(self) -> u8 {
        match self {
            Power::NoPower => 0,
            Power::BabyPower(pw) => pw,
            Power::LowPower(pw) => pw,
            Power::MediumPower(pw) => pw,
            Power::HighPower(pw) => pw,
            Power::MaxPower(pw) => pw,
        }
    }

    pub fn units(&self) -> (r: u8)
        ensures
            r == self.units_of(),
    {
        match self {
            Power::NoPower => 0,
            Power::BabyPower(pw) => *pw,
            Power::LowPower(pw) => *pw,
            Power::MediumPower(pw) => *pw,
            Power::HighPower(pw) => *pw,
            Power::MaxPower(pw) => *pw,
        }
    }

    /// The strength score of a password, from 0 to 255.
    pub fn calculate_power(text: String) -> (r: u8)
        ensures
            r == power_score(text@),
    {
        let chars = chars_of(text.as_str());
        let n = chars.len();
        let mut total: u8 = 0;
        let mut i: usize = 0;
        while i < n
            invariant
                n == chars@.len(),
                chars@ == text@,
                i <= n,
                total as int == if weight_sum(text@, i as nat) >= 255 {
                    255
                } else {
                    weight_sum(text@, i as nat)
                },
            decreases n - i,
        {
            let c = chars[i];
            let count = count_of(&chars, c);
            let w = char_weight(is_numeric(c), is_uppercase(c), is_ascii_punctuation(c), count);
            assert(weight_sum(text@, (i + 1) as nat) == weight_sum(text@, i as nat) + w);
            if total as u16 + w as u16 >= 255 {
                total = 255;
            } else {
                total = total + w;
            }
            i = i + 1;
        }
        total
    }
}

impl Default for Power {
    fn default() -> (r: Power)
        ensures
            r == Power::NoPower,
    {
        Power::NoPower
    }
}

} // verus!
