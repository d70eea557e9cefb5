//! Amounts of processor time and memory, as the metrics service writes
//! them, and how the dashboard shows them.

use vstd::prelude::*;
use vstd::string::StringExecFns;
use crate::text::{chars_of, decimal, decimal_text, remove_all, without_all};

verus! {

/// Whether `c` is one of the digits `0` to `9`.
pub open spec fn is_digit(c: char) -> bool {
    '0' <= c && c <= '9'
}

/// The number that the first `n` characters of `s` write in decimal, all
/// of them being digits.
pub open spec fn digits_value(s: Seq<char>, n: nat) -> nat
    recommends
        n <= s.len(),
    decreases n,
{
    if n == 0 {
        0
    } else {
        digits_value(s, (n - 1) as nat) * 10 + (s[n - 1] as nat - '0' as nat) as nat
    }
}

/// Whether `s` consists of digits only.
pub open spec fn all_digits(s: Seq<char>) -> bool {
    forall|i: int| 0 <= i < s.len() ==> is_digit(#[trigger] s[i])
}

/// The integer that `s` writes: an optional sign, `+` or `-`, and then at
/// least one digit and nothing but digits. `None` for every other text.
pub open spec fn written_integer(s: Seq<char>) -> Option<int> {
    let signed = s.len() > 0 && (s[0] == '-' || s[0] == '+');
    let digits = if signed {
        s.subrange(1, s.len() as int)
    } else {
        s
    };
    if digits.len() == 0 || !all_digits(digits) {
        None
    } else if signed && s[0] == '-' {
        Some(-(digits_value(digits, digits.len()) as int))
    } else {
        Some(digits_value(digits, digits.len()) as int)
    }
}

/// The integer that `s` writes, if it fits 64 bits with a sign.
pub open spec fn written_i64(s: Seq<char>) -> Option<i64> {
    match written_integer(s) {
        Some(v) => if i64::MIN <= v <= i64::MAX {
            Some(v as i64)
        } else {
            None
        },
        None => None,
    }
}

/// The integer that `s` writes, if it fits 32 bits with a sign.
pub open spec fn written_i32(s: Seq<char>) -> Option<i32> {
    match written_integer(s) {
        Some(v) => if i32::MIN <= v <= i32::MAX {
            Some(v as i32)
        } else {
            None
        },
        None => None,
    }
}

/// The value of a longer prefix of digits is at least that of a shorter
/// one.
proof fn lemma_digits_value_grows(s: Seq<char>, a: nat, b: nat)
    requires
        a <= b <= s.len(),
    ensures
        digits_value(s, a) <= digits_value(s, b),
    decreases b,
{
    if a < b {
        lemma_digits_value_grows(s, a, (b - 1) as nat);
    }
}

/// The largest magnitude that is looked at: 2 to the power of 63.
const MAGNITUDE_LIMIT: u128 = 9223372036854775808;

/// The magnitude that the digits of `s` from position `from` on write:
/// `None` if there is no digit or something else than a digit, and
/// `Some(None)` if the number is larger than 2 to the power of 63.
fn read_magnitude(s: &Vec<char>, from: usize) -> (magnitude: Option<Option<u128>>)
    requires
        from <= s.len(),
    ensures
        ({
            let digits = s@.subrange(from as int, s.len() as int);
            match magnitude {
                None => digits.len() == 0 || !all_digits(digits),
                Some(None) => digits.len() > 0 && all_digits(digits) && digits_value(
                    digits,
                    digits.len(),
                ) > MAGNITUDE_LIMIT,
                Some(Some(v)) => digits.len() > 0 && all_digits(digits) && v == digits_value(
                    digits,
                    digits.len(),
                ) && v <= MAGNITUDE_LIMIT,
            }
        }),
{
    let ghost digits = s@.subrange(from as int, s.len() as int);
    if from == s.len() {
        return None;
    }
    let mut value: u128 = 0;
    let mut too_large = false;
    let mut i: usize = from;
    while i < s.len()
        invariant
            from <= i <= s.len(),
            digits == s@.subrange(from as int, s.len() as int),
            forall|k: int| 0 <= k < i - from ==> is_digit(#[trigger] digits[k]),
            !too_large ==> value == digits_value(digits, (i - from) as nat) && value
                <= MAGNITUDE_LIMIT,
            too_large ==> digits_value(digits, (i - from) as nat) > MAGNITUDE_LIMIT,
        decreases s.len() - i,
    {
        let c = s[i];
        assert(digits[i - from] == c);
        if !('0' <= c && c <= '9') {
            return None;
        }
        let digit: u128 = (c as u8 - 48) as u128;
        proof {
            lemma_digits_value_grows(digits, (i - from) as nat, (i - from + 1) as nat);
        }
        if !too_large {
            value = value * 10 + digit;
            if value > MAGNITUDE_LIMIT {
                too_large = true;
            }
        }
        i = i + 1;
    }
    assert(all_digits(digits));
    if too_large {
        Some(None)
    } else {
        Some(Some(value))
    }
}

/// The integer that `text` writes, if it fits 64 bits with a sign: an
/// optional sign and then digits only.
pub fn parse_i64(text: &str) -> (value: Option<i64>)
    ensures
        value == written_i64(text@),
{
    let s = chars_of(text);
    let negative = s.len() > 0 && s[0] == '-';
    let signed = s.len() > 0 && (s[0] == '-' || s[0] == '+');
    let from: usize = if signed {
        1
    } else {
        0
    };
    assert(!signed ==> s@.subrange(0, s.len() as int) =~= s@);
    match read_magnitude(&s, from) {
        Some(Some(v)) => {
            if negative {
                if v == MAGNITUDE_LIMIT {
                    Some(i64::MIN)
                } else {
                    Some(-(v as i64))
                }
            } else if v == MAGNITUDE_LIMIT {
                None
            } else {
                Some(v as i64)
            }
        },
        _ => None,
    }
}

/// The integer that `text` writes, if it fits 32 bits with a sign.
pub fn parse_i32(text: &str) -> (value: Option<i32>)
    ensures
        value == written_i32(text@),
{
    match parse_i64(text) {
        Some(v) => {
            if -2147483648 <= v && v <= 2147483647 {
                Some(v as i32)
            } else {
                None
            }
        },
        None => None,
    }
}

/// `n` written in decimal, with a minus sign if it is negative.
pub open spec fn signed_decimal(n: int) -> Seq<char> {
    if n < 0 {
        "-"@ + decimal((-n) as nat)
    } else {
        decimal(n as nat)
    }
}

/// `n` written in decimal, with a minus sign if it is negative.
pub fn signed_decimal_text(n: i64) -> (text: String)
    ensures
        text@ == signed_decimal(n as int),
{
    if n < 0 {
        let magnitude: u64 = if n == i64::MIN {
            9223372036854775808u64
        } else {
            (-n) as u64
        };
        let mut text = String::from_str("-");
        let digits = decimal_text(magnitude);
        text.append(digits.as_str());
        text
    } else {
        decimal_text(n as u64)
    }
}

/// How an amount of processor time is shown.
#[derive(Debug)]
pub enum CpuShown {
    /// As this text.
    Text(String),
    /// In cores, the amount being so many thousandths of a core.
    Cores { millicores: i32 },
}

/// What a `CpuShown` holds.
pub ghost enum CpuShownView {
    Text(Seq<char>),
    Cores { millicores: i32 },
}

impl View for CpuShown {
    type V = CpuShownView;

    open spec fn view(&self) -> CpuShownView {
        match *self {
            CpuShown::Text(text) => CpuShownView::Text(text@),
            CpuShown::Cores { millicores } => CpuShownView::Cores { millicores },
        }
    }
}

/// How the amount of processor time `cpu` is shown: nothing as "N/A"; a
/// number of thousandths of a core, with or without the letter `m`, in
/// thousandths below a thousand and in cores from a thousand on; and
/// everything else as it is.
pub open spec fn cpu_shown(cpu: Seq<char>) -> CpuShownView {
    if cpu.len() == 0 {
        CpuShownView::Text("N/A"@)
    } else {
        match written_i32(without_all(cpu, "m"@, 0)) {
            Some(n) => if n < 1000 {
                CpuShownView::Text(signed_decimal(n as int) + "m"@)
            } else {
                CpuShownView::Cores { millicores: n }
            },
            None => CpuShownView::Text(cpu),
        }
    }
}

/// How the amount of processor time `cpu_str` is shown.
pub fn format_cpu(cpu_str: &str) -> (shown: CpuShown)
    ensures
        shown@ == cpu_shown(cpu_str@),
{
    if cpu_str.is_empty() {
        return CpuShown::Text(String::from_str("N/A"));
    }
    let number = remove_all(cpu_str, "m");
    match parse_i32(number.as_str()) {
        Some(n) => {
            if n < 1000 {
                let mut text = signed_decimal_text(n as i64);
                text.append("m");
                CpuShown::Text(text)
            } else {
                CpuShown::Cores { millicores: n }
            }
        },
        None => CpuShown::Text(String::from_str(cpu_str)),
    }
}

/// Kibibytes in a mebibyte, and in a gibibyte.
pub const KIB_PER_MIB: i64 = 1024;

pub const KIB_PER_GIB: i64 = 1048576;

/// How an amount of memory is shown.
#[derive(Debug)]
pub enum MemoryShown {
    /// As this text.
    Text(String),
    /// In mebibytes, the amount being so many kibibytes.
    Mebibytes { kibibytes: i64 },
    /// In gibibytes, the amount being so many kibibytes.
    Gibibytes { kibibytes: i64 },
}

/// What a `MemoryShown` holds.
pub ghost enum MemoryShownView {
    Text(Seq<char>),
    Mebibytes { kibibytes: i64 },
    Gibibytes { kibibytes: i64 },
}

impl View for MemoryShown {
    type V = MemoryShownView;

    open spec fn view(&self) -> MemoryShownView {
        match *self {
            MemoryShown::Text(text) => MemoryShownView::Text(text@),
            MemoryShown::Mebibytes { kibibytes } => MemoryShownView::Mebibytes { kibibytes },
            MemoryShown::Gibibytes { kibibytes } => MemoryShownView::Gibibytes { kibibytes },
        }
    }
}

/// Whether `s` ends with the characters of `suffix`.
pub open spec fn has_suffix(s: Seq<char>, suffix: Seq<char>) -> bool {
    suffix.len() <= s.len() && s.subrange(s.len() - suffix.len(), s.len() as int) == suffix
}

/// How the amount of memory `memory` is shown: nothing as "N/A"; a number
/// of kibibytes in gibibytes from a gibibyte on and in mebibytes from a
/// mebibyte on; and everything else as it is.
pub open spec fn memory_shown(memory: Seq<char>) -> MemoryShownView {
    if memory.len() == 0 {
        MemoryShownView::Text("N/A"@)
    } else if !has_suffix(memory, "Ki"@) {
        MemoryShownView::Text(memory)
    } else {
        match written_i64(without_all(memory, "Ki"@, 0)) {
            Some(k) => if k >= KIB_PER_GIB {
                MemoryShownView::Gibibytes { kibibytes: k }
            } else if k >= KIB_PER_MIB {
                MemoryShownView::Mebibytes { kibibytes: k }
            } else {
                MemoryShownView::Text(memory)
            },
            None => MemoryShownView::Text(memory),
        }
    }
}

/// Whether `text` ends with the letters `Ki`.
fn ends_with_ki(text: &str) -> (ends: bool)
    ensures
        ends == has_suffix(text@, "Ki"@),
{
    let s = chars_of(text);
    proof {
        reveal_strlit("Ki");
    }
    if s.len() < 2 {
        return false;
    }
    let ghost tail = text@.subrange(text@.len() - 2, text@.len() as int);
    assert(tail[0] == s@[s.len() - 2] && tail[1] == s@[s.len() - 1]);
    if s[s.len() - 2] == 'K' && s[s.len() - 1] == 'i' {
        assert(tail =~= "Ki"@);
        true
    } else {
        false
    }
}

/// How the amount of memory `memory_str` is shown.
pub fn format_memory(memory_str: &str) -> (shown: MemoryShown)
    ensures
        shown@ == memory_shown(memory_str@),
{
    if memory_str.is_empty() {
        return MemoryShown::Text(String::from_str("N/A"));
    }
    if ends_with_ki(memory_str) {
        let number = remove_all(memory_str, "Ki");
        match parse_i64(number.as_str()) {
            Some(k) => {
                if k >= KIB_PER_GIB {
                    return MemoryShown::Gibibytes { kibibytes: k };
                } else if k >= KIB_PER_MIB {
                    return MemoryShown::Mebibytes { kibibytes: k };
                }
            },
            None => {},
        }
    }
    MemoryShown::Text(String::from_str(memory_str))
}

} // verus!
