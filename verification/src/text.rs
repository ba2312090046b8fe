//! Decimal text of a peer identity.

use vstd::prelude::*;
use crate::peer::PeerId;

verus! {

/// The ASCII digit for `n`, which is below ten.
pub open spec fn digit_char(n: nat) -> char {
    (48 + n) as char
}

/// The decimal digits of `n`, most significant first, without leading zeros.
pub open spec fn decimal_digits(n: nat) -> Seq<char>
    decreases n,
{
    if n < 10 {
        seq![digit_char(n)]
    } else {
        decimal_digits(n / 10).push(digit_char(n % 10))
    }
}

/// The decimal text of `n`, with a leading `-` where it is negative.
pub open spec fn decimal(n: int) -> Seq<char> {
    if n < 0 {
        seq!['-'] + decimal_digits((-n) as nat)
    } else {
        decimal_digits(n as nat)
    }
}

/// The number that the decimal digits `s` spell, most significant first.
pub open spec fn digits_value(s: Seq<char>) -> int
    decreases s.len(),
{
    if s.len() == 0 {
        0
    } else {
        digits_value(s.drop_last()) * 10 + (s.last() as int - 48)
    }
}

/// The decimal digits of `n` are ASCII digits, start with a nonzero digit
/// unless `n` is zero, and spell `n`.
pub proof fn law_decimal_digits_spell(n: nat)
    ensures
        decimal_digits(n).len() >= 1,
        forall|i: int|
            0 <= i < decimal_digits(n).len() ==> 48 <= #[trigger] (decimal_digits(n)[i] as int)
                <= 57,
        decimal_digits(n)[0] == '0' ==> n == 0,
        digits_value(decimal_digits(n)) == n,
    decreases n,
{
    if n >= 10 {
        law_decimal_digits_spell(n / 10);
        let s = decimal_digits(n / 10);
        let t = s.push(digit_char(n % 10));
        assert(t.drop_last() == s);
        assert(t[0] == s[0]);
        assert forall|i: int| 0 <= i < t.len() implies 48 <= #[trigger] (t[i] as int) <= 57 by {
            if i < s.len() {
                assert(t[i] == s[i]);
            }
        }
        assert(n == (n / 10) * 10 + n % 10);
        assert(t.last() == digit_char(n % 10));
        assert(digit_char(n % 10) as int == 48 + n % 10);
        assert(digits_value(t) == digits_value(s) * 10 + (t.last() as int - 48));
    } else {
        let t = seq![digit_char(n)];
        assert(t.drop_last().len() == 0);
        assert(digits_value(t.drop_last()) == 0);
        assert(digit_char(n) as int == 48 + n);
        assert(digits_value(t) == digits_value(t.drop_last()) * 10 + (t.last() as int - 48));
    }
}

/// The decimal text of `n` is `-` followed by the digits of `-n` when `n` is
/// negative, and the digits of `n` otherwise; those digits spell the number.
pub proof fn law_decimal_text(n: int)
    ensures
        n < 0 ==> decimal(n)[0] == '-' && decimal(n).drop_first() == decimal_digits((-n) as nat)
            && digits_value(decimal(n).drop_first()) == -n,
        n >= 0 ==> decimal(n) == decimal_digits(n as nat) && digits_value(decimal(n)) == n
            && decimal(n)[0] != '-',
{
    if n < 0 {
        law_decimal_digits_spell((-n) as nat);
        assert((seq!['-'] + decimal_digits((-n) as nat)).drop_first() == decimal_digits(
            (-n) as nat,
        ));
    } else {
        law_decimal_digits_spell(n as nat);
        assert(48 <= (decimal_digits(n as nat)[0] as int) <= 57);
    }
}

/// Formats `n` with std's `ToString` (through `Display` for `i64`), which
/// writes its decimal digits, preceded by `-` where `n` is negative.
#[verifier::external_body]
fn i64_to_string(n: i64) -> (s: String)
    ensures
        s@ == decimal(n as int),
{
    n.to_string()
}

impl PeerId {
    /// The identity in the Bot API dialog ID format, as decimal text.
    pub fn to_string(&self) -> (s: String)
        ensures
            s@ == decimal(self@),
    {
        i64_to_string(self.bot_api_dialog_id())
    }
}

} // verus!
