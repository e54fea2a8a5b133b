//! Amounts of money, held as a whole number of cents.
use vstd::prelude::*;
use crate::text::push_char;

verus! {

#[derive(Clone, Copy, Debug, PartialEq, Eq, Structural)]
pub struct Money {
    cents: i64,
}

impl View for Money {
    type V = int;

    closed spec fn view(&self) -> int {
        self.cents as int
    }
}

/// The decimal digit `d` as a character.
pub open spec fn digit_char(d: int) -> char {
    ((48 + d) as u32) as char
}

/// The decimal notation of `n`, without leading zeros.
pub open spec fn decimal(n: nat) -> Seq<char>
    decreases n,
{
    if n < 10 {
        seq![digit_char(n as int)]
    } else {
        decimal(n / 10).push(digit_char((n % 10) as int))
    }
}

pub open spec fn abs(c: int) -> nat {
    if c < 0 {
        (-c) as nat
    } else {
        c as nat
    }
}

/// An amount as shown to the user: an optional minus sign, a dollar sign,
/// the whole dollars, and two digits of cents, as in `-$1.23`.
pub open spec fn money_text(cents: int) -> Seq<char> {
    let a = abs(cents);
    let sign = if cents < 0 {
        seq!['-']
    } else {
        Seq::<char>::empty()
    };
    sign + seq!['$'] + decimal(a / 100) + seq![
        '.',
        digit_char(((a % 100) / 10) as int),
        digit_char((a % 10) as int),
    ]
}

fn digit(d: u64) -> (r: char)
    requires
        d < 10,
    ensures
        r == digit_char(d as int),
{
    ((d as u8) + 48) as char
}

/// Appends the decimal notation of `n`.
pub fn push_decimal(s: &mut String, n: u64)
    ensures
        final(s)@ == old(s)@ + decimal(n as nat),
    decreases n,
{
    if n >= 10 {
        push_decimal(s, n / 10);
    }
    push_char(s, digit(n % 10));
    if n >= 10 {
        assert(old(s)@ + decimal(n as nat) =~= old(s)@ + decimal((n / 10) as nat) + seq![digit_char((n % 10) as int)]);
    } else {
        assert(old(s)@ + decimal(n as nat) =~= old(s)@.push(digit_char((n % 10) as int)));
    }
}

impl Money {
    pub fn new(cents: i64) -> (r: Money)
        ensures
            r@ == cents,
    {
        Money { cents }
    }

    pub fn cents(&self) -> (r: i64)
        ensures
            r == self@,
    {
        self.cents
    }

    /// The amount as shown to the user, such as `$10.00` or `-$1.23`.
    pub fn to_display_string(&self) -> (r: String)
        ensures
            r@ == money_text(self@),
    {
        let a: u64 = if self.cents < 0 {
            (0 - (self.cents as i128)) as u64
        } else {
            self.cents as u64
        };
        assert(a == abs(self@));
        let mut r = String::new();
        if self.cents < 0 {
            push_char(&mut r, '-');
        }
        push_char(&mut r, '$');
        push_decimal(&mut r, a / 100);
        push_char(&mut r, '.');
        push_char(&mut r, digit((a % 100) / 10));
        push_char(&mut r, digit(a % 10));
        assert(r@ =~= money_text(self@));
        r
    }
}

} // verus!
