//! The port number: a scalar with a type of its own, and its reading from text.

use vstd::prelude::*;

verus! {

/// A network port, kept apart from the other integers of a configuration.
#[derive(Clone, Copy, Debug, PartialEq, Eq, Structural)]
pub struct Port(pub u16);

/// `c` is one of the ten decimal digits.
pub open spec fn is_digit(c: char) -> bool {
    '0' <= c && c <= '9'
}

/// The number that a decimal digit stands for.
pub open spec fn digit_value(c: char) -> nat
    recommends
        is_digit(c),
{
    (c as u32 - '0' as u32) as nat
}

/// Every character of `digits` is a decimal digit.
pub open spec fn all_digits(digits: Seq<char>) -> bool {
    forall|i: int| 0 <= i < digits.len() ==> is_digit(#[trigger] digits[i])
}

/// The number written by `digits` in base ten, the most significant digit first.
pub open spec fn decimal_value(digits: Seq<char>) -> nat
    decreases digits.len(),
{
    if digits.len() == 0 {
        0
    } else {
        decimal_value(digits.drop_last()) * 10 + digit_value(digits.last())
    }
}

/// `text` without the one plus sign that may stand in front of a number.
pub open spec fn unsigned_part(text: Seq<char>) -> Seq<char> {
    if text.len() > 0 && text[0] == '+' {
        text.drop_first()
    } else {
        text
    }
}

/// A longer run of digits does not write a smaller number than its beginning.
proof fn lemma_decimal_value_grows(digits: Seq<char>, k: int)
    requires
        0 <= k <= digits.len(),
    ensures
        decimal_value(digits.take(k)) <= decimal_value(digits),
    decreases digits.len(),
{
    if k == digits.len() {
        assert(digits.take(k) =~= digits);
    } else {
        lemma_decimal_value_grows(digits.drop_last(), k);
        assert(digits.drop_last().take(k) =~= digits.take(k));
    }
}

impl Port {
    /// The port that `text` writes: an optional plus sign, then one or more decimal digits
    /// and nothing else, for a number of at most 65535. Any other text writes no port.
    pub open spec fn parse_spec(text: Seq<char>) -> Option<Port> {
        let digits = unsigned_part(text);
        if digits.len() > 0 && all_digits(digits) && decimal_value(digits) <= u16::MAX {
            Some(Port(decimal_value(digits) as u16))
        } else {
            None
        }
    }

    /// Reads a port from text.
    pub fn parse(text: &str) -> (port: Option<Port>)
        ensures
            port == Port::parse_spec(text@),
    {
        let mut value: u32 = 0;
        let mut digits_seen: bool = false;
        let mut at_start: bool = true;
        for c in it: text.chars()
            invariant
                it.seq() == text@,
                at_start <==> it.index() == 0,
                value <= u16::MAX,
                ({
                    let seen = unsigned_part(text@.take(it.index() as int));
                    &&& all_digits(seen)
                    &&& value == decimal_value(seen)
                    &&& digits_seen <==> seen.len() > 0
                }),
        {
            let ghost before = text@.take(it.index() as int);
            let ghost after = text@.take(it.index() + 1);
            proof {
                assert(after.drop_last() =~= before);
                assert(after.last() == c);
            }
            if at_start && c == '+' {
                proof {
                    assert(unsigned_part(after) =~= Seq::<char>::empty());
                }
            } else if '0' <= c && c <= '9' {
                let digit: u32 = c as u32 - '0' as u32;
                let ghost seen = unsigned_part(after);
                proof {
                    assert(seen.drop_last() =~= unsigned_part(before));
                    assert(seen.last() == c);
                }
                let next: u32 = value * 10 + digit;
                if next > 65535 {
                    proof {
                        let all = unsigned_part(text@);
                        if all_digits(all) {
                            assert(all.take(seen.len() as int) =~= seen);
                            lemma_decimal_value_grows(all, seen.len() as int);
                        }
                    }
                    return None;
                }
                value = next;
                digits_seen = true;
                proof {
                    assert forall|i: int| 0 <= i < seen.len() implies is_digit(
                        #[trigger] seen[i],
                    ) by {
                        if i < seen.len() - 1 {
                            assert(seen[i] == seen.drop_last()[i]);
                        }
                    }
                }
            } else {
                proof {
                    let all = unsigned_part(text@);
                    let at = unsigned_part(after).len() - 1;
                    assert(all[at] == c);
                }
                return None;
            }
            at_start = false;
        }
        proof {
            assert(text@.take(text@.len() as int) =~= text@);
        }
        if digits_seen {
            Some(Port(value as u16))
        } else {
            None
        }
    }
}

} // verus!
