//! Octal text: the value form of the one recognized mount option.
//!
//! The mode option arrives as octal text and leaves again as octal text when
//! the mount's options are shown, so both directions live here, each proved
//! against the same mathematical reading [`octal_val`] / [`octal_text`].

use vstd::prelude::*;

verus! {

/// Holds of a character that is an octal digit.
pub open spec fn is_octal_digit(c: char) -> bool {
    '0' <= c && c <= '7'
}

/// Holds of nonempty text made of octal digits only.
pub open spec fn is_octal_text(s: Seq<char>) -> bool {
    s.len() > 0 && forall|i: int| 0 <= i < s.len() ==> is_octal_digit(#[trigger] s[i])
}

/// The numeric value of one octal digit.
pub open spec fn octal_digit_val(c: char) -> int {
    c as int - '0' as int
}

/// The numeric value of octal text, most significant digit first.
pub open spec fn octal_val(s: Seq<char>) -> int
    decreases s.len(),
{
    if s.len() == 0 {
        0
    } else {
        octal_val(s.drop_last()) * 8 + octal_digit_val(s.last())
    }
}

/// The digit character for a value below eight.
pub open spec fn octal_digit_char(d: int) -> char {
    if d == 0 {
        '0'
    } else if d == 1 {
        '1'
    } else if d == 2 {
        '2'
    } else if d == 3 {
        '3'
    } else if d == 4 {
        '4'
    } else if d == 5 {
        '5'
    } else if d == 6 {
        '6'
    } else {
        '7'
    }
}

/// The octal text of a number: no sign, no leading zero except for zero
/// itself.
pub open spec fn octal_text(n: nat) -> Seq<char>
    decreases n,
{
    if n < 8 {
        seq![octal_digit_char(n as int)]
    } else {
        octal_text(n / 8).push(octal_digit_char((n % 8) as int))
    }
}

/// Octal text of digit-only characters never has a negative value.
pub proof fn lemma_octal_val_nonneg(s: Seq<char>)
    requires
        forall|i: int| 0 <= i < s.len() ==> is_octal_digit(#[trigger] s[i]),
    ensures
        octal_val(s) >= 0,
    decreases s.len(),
{
    if s.len() > 0 {
        lemma_octal_val_nonneg(s.drop_last());
    }
}

/// Dropping digits from the end of octal text never increases its value.
pub proof fn lemma_octal_prefix_le(s: Seq<char>, i: int)
    requires
        0 <= i <= s.len(),
        forall|j: int| 0 <= j < s.len() ==> is_octal_digit(#[trigger] s[j]),
    ensures
        octal_val(s.subrange(0, i)) <= octal_val(s),
    decreases s.len() - i,
{
    if i == s.len() {
        assert(s.subrange(0, i) =~= s);
    } else {
        let t = s.subrange(0, i + 1);
        assert(t.drop_last() =~= s.subrange(0, i));
        lemma_octal_val_nonneg(s.subrange(0, i));
        lemma_octal_prefix_le(s, i + 1);
    }
}

/// The digit character of a value below eight reads back as that value.
pub proof fn lemma_digit_char_val(d: int)
    requires
        0 <= d < 8,
    ensures
        octal_digit_val(octal_digit_char(d)) == d,
        is_octal_digit(octal_digit_char(d)),
{
    if d == 0 {
        assert(octal_digit_val('0') == 0);
    } else if d == 1 {
        assert(octal_digit_val('1') == 1);
    } else if d == 2 {
        assert(octal_digit_val('2') == 2);
    } else if d == 3 {
        assert(octal_digit_val('3') == 3);
    } else if d == 4 {
        assert(octal_digit_val('4') == 4);
    } else if d == 5 {
        assert(octal_digit_val('5') == 5);
    } else if d == 6 {
        assert(octal_digit_val('6') == 6);
    } else {
        assert(octal_digit_val('7') == 7);
    }
}

/// Rendering a number gives octal text whose value is the number again: the
/// two directions of the mode option are inverse to one another.
pub proof fn lemma_octal_round_trip(n: nat)
    ensures
        is_octal_text(octal_text(n)),
        octal_val(octal_text(n)) == n,
    decreases n,
{
    if n < 8 {
        let s = octal_text(n);
        assert(s.drop_last() =~= Seq::<char>::empty());
        lemma_digit_char_val(n as int);
        assert(octal_val(Seq::<char>::empty()) == 0);
        assert(s.last() == octal_digit_char(n as int));
        assert(octal_val(s) == octal_val(s.drop_last()) * 8 + octal_digit_val(s.last()));
    } else {
        lemma_octal_round_trip(n / 8);
        lemma_digit_char_val((n % 8) as int);
        let s = octal_text(n);
        assert(s.drop_last() =~= octal_text(n / 8));
        assert forall|i: int| 0 <= i < s.len() implies is_octal_digit(#[trigger] s[i]) by {
            if i < s.len() - 1 {
                assert(s[i] == octal_text(n / 8)[i]);
            }
        }
    }
}

/// Reads octal text as a number, exactly when the whole text is octal digits
/// and the value fits the result type.
pub fn parse_octal_u32(s: &str) -> (r: Option<u32>)
    ensures
        match r {
            Some(v) => is_octal_text(s@) && octal_val(s@) == v,
            None => !(is_octal_text(s@) && octal_val(s@) <= u32::MAX),
        },
{
    let len = s.unicode_len();
    if len == 0 {
        return None;
    }
    let mut acc: u32 = 0;
    let mut i: usize = 0;
    while i < len
        invariant
            0 < len == s@.len(),
            0 <= i <= len,
            forall|j: int| 0 <= j < i ==> is_octal_digit(#[trigger] s@[j]),
            acc == octal_val(s@.subrange(0, i as int)),
        decreases len - i,
    {
        let c = s.get_char(i);
        let cu = c as u32;
        if cu < 48 || cu > 55 {
            assert(!is_octal_digit(s@[i as int]));
            return None;
        }
        let d = cu - 48;
        proof {
            let t = s@.subrange(0, i + 1);
            assert(t.drop_last() =~= s@.subrange(0, i as int));
            assert(t.last() == s@[i as int]);
        }
        if acc > 0x1fff_ffff {
            proof {
                if is_octal_text(s@) {
                    lemma_octal_prefix_le(s@, i + 1);
                }
            }
            return None;
        }
        acc = acc * 8 + d;
        i = i + 1;
    }
    proof {
        assert(s@.subrange(0, len as int) =~= s@);
    }
    Some(acc)
}

/// Appends the octal text of a number to an output string.
fn push_octal(n: u32, out: &mut String)
    ensures
        final(out)@ == old(out)@ + octal_text(n as nat),
    decreases n,
{
    if n >= 8 {
        push_octal(n / 8, out);
    }
    let d = n % 8;
    let digit: &str = if d == 0 {
        "0"
    } else if d == 1 {
        "1"
    } else if d == 2 {
        "2"
    } else if d == 3 {
        "3"
    } else if d == 4 {
        "4"
    } else if d == 5 {
        "5"
    } else if d == 6 {
        "6"
    } else {
        "7"
    };
    proof {
        reveal_strlit("0");
        reveal_strlit("1");
        reveal_strlit("2");
        reveal_strlit("3");
        reveal_strlit("4");
        reveal_strlit("5");
        reveal_strlit("6");
        reveal_strlit("7");
        assert(digit@ =~= seq![octal_digit_char(d as int)]);
    }
    out.append(digit);
    proof {
        if n >= 8 {
            assert(old(out)@ + octal_text((n / 8) as nat) + digit@ =~= old(out)@ + octal_text(
                n as nat,
            ));
        } else {
            assert(old(out)@ + digit@ =~= old(out)@ + octal_text(n as nat));
        }
    }
}

/// The octal text of a number, as a string.
pub fn render_octal(n: u32) -> (s: String)
    ensures
        s@ == octal_text(n as nat),
{
    let mut s = String::new();
    push_octal(n, &mut s);
    proof {
        assert(Seq::<char>::empty() + octal_text(n as nat) =~= octal_text(n as nat));
    }
    s
}

} // verus!
