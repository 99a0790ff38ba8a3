use vstd::prelude::*;

verus! {

/// Relies on `str::chars`: the characters of `s` in order.
#[verifier::external_body]
pub(crate) fn chars_of(s: &str) -> (r: Vec<char>)
    ensures
        r@ == s@,
{
    s.chars().collect()
}

/// Relies on `String::from_iter` over chars: the string of exactly those characters.
#[verifier::external_body]
pub(crate) fn string_from_chars(v: &Vec<char>) -> (r: String)
    ensures
        r@ == v@,
{
    v.iter().collect()
}

pub open spec fn digit_char(d: nat) -> char {
    if d == 0 { '0' }
    else if d == 1 { '1' }
    else if d == 2 { '2' }
    else if d == 3 { '3' }
    else if d == 4 { '4' }
    else if d == 5 { '5' }
    else if d == 6 { '6' }
    else if d == 7 { '7' }
    else if d == 8 { '8' }
    else { '9' }
}

pub open spec fn is_digit(c: char) -> bool {
    '0' <= c && c <= '9'
}

pub open spec fn digit_value(c: char) -> nat {
    (c as u32 - '0' as u32) as nat
}

/// Canonical decimal text of `n`: no sign, no leading zero.
pub open spec fn dec(n: nat) -> Seq<char>
    decreases n,
{
    if n < 10 {
        seq![digit_char(n)]
    } else {
        dec(n / 10).push(digit_char(n % 10))
    }
}

pub fn digit_to_char(d: u8) -> (c: char)
    requires
        d < 10,
    ensures
        c == digit_char(d as nat),
        is_digit(c),
        digit_value(c) == d,
{
    if d == 0 { '0' }
    else if d == 1 { '1' }
    else if d == 2 { '2' }
    else if d == 3 { '3' }
    else if d == 4 { '4' }
    else if d == 5 { '5' }
    else if d == 6 { '6' }
    else if d == 7 { '7' }
    else if d == 8 { '8' }
    else { '9' }
}

pub proof fn lemma_digit_char_value(d: nat)
    requires
        d < 10,
    ensures
        is_digit(digit_char(d)),
        digit_value(digit_char(d)) == d,
{
}

pub proof fn lemma_dec_step(v: nat, d: nat)
    requires
        v > 0,
        d < 10,
    ensures
        dec(v * 10 + d) == dec(v).push(digit_char(d)),
{
    assert((v * 10 + d) / 10 == v) by (nonlinear_arith)
        requires d < 10;
    assert((v * 10 + d) % 10 == d) by (nonlinear_arith)
        requires d < 10;
    assert(v * 10 + d >= 10) by (nonlinear_arith)
        requires v > 0;
}

/// Appends the canonical decimal text of `n`.
pub fn push_dec(out: &mut Vec<char>, n: u8)
    ensures
        final(out)@ == old(out)@ + dec(n as nat),
{
    proof {
        reveal_with_fuel(dec, 3);
    }
    if n < 10 {
        out.push(digit_to_char(n));
    } else if n < 100 {
        out.push(digit_to_char(n / 10));
        out.push(digit_to_char(n % 10));
    } else {
        out.push(digit_to_char(n / 100));
        out.push(digit_to_char((n / 10) % 10));
        out.push(digit_to_char(n % 10));
        assert((n / 10) as nat / 10 == n / 100);
    }
    assert(final(out)@ =~= old(out)@ + dec(n as nat));
}

pub open spec fn all_digits(s: Seq<char>) -> bool {
    forall|k: int| 0 <= k < s.len() ==> is_digit(#[trigger] s[k])
}

/// The number that a run of decimal digits spells.
pub open spec fn digits_value(s: Seq<char>) -> nat
    decreases s.len(),
{
    if s.len() == 0 {
        0
    } else {
        digits_value(s.drop_last()) * 10 + digit_value(s.last())
    }
}

pub proof fn lemma_dec_facts(n: nat)
    ensures
        dec(n).len() >= 1,
        all_digits(dec(n)),
        digits_value(dec(n)) == n,
        n > 0 ==> dec(n)[0] != '0',
        n == 0 ==> dec(n) == seq!['0'],
    decreases n,
{
    if n < 10 {
        lemma_digit_char_value(n);
        assert(dec(n).drop_last() =~= Seq::<char>::empty());
        assert(digits_value(dec(n).drop_last()) == 0);
        assert(digits_value(dec(n)) == digit_value(digit_char(n)));
    } else {
        lemma_dec_facts(n / 10);
        lemma_digit_char_value(n % 10);
        let d = dec(n);
        assert(d.drop_last() =~= dec(n / 10));
        assert(all_digits(d)) by {
            assert forall|k: int| 0 <= k < d.len() implies is_digit(#[trigger] d[k]) by {
                if k < d.len() - 1 {
                    assert(d[k] == dec(n / 10)[k]);
                }
            }
        }
        assert(d[0] == dec(n / 10)[0]);
        assert(d.last() == digit_char(n % 10));
        assert(n / 10 * 10 + n % 10 == n);
        assert(digits_value(d) == digits_value(dec(n / 10)) * 10 + digit_value(digit_char(n % 10)));
    }
}

pub proof fn lemma_prefix_value(s: Seq<char>, k: int)
    requires
        all_digits(s),
        0 <= k <= s.len(),
    ensures
        digits_value(s.subrange(0, k)) <= digits_value(s),
    decreases s.len(),
{
    if k < s.len() {
        let t = s.drop_last();
        assert(all_digits(t)) by {
            assert forall|m: int| 0 <= m < t.len() implies is_digit(#[trigger] t[m]) by {
                assert(t[m] == s[m]);
            }
        }
        lemma_prefix_value(t, k);
        assert(t.subrange(0, k) =~= s.subrange(0, k));
    } else {
        assert(s.subrange(0, k) =~= s);
    }
}

/// `dec(v)` stands at `i` in `s` as a whole number: no digit follows it.
pub open spec fn dec_at(s: Seq<char>, i: int, v: nat) -> bool {
    &&& i + dec(v).len() <= s.len()
    &&& s.subrange(i, i + dec(v).len()) == dec(v)
    &&& (i + dec(v).len() == s.len() || !is_digit(s[i + dec(v).len()]))
}

/// Reads a canonical decimal number of at most `u8::MAX` that starts at `i`.
/// Returns its value and the position after its last digit.
pub fn read_dec(s: &Vec<char>, i: usize) -> (r: Option<(u8, usize)>)
    requires
        i <= s@.len(),
    ensures
        r matches Some((v, j)) ==> i < j <= s@.len() && s@.subrange(i as int, j as int) == dec(v as nat)
            && (j == s@.len() || !is_digit(s@[j as int]) || v == 0),
        forall|v: u8| #[trigger] dec_at(s@, i as int, v as nat) ==> r == Some((v, (i + dec(v as nat).len()) as usize)),
{
    if i >= s.len() || !('0' <= s[i] && s[i] <= '9') {
        proof {
            assert forall|v: u8| #[trigger] dec_at(s@, i as int, v as nat) implies false by {
                lemma_dec_facts(v as nat);
                assert(s@.subrange(i as int, i + dec(v as nat).len())[0] == s@[i as int]);
            }
        }
        return None;
    }
    let first: u32 = (s[i] as u32) - ('0' as u32);
    if first == 0 {
        assert(s@.subrange(i as int, i + 1) =~= dec(0));
        proof {
            assert forall|v: u8| #[trigger] dec_at(s@, i as int, v as nat) implies v == 0 by {
                lemma_dec_facts(v as nat);
                assert(s@.subrange(i as int, i + dec(v as nat).len())[0] == s@[i as int]);
            }
            lemma_dec_facts(0);
        }
        return Some((0, i + 1));
    }
    let mut v: u32 = first;
    let mut j: usize = i + 1;
    proof {
        lemma_digit_char_value(first as nat);
        assert(digit_char(first as nat) == s@[i as int]) by {
            assert(is_digit(s@[i as int]));
        }
        assert(s@.subrange(i as int, j as int) =~= dec(v as nat));
    }
    while j < s.len() && '0' <= s[j] && s[j] <= '9'
        invariant
            i < j <= s@.len(),
            0 < v <= 255,
            s@.subrange(i as int, j as int) == dec(v as nat),
        decreases s@.len() - j,
    {
        let d: u32 = (s[j] as u32) - ('0' as u32);
        let nv: u32 = v * 10 + d;
        if nv > 255 {
            proof {
                lemma_dec_facts(v as nat);
                lemma_digit_char_value(d as nat);
                let run = s@.subrange(i as int, j + 1);
                assert(run.drop_last() =~= s@.subrange(i as int, j as int));
                assert(all_digits(run)) by {
                    assert forall|m: int| 0 <= m < run.len() implies is_digit(#[trigger] run[m]) by {
                        if m < run.len() - 1 {
                            assert(run[m] == dec(v as nat)[m]);
                        }
                    }
                }
                assert(digits_value(run) == nv);
                assert forall|w: u8| #[trigger] dec_at(s@, i as int, w as nat) implies false by {
                    lemma_dec_facts(w as nat);
                    let dw = dec(w as nat);
                    if i + dw.len() <= j {
                        assert(is_digit(run[i + dw.len() - i]));
                        assert(run[i + dw.len() - i] == s@[i + dw.len()]);
                    } else {
                        assert(dw.subrange(0, run.len() as int) =~= run);
                        lemma_prefix_value(dw, run.len() as int);
                    }
                }
            }
            return None;
        }
        proof {
            lemma_dec_step(v as nat, d as nat);
            lemma_digit_char_value(d as nat);
            assert(digit_char(d as nat) == s@[j as int]);
            assert(s@.subrange(i as int, j + 1) =~= s@.subrange(i as int, j as int).push(s@[j as int]));
        }
        v = nv;
        j = j + 1;
    }
    proof {
        lemma_dec_facts(v as nat);
        let run = s@.subrange(i as int, j as int);
        assert forall|w: u8| #[trigger] dec_at(s@, i as int, w as nat) implies w == v && dec(w as nat).len() == j - i by {
            lemma_dec_facts(w as nat);
            let dw = dec(w as nat);
            if i + dw.len() < j {
                assert(run[dw.len() as int] == s@[i + dw.len()]);
            } else if i + dw.len() > j {
                assert(dw[j - i] == s@[j as int]);
            }
            assert(dw =~= run);
        }
    }
    Some((v as u8, j))
}

} // verus!
