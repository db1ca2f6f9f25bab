//! Reading unsigned decimal numbers out of text, as the pre-transaction
//! balance snapshot and the log lines carry them.

use vstd::prelude::*;

verus! {

/// What UTF-8 decoding of a byte string yields: its text, or `None` when
/// the bytes are not well-formed UTF-8.  A pure function of the bytes.
pub uninterp spec fn utf8_decoded(bytes: Seq<u8>) -> Option<Seq<char>>;

/// Relies on `String::from_utf8`: decodes UTF-8 bytes into text, failing
/// exactly on ill-formed input; the result depends on the bytes alone.
#[verifier::external_body]
pub fn bytes_to_utf8(bytes: Vec<u8>) -> (r: Option<String>)
    ensures
        r is Some <==> utf8_decoded(bytes@) is Some,
        r matches Some(s) ==> s@ == utf8_decoded(bytes@)->0,
{
    String::from_utf8(bytes).ok()
}

/// A decimal digit.
pub open spec fn is_digit(c: char) -> bool {
    48 <= c as u32 <= 57
}

/// The value of one decimal digit.
pub open spec fn digit_val(c: char) -> int {
    c as u32 - 48
}

/// Nonempty text made of decimal digits alone.
pub open spec fn is_digits(s: Seq<char>) -> bool {
    s.len() > 0 && (forall|j: int| 0 <= j < s.len() ==> is_digit(#[trigger] s[j]))
}

/// The number the digit text denotes.
pub open spec fn digits_value(s: Seq<char>) -> int
    decreases s.len(),
{
    if s.len() == 0 {
        0
    } else {
        digits_value(s.drop_last()) * 10 + digit_val(s.last())
    }
}

/// The value of a digit text never falls when the text grows by a digit.
pub proof fn lemma_digits_value_grows(s: Seq<char>, i: int)
    requires
        0 <= i < s.len(),
        forall|j: int| 0 <= j < s.len() ==> is_digit(#[trigger] s[j]),
    ensures
        0 <= digits_value(s.take(i)) <= digits_value(s.take(i + 1)),
    decreases i,
{
    assert(s.take(i + 1).drop_last() =~= s.take(i));
    if i > 0 {
        lemma_digits_value_grows(s, i - 1);
    } else {
        assert(s.take(0) =~= Seq::<char>::empty());
    }
    assert(digits_value(s.take(i + 1)) == digits_value(s.take(i)) * 10 + digit_val(s[i]));
    assert(digits_value(s.take(i)) * 10 >= digits_value(s.take(i))) by (nonlinear_arith)
        requires
            digits_value(s.take(i)) >= 0,
    ;
}

/// A prefix of a digit text never denotes more than the whole.
pub proof fn lemma_digits_value_prefix(s: Seq<char>, i: int)
    requires
        0 <= i <= s.len(),
        forall|j: int| 0 <= j < s.len() ==> is_digit(#[trigger] s[j]),
    ensures
        0 <= digits_value(s.take(i)) <= digits_value(s),
    decreases s.len() - i,
{
    if i == s.len() {
        assert(s.take(i) =~= s);
        if s.len() > 0 {
            lemma_digits_value_grows(s, s.len() - 1);
            assert(s.take(s.len() - 1 + 1) =~= s);
        } else {
            assert(s.take(0) =~= Seq::<char>::empty());
        }
    } else {
        lemma_digits_value_grows(s, i);
        lemma_digits_value_prefix(s, i + 1);
    }
}

/// Reads a number from decimal text: the value, where the text is nonempty,
/// all digits, and the value fits in a 64-bit word; nothing otherwise.
pub fn parse_u64(s: &str) -> (r: Option<u64>)
    ensures
        r is Some <==> (is_digits(s@) && digits_value(s@) <= u64::MAX),
        r matches Some(v) ==> v == digits_value(s@),
{
    let n = s.unicode_len();
    if n == 0 {
        return None;
    }
    let mut acc: u64 = 0;
    let mut i: usize = 0;
    while i < n
        invariant
            0 < n == s@.len(),
            i <= n,
            forall|j: int| 0 <= j < i ==> is_digit(#[trigger] s@[j]),
            acc == digits_value(s@.take(i as int)),
        decreases n - i,
    {
        let c = s.get_char(i);
        let cv = c as u32;
        if cv < 48 || cv > 57 {
            assert(!is_digit(s@[i as int]));
            return None;
        }
        let d = (cv - 48) as u64;
        if acc > (u64::MAX - d) / 10 {
            proof {
                assert(acc * 10 + d > u64::MAX) by (nonlinear_arith)
                    requires
                        acc > (u64::MAX - d) / 10,
                        0 <= d <= 9,
                        acc >= 0,
                ;
                assert(s@.take(i + 1 as int).drop_last() =~= s@.take(i as int));
                assert(digits_value(s@.take(i + 1 as int)) == acc * 10 + d);
                if is_digits(s@) {
                    lemma_digits_value_prefix(s@, i + 1 as int);
                }
            }
            return None;
        }
        proof {
            assert(acc * 10 + d <= u64::MAX) by (nonlinear_arith)
                requires
                    acc <= (u64::MAX - d) / 10,
                    0 <= d <= 9,
                    acc >= 0,
            ;
            assert(s@.take(i + 1 as int).drop_last() =~= s@.take(i as int));
        }
        acc = acc * 10 + d;
        i += 1;
    }
    assert(s@.take(n as int) =~= s@);
    Some(acc)
}

} // verus!
