use vstd::prelude::*;
use vstd::slice::slice_subrange;
use vstd::std_specs::iter::IteratorSpec;
use vstd::string::*;
use vstd::utf8::{decode_utf8, partial_valid_utf8, valid_utf8};

verus! {

/// What is known of a byte string that is not UTF-8.
#[derive(Debug)]
pub struct DecodeFailure {
    /// The length of the longest prefix of the bytes that is UTF-8.
    pub valid_up_to: usize,
    /// The standard library's account of what is wrong behind that prefix.
    pub reason: String,
}

/// `n` is the greatest length of a prefix of `bytes` that is valid UTF-8.
pub open spec fn is_longest_valid_prefix(bytes: Seq<u8>, n: int) -> bool {
    &&& partial_valid_utf8(bytes, n)
    &&& forall|m: int| n < m <= bytes.len() ==> !valid_utf8(#[trigger] bytes.subrange(0, m))
}

/// The length of the longest prefix of `bytes` that is valid UTF-8.
pub open spec fn valid_prefix_len(bytes: Seq<u8>) -> int {
    choose|n: int| is_longest_valid_prefix(bytes, n)
}

/// The text with which `std::str::Utf8Error` displays the failure to decode `bytes`.
pub uninterp spec fn utf8_error_text(bytes: Seq<u8>) -> Seq<char>;

/// The text that stands for bytes that are not UTF-8: the decoded valid
/// prefix with a note that something was dropped behind it or, where not
/// even one character could be decoded, the reason alone.
pub open spec fn salvaged(valid_prefix: Seq<char>, valid_up_to: int, reason: Seq<char>) -> Seq<
    char,
> {
    if valid_up_to > 0 {
        valid_prefix + " (followed by invalid UTF-8 characters)"@
    } else {
        "invalid UTF-8 string: "@ + reason
    }
}

/// The text that [`safe_str_from_utf8`] makes of `bytes`.
pub open spec fn salvaged_text(bytes: Seq<u8>) -> Seq<char> {
    if valid_utf8(bytes) {
        decode_utf8(bytes)
    } else {
        let n = valid_prefix_len(bytes);
        salvaged(decode_utf8(bytes.subrange(0, n)), n, utf8_error_text(bytes))
    }
}

/// Every byte string has a longest valid prefix of at most `k` bytes.
proof fn lemma_longest_valid_prefix_below(bytes: Seq<u8>, k: int) -> (n: int)
    requires
        0 <= k <= bytes.len(),
    ensures
        0 <= n <= k,
        partial_valid_utf8(bytes, n),
        forall|m: int| n < m <= k ==> !valid_utf8(#[trigger] bytes.subrange(0, m)),
    decreases k,
{
    if valid_utf8(bytes.subrange(0, k)) {
        k
    } else {
        assert(k > 0) by {
            if k == 0 {
                assert(bytes.subrange(0, 0).len() == 0);
            }
        }
        lemma_longest_valid_prefix_below(bytes, k - 1)
    }
}

/// The longest valid prefix exists and is unique: [`valid_prefix_len`] is its length.
pub proof fn lemma_valid_prefix_len(bytes: Seq<u8>)
    ensures
        is_longest_valid_prefix(bytes, valid_prefix_len(bytes)),
        forall|n: int| is_longest_valid_prefix(bytes, n) ==> n == valid_prefix_len(bytes),
        valid_utf8(bytes) <==> valid_prefix_len(bytes) == bytes.len(),
{
    let n0 = lemma_longest_valid_prefix_below(bytes, bytes.len() as int);
    assert(is_longest_valid_prefix(bytes, n0));
    let p = valid_prefix_len(bytes);
    assert(bytes.subrange(0, bytes.len() as int) =~= bytes);
    assert forall|n: int| is_longest_valid_prefix(bytes, n) implies n == p by {
        if n < p {
            assert(!valid_utf8(bytes.subrange(0, p)));
        } else if p < n {
            assert(!valid_utf8(bytes.subrange(0, n)));
        }
    }
    if valid_utf8(bytes) && p < bytes.len() {
        assert(!valid_utf8(bytes.subrange(0, bytes.len() as int)));
    }
}

/// Decodes `bytes` with `std::str::from_utf8`.
///
/// Claims what the standard library documents: the call succeeds exactly on
/// valid UTF-8 and then gives the text that the bytes encode; on failure
/// `Utf8Error::valid_up_to` is the greatest index up to which the bytes
/// decode. The error's display text goes by the name [`utf8_error_text`].
#[verifier::external_body]
pub(crate) fn decode_checked(bytes: &[u8]) -> (decoded: Result<String, DecodeFailure>)
    ensures
        decoded is Ok <==> valid_utf8(bytes@),
        decoded matches Ok(text) ==> text@ == decode_utf8(bytes@),
        decoded matches Err(failure) ==> is_longest_valid_prefix(
            bytes@,
            failure.valid_up_to as int,
        ) && failure.reason@ == utf8_error_text(bytes@),
{
    match std::str::from_utf8(bytes) {
        Ok(text) => Ok(text.to_string()),
        Err(e) => Err(DecodeFailure { valid_up_to: e.valid_up_to(), reason: e.to_string() }),
    }
}

/// The text that `String::from_utf8_lossy` makes of `bytes`.
pub uninterp spec fn lossy_text(bytes: Seq<u8>) -> Seq<char>;

/// Decodes `bytes` with `String::from_utf8_lossy`, which never fails.
///
/// The result goes by the name [`lossy_text`]. Of it the standard library
/// documents that valid UTF-8 is decoded as it stands; what it puts in the
/// place of other bytes is not stated here.
#[verifier::external_body]
pub(crate) fn decode_lossy(bytes: &[u8]) -> (text: String)
    ensures
        text@ == lossy_text(bytes@),
        valid_utf8(bytes@) ==> text@ == decode_utf8(bytes@),
{
    String::from_utf8_lossy(bytes).into_owned()
}

/// Words the outcome of a failed decoding: see [`salvaged`].
pub fn describe_failure(valid_prefix: String, failure: &DecodeFailure) -> (text: String)
    ensures
        text@ == salvaged(valid_prefix@, failure.valid_up_to as int, failure.reason@),
{
    if failure.valid_up_to > 0 {
        valid_prefix.concat(" (followed by invalid UTF-8 characters)")
    } else {
        String::from_str("invalid UTF-8 string: ").concat(failure.reason.as_str())
    }
}

/// Makes a string of bytes that may not be UTF-8, without ever failing.
///
/// Valid bytes give the text they encode. Otherwise the longest valid prefix
/// is decoded and marked as cut short; where that prefix is empty the text
/// says why nothing could be decoded.
pub fn safe_str_from_utf8(bytes: &[u8]) -> (text: String)
    ensures
        text@ == salvaged_text(bytes@),
    decreases bytes@.len(),
{
    match decode_checked(bytes) {
        Ok(text) => text,
        Err(failure) => {
            proof {
                lemma_valid_prefix_len(bytes@);
            }
            let valid_prefix = if failure.valid_up_to > 0 {
                safe_str_from_utf8(slice_subrange(bytes, 0, failure.valid_up_to))
            } else {
                String::new()
            };
            describe_failure(valid_prefix, &failure)
        },
    }
}

/// The character for the decimal digit `d`.
pub open spec fn digit_char(d: nat) -> char {
    if d == 0 {
        '0'
    } else if d == 1 {
        '1'
    } else if d == 2 {
        '2'
    } else if d == 3 {
        '3'
    } else if d == 4 {
        '4'
    } else if d == 5 {
        '5'
    } else if d == 6 {
        '6'
    } else if d == 7 {
        '7'
    } else if d == 8 {
        '8'
    } else {
        '9'
    }
}

/// `n` written in decimal, without sign or leading zeros.
pub open spec fn decimal_text(n: nat) -> Seq<char>
    decreases n,
{
    if n < 10 {
        seq![digit_char(n)]
    } else {
        decimal_text(n / 10).push(digit_char(n % 10))
    }
}

/// The number that a text of decimal digits stands for.
pub open spec fn decimal_value(digits: Seq<char>) -> nat
    decreases digits.len(),
{
    if digits.len() == 0 {
        0
    } else {
        10 * decimal_value(digits.drop_last()) + (digits.last() as u32 - '0' as u32) as nat
    }
}

/// A number is written with digits only, without a zero in front of
/// another digit, and reading what was written gives the number back.
pub proof fn lemma_decimal_round_trip(n: nat)
    ensures
        decimal_value(decimal_text(n)) == n,
        decimal_text(n).len() >= 1,
        forall|i: int| 0 <= i < decimal_text(n).len() ==> '0' <= #[trigger] decimal_text(n)[i] <= '9',
        decimal_text(n)[0] == '0' <==> n == 0,
    decreases n,
{
    let last = digit_char(n % 10);
    assert((last as u32 - '0' as u32) as nat == n % 10);
    if n >= 10 {
        lemma_decimal_round_trip(n / 10);
        let head = decimal_text(n / 10);
        let all = head.push(last);
        assert(all.drop_last() =~= head);
        assert(all[0] == head[0]);
        assert(decimal_value(all) == 10 * decimal_value(head) + n % 10);
    } else {
        let all = decimal_text(n);
        assert(all.drop_last() =~= Seq::<char>::empty());
        assert(decimal_value(all.drop_last()) == 0);
        assert(decimal_value(all) == n);
    }
}

fn digit_str(d: u32) -> (s: &'static str)
    requires
        d < 10,
    ensures
        s@ == seq![digit_char(d as nat)],
{
    proof {
        reveal_strlit("0");
        reveal_strlit("1");
        reveal_strlit("2");
        reveal_strlit("3");
        reveal_strlit("4");
        reveal_strlit("5");
        reveal_strlit("6");
        reveal_strlit("7");
        reveal_strlit("8");
        reveal_strlit("9");
    }
    let s = match d {
        0 => "0",
        1 => "1",
        2 => "2",
        3 => "3",
        4 => "4",
        5 => "5",
        6 => "6",
        7 => "7",
        8 => "8",
        _ => "9",
    };
    assert(s@ =~= seq![digit_char(d as nat)]);
    s
}

/// Writes `n` in decimal.
pub fn decimal(n: u32) -> (text: String)
    ensures
        text@ == decimal_text(n as nat),
    decreases n,
{
    if n < 10 {
        String::from_str(digit_str(n))
    } else {
        decimal(n / 10).concat(digit_str(n % 10))
    }
}

/// Tells whether `s` holds a line feed.
pub fn has_newline(s: &str) -> (found: bool)
    ensures
        found == s@.contains('\n'),
{
    let mut rest = s.chars();
    let ghost mut seen: int = 0;
    loop
        invariant
            rest.obeys_prophetic_iter_laws(),
            0 <= seen <= s@.len(),
            rest.remaining() == s@.skip(seen),
            forall|j: int| 0 <= j < seen ==> s@[j] != '\n',
        decreases s@.len() - seen,
    {
        match rest.next() {
            Some(c) => {
                if c == '\n' {
                    assert(s@[seen] == '\n');
                    return true;
                }
                proof {
                    assert(s@.skip(seen).drop_first() =~= s@.skip(seen + 1));
                    seen = seen + 1;
                }
            },
            None => {
                return false;
            },
        }
    }
}

} // verus!
