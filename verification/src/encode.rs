use vstd::prelude::*;

verus! {

/// A character of the unreserved URL set, which percent-encoding leaves as it is:
/// letters, digits, `-`, `.`, `_` and `~`.
pub open spec fn is_unreserved(c: char) -> bool {
    ||| ('a' <= c && c <= 'z')
    ||| ('A' <= c && c <= 'Z')
    ||| ('0' <= c && c <= '9')
    ||| c == '-'
    ||| c == '.'
    ||| c == '_'
    ||| c == '~'
}

/// A character that a percent-encoded string may contain: an unreserved
/// character, or the `%` that starts an escape.  The two hex digits of an
/// escape are themselves unreserved.  In particular neither a space nor `&`
/// is such a character.
pub open spec fn is_url_safe_char(c: char) -> bool {
    is_unreserved(c) || c == '%'
}

/// Every character of the sequence is ASCII.
pub open spec fn seq_is_ascii(s: Seq<char>) -> bool {
    forall|i: int| 0 <= i < s.len() ==> (s[i] as u32) < 128
}

/// The upper-case hex digit for `d` in `[0, 16)`.
pub open spec fn upper_hex_char(d: int) -> char {
    seq!['0', '1', '2', '3', '4', '5', '6', '7', '8', '9', 'A', 'B', 'C', 'D', 'E', 'F'][d]
}

/// How one ASCII character is percent-encoded: an unreserved character
/// stands for itself, any other becomes `%` and the two upper-case hex
/// digits of its code.
pub open spec fn ascii_encoded_char(c: char) -> Seq<char> {
    if is_unreserved(c) {
        seq![c]
    } else {
        seq!['%', upper_hex_char((c as u32) as int / 16), upper_hex_char((c as u32) as int % 16)]
    }
}

/// The percent-encoding of an ASCII character sequence, character by character.
pub open spec fn ascii_encoded(s: Seq<char>) -> Seq<char>
    decreases s.len(),
{
    if s.len() == 0 {
        Seq::empty()
    } else {
        ascii_encoded_char(s[0]) + ascii_encoded(s.drop_first())
    }
}

/// Every character of the character-wise percent-encoding of an ASCII
/// sequence is unreserved or `%`: whatever the term, its encoding can hold
/// neither a raw space nor a raw `&`.
pub proof fn lemma_ascii_encoded_safe(s: Seq<char>)
    requires
        seq_is_ascii(s),
    ensures
        forall|i: int| 0 <= i < ascii_encoded(s).len() ==> is_url_safe_char(ascii_encoded(s)[i]),
    decreases s.len(),
{
    if s.len() != 0 {
        assert(seq_is_ascii(s.drop_first()));
        lemma_ascii_encoded_safe(s.drop_first());
        let head = ascii_encoded_char(s[0]);
        assert forall|i: int| 0 <= i < ascii_encoded(s).len() implies is_url_safe_char(
            ascii_encoded(s)[i],
        ) by {
            if i < head.len() {
                assert(ascii_encoded(s)[i] == head[i]);
                assert(is_url_safe_char(head[i]));
            } else {
                assert(ascii_encoded(s)[i] == ascii_encoded(s.drop_first())[i - head.len()]);
            }
        }
    }
}

/// What `urlencoding::encode` returns on an arbitrary string: the
/// percent-encoding of its UTF-8 bytes, a function of the input alone.
pub uninterp spec fn encoded(s: Seq<char>) -> Seq<char>;

/// Relies on `urlencoding::encode`: it percent-encodes every byte of the
/// UTF-8 form of the input except letters, digits, `-`, `.`, `_` and `~`,
/// each escape being `%` and two upper-case hex digits.  So every character
/// of the result is unreserved or `%`, and on ASCII input the result is
/// exactly the character-wise encoding.
#[verifier::external_body]
pub(crate) fn percent_encode(s: &str) -> (r: String)
    ensures
        r@ == encoded(s@),
        forall|i: int| 0 <= i < r@.len() ==> is_url_safe_char(r@[i]),
        seq_is_ascii(s@) ==> r@ == ascii_encoded(s@),
{
    urlencoding::encode(s).into_owned()
}

} // verus!
