//! Idempotence keys: which caller-supplied keys are accepted, and the keys
//! generated when the caller supplies none.

use vstd::prelude::*;

verus! {

/// The longest idempotence key, in characters, that the API accepts.
pub const MAX_IDEMPOTENCE_KEY_LEN: usize = 64;

/// A character that may appear in an idempotence key: an ASCII letter or
/// digit, or one of `+`, `-`, `_`, `.`.
pub open spec fn is_key_char(c: char) -> bool {
    ||| ('0' <= c && c <= '9')
    ||| ('a' <= c && c <= 'z')
    ||| ('A' <= c && c <= 'Z')
    ||| c == '+'
    ||| c == '-'
    ||| c == '_'
    ||| c == '.'
}

/// A key the API accepts: between 1 and 64 characters, each a key character.
/// (All key characters are ASCII, so the count of characters and the count
/// of bytes agree on every accepted key.)
pub open spec fn is_valid_idempotence_key(k: Seq<char>) -> bool {
    &&& 0 < k.len() <= MAX_IDEMPOTENCE_KEY_LEN
    &&& forall|i: int| 0 <= i < k.len() ==> #[trigger] is_key_char(k[i])
}

/// A lowercase hexadecimal digit.
pub open spec fn is_lower_hex(c: char) -> bool {
    ('0' <= c && c <= '9') || ('a' <= c && c <= 'f')
}

/// The positions of the hyphens in the hyphenated form of a UUID.
pub open spec fn is_uuid_hyphen_position(i: int) -> bool {
    i == 8 || i == 13 || i == 18 || i == 23
}

/// The lowercase hyphenated text of a version-4, RFC 4122 variant UUID:
/// 36 characters, hyphens at positions 8, 13, 18 and 23, lowercase hex digits
/// elsewhere, version digit `4` at position 14 and a variant digit among
/// `8`, `9`, `a`, `b` at position 19.
pub open spec fn is_v4_uuid_text(s: Seq<char>) -> bool {
    &&& s.len() == 36
    &&& forall|i: int|
        0 <= i < 36 ==> (if is_uuid_hyphen_position(i) {
            #[trigger] s[i] == '-'
        } else {
            is_lower_hex(s[i])
        })
    &&& s[14] == '4'
    &&& (s[19] == '8' || s[19] == '9' || s[19] == 'a' || s[19] == 'b')
}

/// Every generated key is a key the API accepts.
pub proof fn lemma_generated_key_is_valid(s: Seq<char>)
    requires
        is_v4_uuid_text(s),
    ensures
        is_valid_idempotence_key(s),
{
    assert forall|i: int| 0 <= i < s.len() implies #[trigger] is_key_char(s[i]) by {
        if is_uuid_hyphen_position(i) {
            assert(s[i] == '-');
        } else {
            assert(is_lower_hex(s[i]));
        }
    }
}

/// The key characters are exactly the ASCII letters (codes 65–90 and 97–122),
/// the ASCII digits (codes 48–57), and `+`, `-`, `_`, `.` (codes 43, 45, 95,
/// 46): the characters for which `char::is_ascii_alphanumeric` holds, and those
/// four.
pub proof fn lemma_key_chars_by_code(c: char)
    ensures
        is_key_char(c) <==> {
            ||| 48 <= (c as u32) <= 57
            ||| 65 <= (c as u32) <= 90
            ||| 97 <= (c as u32) <= 122
            ||| (c as u32) == 43
            ||| (c as u32) == 45
            ||| (c as u32) == 95
            ||| (c as u32) == 46
        },
{
}

/// A key is accepted exactly when it has 1 to 64 characters and each is an
/// ASCII letter, an ASCII digit, `+`, `-`, `_` or `.`; so every such key,
/// capitals and lowercase alike, is accepted, and any key with another
/// character (a space, a slash, a non-ASCII letter) is refused.
pub proof fn lemma_accepted_keys(k: Seq<char>)
    ensures
        is_valid_idempotence_key(k) <==> {
            &&& 1 <= k.len() <= 64
            &&& forall|i: int|
                0 <= i < k.len() ==> {
                    let n = #[trigger] k[i] as u32;
                    ||| 48 <= n <= 57
                    ||| 65 <= n <= 90
                    ||| 97 <= n <= 122
                    ||| n == 43
                    ||| n == 45
                    ||| n == 95
                    ||| n == 46
                }
        },
{
    assert forall|i: int| 0 <= i < k.len() implies (is_key_char(k[i]) <==> {
        let n = #[trigger] k[i] as u32;
        ||| 48 <= n <= 57
        ||| 65 <= n <= 90
        ||| 97 <= n <= 122
        ||| n == 43
        ||| n == 45
        ||| n == 95
        ||| n == 46
    }) by {
        lemma_key_chars_by_code(k[i]);
    }
}

/// Whether `c` is a key character.
fn is_key_char_exec(c: char) -> (b: bool)
    ensures
        b == is_key_char(c),
{
    ('0' <= c && c <= '9') || ('a' <= c && c <= 'z') || ('A' <= c && c <= 'Z') || c == '+' || c
        == '-' || c == '_' || c == '.'
}

/// Whether the API accepts `key` as an idempotence key.
pub fn idempotence_key_is_valid(key: &str) -> (b: bool)
    ensures
        b == is_valid_idempotence_key(key@),
{
    let n = key.unicode_len();
    if n == 0 || n > MAX_IDEMPOTENCE_KEY_LEN {
        return false;
    }
    let mut i: usize = 0;
    while i < n
        invariant
            n == key@.len(),
            0 < n <= MAX_IDEMPOTENCE_KEY_LEN,
            i <= n,
            forall|j: int| 0 <= j < i ==> #[trigger] is_key_char(key@[j]),
        decreases n - i,
    {
        let c = key.get_char(i);
        if !is_key_char_exec(c) {
            return false;
        }
        i = i + 1;
    }
    true
}

/// Calls `uuid::Uuid::new_v4` and formats the result with `to_string`.
/// The uuid crate's `new_v4` masks a random 128-bit value so that its version
/// nibble is 4 and its variant bits are `10`, and its `Display` writes the
/// lowercase hyphenated form; the contract states that shape. Which value
/// comes out is random and is not stated.
#[verifier::external_body]
pub(crate) fn new_v4_text() -> (s: String)
    ensures
        is_v4_uuid_text(s@),
{
    uuid::Uuid::new_v4().to_string()
}

} // verus!
