//! Record identifiers: a version-7 UUID in its 32-digit lowercase hex form.
use vstd::prelude::*;

verus! {

/// A lowercase hexadecimal digit.
pub open spec fn is_lower_hex_digit(c: char) -> bool {
    ('0' <= c && c <= '9') || ('a' <= c && c <= 'f')
}

/// Where the hyphenated UUID form puts its hyphens.
pub open spec fn is_hyphen_position(i: int) -> bool {
    i == 8 || i == 13 || i == 18 || i == 23
}

/// The hyphenated lowercase form of a UUID: 36 characters, hyphens at 8, 13, 18
/// and 23, lowercase hex digits elsewhere.
pub open spec fn is_hyphenated_uuid(text: Seq<char>) -> bool {
    &&& text.len() == 36
    &&& forall|i: int|
        0 <= i < 36 ==> if is_hyphen_position(i) {
            #[trigger] text[i] == '-'
        } else {
            is_lower_hex_digit(text[i])
        }
}

/// A record identifier: 32 lowercase hex digits.
pub open spec fn is_record_id(text: Seq<char>) -> bool {
    &&& text.len() == 32
    &&& forall|i: int| 0 <= i < 32 ==> is_lower_hex_digit(#[trigger] text[i])
}

/// A digit that marks the RFC 9562 variant: `10` in its top two bits.
pub open spec fn is_variant_digit(c: char) -> bool {
    c == '8' || c == '9' || c == 'a' || c == 'b'
}

/// The marks of a version-7 UUID in its hyphenated form: the version digit `7`
/// at 14 and a variant digit at 19.
pub open spec fn has_v7_marks_hyphenated(text: Seq<char>) -> bool {
    text[14] == '7' && is_variant_digit(text[19])
}

/// The same marks in the 32-digit form: the version digit `7` at 12 and a
/// variant digit at 16.
pub open spec fn has_v7_marks(id: Seq<char>) -> bool {
    id[12] == '7' && is_variant_digit(id[16])
}

/// The text with every hyphen taken out.
pub open spec fn without_hyphens(text: Seq<char>) -> Seq<char> {
    text.filter(|c: char| c != '-')
}

/// `uuid::Uuid::now_v7().to_string()`: a fresh time-ordered UUID in its
/// hyphenated lowercase form, with the version-7 and variant marks that
/// `now_v7` sets. Which UUID comes out depends on the time and on chance, so
/// only its form is stated.
#[verifier::external_body]
fn uuid_v7_text() -> (r: String)
    ensures
        is_hyphenated_uuid(r@),
        has_v7_marks_hyphenated(r@),
{
    uuid::Uuid::now_v7().to_string()
}

/// `String::from_iter` over chars: the string of these characters.
#[verifier::external_body]
fn string_from_chars(chars: Vec<char>) -> (r: String)
    ensures
        r@ == chars@,
{
    chars.into_iter().collect()
}

/// `text.replace("-", "")`: the text without its hyphens.
pub fn remove_hyphens(text: &str) -> (r: String)
    ensures
        r@ == without_hyphens(text@),
{
    let n = text.unicode_len();
    let mut kept: Vec<char> = Vec::new();
    let mut i: usize = 0;
    while i < n
        invariant
            n == text@.len(),
            i <= n,
            kept@ == without_hyphens(text@.subrange(0, i as int)),
        decreases n - i,
    {
        let c = text.get_char(i);
        proof {
            assert(text@.subrange(0, i + 1) == text@.subrange(0, i as int).push(c));
            text@.subrange(0, i as int).lemma_filter_push(c, |c: char| c != '-');
        }
        if c != '-' {
            kept.push(c);
        }
        i = i + 1;
    }
    proof {
        assert(text@.subrange(0, n as int) == text@);
    }
    string_from_chars(kept)
}

/// How many hyphen positions lie before `k`.
spec fn hyphens_before(k: int) -> int {
    (if k > 8 { 1int } else { 0 }) + (if k > 13 { 1int } else { 0 }) + (if k > 18 { 1int } else { 0 }) + (if k
        > 23 { 1int } else { 0 })
}

/// Taking the hyphens out of the first `k` characters of a hyphenated UUID leaves
/// `k` minus the hyphens before `k` characters, all of them hex digits.
proof fn lemma_uuid_prefix_without_hyphens(text: Seq<char>, k: int)
    requires
        is_hyphenated_uuid(text),
        0 <= k <= 36,
    ensures
        without_hyphens(text.subrange(0, k)).len() == k - hyphens_before(k),
        forall|i: int|
            0 <= i < without_hyphens(text.subrange(0, k)).len() ==> is_lower_hex_digit(
                #[trigger] without_hyphens(text.subrange(0, k))[i],
            ),
        forall|i: int|
            0 <= i < k && !is_hyphen_position(i) ==> without_hyphens(text.subrange(0, k))[i - hyphens_before(i)]
                == #[trigger] text[i],
    decreases k,
{
    if k > 0 {
        lemma_uuid_prefix_without_hyphens(text, k - 1);
        assert(text.subrange(0, k) == text.subrange(0, k - 1).push(text[k - 1]));
        text.subrange(0, k - 1).lemma_filter_push(text[k - 1], |c: char| c != '-');
        assert(is_hyphen_position(k - 1) ==> text[k - 1] == '-');
        assert(!is_hyphen_position(k - 1) ==> is_lower_hex_digit(text[k - 1]));
        assert(hyphens_before(k - 1) <= hyphens_before(k));
    }
}

/// A fresh record identifier: a version-7 UUID without its hyphens.
pub fn new_record_id() -> (r: String)
    ensures
        is_record_id(r@),
        has_v7_marks(r@),
{
    let text = uuid_v7_text();
    let id = remove_hyphens(text.as_str());
    proof {
        lemma_uuid_prefix_without_hyphens(text@, 36);
        assert(text@.subrange(0, 36) == text@);
        assert(id@[14 - hyphens_before(14)] == text@[14]);
        assert(id@[19 - hyphens_before(19)] == text@[19]);
    }
    id
}

} // verus!
