//! Order and prefixes of strings, over the characters they hold.

use vstd::prelude::*;
use vstd::string::*;
use vstd::utf8::*;

verus! {

/// The characters of a string.
pub type Text = Seq<char>;

/// The texts of a sequence of strings.
pub open spec fn texts(strings: Seq<String>) -> Seq<Text> {
    strings.map_values(|string: String| string@)
}

/// The text of a string that may be missing.
pub open spec fn option_text(string: Option<String>) -> Option<Text> {
    match string {
        Some(string) => Some(string@),
        None => None,
    }
}

/// The text of a borrowed string that may be missing.
pub open spec fn option_str(string: Option<&str>) -> Option<Text> {
    match string {
        Some(string) => Some(string@),
        None => None,
    }
}

/// A result whose error is told as a text.
pub open spec fn error_text<T>(result: Result<T, String>) -> Result<T, Text> {
    match result {
        Ok(value) => Ok(value),
        Err(err) => Err(err@),
    }
}

/// Lexicographic order of byte sequences: at the first place where the two differ, `a` ends or
/// holds the smaller byte.
pub open spec fn bytes_precede(a: Seq<u8>, b: Seq<u8>) -> bool
    decreases a.len(),
{
    if b.len() == 0 {
        false
    } else if a.len() == 0 {
        true
    } else if a[0] != b[0] {
        a[0] < b[0]
    } else {
        bytes_precede(a.drop_first(), b.drop_first())
    }
}

/// The order of strings: lexicographic in their UTF-8 bytes.
pub open spec fn text_precedes(a: Text, b: Text) -> bool {
    bytes_precede(encode_utf8(a), encode_utf8(b))
}

/// Whether `text` begins with `prefix`.
pub open spec fn has_prefix(text: Text, prefix: Text) -> bool {
    prefix.is_prefix_of(text)
}

proof fn lemma_bytes_irreflexive(a: Seq<u8>)
    ensures
        !bytes_precede(a, a),
    decreases a.len(),
{
    if a.len() > 0 {
        lemma_bytes_irreflexive(a.drop_first());
    }
}

proof fn lemma_bytes_transitive(a: Seq<u8>, b: Seq<u8>, c: Seq<u8>)
    requires
        bytes_precede(a, b),
        bytes_precede(b, c),
    ensures
        bytes_precede(a, c),
    decreases a.len(),
{
    if a.len() > 0 && a[0] == b[0] && b[0] == c[0] {
        lemma_bytes_transitive(a.drop_first(), b.drop_first(), c.drop_first());
    }
}

proof fn lemma_bytes_total(a: Seq<u8>, b: Seq<u8>)
    ensures
        bytes_precede(a, b) || bytes_precede(b, a) || a == b,
    decreases a.len(),
{
    if a.len() > 0 && b.len() > 0 {
        if a[0] == b[0] {
            lemma_bytes_total(a.drop_first(), b.drop_first());
            if a.drop_first() == b.drop_first() {
                assert(a =~= seq![a[0]] + a.drop_first());
                assert(b =~= seq![b[0]] + b.drop_first());
            }
        }
    } else if a.len() == 0 && b.len() == 0 {
        assert(a =~= b);
    }
}

/// The order of strings is a strict total order: no string precedes itself, precedence is
/// transitive, and of two different strings one precedes the other.
pub proof fn law_text_order_is_strict_and_total(a: Text, b: Text, c: Text)
    ensures
        !text_precedes(a, a),
        text_precedes(a, b) && text_precedes(b, c) ==> text_precedes(a, c),
        text_precedes(a, b) || text_precedes(b, a) || a == b,
{
    lemma_bytes_irreflexive(encode_utf8(a));
    if text_precedes(a, b) && text_precedes(b, c) {
        lemma_bytes_transitive(encode_utf8(a), encode_utf8(b), encode_utf8(c));
    }
    lemma_bytes_total(encode_utf8(a), encode_utf8(b));
    encode_utf8_decode_utf8(a);
    encode_utf8_decode_utf8(b);
}

/// Whether `a` comes before `b` in the order of strings.
pub fn precedes(a: &str, b: &str) -> (before: bool)
    ensures
        before == text_precedes(a@, b@),
{
    let a_bytes = a.as_bytes();
    let b_bytes = b.as_bytes();
    let mut i: usize = 0;
    assert(a_bytes@.skip(0) =~= a_bytes@);
    assert(b_bytes@.skip(0) =~= b_bytes@);
    while i < a_bytes.len() && i < b_bytes.len()
        invariant
            i <= a_bytes@.len(),
            i <= b_bytes@.len(),
            bytes_precede(a_bytes@, b_bytes@) == bytes_precede(
                a_bytes@.skip(i as int),
                b_bytes@.skip(i as int),
            ),
            a_bytes@ == encode_utf8(a@),
            b_bytes@ == encode_utf8(b@),
        decreases a_bytes@.len() - i,
    {
        if a_bytes[i] != b_bytes[i] {
            return a_bytes[i] < b_bytes[i];
        }
        assert(a_bytes@.skip(i as int).drop_first() =~= a_bytes@.skip(i + 1));
        assert(b_bytes@.skip(i as int).drop_first() =~= b_bytes@.skip(i + 1));
        i += 1;
    }
    i < b_bytes.len()
}

/// Whether `text` begins with `prefix`.
pub fn starts_with(text: &str, prefix: &str) -> (found: bool)
    ensures
        found == has_prefix(text@, prefix@),
{
    let text_len = text.unicode_len();
    let prefix_len = prefix.unicode_len();
    if text_len < prefix_len {
        return false;
    }
    let mut i: usize = 0;
    while i < prefix_len
        invariant
            i <= prefix_len <= text_len,
            prefix_len == prefix@.len(),
            text_len == text@.len(),
            forall|j: int| 0 <= j < i ==> text@[j] == prefix@[j],
        decreases prefix_len - i,
    {
        if text.get_char(i) != prefix.get_char(i) {
            assert(text@.subrange(0, prefix@.len() as int)[i as int] != prefix@[i as int]);
            return false;
        }
        i += 1;
    }
    assert(prefix@ =~= text@.subrange(0, prefix@.len() as int));
    true
}

/// Whether two strings hold the same characters.
pub(crate) fn same_text(a: &str, b: &str) -> (same: bool)
    ensures
        same == (a@ == b@),
{
    a.to_owned() == b.to_owned()
}

/// Whether two strings that may be missing are both missing or hold the same characters.
pub(crate) fn same_option(a: &Option<String>, b: &Option<String>) -> (same: bool)
    ensures
        same == (option_text(*a) == option_text(*b)),
{
    match (a, b) {
        (Some(a), Some(b)) => *a == *b,
        (None, None) => true,
        _ => false,
    }
}

/// Whether two lists of strings hold the same texts in the same order.
pub(crate) fn same_texts(a: &Vec<String>, b: &Vec<String>) -> (same: bool)
    ensures
        same == (texts(a@) == texts(b@)),
{
    if a.len() != b.len() {
        assert(texts(a@).len() != texts(b@).len());
        return false;
    }
    let mut i: usize = 0;
    while i < a.len()
        invariant
            i <= a@.len(),
            a@.len() == b@.len(),
            forall|j: int| 0 <= j < i ==> a@[j]@ == b@[j]@,
        decreases a@.len() - i,
    {
        if a[i] != b[i] {
            assert(texts(a@)[i as int] != texts(b@)[i as int]);
            return false;
        }
        i += 1;
    }
    assert(texts(a@) =~= texts(b@));
    true
}

/// A copy of a string that may be missing.
pub(crate) fn copy_option(string: &Option<String>) -> (copy: Option<String>)
    ensures
        option_text(copy) == option_text(*string),
{
    match string {
        Some(string) => Some(string.clone()),
        None => None,
    }
}

/// A copy of a list of strings.
pub(crate) fn copy_texts(strings: &Vec<String>) -> (copy: Vec<String>)
    ensures
        texts(copy@) == texts(strings@),
{
    let mut copy: Vec<String> = Vec::new();
    let mut i: usize = 0;
    while i < strings.len()
        invariant
            i <= strings@.len(),
            copy@.len() == i,
            forall|j: int| 0 <= j < i ==> copy@[j]@ == strings@[j]@,
        decreases strings@.len() - i,
    {
        copy.push(strings[i].clone());
        i += 1;
    }
    assert(texts(copy@) =~= texts(strings@));
    copy
}

/// The texts of strings are as many as the strings, and each holds what its string holds.
pub proof fn law_texts_are_those_of_the_strings(strings: Seq<String>)
    ensures
        texts(strings).len() == strings.len(),
        forall|i: int| 0 <= i < strings.len() ==> #[trigger] texts(strings)[i] == strings[i]@,
{
}

/// A string that may be missing has a text exactly when it is there, and then its own.
pub proof fn law_missing_strings_have_no_text(string: Option<String>, borrowed: Option<&str>)
    ensures
        string is None <==> option_text(string) is None,
        string matches Some(held) ==> option_text(string) == Some(held@),
        borrowed is None <==> option_str(borrowed) is None,
        borrowed matches Some(held) ==> option_str(borrowed) == Some(held@),
{
}

/// To tell the error of a result as a text changes neither whether it is one, nor what it says, nor
/// a value in its place.
pub proof fn law_errors_keep_their_text<T>(result: Result<T, String>)
    ensures
        result matches Ok(value) ==> error_text(result) == Ok::<T, Text>(value),
        result matches Err(err) ==> error_text(result) == Err::<T, Text>(err@),
{
}

/// A text begins with a prefix exactly when something can be written behind the prefix to make it
/// that text.
pub proof fn law_prefixes_can_be_continued(text: Text, prefix: Text)
    ensures
        has_prefix(text, prefix) <==> exists|rest: Text| text == #[trigger] (prefix + rest),
{
    if has_prefix(text, prefix) {
        let rest = text.skip(prefix.len() as int);
        assert(text =~= prefix + rest);
    }
    if exists|rest: Text| text == #[trigger] (prefix + rest) {
        let rest = choose|rest: Text| text == #[trigger] (prefix + rest);
        assert(text.subrange(0, prefix.len() as int) =~= prefix);
    }
}

proof fn lemma_bytes_first_difference(a: Seq<u8>, b: Seq<u8>)
    ensures
        bytes_precede(a, b) <==> exists|k: int|
            0 <= k <= a.len() && k < b.len() && #[trigger] a.take(k) == b.take(k) && (k == a.len()
                || a[k] < b[k]),
    decreases a.len(),
{
    if a.len() > 0 && b.len() > 0 && a[0] == b[0] {
        let a_rest = a.drop_first();
        let b_rest = b.drop_first();
        lemma_bytes_first_difference(a_rest, b_rest);
        if bytes_precede(a, b) {
            let k = choose|k: int|
                0 <= k <= a_rest.len() && k < b_rest.len() && #[trigger] a_rest.take(k)
                    == b_rest.take(k) && (k == a_rest.len() || a_rest[k] < b_rest[k]);
            assert(a.take(k + 1) =~= seq![a[0]] + a_rest.take(k));
            assert(b.take(k + 1) =~= seq![b[0]] + b_rest.take(k));
        }
        if exists|k: int|
            0 <= k <= a.len() && k < b.len() && #[trigger] a.take(k) == b.take(k) && (k == a.len()
                || a[k] < b[k]) {
            let k = choose|k: int|
                0 <= k <= a.len() && k < b.len() && #[trigger] a.take(k) == b.take(k) && (k
                    == a.len() || a[k] < b[k]);
            assert(a_rest.take(k - 1) =~= a.take(k).drop_first());
            assert(b_rest.take(k - 1) =~= b.take(k).drop_first());
        }
    } else {
        if bytes_precede(a, b) {
            assert(a.take(0) =~= b.take(0));
        }
        if exists|k: int|
            0 <= k <= a.len() && k < b.len() && #[trigger] a.take(k) == b.take(k) && (k == a.len()
                || a[k] < b[k]) {
            let k = choose|k: int|
                0 <= k <= a.len() && k < b.len() && #[trigger] a.take(k) == b.take(k) && (k
                    == a.len() || a[k] < b[k]);
            if k > 0 {
                assert(a.take(k)[0] == b.take(k)[0]);
            }
        }
    }
}

/// One text comes before another exactly when their UTF-8 bytes agree up to some place, where the
/// first ends or holds the smaller byte.
pub proof fn law_text_order_goes_by_the_first_difference(a: Text, b: Text)
    ensures
        ({
            let a_bytes = encode_utf8(a);
            let b_bytes = encode_utf8(b);
            text_precedes(a, b) <==> exists|k: int|
                0 <= k <= a_bytes.len() && k < b_bytes.len() && #[trigger] a_bytes.take(k)
                    == b_bytes.take(k) && (k == a_bytes.len() || a_bytes[k] < b_bytes[k])
        }),
{
    lemma_bytes_first_difference(encode_utf8(a), encode_utf8(b));
}

} // verus!
