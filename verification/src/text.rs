//! The string operations of the standard library that the enumerations are
//! parsed with, and what the rest of the crate may rely on about them.

use vstd::prelude::*;

verus! {

/// Whether `c` has the Unicode property White_Space.
pub open spec fn is_white_space(c: char) -> bool {
    let n = c as u32;
    ||| 0x09 <= n <= 0x0D
    ||| n == 0x20
    ||| n == 0x85
    ||| n == 0xA0
    ||| n == 0x1680
    ||| 0x2000 <= n <= 0x200A
    ||| n == 0x2028
    ||| n == 0x2029
    ||| n == 0x202F
    ||| n == 0x205F
    ||| n == 0x3000
}

/// Whether every character of `s` is white space.
pub open spec fn blank(s: Seq<char>) -> bool {
    forall|i: int| 0 <= i < s.len() ==> is_white_space(#[trigger] s[i])
}

/// The index of the first character of `s` that is not white space, or the
/// length of `s` where there is none.
pub open spec fn first_ink(s: Seq<char>) -> int
    decreases s.len(),
{
    if s.len() == 0 || !is_white_space(s[0]) {
        0
    } else {
        1 + first_ink(s.drop_first())
    }
}

/// One past the index of the last character of `s` that is not white space,
/// or zero where there is none.
pub open spec fn last_ink(s: Seq<char>) -> int
    decreases s.len(),
{
    if s.len() == 0 || !is_white_space(s.last()) {
        s.len() as int
    } else {
        last_ink(s.drop_last())
    }
}

/// `s` without its leading and trailing white space.
pub open spec fn trimmed(s: Seq<char>) -> Seq<char> {
    if first_ink(s) >= last_ink(s) {
        Seq::empty()
    } else {
        s.subrange(first_ink(s), last_ink(s))
    }
}

/// The upper-case form of an ASCII character: `a` to `z` become `A` to `Z`,
/// every other character stays.
pub open spec fn ascii_upper(c: char) -> char {
    if 'a' <= c <= 'z' {
        ((c as u8) - 32) as char
    } else {
        c
    }
}

/// Whether every character of `s` is ASCII.
pub open spec fn all_ascii(s: Seq<char>) -> bool {
    forall|i: int| 0 <= i < s.len() ==> (#[trigger] s[i] as u32) < 128
}

/// What `str::to_uppercase` gives for a text with a character outside ASCII:
/// the upper-case form by Unicode's tables, in which one character may become
/// several.
pub uninterp spec fn unicode_uppercase(s: Seq<char>) -> Seq<char>;

/// A text with each of its characters in the upper-case form of ASCII.
pub open spec fn ascii_uppercased(s: Seq<char>) -> Seq<char> {
    s.map_values(|c: char| ascii_upper(c))
}

/// The upper-case form of `s`: that of ASCII where `s` holds ASCII
/// characters only, and that of Unicode otherwise.
pub open spec fn uppercased(s: Seq<char>) -> Seq<char> {
    if all_ascii(s) {
        ascii_uppercased(s)
    } else {
        unicode_uppercase(s)
    }
}

/// `s` trimmed and put in upper case: the form in which the names of
/// enumerated values are looked up.
pub open spec fn folded(s: Seq<char>) -> Seq<char> {
    uppercased(trimmed(s))
}

/// `str::trim`: the slice of `s` between its first and its last character
/// that is not white space, where white space is what Unicode's property
/// White_Space says.
#[verifier::external_body]
pub(crate) fn trim(s: &str) -> (r: &str)
    ensures
        r@ == trimmed(s@),
{
    s.trim()
}

/// `str::to_uppercase`: a new string with each character replaced by its
/// upper-case form. For a string of ASCII characters that is the string with
/// `a` to `z` replaced by `A` to `Z`; for any other string the result is
/// only named.
#[verifier::external_body]
pub(crate) fn to_uppercase(s: &str) -> (r: String)
    ensures
        r@ == (if all_ascii(s@) {
            ascii_uppercased(s@)
        } else {
            unicode_uppercase(s@)
        }),
{
    s.to_uppercase()
}

/// `str::eq`: whether two strings hold the same characters.
#[verifier::external_body]
pub(crate) fn same_text(a: &str, b: &str) -> (r: bool)
    ensures
        r == (a@ == b@),
{
    a == b
}

/// Trims `s` and puts it in upper case.
pub fn fold(s: &str) -> (r: String)
    ensures
        r@ == folded(s@),
{
    to_uppercase(trim(s))
}

/// Leading white space is dropped up to the first other character: with
/// `pre` all white space and `rest` empty or starting with another
/// character, `first_ink` of the two joined is the length of `pre`.
pub proof fn lemma_first_ink_skips(pre: Seq<char>, rest: Seq<char>)
    requires
        blank(pre),
        rest.len() == 0 || !is_white_space(rest[0]),
    ensures
        first_ink(pre + rest) == pre.len(),
    decreases pre.len(),
{
    if pre.len() == 0 {
        assert(pre + rest == rest);
    } else {
        let joined = pre + rest;
        assert(joined[0] == pre[0]);
        assert(joined.drop_first() == pre.drop_first() + rest);
        assert(blank(pre.drop_first())) by {
            assert forall|i: int| 0 <= i < pre.drop_first().len() implies is_white_space(
                #[trigger] pre.drop_first()[i],
            ) by {
                assert(pre.drop_first()[i] == pre[i + 1]);
            }
        }
        lemma_first_ink_skips(pre.drop_first(), rest);
    }
}

/// Trailing white space is dropped back to the last other character: with
/// `post` all white space and `rest` empty or ending with another character,
/// `last_ink` of the two joined is the length of `rest`.
pub proof fn lemma_last_ink_skips(rest: Seq<char>, post: Seq<char>)
    requires
        blank(post),
        rest.len() == 0 || !is_white_space(rest.last()),
    ensures
        last_ink(rest + post) == rest.len(),
    decreases post.len(),
{
    if post.len() == 0 {
        assert(rest + post == rest);
    } else {
        let joined = rest + post;
        assert(joined.last() == post.last());
        assert(joined.drop_last() == rest + post.drop_last());
        assert(blank(post.drop_last())) by {
            assert forall|i: int| 0 <= i < post.drop_last().len() implies is_white_space(
                #[trigger] post.drop_last()[i],
            ) by {
                assert(post.drop_last()[i] == post[i]);
            }
        }
        lemma_last_ink_skips(rest, post.drop_last());
    }
}

/// `last_ink` lies within the text.
pub proof fn lemma_last_ink_bound(s: Seq<char>)
    ensures
        0 <= last_ink(s) <= s.len(),
    decreases s.len(),
{
    if s.len() > 0 && is_white_space(s.last()) {
        lemma_last_ink_bound(s.drop_last());
    }
}

/// Trimming takes the white space around a text away and nothing else: a
/// text that neither starts nor ends with white space comes back whole,
/// whatever white space stood before and after it.
pub proof fn lemma_trim_padded(pre: Seq<char>, core: Seq<char>, post: Seq<char>)
    requires
        blank(pre),
        blank(post),
        core.len() > 0 ==> !is_white_space(core.first()) && !is_white_space(core.last()),
    ensures
        trimmed(pre + core + post) == core,
{
    let whole = pre + core + post;
    if core.len() == 0 {
        let padding = pre + post;
        assert(whole == padding);
        assert(padding == padding + Seq::<char>::empty());
        assert(blank(padding));
        lemma_first_ink_skips(padding, Seq::<char>::empty());
        assert(first_ink(whole) == whole.len());
        lemma_last_ink_bound(whole);
    } else {
        assert(whole == pre + (core + post));
        assert((core + post)[0] == core[0]);
        lemma_first_ink_skips(pre, core + post);
        assert((pre + core).last() == core.last());
        lemma_last_ink_skips(pre + core, post);
        assert(whole.subrange(pre.len() as int, (pre.len() + core.len()) as int) == core);
    }
}

/// Case and surrounding white space do not count in the form that names are
/// looked up in: a text of ASCII characters that neither starts nor ends
/// with white space folds to its upper-case form, whatever white space
/// stands around it.
pub proof fn law_fold_ignores_case_and_padding(pre: Seq<char>, word: Seq<char>, post: Seq<char>)
    requires
        blank(pre),
        blank(post),
        all_ascii(word),
        word.len() > 0 ==> !is_white_space(word.first()) && !is_white_space(word.last()),
    ensures
        folded(pre + word + post) == ascii_uppercased(word),
{
    lemma_trim_padded(pre, word, post);
}

} // verus!
