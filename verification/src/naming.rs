//! Identifier conversions used when a service definition is expanded.

use vstd::prelude::*;
use vstd::string::*;

verus! {

/// What `char::to_uppercase` yields for `c`.
pub uninterp spec fn char_upper(c: char) -> Seq<char>;

/// What `char::to_lowercase` yields for `c`.
pub uninterp spec fn char_lower(c: char) -> Seq<char>;

/// `c` is an ASCII character.
pub open spec fn is_ascii_char(c: char) -> bool {
    (c as u32) < 128
}

/// ASCII upper-casing of one character.
pub open spec fn ascii_upper(c: char) -> char {
    if 'a' <= c && c <= 'z' {
        ((c as u32) - 32) as char
    } else {
        c
    }
}

/// ASCII lower-casing of one character.
pub open spec fn ascii_lower(c: char) -> char {
    if 'A' <= c && c <= 'Z' {
        ((c as u32) + 32) as char
    } else {
        c
    }
}

/// Calls `char::to_uppercase` and collects the characters it yields.
/// The result is named by `char_upper`. For an ASCII character it is the one
/// character that `to_ascii_uppercase` gives: Unicode maps `a`..=`z` to
/// `A`..=`Z`, and a character without an uppercase mapping to itself.
#[verifier::external_body]
fn upper_chars(c: char) -> (r: String)
    ensures
        r@ == char_upper(c),
        is_ascii_char(c) ==> r@ == seq![ascii_upper(c)],
{
    c.to_uppercase().collect()
}

/// Calls `char::to_lowercase` and collects the characters it yields.
/// The result is named by `char_lower`. For an ASCII character it is the one
/// character that `to_ascii_lowercase` gives: Unicode maps `A`..=`Z` to
/// `a`..=`z`, and a character without a lowercase mapping to itself.
#[verifier::external_body]
fn lower_chars(c: char) -> (r: String)
    ensures
        r@ == char_lower(c),
        is_ascii_char(c) ==> r@ == seq![ascii_lower(c)],
{
    c.to_lowercase().collect()
}

/// Camel-casing of `chars`: underscores are dropped, the first character of
/// each word is upper-cased and the others are lower-cased. `word_start`
/// says whether the first character of `chars` starts a word.
pub open spec fn camel_from(chars: Seq<char>, word_start: bool) -> Seq<char>
    decreases chars.len(),
{
    if chars.len() == 0 {
        Seq::empty()
    } else if chars[0] == '_' {
        camel_from(chars.drop_first(), true)
    } else if word_start {
        char_upper(chars[0]) + camel_from(chars.drop_first(), false)
    } else {
        char_lower(chars[0]) + camel_from(chars.drop_first(), false)
    }
}

/// The camel-case form of a snake-case identifier.
pub open spec fn camel_case(s: Seq<char>) -> Seq<char> {
    camel_from(s, true)
}

/// Converts a snake-case identifier such as `sum_async` into the camel-case
/// name `SumAsync`.
pub fn snake_to_camel(ident_str: &str) -> (camel: String)
    ensures
        camel@ == camel_case(ident_str@),
        is_ascii_text(ident_str@) ==> camel@ == ascii_camel_from(ident_str@, true),
{
    let n: usize = ident_str.unicode_len();
    let mut camel = String::new();
    let mut word_start = true;
    let mut i: usize = 0;
    assert(ident_str@.skip(0) =~= ident_str@);
    while i < n
        invariant
            n == ident_str@.len(),
            i <= n,
            camel@ + camel_from(ident_str@.skip(i as int), word_start) == camel_case(ident_str@),
            is_ascii_text(ident_str@) ==> camel@ + ascii_camel_from(ident_str@.skip(i as int), word_start)
                == ascii_camel_from(ident_str@, true),
        decreases n - i,
    {
        let c = ident_str.get_char(i);
        let ghost rest = ident_str@.skip(i as int);
        assert(rest[0] == c);
        assert(rest.drop_first() =~= ident_str@.skip(i + 1));
        if c == '_' {
            word_start = true;
        } else if word_start {
            let up = upper_chars(c);
            camel.append(up.as_str());
            word_start = false;
        } else {
            let low = lower_chars(c);
            camel.append(low.as_str());
        }
        proof {
            assert(camel@ + camel_from(ident_str@.skip(i + 1), word_start) =~= camel_case(ident_str@));
            if is_ascii_text(ident_str@) {
                assert(is_ascii_char(c));
                assert(camel@ + ascii_camel_from(ident_str@.skip(i + 1), word_start)
                    =~= ascii_camel_from(ident_str@, true));
            }
        }
        i = i + 1;
    }
    assert(ident_str@.skip(n as int) =~= Seq::<char>::empty());
    assert(camel@ =~= camel_case(ident_str@));
    assert(is_ascii_text(ident_str@) ==> camel@ =~= ascii_camel_from(ident_str@, true));
    camel
}

/// The camel-case form of an ASCII identifier, with `word_start` as in
/// `camel_from`: each word's first letter in ASCII upper case, the others in
/// ASCII lower case.
pub open spec fn ascii_camel_from(chars: Seq<char>, word_start: bool) -> Seq<char>
    decreases chars.len(),
{
    if chars.len() == 0 {
        Seq::empty()
    } else if chars[0] == '_' {
        ascii_camel_from(chars.drop_first(), true)
    } else if word_start {
        seq![ascii_upper(chars[0])] + ascii_camel_from(chars.drop_first(), false)
    } else {
        seq![ascii_lower(chars[0])] + ascii_camel_from(chars.drop_first(), false)
    }
}

/// All characters of `s` are ASCII.
pub open spec fn is_ascii_text(s: Seq<char>) -> bool {
    forall|i: int| 0 <= i < s.len() ==> is_ascii_char(#[trigger] s[i])
}

/// The number of characters of `s` that are not underscores.
pub open spec fn letters(s: Seq<char>) -> nat
    decreases s.len(),
{
    if s.len() == 0 {
        0
    } else if s[0] == '_' {
        letters(s.drop_first())
    } else {
        1 + letters(s.drop_first())
    }
}

/// The camel-case form of an ASCII identifier holds no underscore and one
/// character for each character of the identifier that is not an underscore.
pub proof fn lemma_camel_case_ascii(s: Seq<char>)
    ensures
        ascii_camel_from(s, true).len() == letters(s),
        forall|i: int| 0 <= i < ascii_camel_from(s, true).len() ==> #[trigger] ascii_camel_from(s, true)[i] != '_',
{
    lemma_ascii_camel_from(s, true);
}

proof fn lemma_ascii_camel_from(s: Seq<char>, word_start: bool)
    ensures
        ascii_camel_from(s, word_start).len() == letters(s),
        forall|i: int| 0 <= i < ascii_camel_from(s, word_start).len() ==> #[trigger] ascii_camel_from(s, word_start)[i] != '_',
    decreases s.len(),
{
    if s.len() > 0 {
        let rest = s.drop_first();
        let c = s[0];
        if c == '_' {
            lemma_ascii_camel_from(rest, true);
        } else {
            lemma_ascii_camel_from(rest, false);
            let d = if word_start { ascii_upper(c) } else { ascii_lower(c) };
            assert(d != '_');
            let whole = ascii_camel_from(s, word_start);
            assert(whole == seq![d] + ascii_camel_from(rest, false));
            assert forall|i: int| 0 <= i < whole.len() implies #[trigger] whole[i] != '_' by {
                if i > 0 {
                    assert(whole[i] == ascii_camel_from(rest, false)[i - 1]);
                }
            }
        }
    }
}

proof fn lemma_camel_from_split(a: Seq<char>, b: Seq<char>, word_start: bool)
    ensures
        camel_from(a + seq!['_'] + b, word_start) == camel_from(a, word_start) + camel_from(b, true),
    decreases a.len(),
{
    let whole = a + seq!['_'] + b;
    if a.len() == 0 {
        assert(whole =~= seq!['_'] + b);
        assert(whole.drop_first() =~= b);
        assert(camel_from(a, word_start) =~= Seq::<char>::empty());
        assert(camel_from(whole, word_start) =~= camel_from(a, word_start) + camel_from(b, true));
    } else {
        let rest = a.drop_first();
        assert(whole.drop_first() =~= rest + seq!['_'] + b);
        assert(whole[0] == a[0]);
        if a[0] == '_' {
            lemma_camel_from_split(rest, b, true);
        } else {
            lemma_camel_from_split(rest, b, false);
        }
        assert(camel_from(whole, word_start) =~= camel_from(a, word_start) + camel_from(b, true));
    }
}

/// Camel-casing works word by word: the camel case of `a_b` is that of `a`
/// followed by that of `b`, and underscores at either end change nothing.
pub proof fn lemma_camel_case_words(a: Seq<char>, b: Seq<char>)
    ensures
        camel_case(a + seq!['_'] + b) == camel_case(a) + camel_case(b),
        camel_case(seq!['_'] + a) == camel_case(a),
        camel_case(a + seq!['_']) == camel_case(a),
{
    lemma_camel_from_split(a, b, true);
    lemma_camel_from_split(Seq::empty(), a, true);
    assert(Seq::<char>::empty() + seq!['_'] + a =~= seq!['_'] + a);
    assert(camel_case(Seq::<char>::empty()) =~= Seq::<char>::empty());
    assert(camel_case(seq!['_'] + a) =~= camel_case(a));
    lemma_camel_from_split(a, Seq::empty(), true);
    assert(a + seq!['_'] + Seq::<char>::empty() =~= a + seq!['_']);
    assert(camel_case(a + seq!['_']) =~= camel_case(a));
}

/// ASCII lower-casing of a text.
pub open spec fn ascii_lowered(s: Seq<char>) -> Seq<char> {
    s.map_values(|c: char| ascii_lower(c))
}

/// ASCII upper-casing of a text.
pub open spec fn ascii_uppered(s: Seq<char>) -> Seq<char> {
    s.map_values(|c: char| ascii_upper(c))
}

proof fn lemma_ascii_case_char(c: char)
    requires
        is_ascii_char(c),
    ensures
        is_ascii_char(ascii_lower(c)),
        is_ascii_char(ascii_upper(c)),
        ascii_upper(ascii_lower(c)) == ascii_upper(c),
        ascii_lower(ascii_lower(c)) == ascii_lower(c),
        ascii_upper(ascii_upper(c)) == ascii_upper(c),
        ascii_lower(ascii_upper(c)) == ascii_lower(c),
        (ascii_lower(c) == '_') == (c == '_'),
        (ascii_upper(c) == '_') == (c == '_'),
{
}

proof fn lemma_ascii_camel_case_blind(s: Seq<char>, word_start: bool)
    requires
        is_ascii_text(s),
    ensures
        ascii_camel_from(ascii_lowered(s), word_start) == ascii_camel_from(s, word_start),
        ascii_camel_from(ascii_uppered(s), word_start) == ascii_camel_from(s, word_start),
    decreases s.len(),
{
    if s.len() > 0 {
        let rest = s.drop_first();
        assert(is_ascii_text(rest)) by {
            assert forall|i: int| 0 <= i < rest.len() implies is_ascii_char(#[trigger] rest[i]) by {
                assert(rest[i] == s[i + 1]);
            }
        }
        assert(is_ascii_char(s[0]));
        lemma_ascii_case_char(s[0]);
        assert(ascii_lowered(s).drop_first() =~= ascii_lowered(rest));
        assert(ascii_uppered(s).drop_first() =~= ascii_uppered(rest));
        assert(ascii_lowered(s)[0] == ascii_lower(s[0]));
        assert(ascii_uppered(s)[0] == ascii_upper(s[0]));
        lemma_ascii_camel_case_blind(rest, true);
        lemma_ascii_camel_case_blind(rest, false);
    }
}

/// For an ASCII identifier the case of its letters does not matter: its
/// lower-cased and upper-cased forms are ASCII too and have the same camel
/// case.
pub proof fn lemma_camel_case_ignores_ascii_case(s: Seq<char>)
    requires
        is_ascii_text(s),
    ensures
        is_ascii_text(ascii_lowered(s)),
        is_ascii_text(ascii_uppered(s)),
        ascii_camel_from(ascii_lowered(s), true) == ascii_camel_from(s, true),
        ascii_camel_from(ascii_uppered(s), true) == ascii_camel_from(s, true),
{
    assert forall|i: int| 0 <= i < ascii_lowered(s).len() implies is_ascii_char(#[trigger] ascii_lowered(s)[i]) by {
        lemma_ascii_case_char(s[i]);
    }
    assert forall|i: int| 0 <= i < ascii_uppered(s).len() implies is_ascii_char(#[trigger] ascii_uppered(s)[i]) by {
        lemma_ascii_case_char(s[i]);
    }
    lemma_ascii_camel_case_blind(s, true);
}

/// The text `s` with each character replaced by what `char::to_lowercase`
/// yields for it.
pub open spec fn lowered(s: Seq<char>) -> Seq<char>
    decreases s.len(),
{
    if s.len() == 0 {
        Seq::empty()
    } else {
        char_lower(s[0]) + lowered(s.drop_first())
    }
}

/// `s` holds no underscore.
pub open spec fn is_word(s: Seq<char>) -> bool {
    forall|i: int| 0 <= i < s.len() ==> #[trigger] s[i] != '_'
}

proof fn lemma_camel_from_inside_word(w: Seq<char>)
    requires
        is_word(w),
    ensures
        camel_from(w, false) == lowered(w),
        ascii_camel_from(w, false) == ascii_lowered(w),
    decreases w.len(),
{
    if w.len() > 0 {
        let rest = w.drop_first();
        assert(w[0] != '_');
        assert(is_word(rest)) by {
            assert forall|i: int| 0 <= i < rest.len() implies #[trigger] rest[i] != '_' by {
                assert(rest[i] == w[i + 1]);
            }
        }
        lemma_camel_from_inside_word(rest);
        assert(ascii_lowered(w) =~= seq![ascii_lower(w[0])] + ascii_lowered(rest));
    }
}

/// Within a word, only the first character is upper-cased: every character
/// after it is lower-cased, whatever it is and whatever follows it. For an
/// ASCII word this is ASCII upper case for the first character and ASCII
/// lower case for the rest.
pub proof fn lemma_camel_case_word(w: Seq<char>)
    requires
        w.len() > 0,
        is_word(w),
    ensures
        camel_case(w) == char_upper(w[0]) + lowered(w.drop_first()),
        ascii_camel_from(w, true) == seq![ascii_upper(w[0])] + ascii_lowered(w.drop_first()),
{
    let rest = w.drop_first();
    assert(w[0] != '_');
    assert(is_word(rest)) by {
        assert forall|i: int| 0 <= i < rest.len() implies #[trigger] rest[i] != '_' by {
            assert(rest[i] == w[i + 1]);
        }
    }
    lemma_camel_from_inside_word(rest);
}

} // verus!
