//! Small string exercises: the first word of a sentence, a suffix for a
//! name, and defaults for optional strings.

use vstd::prelude::*;
use vstd::string::{StrSliceExecFns, StringExecFns};

verus! {

/// The characters that end a word.
pub open spec fn is_separator(c: char) -> bool {
    c == ' ' || c == ',' || c == '.'
}

/// Where the first separator stands in `s`: the length of `s` when there
/// is none.
pub open spec fn first_sep_index(s: Seq<char>) -> int
    decreases s.len(),
{
    if s.len() == 0 {
        0
    } else if is_separator(s[0]) {
        0
    } else {
        1 + first_sep_index(s.drop_first())
    }
}

proof fn lemma_first_sep_index(s: Seq<char>, i: int)
    requires
        0 <= i <= s.len(),
        forall|j: int| 0 <= j < i ==> !is_separator(s[j]),
        i < s.len() ==> is_separator(s[i]),
        i == s.len() ==> (forall|j: int| 0 <= j < s.len() ==> !is_separator(s[j])),
    ensures
        first_sep_index(s) == i,
    decreases s.len(),
{
    if s.len() == 0 {
    } else if is_separator(s[0]) {
    } else {
        lemma_first_sep_index(s.drop_first(), i - 1);
    }
}

/// The first word of `s`: everything before the first space, comma or
/// full stop, or all of `s` when none occurs.
pub fn first_word(s: &str) -> (r: &str)
    ensures
        r@ == s@.subrange(0, first_sep_index(s@)),
{
    let len = s.unicode_len();
    let mut i: usize = 0;
    while i < len
        invariant
            i <= len,
            len == s@.len(),
            forall|j: int| 0 <= j < i ==> !is_separator(s@[j]),
        decreases len - i,
    {
        let c = s.get_char(i);
        if c == ' ' || c == ',' || c == '.' {
            proof {
                lemma_first_sep_index(s@, i as int);
            }
            return s.substring_char(0, i);
        }
        i += 1;
    }
    proof {
        lemma_first_sep_index(s@, len as int);
        assert(s@.subrange(0, s@.len() as int) =~= s@);
    }
    s
}

/// The name, with the family suffix appended.
pub fn add_suffix(name: String) -> (r: String)
    ensures
        r@ == name@ + " Jr."@,
{
    let mut name = name;
    name.append(" Jr.");
    name
}

/// The string inside, or an empty string for none.
pub fn get_or_default2(arg: &Option<String>) -> (r: String)
    ensures
        (arg matches Some(s) ==> r@ == s@),
        (arg is None ==> r@ == Seq::<char>::empty()),
{
    match arg {
        None => String::new(),
        Some(s) => s.clone(),
    }
}

/// The string inside, or an empty string for none; takes its argument
/// mutably and hands it back untouched.
pub fn get_or_default3(arg: &mut Option<String>) -> (r: String)
    ensures
        *final(arg) == *old(arg),
        ((*old(arg)) matches Some(s) ==> r@ == s@),
        ((*old(arg)) is None ==> r@ == Seq::<char>::empty()),
{
    if arg.is_none() {
        return String::new();
    }
    let s = arg.as_ref().unwrap();
    s.clone()
}

/// The string slice inside as an owned string, or an empty string.
pub fn get_or_default4(arg: &Option<&str>) -> (r: String)
    ensures
        (arg matches Some(s) ==> r@ == s@),
        (arg is None ==> r@ == Seq::<char>::empty()),
{
    if arg.is_none() {
        return String::new();
    }
    let s = (*arg).unwrap();
    s.to_owned()
}

/// Whether the two are the same text, character by character.
pub fn str_eq(a: &str, b: &str) -> (r: bool)
    ensures
        r == (a@ == b@),
{
    let la = a.unicode_len();
    let lb = b.unicode_len();
    if la != lb {
        return false;
    }
    let mut i: usize = 0;
    while i < la
        invariant
            i <= la,
            la == a@.len(),
            la == b@.len(),
            forall|j: int| 0 <= j < i ==> a@[j] == b@[j],
        decreases la - i,
    {
        if a.get_char(i) != b.get_char(i) {
            return false;
        }
        i += 1;
    }
    proof {
        assert(a@ =~= b@);
    }
    true
}

/// The lowercase vowels the pig-latin rule recognises.
pub open spec fn is_lower_vowel(c: char) -> bool {
    c == 'a' || c == 'e' || c == 'i' || c == 'o' || c == 'u'
}

/// An ASCII letter, of either case.
pub open spec fn is_ascii_letter(c: char) -> bool {
    (97 <= c as u32 && c as u32 <= 122) || (65 <= c as u32 && c as u32 <= 90)
}

/// The ASCII lowering of one character: A through Z move down a case,
/// everything else stays.
pub open spec fn spec_lower(c: char) -> char {
    if 65 <= c as u32 && c as u32 <= 90 {
        (((c as u32) + 32) as u8) as char
    } else {
        c
    }
}

/// The Unicode uppercase mapping of one character, which may be several
/// characters long.
pub uninterp spec fn upper_of(c: char) -> Seq<char>;

/// Relies on char::to_uppercase: the Unicode uppercase mapping of the
/// character, a function of the character alone.
#[verifier::external_body]
fn char_to_upper(c: char) -> (r: Vec<char>)
    ensures
        r@ == upper_of(c),
{
    c.to_uppercase().collect()
}

/// Relies on String::push: appends exactly the one character.
#[verifier::external_body]
fn push_char(s: &mut String, c: char)
    ensures
        final(s)@ == old(s)@.push(c),
{
    s.push(c);
}

/// The pig-latin form of a word. A word led by a lowercase vowel keeps
/// its letters and gains `-hay`; one led by any other ASCII letter loses
/// that letter to a trailing `-<letter>ay` and has its next character
/// uppercased; one led by anything else keeps everything, with its
/// second character uppercased all the same.
pub open spec fn spec_pig_latin(w: Seq<char>) -> Seq<char> {
    if w.len() == 0 {
        Seq::<char>::empty()
    } else {
        let c = w[0];
        let rest = w.drop_first();
        if is_lower_vowel(c) {
            seq![spec_lower(c)] + rest + seq!['-', 'h', 'a', 'y']
        } else if is_ascii_letter(c) {
            if rest.len() == 0 {
                seq!['-', spec_lower(c), 'a', 'y']
            } else {
                upper_of(rest[0]) + rest.drop_first() + seq!['-', spec_lower(c), 'a', 'y']
            }
        } else {
            if rest.len() == 0 {
                seq![spec_lower(c)]
            } else {
                seq![spec_lower(c)] + upper_of(rest[0]) + rest.drop_first()
            }
        }
    }
}

/// Lower one character, ASCII-wise.
fn lower_ascii(c: char) -> (r: char)
    ensures
        r == spec_lower(c),
{
    let u = c as u32;
    if u >= 65 && u <= 90 {
        ((u + 32) as u8) as char
    } else {
        c
    }
}

/// Convert a word to pig latin.
pub fn pig_latinize(word: &String) -> (r: String)
    ensures
        r@ == spec_pig_latin(word@),
{
    let s = word.as_str();
    let len = s.unicode_len();
    let mut res = String::new();
    if len == 0 {
        return res;
    }
    let c = s.get_char(0);
    let u = c as u32;
    let is_vowel = c == 'a' || c == 'e' || c == 'i' || c == 'o' || c == 'u';
    let is_letter = (u >= 97 && u <= 122) || (u >= 65 && u <= 90);

    if is_vowel {
        push_char(&mut res, lower_ascii(c));
        let mut i: usize = 1;
        while i < len
            invariant
                1 <= i <= len,
                len == s@.len(),
                res@ =~= seq![spec_lower(s@[0])] + s@.subrange(1, i as int),
            decreases len - i,
        {
            push_char(&mut res, s.get_char(i));
            i += 1;
        }
        push_char(&mut res, '-');
        push_char(&mut res, 'h');
        push_char(&mut res, 'a');
        push_char(&mut res, 'y');
        proof {
            assert(s@.subrange(1, len as int) =~= s@.drop_first());
            assert(res@ =~= seq![spec_lower(s@[0])] + s@.drop_first() + seq!['-', 'h', 'a', 'y']);
        }
    } else if is_letter {
        if len > 1 {
            let ups = char_to_upper(s.get_char(1));
            let mut k: usize = 0;
            while k < ups.len()
                invariant
                    k <= ups@.len(),
                    ups@ == upper_of(s@[1]),
                    res@ =~= upper_of(s@[1]).subrange(0, k as int),
                decreases ups@.len() - k,
            {
                push_char(&mut res, ups[k]);
                k += 1;
            }
            proof {
                assert(upper_of(s@[1]).subrange(0, ups@.len() as int) =~= upper_of(s@[1]));
            }
            let mut i: usize = 2;
            while i < len
                invariant
                    2 <= i <= len,
                    len == s@.len(),
                    2 <= len,
                    res@ =~= upper_of(s@[1]) + s@.subrange(2, i as int),
                decreases len - i,
            {
                push_char(&mut res, s.get_char(i));
                i += 1;
            }
            proof {
                assert(s@.subrange(2, len as int) =~= s@.drop_first().drop_first());
            }
        }
        push_char(&mut res, '-');
        push_char(&mut res, lower_ascii(c));
        push_char(&mut res, 'a');
        push_char(&mut res, 'y');
        proof {
            if len > 1 {
                assert(s@.drop_first()[0] == s@[1]);
                assert(res@ =~= upper_of(s@[1]) + s@.drop_first().drop_first() + seq![
                    '-',
                    spec_lower(s@[0]),
                    'a',
                    'y',
                ]);
            } else {
                assert(res@ =~= seq!['-', spec_lower(s@[0]), 'a', 'y']);
            }
        }
    } else {
        push_char(&mut res, lower_ascii(c));
        if len > 1 {
            let ups = char_to_upper(s.get_char(1));
            let mut k: usize = 0;
            while k < ups.len()
                invariant
                    k <= ups@.len(),
                    ups@ == upper_of(s@[1]),
                    res@ =~= seq![spec_lower(s@[0])] + upper_of(s@[1]).subrange(0, k as int),
                decreases ups@.len() - k,
            {
                push_char(&mut res, ups[k]);
                k += 1;
            }
            let mut i: usize = 2;
            while i < len
                invariant
                    2 <= i <= len,
                    len == s@.len(),
                    ups@ == upper_of(s@[1]),
                    res@ =~= seq![spec_lower(s@[0])] + upper_of(s@[1]) + s@.subrange(2, i as int),
                decreases len - i,
            {
                push_char(&mut res, s.get_char(i));
                i += 1;
            }
            proof {
                assert(s@.subrange(2, len as int) =~= s@.drop_first().drop_first());
                assert(s@.drop_first()[0] == s@[1]);
                assert(res@ =~= seq![spec_lower(s@[0])] + upper_of(s@[1])
                    + s@.drop_first().drop_first());
            }
        }
    }
    res
}


} // verus!
