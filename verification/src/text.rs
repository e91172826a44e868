//! Reading what a user typed: trimming, letter case, and choosing among
//! the names offered.

use vstd::prelude::*;

verus! {

/// Whether a character is whitespace in the sense of `str::trim`: it has the
/// Unicode property White_Space.
pub open spec fn is_white_space(c: char) -> bool {
    let n = c as u32;
    ||| 0x9 <= n <= 0xd
    ||| n == 0x20
    ||| n == 0x85
    ||| n == 0xa0
    ||| n == 0x1680
    ||| 0x2000 <= n <= 0x200a
    ||| n == 0x2028
    ||| n == 0x2029
    ||| n == 0x202f
    ||| n == 0x205f
    ||| n == 0x3000
}

/// The text without the whitespace at its start.
pub open spec fn trimmed_start(s: Seq<char>) -> Seq<char>
    decreases s.len(),
{
    if s.len() > 0 && is_white_space(s[0]) {
        trimmed_start(s.drop_first())
    } else {
        s
    }
}

/// The text without the whitespace at its end.
pub open spec fn trimmed_end(s: Seq<char>) -> Seq<char>
    decreases s.len(),
{
    if s.len() > 0 && is_white_space(s.last()) {
        trimmed_end(s.drop_last())
    } else {
        s
    }
}

/// The text with the whitespace at both ends removed, as `str::trim` does it.
pub open spec fn trimmed(s: Seq<char>) -> Seq<char> {
    trimmed_end(trimmed_start(s))
}

/// The text in lower case, as `str::to_lowercase` writes it.
pub uninterp spec fn lowercase(s: Seq<char>) -> Seq<char>;

/// Whether every character of the text is ASCII.
pub open spec fn is_ascii_text(s: Seq<char>) -> bool {
    forall|i: int| 0 <= i < s.len() ==> (s[i] as u32) < 0x80
}

/// An ASCII character in lower case: `A` to `Z` become `a` to `z`, every
/// other character stays.
pub open spec fn ascii_lower_char(c: char) -> char {
    if 'A' as u32 <= c as u32 <= 'Z' as u32 { ((c as u32) + 32) as char } else { c }
}

/// ASCII text in lower case, character by character.
pub open spec fn ascii_lowercase(s: Seq<char>) -> Seq<char> {
    s.map_values(|c: char| ascii_lower_char(c))
}

/// Removes the whitespace at both ends, through `str::trim`.
#[verifier::external_body]
pub(crate) fn trim_text(s: &str) -> (r: &str)
    ensures
        r@ == trimmed(s@),
{
    s.trim()
}

/// Writes the text in lower case, through `str::to_lowercase`. The result is
/// the named value `lowercase`; on ASCII text it is the text with `A` to `Z`
/// written `a` to `z`.
#[verifier::external_body]
pub(crate) fn to_lower(s: &str) -> (r: String)
    ensures
        r@ == lowercase(s@),
        is_ascii_text(s@) ==> r@ == ascii_lowercase(s@),
{
    s.to_lowercase()
}

/// Whether two texts are the same sequence of characters.
pub fn same_text(a: &str, b: &str) -> (r: bool)
    ensures
        r == (a@ == b@),
{
    let n = a.unicode_len();
    if n != b.unicode_len() {
        return false;
    }
    let mut i: usize = 0;
    while i < n
        invariant
            n == a@.len(),
            n == b@.len(),
            i <= n,
            forall|j: int| 0 <= j < i ==> a@[j] == b@[j],
        decreases n - i,
    {
        if a.get_char(i) != b.get_char(i) {
            return false;
        }
        i = i + 1;
    }
    assert(a@ =~= b@);
    true
}

/// What the machine takes from a line typed by a user: the line without the
/// whitespace at its ends, in lower case.
pub fn normalize_input(line: &str) -> (r: String)
    ensures
        r@ == lowercase(trimmed(line@)),
{
    to_lower(trim_text(line))
}

/// Whether a typed answer is the given word, in any letter case.
pub fn is_word(input: &str, word: &str) -> (r: bool)
    ensures
        r == (lowercase(input@) == word@),
        is_ascii_text(input@) ==> r == (ascii_lowercase(input@) == word@),
{
    let lower = to_lower(input);
    same_text(lower.as_str(), word)
}

/// Chooses among the names offered the first one that equals what the user
/// typed, regardless of letter case.
pub fn find_choice(options: &Vec<String>, choice: &str) -> (r: Option<String>)
    ensures
        match r {
            Some(name) => exists|i: int| {
                &&& 0 <= i < options@.len()
                &&& name@ == options@[i]@
                &&& lowercase(options@[i]@) == lowercase(choice@)
                &&& forall|j: int| 0 <= j < i ==> lowercase(options@[j]@) != lowercase(choice@)
            },
            None => forall|i: int| 0 <= i < options@.len() ==> lowercase(options@[i]@) != lowercase(choice@),
        },
{
    let wanted = to_lower(choice);
    let mut i: usize = 0;
    while i < options.len()
        invariant
            i <= options@.len(),
            wanted@ == lowercase(choice@),
            forall|j: int| 0 <= j < i ==> lowercase(options@[j]@) != lowercase(choice@),
        decreases options@.len() - i,
    {
        let candidate = to_lower(options[i].as_str());
        if same_text(candidate.as_str(), wanted.as_str()) {
            return Some(options[i].clone());
        }
        i = i + 1;
    }
    None
}

} // verus!
