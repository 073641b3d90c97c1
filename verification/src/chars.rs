use vstd::prelude::*;
use vstd::string::StrSliceExecFns;

verus! {

/// The lower-case form of an ASCII capital; any other character itself.
pub open spec fn ascii_lower(c: char) -> char {
    if 'A' <= c && c <= 'Z' {
        ((c as u8) + 32) as char
    } else {
        c
    }
}

/// The capital of an ASCII lower-case letter; any other character itself.
pub open spec fn ascii_upper(c: char) -> char {
    if 'a' <= c && c <= 'z' {
        ((c as u8) - 32) as char
    } else {
        c
    }
}

// What follows of `char`, `String` and `str` is assumed of the standard
// library, as its documentation has it.

/// `char::to_ascii_lowercase`: the letters `A` to `Z` go to `a` to `z`, and
/// every other character stays.
pub assume_specification[ char::to_ascii_lowercase ](c: &char) -> (r: char)
    ensures
        r == ascii_lower(*c),
;

/// `char::to_ascii_uppercase`: the letters `a` to `z` go to `A` to `Z`, and
/// every other character stays.
pub assume_specification[ char::to_ascii_uppercase ](c: &char) -> (r: char)
    ensures
        r == ascii_upper(*c),
;

/// `char::is_ascii_uppercase`: whether the character is one of `A` to `Z`.
pub assume_specification[ char::is_ascii_uppercase ](c: &char) -> (r: bool)
    ensures
        r == ('A' <= *c && *c <= 'Z'),
;

/// `String::push`: the character is appended.
pub assume_specification[ String::push ](s: &mut String, c: char)
    ensures
        final(s)@ == old(s)@.push(c),
;

/// The characters of a text.
pub fn to_chars(text: &str) -> (r: Vec<char>)
    ensures
        r@ == text@,
{
    let n = text.unicode_len();
    let mut r: Vec<char> = Vec::new();
    let mut i: usize = 0;
    while i < n
        invariant
            n == text@.len(),
            i <= n,
            r@ == text@.subrange(0, i as int),
        decreases n - i,
    {
        r.push(text.get_char(i));
        i += 1;
        assert(r@ =~= text@.subrange(0, i as int));
    }
    assert(text@.subrange(0, n as int) =~= text@);
    r
}

/// The text made of the characters from `from` on.
pub fn from_chars(chars: &Vec<char>, from: usize) -> (r: String)
    requires
        from <= chars@.len(),
    ensures
        r@ == chars@.skip(from as int),
{
    let mut r = String::new();
    let mut i: usize = from;
    while i < chars.len()
        invariant
            from <= i <= chars@.len(),
            r@ == chars@.subrange(from as int, i as int),
        decreases chars@.len() - i,
    {
        r.push(chars[i]);
        i += 1;
        assert(r@ =~= chars@.subrange(from as int, i as int));
    }
    assert(chars@.subrange(from as int, chars@.len() as int) =~= chars@.skip(from as int));
    r
}

/// Whether `word` stands in `chars` at `from`.
pub fn starts_with_at(chars: &Vec<char>, from: usize, word: &str) -> (r: bool)
    requires
        from <= chars@.len(),
    ensures
        r == word@.is_prefix_of(chars@.skip(from as int)),
{
    let n = word.unicode_len();
    if chars.len() - from < n {
        return false;
    }
    let mut i: usize = 0;
    while i < n
        invariant
            n == word@.len(),
            from + n <= chars@.len() <= usize::MAX,
            i <= n,
            forall|k: int| 0 <= k < i ==> chars@[from + k] == word@[k],
        decreases n - i,
    {
        if chars[from + i] != word.get_char(i) {
            assert(chars@.skip(from as int)[i as int] != word@[i as int]);
            return false;
        }
        i += 1;
    }
    assert(word@ =~= chars@.skip(from as int).subrange(0, n as int));
    true
}

/// Whether the characters from `from` on read `word`.
pub fn reads_at(chars: &Vec<char>, from: usize, word: &str) -> (r: bool)
    requires
        from <= chars@.len(),
    ensures
        r == (chars@.skip(from as int) == word@),
{
    let n = word.unicode_len();
    if chars.len() - from != n {
        return false;
    }
    let r = starts_with_at(chars, from, word);
    proof {
        let rest = chars@.skip(from as int);
        if r {
            assert(rest.subrange(0, n as int) =~= rest);
        }
    }
    r
}

/// The text made of the first `to` characters.
pub fn prefix_text(chars: &Vec<char>, to: usize) -> (r: String)
    requires
        to <= chars@.len(),
    ensures
        r@ == chars@.take(to as int),
{
    let mut r = String::new();
    let mut i: usize = 0;
    while i < to
        invariant
            i <= to <= chars@.len(),
            r@ == chars@.take(i as int),
        decreases to - i,
    {
        r.push(chars[i]);
        i += 1;
        assert(r@ =~= chars@.take(i as int));
    }
    r
}

/// A line without the carriage return that ends it, if one does.
pub open spec fn without_return(line: Seq<char>) -> Seq<char> {
    if line.len() > 0 && line.last() == '\r' {
        line.drop_last()
    } else {
        line
    }
}

/// The lines of the text from `i` on, after the lines in `done` and the
/// characters in `current`, which begin the line that `i` stands in.
pub open spec fn lines_from(
    text: Seq<char>,
    i: int,
    current: Seq<char>,
    done: Seq<Seq<char>>,
) -> Seq<Seq<char>>
    decreases text.len() - i,
{
    if i < 0 || i >= text.len() {
        if current.len() == 0 {
            done
        } else {
            done.push(current)
        }
    } else if text[i] == '\n' {
        lines_from(text, i + 1, Seq::empty(), done.push(without_return(current)))
    } else {
        lines_from(text, i + 1, current.push(text[i]), done)
    }
}

/// The lines of a text: what stands between line feeds, without the
/// carriage return before a line feed. A line feed at the very end opens no
/// further line.
pub open spec fn lines_of(text: Seq<char>) -> Seq<Seq<char>> {
    lines_from(text, 0, Seq::empty(), Seq::empty())
}

/// Splits a text into its lines.
pub fn split_lines(text: &str) -> (r: Vec<String>)
    ensures
        r.deep_view() == lines_of(text@),
{
    let chars = to_chars(text);
    let mut done: Vec<String> = Vec::new();
    let mut current: Vec<char> = Vec::new();
    let mut i: usize = 0;
    assert(done.deep_view() =~= Seq::<Seq<char>>::empty());
    while i < chars.len()
        invariant
            i <= chars@.len(),
            chars@ == text@,
            lines_of(text@) == lines_from(text@, i as int, current@, done.deep_view()),
        decreases chars@.len() - i,
    {
        let c = chars[i];
        if c == '\n' {
            let n = current.len();
            let line = if n > 0 && current[n - 1] == '\r' {
                prefix_text(&current, n - 1)
            } else {
                prefix_text(&current, n)
            };
            assert(line@ =~= without_return(current@));
            let ghost before = done.deep_view();
            done.push(line);
            assert(done.deep_view() =~= before.push(line@));
            current = Vec::new();
            assert(current@ =~= Seq::<char>::empty());
        } else {
            current.push(c);
        }
        i += 1;
    }
    if current.len() > 0 {
        let line = prefix_text(&current, current.len());
        assert(line@ =~= current@);
        let ghost before = done.deep_view();
        done.push(line);
        assert(done.deep_view() =~= before.push(line@));
    }
    done
}

/// Whether two lists of lines read the same.
pub fn same_lines(a: &Vec<String>, b: &Vec<String>) -> (r: bool)
    ensures
        r == (a.deep_view() == b.deep_view()),
{
    assert(a.deep_view().len() == a@.len() && b.deep_view().len() == b@.len());
    if a.len() != b.len() {
        return false;
    }
    let mut i: usize = 0;
    while i < a.len()
        invariant
            i <= a@.len(),
            a@.len() == b@.len(),
            a.deep_view().len() == a@.len(),
            b.deep_view().len() == b@.len(),
            forall|k: int| 0 <= k < i ==> a.deep_view()[k] == b.deep_view()[k],
        decreases a@.len() - i,
    {
        proof {
            assert(a.deep_view()[i as int] == a@[i as int]@);
            assert(b.deep_view()[i as int] == b@[i as int]@);
        }
        if a[i] != b[i] {
            return false;
        }
        i += 1;
    }
    assert(a.deep_view() =~= b.deep_view());
    true
}

/// Whether two texts read the same.
pub fn same_text(a: &str, b: &str) -> (r: bool)
    ensures
        r == (a@ == b@),
{
    let chars = to_chars(a);
    assert(chars@.skip(0) =~= chars@);
    reads_at(&chars, 0, b)
}

/// The lower-case form of a text, by the rules of Unicode.
pub uninterp spec fn lowercased(text: Seq<char>) -> Seq<char>;

/// `str::to_lowercase`.
#[verifier::external_body]
pub(crate) fn lowercase(text: &str) -> (r: String)
    ensures
        r@ == lowercased(text@),
{
    text.to_lowercase()
}

/// Whether `part` stands somewhere in `text`.
pub open spec fn has_part(text: Seq<char>, part: Seq<char>) -> bool {
    exists|i: int| 0 <= i && i + part.len() <= text.len() && #[trigger] text.subrange(
        i,
        i + part.len(),
    ) == part
}

/// `str::contains`, for a text pattern.
#[verifier::external_body]
pub(crate) fn contains_text(text: &str, part: &str) -> (r: bool)
    ensures
        r == has_part(text@, part@),
{
    text.contains(part)
}

} // verus!
