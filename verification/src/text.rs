//! What the catalog asks of text: whether a search term is blank, and
//! whether a name is found by a term as the store finds it: the term is a
//! pattern, sought anywhere in the name, the case of letters ignored. Lower
//! case is taken from the standard library.

use vstd::prelude::*;

verus! {

/// The code points with the Unicode property `White_Space`.
pub open spec fn is_white_space(c: char) -> bool {
    let u = c as u32;
    ||| 0x09 <= u <= 0x0D
    ||| u == 0x20
    ||| u == 0x85
    ||| u == 0xA0
    ||| u == 0x1680
    ||| 0x2000 <= u <= 0x200A
    ||| u == 0x2028
    ||| u == 0x2029
    ||| u == 0x202F
    ||| u == 0x205F
    ||| u == 0x3000
}

/// A text is blank when it is empty or holds white space only.
pub open spec fn is_blank(text: Seq<char>) -> bool {
    forall|i: int| 0 <= i < text.len() ==> is_white_space(#[trigger] text[i])
}

/// What `str::to_lowercase` makes of a text.
pub uninterp spec fn lowercase(text: Seq<char>) -> Seq<char>;

/// `needle` stands in `hay` at position `at`, character for character.
pub open spec fn occurs_at(hay: Seq<char>, needle: Seq<char>, at: int) -> bool {
    &&& 0 <= at
    &&& at + needle.len() <= hay.len()
    &&& forall|j: int| 0 <= j < needle.len() ==> #[trigger] hay[at + j] == needle[j]
}

/// `needle` stands somewhere in `hay`, character for character.
pub open spec fn contains_part(hay: Seq<char>, needle: Seq<char>) -> bool {
    exists|at: int| occurs_at(hay, needle, at)
}

/// The characters that stand for more than themselves in a pattern: `%` for
/// any text, `_` for any one character, and the backslash, which makes the
/// character behind it stand for itself.
pub open spec fn is_wildcard(c: char) -> bool {
    c == '%' || c == '_' || c == '\\'
}

/// Whether the rest of a text from `i` on is what the rest of a pattern
/// from `j` on stands for. A pattern that ends in a lone backslash stands
/// for nothing.
pub open spec fn like_from(text: Seq<char>, pattern: Seq<char>, i: int, j: int) -> bool
    decreases pattern.len() - j, text.len() - i,
{
    if i < 0 || j < 0 || i > text.len() {
        false
    } else if j >= pattern.len() {
        i == text.len()
    } else if pattern[j] == '%' {
        like_from(text, pattern, i, j + 1) || (i < text.len() && like_from(
            text,
            pattern,
            i + 1,
            j,
        ))
    } else if pattern[j] == '_' {
        i < text.len() && like_from(text, pattern, i + 1, j + 1)
    } else if pattern[j] == '\\' {
        j + 1 < pattern.len() && i < text.len() && text[i] == pattern[j + 1] && like_from(
            text,
            pattern,
            i + 1,
            j + 2,
        )
    } else {
        i < text.len() && text[i] == pattern[j] && like_from(text, pattern, i + 1, j + 1)
    }
}

/// Whether a text is what a pattern stands for: the store's `LIKE`.
pub open spec fn like_matches(text: Seq<char>, pattern: Seq<char>) -> bool {
    like_from(text, pattern, 0, 0)
}

/// The pattern that finds `text` anywhere in a name: `%`, the text as it
/// is, `%`. Wildcards in the text stay wildcards.
pub open spec fn like_pattern(text: Seq<char>) -> Seq<char> {
    seq!['%'] + text + seq!['%']
}

/// Whether the search text, read as a pattern, is found somewhere in a
/// name when the case of letters is ignored: the store's `ILIKE` of the name
/// with `%text%`, both taken in lower case.
pub open spec fn found_in(name: Seq<char>, text: Seq<char>) -> bool {
    like_matches(lowercase(name), like_pattern(lowercase(text)))
}

/// `str::to_lowercase`. Trusted: the result is the text named
/// [`lowercase`].
#[verifier::external_body]
fn lower(text: &str) -> (r: String)
    ensures
        r@ == lowercase(text@),
{
    text.to_lowercase()
}

/// Whether `c` is white space.
pub fn white_space(c: char) -> (r: bool)
    ensures
        r == is_white_space(c),
{
    let u: u32 = c as u32;
    (0x09 <= u && u <= 0x0D) || u == 0x20 || u == 0x85 || u == 0xA0 || u == 0x1680 || (0x2000 <= u
        && u <= 0x200A) || u == 0x2028 || u == 0x2029 || u == 0x202F || u == 0x205F || u == 0x3000
}

/// The characters of a text, one by one.
pub fn characters(text: &str) -> (r: Vec<char>)
    ensures
        r@ == text@,
{
    let mut out: Vec<char> = Vec::new();
    for c in it: text.chars()
        invariant
            out@ == it.seq().take(it.index() as int),
            it.seq() == text@,
    {
        out.push(c);
    }
    out
}

/// Whether a text is empty or holds white space only.
pub fn blank(text: &str) -> (r: bool)
    ensures
        r == is_blank(text@),
{
    let chars: Vec<char> = characters(text);
    let mut i: usize = 0;
    while i < chars.len()
        invariant
            i <= chars.len(),
            chars@ == text@,
            forall|j: int| 0 <= j < i ==> is_white_space(#[trigger] text@[j]),
        decreases chars.len() - i,
    {
        if !white_space(chars[i]) {
            return false;
        }
        i += 1;
    }
    true
}

/// The row of answers for a pattern that is at its end: only a text at its
/// end is what it stands for. The answer for the rest from `n - c` on
/// stands at `c`.
fn like_end(text: &Vec<char>, pattern: &Vec<char>) -> (r: Vec<bool>)
    ensures
        r@.len() == text@.len() + 1,
        forall|c: int|
            0 <= c <= text@.len() ==> #[trigger] r@[c] == like_from(
                text@,
                pattern@,
                text@.len() - c,
                pattern@.len() as int,
            ),
{
    let n: usize = text.len();
    let mut row: Vec<bool> = Vec::new();
    row.push(true);
    let mut d: usize = 0;
    while d < n
        invariant
            d <= n,
            n == text@.len(),
            row@.len() == d + 1,
            forall|c: int|
                0 <= c <= d ==> #[trigger] row@[c] == like_from(
                    text@,
                    pattern@,
                    n - c,
                    pattern@.len() as int,
                ),
        decreases n - d,
    {
        row.push(false);
        d += 1;
    }
    row
}

/// The row of answers for the pattern from `j` on, given those for the
/// pattern from `j + 1` and from `j + 2` on.
fn like_row(
    text: &Vec<char>,
    pattern: &Vec<char>,
    j: usize,
    next: &Vec<bool>,
    after: &Vec<bool>,
) -> (r: Vec<bool>)
    requires
        j < pattern@.len(),
        next@.len() == text@.len() + 1,
        forall|c: int|
            0 <= c <= text@.len() ==> #[trigger] next@[c] == like_from(
                text@,
                pattern@,
                text@.len() - c,
                j + 1,
            ),
        j + 1 < pattern@.len() ==> after@.len() == text@.len() + 1,
        j + 1 < pattern@.len() ==> forall|c: int|
            0 <= c <= text@.len() ==> #[trigger] after@[c] == like_from(
                text@,
                pattern@,
                text@.len() - c,
                j + 2,
            ),
    ensures
        r@.len() == text@.len() + 1,
        forall|c: int|
            0 <= c <= text@.len() ==> #[trigger] r@[c] == like_from(
                text@,
                pattern@,
                text@.len() - c,
                j as int,
            ),
{
    let n: usize = text.len();
    let m: usize = pattern.len();
    let sign: char = pattern[j];
    let mut row: Vec<bool> = Vec::new();
    row.push(sign == '%' && next[0]);
    let mut d: usize = 0;
    while d < n
        invariant
            d <= n,
            n == text@.len(),
            m == pattern@.len(),
            j < m,
            sign == pattern@[j as int],
            next@.len() == n + 1,
            forall|c: int|
                0 <= c <= n ==> #[trigger] next@[c] == like_from(text@, pattern@, n - c, j + 1),
            j + 1 < m ==> after@.len() == n + 1,
            j + 1 < m ==> forall|c: int|
                0 <= c <= n ==> #[trigger] after@[c] == like_from(text@, pattern@, n - c, j + 2),
            row@.len() == d + 1,
            forall|c: int|
                0 <= c <= d ==> #[trigger] row@[c] == like_from(text@, pattern@, n - c, j as int),
        decreases n - d,
    {
        let here: char = text[n - d - 1];
        let value: bool = if sign == '%' {
            next[d + 1] || row[d]
        } else if sign == '_' {
            next[d]
        } else if sign == '\\' {
            j + 1 < m && here == pattern[j + 1] && after[d]
        } else {
            here == sign && next[d]
        };
        assert(value == like_from(text@, pattern@, n - (d + 1), j as int));
        row.push(value);
        d += 1;
    }
    row
}

/// Whether a text is what a pattern stands for.
pub fn like(text: &str, pattern: &str) -> (r: bool)
    ensures
        r == like_matches(text@, pattern@),
{
    let t: Vec<char> = characters(text);
    let p: Vec<char> = characters(pattern);
    let n: usize = t.len();
    let m: usize = p.len();
    let mut next: Vec<bool> = like_end(&t, &p);
    let mut after: Vec<bool> = Vec::new();
    let mut j: usize = m;
    while j > 0
        invariant
            j <= m,
            n == t@.len(),
            m == p@.len(),
            t@ == text@,
            p@ == pattern@,
            next@.len() == n + 1,
            forall|c: int|
                0 <= c <= n ==> #[trigger] next@[c] == like_from(t@, p@, n - c, j as int),
            j < m ==> after@.len() == n + 1,
            j < m ==> forall|c: int|
                0 <= c <= n ==> #[trigger] after@[c] == like_from(t@, p@, n - c, j + 1),
        decreases j,
    {
        j -= 1;
        let row: Vec<bool> = like_row(&t, &p, j, &next, &after);
        after = next;
        next = row;
    }
    next[n]
}

/// Whether the search text, read as a pattern, is found somewhere in a
/// name when the case of letters is ignored.
pub fn find_in(name: &str, text: &str) -> (r: bool)
    ensures
        r == found_in(name@, text@),
{
    let lowered: String = lower(text);
    let mut pattern: String = "%".to_owned();
    pattern.append(lowered.as_str());
    pattern.append("%");
    proof {
        reveal_strlit("%");
        assert(pattern@ =~= like_pattern(lowercase(text@)));
    }
    let hay: String = lower(name);
    like(hay.as_str(), pattern.as_str())
}

} // verus!
