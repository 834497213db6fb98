//! Markdown analysis: statistics, links and headers.
use vstd::prelude::*;
use crate::text::{
    chars_of, find_char, find_char_from, find_chars, find_from, is_whitespace, is_ws,
    lemma_find_char_from, lemma_find_from, split_char, split_spec, string_of_range,
    trim_bounds, trim_spec,
};

verus! {

/// Statistics about markdown content.
#[derive(Debug, Clone, Copy, PartialEq, Eq)]
pub struct MarkdownStats {
    /// Total number of lines.
    pub lines: usize,
    /// Total number of words.
    pub words: usize,
    /// Total number of characters.
    pub characters: usize,
    /// Number of lines whose first non-whitespace character is `#`.
    pub headers: usize,
    /// Number of code blocks (pairs of ```).
    pub code_blocks: usize,
    /// Number of `](` sequences.
    pub links: usize,
}

// ---------------------------------------------------------------------------
// Lines, words, occurrences
// ---------------------------------------------------------------------------

/// The lines of `s`: the pieces between `\n`, without a final empty piece. Unlike
/// `str::lines`, a line ending in `\r\n` keeps its `\r`; every use of a line here trims it
/// first, and the count of lines is the same.
pub open spec fn lines_spec(s: Seq<char>) -> Seq<Seq<char>> {
    let parts = split_spec(s, '\n');
    if parts.len() > 0 && parts.last().len() == 0 {
        parts.drop_last()
    } else {
        parts
    }
}

/// The number of maximal runs of non-whitespace characters in `s`.
pub open spec fn word_count(s: Seq<char>) -> nat
    decreases s.len(),
{
    if s.len() == 0 {
        0
    } else {
        word_count(s.drop_last()) + if !is_ws(s.last()) && (s.len() == 1 || is_ws(
            s[s.len() - 2],
        )) {
            1nat
        } else {
            0nat
        }
    }
}

/// The number of non-overlapping occurrences of `p` in `h` from position `i` on, found
/// left to right.
pub open spec fn count_matches_from(h: Seq<char>, p: Seq<char>, i: int) -> nat
    decreases h.len() + 1 - i,
{
    if p.len() == 0 || i < 0 {
        0
    } else {
        match find_from(h, p, i) {
            None => 0,
            Some(k) => if k >= i && k + p.len() <= h.len() {
                1 + count_matches_from(h, p, k + p.len())
            } else {
                0
            },
        }
    }
}

/// Whether the first non-whitespace character of `line` is `#`.
pub open spec fn is_header_line(line: Seq<char>) -> bool {
    trim_spec(line).len() > 0 && trim_spec(line)[0] == '#'
}

/// The number of lines of `ls` that are header lines.
pub open spec fn header_line_count(ls: Seq<Seq<char>>) -> nat
    decreases ls.len(),
{
    if ls.len() == 0 {
        0
    } else {
        header_line_count(ls.drop_last()) + if is_header_line(ls.last()) {
            1nat
        } else {
            0nat
        }
    }
}

/// The statistics of a markdown text.
pub open spec fn stats_spec(s: Seq<char>) -> (nat, nat, nat, nat, nat, nat) {
    (
        lines_spec(s).len(),
        word_count(s),
        s.len(),
        header_line_count(lines_spec(s)),
        count_matches_from(s, seq!['`', '`', '`'], 0) / 2,
        count_matches_from(s, seq![']', '('], 0),
    )
}

/// The lines of `content`.
pub fn lines_of(content: &str) -> (r: Vec<String>)
    ensures
        r@.map_values(|l: String| l@) == lines_spec(content@),
{
    let mut parts = split_char(content, '\n');
    let ghost ps = parts@.map_values(|l: String| l@);
    if parts.len() > 0 && parts[parts.len() - 1].as_str().is_empty() {
        assert(ps.last() == parts@[parts@.len() - 1]@);
        parts.pop();
        assert(parts@.map_values(|l: String| l@) =~= ps.drop_last());
    }
    parts
}

fn count_words(v: &Vec<char>) -> (n: usize)
    ensures
        n == word_count(v@),
{
    let mut n: usize = 0;
    let mut i: usize = 0;
    while i < v.len()
        invariant
            i <= v@.len(),
            n == word_count(v@.take(i as int)),
            n <= i,
        decreases v@.len() - i,
    {
        let ghost t = v@.take(i + 1);
        assert(t.drop_last() =~= v@.take(i as int));
        assert(t.last() == v@[i as int]);
        if i > 0 {
            assert(t[t.len() - 2] == v@[i - 1]);
        }
        if !is_whitespace(v[i]) && (i == 0 || is_whitespace(v[i - 1])) {
            n = n + 1;
        }
        i = i + 1;
    }
    assert(v@.take(v@.len() as int) =~= v@);
    n
}

fn count_matches(h: &Vec<char>, p: &Vec<char>) -> (n: usize)
    requires
        p@.len() > 0,
    ensures
        n == count_matches_from(h@, p@, 0),
{
    let mut n: usize = 0;
    let mut i: usize = 0;
    loop
        invariant
            p@.len() > 0,
            i <= h@.len(),
            n <= i,
            count_matches_from(h@, p@, 0) == n + count_matches_from(h@, p@, i as int),
        decreases h@.len() + 1 - i,
    {
        proof {
            lemma_find_from(h@, p@, i as int);
        }
        match find_chars(h, p, i) {
            None => {
                return n;
            },
            Some(k) => {
                assert(h@.len() == h.len());
                i = k + p.len();
                n = n + 1;
            },
        }
    }
}

fn header_lines(lines: &Vec<String>) -> (n: usize)
    ensures
        n == header_line_count(lines@.map_values(|l: String| l@)),
{
    let ghost ls = lines@.map_values(|l: String| l@);
    let mut n: usize = 0;
    let mut i: usize = 0;
    while i < lines.len()
        invariant
            i <= lines@.len(),
            ls == lines@.map_values(|l: String| l@),
            n == header_line_count(ls.take(i as int)),
            n <= i,
        decreases lines@.len() - i,
    {
        let v = chars_of(lines[i].as_str());
        let (a, b) = trim_bounds(&v, 0, v.len());
        assert(v@.subrange(0, v@.len() as int) =~= v@);
        assert(ls.take(i + 1).drop_last() =~= ls.take(i as int));
        assert(ls.take(i + 1).last() == v@);
        if a < b && v[a] == '#' {
            assert(trim_spec(v@)[0] == v@[a as int]);
            n = n + 1;
        }
        i = i + 1;
    }
    assert(ls.take(lines@.len() as int) =~= ls);
    n
}

/// Analyzes markdown content.
pub fn analyze_markdown(content: &str) -> (r: MarkdownStats)
    ensures
        (r.lines as nat, r.words as nat, r.characters as nat, r.headers as nat, r.code_blocks
            as nat, r.links as nat) == stats_spec(content@),
{
    let v = chars_of(content);
    let lines = lines_of(content);
    let words = count_words(&v);
    let headers = header_lines(&lines);
    let mut fence: Vec<char> = Vec::new();
    fence.push('`');
    fence.push('`');
    fence.push('`');
    assert(fence@ =~= seq!['`', '`', '`']);
    let mut link: Vec<char> = Vec::new();
    link.push(']');
    link.push('(');
    assert(link@ =~= seq![']', '(']);
    let fences = count_matches(&v, &fence);
    let links = count_matches(&v, &link);
    MarkdownStats {
        lines: lines.len(),
        words,
        characters: v.len(),
        headers,
        code_blocks: fences / 2,
        links,
    }
}

// ---------------------------------------------------------------------------
// Links
// ---------------------------------------------------------------------------

/// The `(text, url)` pairs of `[text](url)` links in `s` from position `i` on, as the
/// scanner reads them: after `[` the text runs to the next `]` (or the end); a `(`
/// right after it opens the url, which runs to the next `)` (or the end); pairs with an
/// empty text or url are dropped.
pub open spec fn links_from(s: Seq<char>, i: int) -> Seq<(Seq<char>, Seq<char>)>
    decreases s.len() - i,
{
    if i < 0 || i >= s.len() {
        seq![]
    } else if s[i] != '[' {
        links_from(s, i + 1)
    } else {
        match find_char_from(s, ']', i + 1) {
            None => seq![],
            Some(j) => if j <= i || j >= s.len() {
                seq![]
            } else {
                let text = s.subrange(i + 1, j);
                let k = j + 1;
                if k < s.len() && s[k] == '(' {
                    match find_char_from(s, ')', k + 1) {
                        None => {
                            let url = s.subrange(k + 1, s.len() as int);
                            if text.len() > 0 && url.len() > 0 {
                                seq![(text, url)]
                            } else {
                                seq![]
                            }
                        },
                        Some(e) => if e <= k || e >= s.len() {
                            seq![]
                        } else {
                            let url = s.subrange(k + 1, e);
                            (if text.len() > 0 && url.len() > 0 {
                                seq![(text, url)]
                            } else {
                                seq![]
                            }) + links_from(s, e + 1)
                        },
                    }
                } else {
                    links_from(s, k)
                }
            },
        }
    }
}

proof fn lemma_find_char_shift(p: Seq<char>, t: Seq<char>, c: char, i: int)
    requires
        0 <= i,
    ensures
        find_char_from(p + t, c, p.len() + i) == match find_char_from(t, c, i) {
            Some(k) => Some(k + p.len()),
            None => None,
        },
    decreases t.len() - i,
{
    if i < t.len() {
        assert((p + t)[p.len() + i] == t[i]);
        lemma_find_char_shift(p, t, c, i + 1);
    }
}

proof fn lemma_links_shift(p: Seq<char>, t: Seq<char>, i: int)
    requires
        0 <= i,
    ensures
        links_from(p + t, p.len() + i) == links_from(t, i),
    decreases t.len() - i,
{
    let s = p + t;
    let n = p.len() as int;
    if i < t.len() {
        assert(s[n + i] == t[i]);
        if t[i] != '[' {
            lemma_links_shift(p, t, i + 1);
        } else {
            lemma_find_char_shift(p, t, ']', i + 1);
            lemma_find_char_from(t, ']', i + 1);
            match find_char_from(t, ']', i + 1) {
                None => {},
                Some(j) => {
                    assert(s.subrange(n + i + 1, n + j) =~= t.subrange(i + 1, j));
                    let k = j + 1;
                    if k < t.len() {
                        assert(s[n + k] == t[k]);
                    }
                    if k < t.len() && t[k] == '(' {
                        lemma_find_char_shift(p, t, ')', k + 1);
                        lemma_find_char_from(t, ')', k + 1);
                        match find_char_from(t, ')', k + 1) {
                            None => {
                                assert(s.subrange(n + k + 1, s.len() as int) =~= t.subrange(
                                    k + 1,
                                    t.len() as int,
                                ));
                            },
                            Some(e) => {
                                assert(s.subrange(n + k + 1, n + e) =~= t.subrange(k + 1, e));
                                lemma_links_shift(p, t, e + 1);
                            },
                        }
                    } else {
                        lemma_links_shift(p, t, k);
                    }
                },
            }
        }
    }
}

/// A bracketed text that no `(` follows hides no later link: the links of `[text]`
/// followed by a character other than `(` or `[` and then by `t` are the links of `t`,
/// for any `text` without `]` and any `t`.
pub proof fn unlinked_brackets_hide_nothing(text: Seq<char>, c: char, t: Seq<char>)
    requires
        !text.contains(']'),
        c != '(',
        c != '[',
    ensures
        links_from(seq!['['] + text + seq![']', c] + t, 0) == links_from(t, 0),
{
    let p = seq!['['] + text + seq![']', c];
    let s = p + t;
    let j: int = text.len() as int + 1;
    assert(s[0] == '[');
    assert(s[j] == ']');
    assert(s[j + 1] == c);
    lemma_find_char_from(s, ']', 1);
    assert forall|x: int| 1 <= x < j implies s[x] != ']' by {
        assert(s[x] == text[x - 1]);
        if s[x] == ']' {
            assert(text.contains(']'));
        }
    }
    assert(find_char_from(s, ']', 1) == Some(j));
    assert(s[j + 1] != '[');
    assert(links_from(s, j + 1) == links_from(s, j + 2));
    assert(p.len() == j + 2);
    lemma_links_shift(p, t, 0);
}

/// A link is extracted and scanning goes on after it: the links of `[text](url)` followed
/// by `t` are that link and then the links of `t`, for a non-empty `text` without `]` and
/// a non-empty `url` without `)`.
pub proof fn link_then_rest(text: Seq<char>, url: Seq<char>, t: Seq<char>)
    requires
        text.len() > 0,
        url.len() > 0,
        !text.contains(']'),
        !url.contains(')'),
    ensures
        links_from(seq!['['] + text + seq![']', '('] + url + seq![')'] + t, 0) == seq![(text, url)]
            + links_from(t, 0),
{
    let p = seq!['['] + text + seq![']', '('] + url + seq![')'];
    let s = p + t;
    let j: int = text.len() as int + 1;
    let k: int = j + 1;
    let e: int = k + url.len() as int + 1;
    assert(s[0] == '[' && s[j] == ']' && s[k] == '(' && s[e] == ')');
    lemma_find_char_from(s, ']', 1);
    assert forall|x: int| 1 <= x < j implies s[x] != ']' by {
        assert(s[x] == text[x - 1]);
        if s[x] == ']' {
            assert(text.contains(']'));
        }
    }
    assert(find_char_from(s, ']', 1) == Some(j));
    lemma_find_char_from(s, ')', k + 1);
    assert forall|x: int| k + 1 <= x < e implies s[x] != ')' by {
        assert(s[x] == url[x - k - 1]);
        if s[x] == ')' {
            assert(url.contains(')'));
        }
    }
    assert(find_char_from(s, ')', k + 1) == Some(e));
    assert(s.subrange(1, j) =~= text);
    assert(s.subrange(k + 1, e) =~= url);
    assert(p.len() == e + 1);
    lemma_links_shift(p, t, 0);
}

/// Extracts all links from markdown content, as `(text, url)` pairs.
pub fn extract_links(content: &str) -> (r: Vec<(String, String)>)
    ensures
        r@.map_values(|p: (String, String)| (p.0@, p.1@)) == links_from(content@, 0),
{
    let v = chars_of(content);
    let mut links: Vec<(String, String)> = Vec::new();
    let mut i: usize = 0;
    while i < v.len()
        invariant
            i <= v@.len(),
            v@ == content@,
            links_from(v@, 0) == links@.map_values(|p: (String, String)| (p.0@, p.1@))
                + links_from(v@, i as int),
        decreases v@.len() - i,
    {
        let ghost before = links@.map_values(|p: (String, String)| (p.0@, p.1@));
        if v[i] != '[' {
            i = i + 1;
            continue;
        }
        proof {
            lemma_find_char_from(v@, ']', i + 1);
        }
        let j = match find_char(&v, ']', i + 1) {
            None => {
                assert(links_from(v@, i as int) =~= Seq::<(Seq<char>, Seq<char>)>::empty());
                assert(before + links_from(v@, i as int) =~= before);
                return links;
            },
            Some(j) => j,
        };
        let k = j + 1;
        if k < v.len() && v[k] == '(' {
            proof {
                lemma_find_char_from(v@, ')', k + 1);
            }
            match find_char(&v, ')', k + 1) {
                None => {
                    if i + 1 < j && k + 1 < v.len() {
                        let text = string_of_range(&v, i + 1, j);
                        let url = string_of_range(&v, k + 1, v.len());
                        links.push((text, url));
                        assert(links@.map_values(|p: (String, String)| (p.0@, p.1@)) =~= before
                            + links_from(v@, i as int));
                    } else {
                        assert(before + links_from(v@, i as int) =~= before);
                    }
                    return links;
                },
                Some(e) => {
                    if i + 1 < j && k + 1 < e {
                        let text = string_of_range(&v, i + 1, j);
                        let url = string_of_range(&v, k + 1, e);
                        links.push((text, url));
                        assert(links@.map_values(|p: (String, String)| (p.0@, p.1@)) =~= before
                            + seq![(text@, url@)]);
                        assert(before + links_from(v@, i as int) =~= before + seq![(text@, url@)]
                            + links_from(v@, e + 1));
                    } else {
                        assert(before + links_from(v@, i as int) =~= before + links_from(
                            v@,
                            e + 1,
                        ));
                    }
                    i = e + 1;
                },
            }
        } else {
            i = k;
        }
    }
    assert(links_from(v@, i as int) =~= Seq::<(Seq<char>, Seq<char>)>::empty());
    assert(links@.map_values(|p: (String, String)| (p.0@, p.1@)) + links_from(v@, i as int)
        =~= links@.map_values(|p: (String, String)| (p.0@, p.1@)));
    links
}

// ---------------------------------------------------------------------------
// Headers
// ---------------------------------------------------------------------------

/// The number of leading `#` characters of `t`.
pub open spec fn leading_hashes(t: Seq<char>) -> nat
    decreases t.len(),
{
    if t.len() > 0 && t[0] == '#' {
        1 + leading_hashes(t.drop_first())
    } else {
        0
    }
}

/// The header that a line stands for: the trimmed line must start with `#`; the run of
/// `#` gives the level (more than 6 is no header); the one character that ends the run
/// (the space of `# Title`) is skipped, and the trimmed rest is the text, which must not
/// be empty. So `#Title` reads as level 1 with the text `itle`.
pub open spec fn header_of(line: Seq<char>) -> Option<(nat, Seq<char>)> {
    let t = trim_spec(line);
    let h = leading_hashes(t);
    if t.len() == 0 || t[0] != '#' || h > 6 {
        None
    } else {
        let rest = if h < t.len() {
            t.skip(h as int + 1)
        } else {
            Seq::<char>::empty()
        };
        let text = trim_spec(rest);
        if text.len() == 0 {
            None
        } else {
            Some((h, text))
        }
    }
}

/// The headers of a list of lines, in order.
pub open spec fn headers_of(ls: Seq<Seq<char>>) -> Seq<(nat, Seq<char>)>
    decreases ls.len(),
{
    if ls.len() == 0 {
        seq![]
    } else {
        headers_of(ls.drop_last()) + match header_of(ls.last()) {
            Some(h) => seq![h],
            None => seq![],
        }
    }
}

proof fn lemma_leading_hashes(t: Seq<char>, i: int)
    requires
        0 <= i <= t.len(),
        forall|j: int| 0 <= j < i ==> t[j] == '#',
        i == t.len() || t[i] != '#',
    ensures
        leading_hashes(t) == i,
    decreases i,
{
    if i > 0 {
        assert forall|j: int| 0 <= j < i - 1 implies t.drop_first()[j] == '#' by {
            assert(t.drop_first()[j] == t[j + 1]);
        }
        if i < t.len() {
            assert(t.drop_first()[i - 1] == t[i]);
        }
        lemma_leading_hashes(t.drop_first(), i - 1);
    }
}

fn header_of_line(line: &str) -> (r: Option<(usize, String)>)
    ensures
        r matches Some(p) ==> header_of(line@) == Some((p.0 as nat, p.1@)),
        r is None ==> header_of(line@) is None,
{
    let v = chars_of(line);
    let (a, b) = trim_bounds(&v, 0, v.len());
    assert(v@.subrange(0, v@.len() as int) =~= v@);
    let ghost t = v@.subrange(a as int, b as int);
    if a >= b || v[a] != '#' {
        return None;
    }
    let mut h: usize = a;
    while h < b && v[h] == '#' && h - a <= 6
        invariant
            a <= h <= b <= v@.len(),
            t == v@.subrange(a as int, b as int),
            forall|j: int| a <= j < h ==> v@[j] == '#',
        decreases b - h,
    {
        h = h + 1;
    }
    if h - a > 6 {
        proof {
            let n = h - a;
            assert forall|j: int| 0 <= j < n implies t[j] == '#' by {
                assert(t[j] == v@[a + j]);
            }
            lemma_leading_hashes_at_least(t, n as int);
        }
        return None;
    }
    proof {
        assert forall|j: int| 0 <= j < h - a implies t[j] == '#' by {
            assert(t[j] == v@[a + j]);
        }
        if h < b {
            assert(t[h - a] == v@[h as int]);
        }
        lemma_leading_hashes(t, h - a);
    }
    let rest_start = if h < b { h + 1 } else { b };
    let (c, d) = trim_bounds(&v, rest_start, b);
    proof {
        if h < b {
            assert(v@.subrange(rest_start as int, b as int) =~= t.skip(h - a + 1));
        } else {
            assert(v@.subrange(rest_start as int, b as int) =~= Seq::<char>::empty());
        }
    }
    if c >= d {
        return None;
    }
    Some((h - a, string_of_range(&v, c, d)))
}

proof fn lemma_leading_hashes_at_least(t: Seq<char>, n: int)
    requires
        0 <= n <= t.len(),
        forall|j: int| 0 <= j < n ==> t[j] == '#',
    ensures
        leading_hashes(t) >= n,
    decreases n,
{
    if n > 0 {
        assert forall|j: int| 0 <= j < n - 1 implies t.drop_first()[j] == '#' by {
            assert(t.drop_first()[j] == t[j + 1]);
        }
        lemma_leading_hashes_at_least(t.drop_first(), n - 1);
    }
}

/// Extracts all headers from markdown content, as `(level, text)` pairs.
pub fn extract_headers(content: &str) -> (r: Vec<(usize, String)>)
    ensures
        r@.map_values(|p: (usize, String)| (p.0 as nat, p.1@)) == headers_of(
            lines_spec(content@),
        ),
{
    let lines = lines_of(content);
    let ghost ls = lines@.map_values(|l: String| l@);
    let mut out: Vec<(usize, String)> = Vec::new();
    let mut i: usize = 0;
    while i < lines.len()
        invariant
            i <= lines@.len(),
            ls == lines@.map_values(|l: String| l@),
            out@.map_values(|p: (usize, String)| (p.0 as nat, p.1@)) == headers_of(
                ls.take(i as int),
            ),
        decreases lines@.len() - i,
    {
        let ghost before = out@.map_values(|p: (usize, String)| (p.0 as nat, p.1@));
        assert(ls.take(i + 1).drop_last() =~= ls.take(i as int));
        assert(ls.take(i + 1).last() == lines@[i as int]@);
        match header_of_line(lines[i].as_str()) {
            Some(p) => {
                let ghost pv = (p.0 as nat, p.1@);
                out.push(p);
                assert(out@.map_values(|p: (usize, String)| (p.0 as nat, p.1@)) =~= before.push(
                    pv,
                ));
                assert(headers_of(ls.take(i + 1)) =~= before + seq![pv]);
            },
            None => {
                assert(headers_of(ls.take(i + 1)) =~= before);
            },
        }
        i = i + 1;
    }
    assert(ls.take(lines@.len() as int) =~= ls);
    out
}

} // verus!
