//! Text as sequences of characters.
//!
//! The spec functions say what a text operation yields; the executable
//! functions of the same subject compute it on `&str` and `String`.
use vstd::prelude::*;
use vstd::string::*;
use vstd::utf8::encode_scalar;
use vstd::utf8::encode_utf8;

verus! {

/// `String::push` appends one character.
pub assume_specification[ String::push ](s: &mut String, c: char)
    ensures
        final(s)@ == old(s)@.push(c),
;

/// A text in quotes, with what needs it escaped, as Rust's debug format has it.
pub uninterp spec fn quoted(s: Seq<char>) -> Seq<char>;

/// `str`'s debug format. The text is a function of the argument.
#[verifier::external_body]
pub(crate) fn quote(s: &str) -> (r: String)
    ensures
        r@ == quoted(s@),
{
    format!("{:?}", s)
}

// ---- basic conversions ----

/// The views of a sequence of strings.
pub open spec fn views(v: Seq<String>) -> Seq<Seq<char>> {
    Seq::new(v.len(), |i: int| v[i]@)
}

/// The characters of `s`.
pub fn chars_of(s: &str) -> (r: Vec<char>)
    ensures
        r@ == s@,
{
    let mut r: Vec<char> = Vec::new();
    for c in it: s.chars()
        invariant
            it.seq() == s@,
            r@ == s@.take(it.index() as int),
    {
        r.push(c);
        assert(r@ =~= s@.take(it.index() as int + 1));
    }
    assert(s@.take(s@.len() as int) =~= s@);
    r
}

/// The string made of the characters `v[from..to]`.
pub fn string_of(v: &[char], from: usize, to: usize) -> (r: String)
    requires
        from <= to <= v@.len(),
    ensures
        r@ == v@.subrange(from as int, to as int),
{
    let mut r = String::new();
    let mut i: usize = from;
    while i < to
        invariant
            from <= i <= to <= v@.len(),
            r@ == v@.subrange(from as int, i as int),
        decreases to - i,
    {
        r.push(v[i]);
        i = i + 1;
        assert(r@ =~= v@.subrange(from as int, i as int));
    }
    r
}

/// Whether two texts hold the same characters.
pub fn same(a: &str, b: &str) -> (r: bool)
    ensures
        r == (a@ == b@),
{
    let x = a.to_owned();
    let y = b.to_owned();
    x == y
}

/// A copy of a list of strings.
pub fn copy_strings(v: &Vec<String>) -> (r: Vec<String>)
    ensures
        views(r@) == views(v@),
        r@.len() == v@.len(),
{
    let mut r: Vec<String> = Vec::new();
    let mut i: usize = 0;
    while i < v.len()
        invariant
            i <= v@.len(),
            r@.len() == i,
            forall|k: int| 0 <= k < i ==> (#[trigger] r@[k])@ == v@[k]@,
        decreases v@.len() - i,
    {
        r.push(v[i].clone());
        i = i + 1;
    }
    assert(views(r@) =~= views(v@));
    r
}

// ---- searching ----

/// Whether `p` stands in `s` at index `i`.
pub open spec fn matches_at(s: Seq<char>, p: Seq<char>, i: int) -> bool {
    &&& 0 <= i
    &&& i + p.len() <= s.len()
    &&& s.subrange(i, i + p.len()) == p
}

/// The first index at or after `i` at which `p` stands in `s`.
pub open spec fn find_from(s: Seq<char>, p: Seq<char>, i: int) -> Option<int>
    decreases s.len() + 1 - i,
{
    if i < 0 || i + p.len() > s.len() {
        None
    } else if matches_at(s, p, i) {
        Some(i)
    } else {
        find_from(s, p, i + 1)
    }
}

/// The first index at which `p` stands in `s`.
pub open spec fn find(s: Seq<char>, p: Seq<char>) -> Option<int> {
    find_from(s, p, 0)
}

/// Whether `p` stands anywhere in `s`.
pub open spec fn occurs(s: Seq<char>, p: Seq<char>) -> bool {
    find(s, p) is Some
}

/// What `find_from` returns is the first match.
pub proof fn lemma_find_from(s: Seq<char>, p: Seq<char>, i: int)
    requires
        0 <= i,
    ensures
        find_from(s, p, i) matches Some(k) ==> i <= k && matches_at(s, p, k) && (forall|j: int|
            i <= j < k ==> !matches_at(s, p, j)),
        find_from(s, p, i) is None ==> forall|j: int| i <= j ==> !matches_at(s, p, j),
    decreases s.len() + 1 - i,
{
    if i + p.len() <= s.len() && !matches_at(s, p, i) {
        lemma_find_from(s, p, i + 1);
    }
}

/// `s` split at the first `p`: what stands before it and what stands after it.
pub open spec fn cut(s: Seq<char>, p: Seq<char>) -> Option<(Seq<char>, Seq<char>)> {
    match find(s, p) {
        Some(i) => Some((s.take(i), s.skip(i + p.len()))),
        None => None,
    }
}

/// `s` without the prefix `p`.
pub open spec fn after_prefix(s: Seq<char>, p: Seq<char>) -> Option<Seq<char>> {
    if p.is_prefix_of(s) {
        Some(s.skip(p.len() as int))
    } else {
        None
    }
}

fn match_chars_at(s: &[char], p: &[char], i: usize) -> (r: bool)
    requires
        i + p@.len() <= s@.len(),
    ensures
        r == matches_at(s@, p@, i as int),
{
    let n: usize = s.len();
    let mut j: usize = 0;
    while j < p.len()
        invariant
            j <= p@.len(),
            n == s@.len(),
            i + p@.len() <= n,
            forall|k: int| 0 <= k < j ==> s@[i + k] == p@[k],
        decreases p@.len() - j,
    {
        if s[i + j] != p[j] {
            assert(s@.subrange(i as int, i + p@.len())[j as int] != p@[j as int]);
            return false;
        }
        j = j + 1;
    }
    assert(s@.subrange(i as int, i + p@.len()) =~= p@);
    true
}

fn find_chars(s: &[char], p: &[char], from: usize) -> (r: Option<usize>)
    ensures
        match r {
            Some(k) => find_from(s@, p@, from as int) == Some(k as int),
            None => find_from(s@, p@, from as int) is None,
        },
        r matches Some(k) ==> from <= k && k + p@.len() <= s@.len(),
{
    let mut i: usize = from;
    while i <= s.len() && p.len() <= s.len() - i
        invariant
            from <= i,
            find_from(s@, p@, from as int) == find_from(s@, p@, i as int),
        decreases s@.len() + 1 - i,
    {
        if match_chars_at(s, p, i) {
            return Some(i);
        }
        if i == s.len() {
            assert(find_from(s@, p@, i + 1) is None);
            return None;
        }
        i = i + 1;
    }
    None
}

/// Whether `s` begins with `p`.
pub fn starts_with(s: &str, p: &str) -> (r: bool)
    ensures
        r == p@.is_prefix_of(s@),
{
    let v = chars_of(s);
    let q = chars_of(p);
    if q.len() > v.len() {
        return false;
    }
    let r = match_chars_at(v.as_slice(), q.as_slice(), 0);
    assert(r == p@.is_prefix_of(s@));
    r
}

/// Whether `s` ends with `p`.
pub fn ends_with(s: &str, p: &str) -> (r: bool)
    ensures
        r == p@.is_suffix_of(s@),
{
    let v = chars_of(s);
    let q = chars_of(p);
    if q.len() > v.len() {
        return false;
    }
    let r = match_chars_at(v.as_slice(), q.as_slice(), v.len() - q.len());
    assert(r == p@.is_suffix_of(s@));
    r
}

/// Whether `p` stands anywhere in `s`.
pub fn contains(s: &str, p: &str) -> (r: bool)
    ensures
        r == occurs(s@, p@),
{
    let v = chars_of(s);
    let q = chars_of(p);
    match find_chars(v.as_slice(), q.as_slice(), 0) {
        Some(_) => true,
        None => false,
    }
}

/// `s` without the prefix `p`, where it has it.
pub fn strip_prefix(s: &str, p: &str) -> (r: Option<String>)
    ensures
        match r {
            Some(t) => after_prefix(s@, p@) == Some(t@),
            None => after_prefix(s@, p@) is None,
        },
{
    let v = chars_of(s);
    let q = chars_of(p);
    if q.len() > v.len() {
        return None;
    }
    if match_chars_at(v.as_slice(), q.as_slice(), 0) {
        let t = string_of(v.as_slice(), q.len(), v.len());
        assert(t@ =~= s@.skip(p@.len() as int));
        Some(t)
    } else {
        None
    }
}

/// Split `s` at the first `p`.
pub fn split_once(s: &str, p: &str) -> (r: Option<(String, String)>)
    ensures
        match r {
            Some((a, b)) => cut(s@, p@) == Some((a@, b@)),
            None => cut(s@, p@) is None,
        },
{
    let v = chars_of(s);
    let q = chars_of(p);
    match find_chars(v.as_slice(), q.as_slice(), 0) {
        Some(i) => {
            let n: usize = v.len();
            assert(i + q@.len() <= n);
            let a = string_of(v.as_slice(), 0, i);
            let b = string_of(v.as_slice(), i + q.len(), v.len());
            assert(a@ =~= s@.take(i as int));
            assert(b@ =~= s@.skip(i + p@.len()));
            Some((a, b))
        },
        None => None,
    }
}

// ---- whitespace ----

/// Unicode's `White_Space` property.
pub open spec fn is_space(c: char) -> bool {
    let u = c as u32;
    ||| 0x09 <= u <= 0x0d
    ||| u == 0x20
    ||| u == 0x85
    ||| u == 0xa0
    ||| u == 0x1680
    ||| 0x2000 <= u <= 0x200a
    ||| u == 0x2028
    ||| u == 0x2029
    ||| u == 0x202f
    ||| u == 0x205f
    ||| u == 0x3000
}

/// Whether `c` is white space.
pub fn space(c: char) -> (r: bool)
    ensures
        r == is_space(c),
{
    let u: u32 = c as u32;
    (0x09 <= u && u <= 0x0d) || u == 0x20 || u == 0x85 || u == 0xa0 || u == 0x1680 || (0x2000 <= u
        && u <= 0x200a) || u == 0x2028 || u == 0x2029 || u == 0x202f || u == 0x205f || u == 0x3000
}

/// `s` without its leading white space.
pub open spec fn trim_start(s: Seq<char>) -> Seq<char>
    decreases s.len(),
{
    if s.len() > 0 && is_space(s[0]) {
        trim_start(s.skip(1))
    } else {
        s
    }
}

/// `s` without its trailing white space.
pub open spec fn trim_end(s: Seq<char>) -> Seq<char>
    decreases s.len(),
{
    if s.len() > 0 && is_space(s.last()) {
        trim_end(s.drop_last())
    } else {
        s
    }
}

/// `s` without white space at either end.
pub open spec fn trimmed(s: Seq<char>) -> Seq<char> {
    trim_end(trim_start(s))
}

/// How many characters of `s`, from the first, are not white space.
pub open spec fn word_len(s: Seq<char>) -> nat
    decreases s.len(),
{
    if s.len() > 0 && !is_space(s[0]) {
        1 + word_len(s.skip(1))
    } else {
        0
    }
}

pub proof fn lemma_word_len(s: Seq<char>)
    ensures
        word_len(s) <= s.len(),
        forall|i: int| 0 <= i < word_len(s) ==> !is_space(#[trigger] s[i]),
        word_len(s) < s.len() ==> is_space(s[word_len(s) as int]),
    decreases s.len(),
{
    if s.len() > 0 && !is_space(s[0]) {
        lemma_word_len(s.skip(1));
        assert forall|i: int| 0 <= i < word_len(s) implies !is_space(#[trigger] s[i]) by {
            if i > 0 {
                assert(s[i] == s.skip(1)[i - 1]);
            }
        }
    }
}

pub proof fn lemma_trim_start_len(s: Seq<char>)
    ensures
        trim_start(s).len() <= s.len(),
        trim_start(s).len() > 0 ==> !is_space(trim_start(s)[0]),
    decreases s.len(),
{
    if s.len() > 0 && is_space(s[0]) {
        lemma_trim_start_len(s.skip(1));
    }
}

/// The runs of `s` that are free of white space.
pub open spec fn words(s: Seq<char>) -> Seq<Seq<char>>
    decreases s.len(),
    via words_shrink
{
    let t = trim_start(s);
    if t.len() == 0 {
        Seq::empty()
    } else {
        seq![t.take(word_len(t) as int)] + words(t.skip(word_len(t) as int))
    }
}

#[via_fn]
proof fn words_shrink(s: Seq<char>) {
    lemma_trim_start_len(s);
    lemma_word_len(trim_start(s));
}

fn skip_space(v: &[char], from: usize) -> (r: usize)
    requires
        from <= v@.len(),
    ensures
        from <= r <= v@.len(),
        trim_start(v@.skip(from as int)) == v@.skip(r as int),
{
    let mut i: usize = from;
    while i < v.len() && space(v[i])
        invariant
            from <= i <= v@.len(),
            trim_start(v@.skip(from as int)) == trim_start(v@.skip(i as int)),
        decreases v@.len() - i,
    {
        assert(v@.skip(i as int).skip(1) =~= v@.skip(i + 1));
        i = i + 1;
    }
    i
}

fn skip_word(v: &[char], from: usize) -> (r: usize)
    requires
        from <= v@.len(),
    ensures
        from <= r <= v@.len(),
        word_len(v@.skip(from as int)) == r - from,
{
    let mut i: usize = from;
    while i < v.len() && !space(v[i])
        invariant
            from <= i <= v@.len(),
            word_len(v@.skip(from as int)) == i - from + word_len(v@.skip(i as int)),
        decreases v@.len() - i,
    {
        assert(v@.skip(i as int).skip(1) =~= v@.skip(i + 1));
        i = i + 1;
    }
    i
}

/// `s` without white space at either end.
pub fn trim(s: &str) -> (r: String)
    ensures
        r@ == trimmed(s@),
{
    let v = chars_of(s);
    let a: usize = skip_space(v.as_slice(), 0);
    assert(v@.skip(0) =~= v@);
    let mut b: usize = v.len();
    assert(v@.subrange(a as int, b as int) =~= v@.skip(a as int));
    while b > a && space(v[b - 1])
        invariant
            a <= b <= v@.len(),
            trim_end(v@.subrange(a as int, b as int)) == trimmed(v@),
        decreases b,
    {
        assert(v@.subrange(a as int, b as int).drop_last() =~= v@.subrange(a as int, b - 1));
        b = b - 1;
    }
    string_of(v.as_slice(), a, b)
}

/// The words of `s`.
pub fn split_whitespace(s: &str) -> (r: Vec<String>)
    ensures
        views(r@) == words(s@),
{
    let v = chars_of(s);
    let mut out: Vec<String> = Vec::new();
    let mut i: usize = 0;
    assert(v@.skip(0) =~= v@);
    assert(views(out@) + words(v@.skip(0)) =~= words(v@));
    loop
        invariant
            i <= v@.len(),
            views(out@) + words(v@.skip(i as int)) == words(v@),
        ensures
            views(out@) == words(v@),
        decreases v@.len() - i,
    {
        let a: usize = skip_space(v.as_slice(), i);
        let ghost t = v@.skip(a as int);
        if a == v.len() {
            assert(t.len() == 0);
            assert(words(v@.skip(i as int)) =~= Seq::<Seq<char>>::empty());
            assert(views(out@) =~= words(v@));
            break;
        }
        let b: usize = skip_word(v.as_slice(), a);
        proof {
            lemma_trim_start_len(v@.skip(i as int));
            lemma_word_len(t);
            assert(v@.subrange(a as int, b as int) =~= t.take(word_len(t) as int));
            assert(t.skip(word_len(t) as int) =~= v@.skip(b as int));
        }
        let ghost before = out@;
        out.push(string_of(v.as_slice(), a, b));
        assert(views(out@) =~= views(before) + seq![t.take(word_len(t) as int)]);
        assert(views(out@) + words(v@.skip(b as int)) =~= views(before) + (seq![
            t.take(word_len(t) as int),
        ] + words(v@.skip(b as int))));
        i = b;
    }
    out
}

// ---- joining ----

/// The parts, in order, with `sep` between each two.
pub open spec fn joined(parts: Seq<Seq<char>>, sep: Seq<char>) -> Seq<char>
    decreases parts.len(),
{
    if parts.len() == 0 {
        Seq::empty()
    } else if parts.len() == 1 {
        parts[0]
    } else {
        joined(parts.drop_last(), sep) + sep + parts.last()
    }
}

/// The parts, in order, with `sep` between each two.
pub fn join(parts: &Vec<String>, sep: &str) -> (r: String)
    ensures
        r@ == joined(views(parts@), sep@),
{
    let mut r = String::new();
    let mut i: usize = 0;
    let ghost all = views(parts@);
    while i < parts.len()
        invariant
            i <= parts@.len(),
            all == views(parts@),
            r@ == joined(all.take(i as int), sep@),
        decreases parts@.len() - i,
    {
        if i > 0 {
            r.append(sep);
        }
        r.append(parts[i].as_str());
        assert(all.take(i + 1).drop_last() =~= all.take(i as int));
        if i == 0 {
            assert(r@ =~= all[0]);
        }
        i = i + 1;
    }
    assert(all.take(all.len() as int) =~= all);
    r
}

// ---- lines ----

/// How many characters of `s`, from the first, stand before a `c`.
pub open spec fn run_len(s: Seq<char>, c: char) -> nat
    decreases s.len(),
{
    if s.len() > 0 && s[0] != c {
        1 + run_len(s.skip(1), c)
    } else {
        0
    }
}

pub proof fn lemma_run_len(s: Seq<char>, c: char)
    ensures
        run_len(s, c) <= s.len(),
        forall|i: int| 0 <= i < run_len(s, c) ==> #[trigger] s[i] != c,
        run_len(s, c) < s.len() ==> s[run_len(s, c) as int] == c,
    decreases s.len(),
{
    if s.len() > 0 && s[0] != c {
        lemma_run_len(s.skip(1), c);
        assert forall|i: int| 0 <= i < run_len(s, c) implies #[trigger] s[i] != c by {
            if i > 0 {
                assert(s[i] == s.skip(1)[i - 1]);
            }
        }
    }
}

/// A line without the carriage return at its end.
pub open spec fn chop_return(s: Seq<char>) -> Seq<char> {
    if s.len() > 0 && s.last() == '\r' {
        s.drop_last()
    } else {
        s
    }
}

/// The lines of `s`: what stands before each line feed, less a carriage return
/// there, and what follows the last line feed, where that is not empty.
pub open spec fn line_list(s: Seq<char>) -> Seq<Seq<char>>
    decreases s.len(),
    via line_list_shrink
{
    if s.len() == 0 {
        Seq::empty()
    } else {
        let k = run_len(s, '\n') as int;
        if k >= s.len() {
            seq![s]
        } else {
            seq![chop_return(s.take(k))] + line_list(s.skip(k + 1))
        }
    }
}

#[via_fn]
proof fn line_list_shrink(s: Seq<char>) {
    lemma_run_len(s, '\n');
}

proof fn lemma_run_len_more(a: Seq<char>, b: Seq<char>, c: char)
    requires
        run_len(a, c) < a.len(),
    ensures
        run_len(a + b, c) == run_len(a, c),
    decreases a.len(),
{
    if a.len() > 0 && a[0] != c {
        assert((a + b).skip(1) =~= a.skip(1) + b);
        lemma_run_len_more(a.skip(1), b, c);
    }
}

/// The lines of a text that ends with a line feed stay as they are, whatever is added.
pub proof fn lemma_lines_before(a: Seq<char>, b: Seq<char>)
    requires
        a.len() > 0 ==> a.last() == '\n',
    ensures
        line_list(a + b) == line_list(a) + line_list(b),
    decreases a.len(),
{
    if a.len() == 0 {
        assert(a + b =~= b);
        assert(line_list(a) =~= Seq::<Seq<char>>::empty());
        assert(line_list(a) + line_list(b) =~= line_list(b));
    } else {
        lemma_run_len(a, '\n');
        let k = run_len(a, '\n') as int;
        assert(k < a.len()) by {
            if k >= a.len() {
                assert(a[a.len() - 1] == '\n');
            }
        }
        lemma_run_len_more(a, b, '\n');
        let rest = a.skip(k + 1);
        assert((a + b).take(k) =~= a.take(k));
        assert((a + b).skip(k + 1) =~= rest + b);
        if rest.len() > 0 {
            assert(rest.last() == a.last());
        }
        lemma_lines_before(rest, b);
        assert(line_list(a + b) =~= line_list(a) + line_list(b));
    }
}

/// Where the first `c` from an index on stands, or the end.
pub fn run_end(v: &[char], from: usize, c: char) -> (r: usize)
    requires
        from <= v@.len(),
    ensures
        from <= r <= v@.len(),
        run_len(v@.skip(from as int), c) == r - from,
        r < v@.len() ==> v@[r as int] == c,
{
    let mut i: usize = from;
    while i < v.len() && v[i] != c
        invariant
            from <= i <= v@.len(),
            run_len(v@.skip(from as int), c) == i - from + run_len(v@.skip(i as int), c),
        decreases v@.len() - i,
    {
        assert(v@.skip(i as int).skip(1) =~= v@.skip(i + 1));
        i = i + 1;
    }
    i
}

/// The lines of `s`.
pub fn lines(s: &str) -> (r: Vec<String>)
    ensures
        views(r@) == line_list(s@),
{
    let v = chars_of(s);
    let n: usize = v.len();
    let mut out: Vec<String> = Vec::new();
    let mut i: usize = 0;
    assert(v@.skip(0) =~= v@);
    assert(views(out@) + line_list(v@.skip(0)) =~= line_list(v@));
    while i < n
        invariant
            i <= n,
            n == v@.len(),
            views(out@) + line_list(v@.skip(i as int)) == line_list(v@),
        decreases n - i,
    {
        let ghost t = v@.skip(i as int);
        let ghost before = out@;
        let e: usize = run_end(v.as_slice(), i, '\n');
        if e == n {
            out.push(string_of(v.as_slice(), i, n));
            assert(out@.last()@ =~= t);
            assert(views(out@) =~= views(before) + seq![t]);
            assert(v@.skip(n as int).len() == 0);
            assert(views(out@) + line_list(v@.skip(n as int)) =~= line_list(v@));
            i = n;
        } else {
            let mut stop: usize = e;
            if e > i && v[e - 1] == '\r' {
                stop = e - 1;
            }
            out.push(string_of(v.as_slice(), i, stop));
            proof {
                assert(t.take(e - i) =~= v@.subrange(i as int, e as int));
                assert(out@.last()@ =~= chop_return(t.take(e - i)));
                assert(views(out@) =~= views(before) + seq![chop_return(t.take(e - i))]);
                assert(t.skip(e - i + 1) =~= v@.skip(e + 1));
                assert(views(out@) + line_list(v@.skip(e + 1)) =~= views(before) + (seq![
                    chop_return(t.take(e - i)),
                ] + line_list(v@.skip(e + 1))));
            }
            i = e + 1;
        }
    }
    assert(v@.skip(n as int).len() == 0);
    assert(line_list(v@.skip(n as int)) =~= Seq::<Seq<char>>::empty());
    assert(views(out@) =~= line_list(v@));
    out
}

// ---- splitting and replacing ----

/// The parts of `s` between the occurrences of the non-empty `p`.
pub open spec fn split_list(s: Seq<char>, p: Seq<char>) -> Seq<Seq<char>>
    decreases s.len(),
    via split_list_shrink
{
    match find(s, p) {
        Some(i) => if p.len() > 0 {
            seq![s.take(i)] + split_list(s.skip(i + p.len()), p)
        } else {
            seq![s]
        },
        None => seq![s],
    }
}

#[via_fn]
proof fn split_list_shrink(s: Seq<char>, p: Seq<char>) {
    lemma_find_from(s, p, 0);
}

/// `s` with every occurrence of the non-empty `p` replaced by `to`.
pub open spec fn replaced(s: Seq<char>, p: Seq<char>, to: Seq<char>) -> Seq<char> {
    joined(split_list(s, p), to)
}

proof fn lemma_find_skip(s: Seq<char>, p: Seq<char>, k: int, i: int)
    requires
        0 <= k <= s.len(),
        0 <= i,
    ensures
        find_from(s.skip(k), p, i) == (match find_from(s, p, k + i) {
            Some(j) => Some(j - k),
            None => None,
        }),
    decreases s.len() + 1 - i - k,
{
    let t = s.skip(k);
    if i + p.len() <= t.len() {
        assert(t.subrange(i, i + p.len()) =~= s.subrange(k + i, k + i + p.len()));
        if !matches_at(t, p, i) {
            lemma_find_skip(s, p, k, i + 1);
        }
    }
}

/// The parts of `s` between the occurrences of `p`.
pub fn split(s: &str, p: &str) -> (r: Vec<String>)
    requires
        p@.len() > 0,
    ensures
        views(r@) == split_list(s@, p@),
{
    let v = chars_of(s);
    let q = chars_of(p);
    let n: usize = v.len();
    let mut out: Vec<String> = Vec::new();
    let mut i: usize = 0;
    assert(v@.skip(0) =~= v@);
    assert(views(out@) + split_list(v@.skip(0), q@) =~= split_list(v@, q@));
    loop
        invariant_except_break
            views(out@) + split_list(v@.skip(i as int), q@) == split_list(v@, q@),
        invariant
            i <= n,
            n == v@.len(),
            q@.len() > 0,
        ensures
            views(out@) == split_list(v@, q@),
        decreases n - i,
    {
        let ghost before = out@;
        let ghost t = v@.skip(i as int);
        proof {
            lemma_find_skip(v@, q@, i as int, 0);
        }
        match find_chars(v.as_slice(), q.as_slice(), i) {
            Some(k) => {
                out.push(string_of(v.as_slice(), i, k));
                proof {
                    assert(out@.last()@ =~= t.take(k - i));
                    assert(views(out@) =~= views(before) + seq![t.take(k - i)]);
                    assert(t.skip(k - i + q@.len()) =~= v@.skip(k + q@.len()));
                    assert(views(out@) + split_list(v@.skip(k + q@.len()), q@) =~= views(before) + (
                    seq![t.take(k - i)] + split_list(v@.skip(k + q@.len()), q@)));
                }
                i = k + q.len();
            },
            None => {
                out.push(string_of(v.as_slice(), i, n));
                proof {
                    assert(out@.last()@ =~= t);
                    assert(views(out@) =~= views(before) + seq![t]);
                }
                break;
            },
        }
    }
    out
}

/// `s` with every occurrence of `p` replaced by `to`.
pub fn replace(s: &str, p: &str, to: &str) -> (r: String)
    requires
        p@.len() > 0,
    ensures
        r@ == replaced(s@, p@, to@),
{
    let parts = split(s, p);
    join(&parts, to)
}

// ---- numbers ----

/// The character of a decimal digit.
pub open spec fn digit(d: int) -> char {
    if d == 0 {
        '0'
    } else if d == 1 {
        '1'
    } else if d == 2 {
        '2'
    } else if d == 3 {
        '3'
    } else if d == 4 {
        '4'
    } else if d == 5 {
        '5'
    } else if d == 6 {
        '6'
    } else if d == 7 {
        '7'
    } else if d == 8 {
        '8'
    } else {
        '9'
    }
}

/// `n` in decimal, without leading zeros.
pub open spec fn decimal_of(n: nat) -> Seq<char>
    decreases n,
{
    if n < 10 {
        seq![digit(n as int)]
    } else {
        decimal_of(n / 10).push(digit((n % 10) as int))
    }
}

fn digit_char(d: u64) -> (c: char)
    requires
        d < 10,
    ensures
        c == digit(d as int),
{
    if d == 0 {
        '0'
    } else if d == 1 {
        '1'
    } else if d == 2 {
        '2'
    } else if d == 3 {
        '3'
    } else if d == 4 {
        '4'
    } else if d == 5 {
        '5'
    } else if d == 6 {
        '6'
    } else if d == 7 {
        '7'
    } else if d == 8 {
        '8'
    } else {
        '9'
    }
}

/// `n` in decimal.
pub fn decimal(n: u64) -> (r: String)
    ensures
        r@ == decimal_of(n as nat),
    decreases n,
{
    let mut r = if n < 10 {
        String::new()
    } else {
        decimal(n / 10)
    };
    r.push(digit_char(n % 10));
    assert(r@ =~= decimal_of(n as nat));
    r
}

/// `n` in decimal, with a sign before a negative number.
pub open spec fn signed_decimal_of(n: int) -> Seq<char> {
    if n < 0 {
        seq!['-'] + decimal_of((-n) as nat)
    } else {
        decimal_of(n as nat)
    }
}

/// `n` in decimal, with a sign before a negative number.
pub fn signed_decimal(n: i32) -> (r: String)
    ensures
        r@ == signed_decimal_of(n as int),
{
    if n < 0 {
        let mut r = String::new();
        r.push('-');
        let m: i64 = -(n as i64);
        let d = decimal(m as u64);
        r.append(d.as_str());
        assert(r@ =~= seq!['-'] + decimal_of((-n) as nat));
        r
    } else {
        decimal(n as u64)
    }
}

// ---- concatenation ----

/// `a` and `b`, one after the other.
pub fn cat(a: &str, b: &str) -> (r: String)
    ensures
        r@ == a@ + b@,
{
    let mut r = a.to_owned();
    r.append(b);
    r
}

/// Three texts, one after the other.
pub fn cat3(a: &str, b: &str, c: &str) -> (r: String)
    ensures
        r@ == a@ + b@ + c@,
{
    let mut r = cat(a, b);
    r.append(c);
    r
}

/// `s`, `n` times.
pub open spec fn repeated(s: Seq<char>, n: nat) -> Seq<char>
    decreases n,
{
    if n == 0 {
        Seq::empty()
    } else {
        repeated(s, (n - 1) as nat) + s
    }
}

/// `s`, `n` times.
pub fn repeat(s: &str, n: usize) -> (r: String)
    ensures
        r@ == repeated(s@, n as nat),
{
    let mut r = String::new();
    let mut i: usize = 0;
    while i < n
        invariant
            i <= n,
            r@ == repeated(s@, i as nat),
        decreases n - i,
    {
        r.append(s);
        i = i + 1;
    }
    r
}

/// The number of bytes that `s` takes in UTF-8.
pub open spec fn byte_len(s: Seq<char>) -> nat {
    encode_utf8(s).len()
}

/// The number of bytes that `s` takes in UTF-8.
pub fn bytes_len(s: &str) -> (r: usize)
    ensures
        r == byte_len(s@),
{
    s.as_bytes().len()
}

/// The number of bytes that a character takes in UTF-8.
pub open spec fn width(c: char) -> nat {
    encode_scalar(c as u32).len()
}

/// The number of bytes that a character takes in UTF-8.
pub fn char_width(c: char) -> (r: usize)
    ensures
        r == width(c),
        1 <= r <= 4,
{
    proof {
        vstd::utf8::char_is_scalar(c);
    }
    let u: u32 = c as u32;
    if u < 0x80 {
        1
    } else if u < 0x800 {
        2
    } else if u < 0x10000 {
        3
    } else {
        4
    }
}

/// How many characters of `s`, from the first, fit into `n` bytes.
pub open spec fn fit(s: Seq<char>, n: int) -> nat
    decreases s.len(),
{
    if s.len() > 0 && width(s[0]) <= n {
        1 + fit(s.drop_first(), n - width(s[0]))
    } else {
        0
    }
}

/// The longest head of `s` that fits into `n` bytes.
pub open spec fn clipped(s: Seq<char>, n: int) -> Seq<char> {
    s.take(fit(s, n) as int)
}

pub proof fn lemma_fit(s: Seq<char>, n: int)
    requires
        0 <= n,
    ensures
        fit(s, n) <= s.len(),
        byte_len(s.take(fit(s, n) as int)) <= n,
        byte_len(s) <= n ==> fit(s, n) == s.len(),
    decreases s.len(),
{
    if s.len() > 0 {
        assert(byte_len(s) == width(s[0]) + byte_len(s.drop_first()));
        if width(s[0]) <= n {
            lemma_fit(s.drop_first(), n - width(s[0]));
            let k = fit(s, n) as int;
            assert(s.take(k).drop_first() =~= s.drop_first().take(k - 1));
        }
    }
}

/// The longest head of `s` that fits into `n` bytes; a text that fits is kept
/// whole.
pub fn clip(s: &str, n: usize) -> (r: String)
    ensures
        r@ == clipped(s@, n as int),
        byte_len(r@) <= n,
        byte_len(s@) <= n ==> r@ == s@,
{
    let v = chars_of(s);
    let mut i: usize = 0;
    let mut left: usize = n;
    assert(v@.skip(0) =~= v@);
    while i < v.len() && char_width(v[i]) <= left
        invariant
            i <= v@.len(),
            left <= n,
            fit(v@, n as int) == i + fit(v@.skip(i as int), left as int),
        decreases v@.len() - i,
    {
        assert(v@.skip(i as int).drop_first() =~= v@.skip(i + 1));
        left = left - char_width(v[i]);
        i = i + 1;
    }
    let r = string_of(v.as_slice(), 0, i);
    proof {
        assert(r@ =~= clipped(s@, n as int));
        lemma_fit(s@, n as int);
        assert(byte_len(s@) <= n ==> r@ =~= s@);
    }
    r
}

/// `s` without the characters `c` at its end.
pub open spec fn without_tail(s: Seq<char>, c: char) -> Seq<char>
    decreases s.len(),
{
    if s.len() > 0 && s.last() == c {
        without_tail(s.drop_last(), c)
    } else {
        s
    }
}

/// `s` without the characters `c` at its end.
pub fn trim_tail(s: &str, c: char) -> (r: String)
    ensures
        r@ == without_tail(s@, c),
{
    let v = chars_of(s);
    let mut n: usize = v.len();
    assert(v@.take(n as int) =~= v@);
    while n > 0 && v[n - 1] == c
        invariant
            n <= v@.len(),
            without_tail(v@.take(n as int), c) == without_tail(v@, c),
        decreases n,
    {
        assert(v@.take(n as int).drop_last() =~= v@.take(n - 1));
        n = n - 1;
    }
    let r = string_of(v.as_slice(), 0, n);
    assert(r@ =~= v@.take(n as int));
    r
}

/// `s` without the characters `c` at its start.
pub open spec fn without_head(s: Seq<char>, c: char) -> Seq<char>
    decreases s.len(),
{
    if s.len() > 0 && s[0] == c {
        without_head(s.drop_first(), c)
    } else {
        s
    }
}

/// `s` without the characters `c` at its start.
pub fn trim_head(s: &str, c: char) -> (r: String)
    ensures
        r@ == without_head(s@, c),
{
    let v = chars_of(s);
    let mut a: usize = 0;
    assert(v@.skip(0) =~= v@);
    while a < v.len() && v[a] == c
        invariant
            a <= v@.len(),
            without_head(v@, c) == without_head(v@.skip(a as int), c),
        decreases v@.len() - a,
    {
        assert(v@.skip(a as int).drop_first() =~= v@.skip(a + 1));
        a = a + 1;
    }
    let r = string_of(v.as_slice(), a, v.len());
    assert(r@ =~= v@.skip(a as int));
    r
}

/// `s` without the characters `c` at its ends.
pub open spec fn stripped(s: Seq<char>, c: char) -> Seq<char> {
    without_tail(without_head(s, c), c)
}

/// `s` without the characters `c` at its ends.
pub fn strip(s: &str, c: char) -> (r: String)
    ensures
        r@ == stripped(s@, c),
{
    let rest = trim_head(s, c);
    trim_tail(rest.as_str(), c)
}

/// `s` with spaces before it up to `n` characters.
pub open spec fn padded(s: Seq<char>, n: nat) -> Seq<char> {
    if s.len() >= n {
        s
    } else {
        repeated(" "@, (n - s.len()) as nat) + s
    }
}

/// `s` with spaces before it up to `n` characters.
pub fn pad_left(s: &str, n: usize) -> (r: String)
    ensures
        r@ == padded(s@, n as nat),
{
    let len: usize = s.unicode_len();
    if len >= n {
        s.to_owned()
    } else {
        let space = repeat(" ", n - len);
        cat(space.as_str(), s)
    }
}

/// The number of bytes of text and the rest of it together.
pub proof fn lemma_byte_len_split(s: Seq<char>, k: int)
    requires
        0 <= k <= s.len(),
    ensures
        byte_len(s) == byte_len(s.take(k)) + byte_len(s.skip(k)),
    decreases k,
{
    if k == 0 {
        assert(s.take(0) =~= Seq::<char>::empty());
        assert(s.skip(0) =~= s);
    } else {
        lemma_byte_len_split(s.drop_first(), k - 1);
        assert(s.take(k).drop_first() =~= s.drop_first().take(k - 1));
        assert(s.drop_first().skip(k - 1) =~= s.skip(k));
    }
}

} // verus!
