//! Text as a sequence of characters: the string operations the rest of the
//! library is stated over, each proved against its meaning on `Seq<char>`.

use vstd::prelude::*;
use vstd::string::StringExecFns;
use vstd::utf8::{decode_utf8, is_ascii_chars, valid_utf8};

verus! {

/// Appending one character.
pub assume_specification[ String::push ](s: &mut String, c: char)
    ensures
        final(s)@ == old(s)@.push(c),
;

/// A text the way `{:?}` shows it: in quotation marks, with what would not print
/// escaped.
pub uninterp spec fn debug_text(s: Seq<char>) -> Seq<char>;

/// `str`'s `Debug`: the quoted and escaped form of the text. Nothing is said of the
/// form but that it depends on the text alone.
#[verifier::external_body]
pub(crate) fn debug_of(s: &str) -> (r: String)
    ensures
        r@ == debug_text(s@),
{
    format!("{s:?}")
}

/// A text in small letters, in every script that has them.
pub uninterp spec fn lowercase(s: Seq<char>) -> Seq<char>;

/// `str::to_lowercase`: the text by Unicode's lowercase mapping, which on ASCII is the
/// replacement of each capital by its small letter. What it is elsewhere is Unicode's
/// tables, and is not spelled out here.
#[verifier::external_body]
pub(crate) fn lowercase_of(s: &str) -> (r: String)
    ensures
        r@ == lowercase(s@),
        is_ascii_chars(s@) ==> r@ == lower(s@),
{
    s.to_lowercase()
}

/// Bytes read as text, with what is not UTF-8 replaced.
pub uninterp spec fn lossy_text(bytes: Seq<u8>) -> Seq<char>;

/// `String::from_utf8_lossy`: bytes that are UTF-8 read as the text they encode. What
/// stands in place of other bytes is not said, only that it depends on the bytes alone.
#[verifier::external_body]
pub(crate) fn lossy(bytes: &[u8]) -> (r: String)
    ensures
        r@ == lossy_text(bytes@),
        valid_utf8(bytes@) ==> r@ == decode_utf8(bytes@),
{
    String::from_utf8_lossy(bytes).into_owned()
}

/// `std::str::from_utf8`: the text that bytes encode, where they are UTF-8.
#[verifier::external_body]
pub(crate) fn utf8(bytes: &[u8]) -> (r: Option<String>)
    ensures
        match r {
            Some(text) => valid_utf8(bytes@) && text@ == decode_utf8(bytes@),
            None => !valid_utf8(bytes@),
        },
{
    match std::str::from_utf8(bytes) {
        Ok(text) => Some(text.to_owned()),
        Err(_) => None,
    }
}

/// Whether Unicode gives the character the `White_Space` property.
pub open spec fn is_white(c: char) -> bool {
    let n = c as u32;
    ||| 0x09 <= n <= 0x0d
    ||| n == 0x20
    ||| n == 0x85
    ||| n == 0xa0
    ||| n == 0x1680
    ||| 0x2000 <= n <= 0x200a
    ||| n == 0x2028
    ||| n == 0x2029
    ||| n == 0x202f
    ||| n == 0x205f
    ||| n == 0x3000
}

/// The character with an ASCII capital replaced by its small letter.
pub open spec fn lower_char(c: char) -> char {
    if 'A' <= c <= 'Z' {
        ((c as u32) + 32) as char
    } else {
        c
    }
}

/// The text with every ASCII capital replaced by its small letter.
pub open spec fn lower(s: Seq<char>) -> Seq<char> {
    Seq::new(s.len(), |i: int| lower_char(s[i]))
}

/// Equality but for the case of ASCII letters.
pub open spec fn same_ignoring_case(a: Seq<char>, b: Seq<char>) -> bool {
    lower(a) == lower(b)
}

/// The text without its leading whitespace.
pub open spec fn trim_start(s: Seq<char>) -> Seq<char>
    decreases s.len(),
{
    if s.len() > 0 && is_white(s[0]) {
        trim_start(s.drop_first())
    } else {
        s
    }
}

/// The text without its trailing whitespace.
pub open spec fn trim_end(s: Seq<char>) -> Seq<char>
    decreases s.len(),
{
    if s.len() > 0 && is_white(s.last()) {
        trim_end(s.drop_last())
    } else {
        s
    }
}

/// The text without whitespace at either end.
pub open spec fn trim(s: Seq<char>) -> Seq<char> {
    trim_end(trim_start(s))
}

/// Whether nothing but whitespace is in the text.
pub open spec fn is_blank(s: Seq<char>) -> bool {
    trim(s).len() == 0
}

/// Whether `needle` occurs in `hay` starting at `at`.
pub open spec fn occurs_at(hay: Seq<char>, needle: Seq<char>, at: int) -> bool {
    &&& 0 <= at
    &&& at + needle.len() <= hay.len()
    &&& hay.subrange(at, at + needle.len()) == needle
}

/// Whether `needle` occurs somewhere in `hay`.
pub open spec fn contains(hay: Seq<char>, needle: Seq<char>) -> bool {
    exists|at: int| occurs_at(hay, needle, at)
}

/// Whether the text begins with `prefix`.
pub open spec fn starts_with(s: Seq<char>, prefix: Seq<char>) -> bool {
    occurs_at(s, prefix, 0)
}

/// Whether the text ends with `suffix`.
pub open spec fn ends_with(s: Seq<char>, suffix: Seq<char>) -> bool {
    occurs_at(s, suffix, s.len() - suffix.len())
}

/// What stands between the separators, in order: one piece more than there are
/// separators, so that an empty text has one empty piece.
pub open spec fn split(s: Seq<char>, seps: Seq<char>) -> Seq<Seq<char>>
    decreases s.len(),
{
    if s.len() == 0 {
        seq![Seq::empty()]
    } else {
        let before = split(s.drop_last(), seps);
        if seps.contains(s.last()) {
            before.push(Seq::empty())
        } else {
            before.drop_last().push(before.last().push(s.last()))
        }
    }
}

/// The maximal runs of characters that are not whitespace, in order.
pub open spec fn words(s: Seq<char>) -> Seq<Seq<char>>
    decreases s.len(),
{
    if s.len() == 0 {
        Seq::empty()
    } else {
        let before = words(s.drop_last());
        let c = s.last();
        if is_white(c) {
            before
        } else if s.len() == 1 || is_white(s[s.len() - 2]) {
            before.push(seq![c])
        } else {
            before.drop_last().push(before.last().push(c))
        }
    }
}

/// The piece without one carriage return at its end.
pub open spec fn without_return(s: Seq<char>) -> Seq<char> {
    if s.len() > 0 && s.last() == '\r' {
        s.drop_last()
    } else {
        s
    }
}

/// The lines of a text: a line feed, with the carriage return before it if there
/// is one, ends a line, and a last line needs no ending but is not there when empty.
pub open spec fn lines(s: Seq<char>) -> Seq<Seq<char>> {
    let pieces = split(s, seq!['\n']);
    let ended = pieces.drop_last().map_values(|piece: Seq<char>| without_return(piece));
    if pieces.last().len() == 0 {
        ended
    } else {
        ended.push(pieces.last())
    }
}

/// The pieces with `sep` between each two neighbours.
pub open spec fn join(parts: Seq<Seq<char>>, sep: Seq<char>) -> Seq<char>
    decreases parts.len(),
{
    if parts.len() == 0 {
        Seq::empty()
    } else if parts.len() == 1 {
        parts[0]
    } else {
        join(parts.drop_last(), sep) + sep + parts.last()
    }
}

/// The contents of each text in a list.
pub open spec fn texts(v: Seq<String>) -> Seq<Seq<char>> {
    v.map_values(|s: String| s@)
}

/// The contents of a text that may be missing.
pub open spec fn text_of(o: Option<String>) -> Option<Seq<char>> {
    match o {
        Some(s) => Some(s@),
        None => None,
    }
}

/// Adding a text to a list adds its contents.
pub broadcast proof fn texts_push(v: Seq<String>, s: String)
    ensures
        #[trigger] texts(v.push(s)) == texts(v).push(s@),
{
    assert(texts(v.push(s)) =~= texts(v).push(s@));
}

/// Whether a character is whitespace.
pub fn whitespace(c: char) -> (r: bool)
    ensures
        r == is_white(c),
{
    let n: u32 = c as u32;
    (0x09 <= n && n <= 0x0d) || n == 0x20 || n == 0x85 || n == 0xa0 || n == 0x1680 || (0x2000 <= n
        && n <= 0x200a) || n == 0x2028 || n == 0x2029 || n == 0x202f || n == 0x205f || n == 0x3000
}

/// The small letter of an ASCII capital, any other character as it is.
pub fn lowered_char(c: char) -> (r: char)
    ensures
        r == lower_char(c),
{
    if 'A' <= c && c <= 'Z' {
        ((c as u8) + 32) as char
    } else {
        c
    }
}

/// The characters of a text.
pub fn chars_of(s: &str) -> (r: Vec<char>)
    ensures
        r@ == s@,
{
    let mut v: Vec<char> = Vec::new();
    for c in it: s.chars()
        invariant
            v@ == s@.take(it.index()),
            it.seq() == s@,
    {
        v.push(c);
    }
    v
}

/// The text made of the characters from `from` up to `to`.
pub fn string_of(v: &[char], from: usize, to: usize) -> (r: String)
    requires
        from <= to <= v@.len(),
    ensures
        r@ == v@.subrange(from as int, to as int),
{
    let mut s = String::new();
    for i in from..to
        invariant
            from <= to <= v@.len(),
            s@ == v@.subrange(from as int, i as int),
    {
        s.push(v[i]);
        assert(v@.subrange(from as int, i as int).push(v@[i as int]) =~= v@.subrange(
            from as int,
            i + 1,
        ));
    }
    s
}

/// Whether two texts are equal.
pub fn same(a: &str, b: &str) -> (r: bool)
    ensures
        r == (a@ == b@),
{
    a.to_owned() == b.to_owned()
}

/// One text after another.
pub fn cat(a: &str, b: &str) -> (r: String)
    ensures
        r@ == a@ + b@,
{
    let mut s = a.to_owned();
    s.append(b);
    s
}

/// The text in small letters, as far as ASCII goes.
pub fn lowered(s: &str) -> (r: String)
    ensures
        r@ == lower(s@),
{
    let mut t = String::new();
    for c in it: s.chars()
        invariant
            it.seq() == s@,
            t@ == lower(s@).take(it.index()),
    {
        t.push(lowered_char(c));
        assert(lower(s@).take(it.index() + 1) =~= lower(s@).take(it.index()).push(lower_char(c)));
    }
    t
}

/// Whether two texts are equal but for the case of ASCII letters.
pub fn equal_ignoring_case(a: &str, b: &str) -> (r: bool)
    ensures
        r == same_ignoring_case(a@, b@),
{
    lowered(a) == lowered(b)
}

proof fn trim_start_skips(s: Seq<char>, k: int)
    requires
        0 <= k <= s.len(),
        forall|i: int| 0 <= i < k ==> is_white(#[trigger] s[i]),
        k < s.len() ==> !is_white(s[k]),
    ensures
        trim_start(s) == s.skip(k),
    decreases k,
{
    if k > 0 {
        trim_start_skips(s.drop_first(), k - 1);
        assert(s.drop_first().skip(k - 1) =~= s.skip(k));
    } else {
        assert(s.skip(0) =~= s);
    }
}

proof fn trim_end_takes(s: Seq<char>, k: int)
    requires
        0 <= k <= s.len(),
        forall|i: int| k <= i < s.len() ==> is_white(#[trigger] s[i]),
        k > 0 ==> !is_white(s[k - 1]),
    ensures
        trim_end(s) == s.take(k),
    decreases s.len() - k,
{
    if k < s.len() {
        trim_end_takes(s.drop_last(), k);
        assert(s.drop_last().take(k) =~= s.take(k));
    } else {
        assert(s.take(k) =~= s);
    }
}

/// A text without whitespace at its ends is its own trimming.
pub proof fn trim_keeps(s: Seq<char>)
    requires
        s.len() > 0 ==> !is_white(s[0]) && !is_white(s.last()),
    ensures
        trim(s) == s,
{
}

/// The text without whitespace at either end.
pub fn trimmed(s: &str) -> (r: String)
    ensures
        r@ == trim(s@),
{
    let v = chars_of(s);
    let mut from: usize = 0;
    while from < v.len() && whitespace(v[from])
        invariant
            from <= v@.len(),
            forall|i: int| 0 <= i < from ==> is_white(#[trigger] v@[i]),
        decreases v@.len() - from,
    {
        from = from + 1;
    }
    let mut to: usize = v.len();
    while to > from && whitespace(v[to - 1])
        invariant
            from <= to <= v@.len(),
            forall|i: int| to <= i < v@.len() ==> is_white(#[trigger] v@[i]),
        decreases to,
    {
        to = to - 1;
    }
    proof {
        trim_start_skips(v@, from as int);
        let rest = v@.skip(from as int);
        assert forall|i: int| to - from <= i < rest.len() implies is_white(#[trigger] rest[i]) by {
            assert(rest[i] == v@[i + from]);
        }
        trim_end_takes(rest, to - from);
        assert(rest.take(to - from) =~= v@.subrange(from as int, to as int));
    }
    string_of(&v, from, to)
}

/// Whether nothing but whitespace is in the text.
pub fn blank(s: &str) -> (r: bool)
    ensures
        r == is_blank(s@),
{
    trimmed(s).as_str().is_empty()
}

/// Whether a text that may be missing is there and not blank.
pub open spec fn is_filled(o: Option<Seq<char>>) -> bool {
    o is Some && !is_blank(o->0)
}

/// Whether a text that may be missing is there and not blank.
pub fn filled(o: &Option<String>) -> (r: bool)
    ensures
        r == is_filled(text_of(*o)),
{
    match o {
        Some(s) => !blank(s),
        None => false,
    }
}

/// Whether the characters of `needle` stand in `hay` from `at` on.
fn matches_at(hay: &[char], needle: &[char], at: usize) -> (r: bool)
    requires
        at + needle@.len() <= hay@.len(),
    ensures
        r == occurs_at(hay@, needle@, at as int),
{
    for i in 0..needle.len()
        invariant
            at + needle.len() <= hay.len(),
            hay@.subrange(at as int, at + i) == needle@.take(i as int),
    {
        if hay[at + i] != needle[i] {
            proof {
                let part = hay@.subrange(at as int, at + needle@.len());
                assert(part[i as int] == hay@[at + i]);
            }
            return false;
        }
        assert(hay@.subrange(at as int, at + i + 1) =~= hay@.subrange(at as int, at + i).push(
            hay@[at + i],
        ));
        assert(needle@.take(i + 1) =~= needle@.take(i as int).push(needle@[i as int]));
    }
    assert(needle@.take(needle@.len() as int) =~= needle@);
    true
}

/// Whether `needle` occurs somewhere in `hay`.
pub fn includes(hay: &str, needle: &str) -> (r: bool)
    ensures
        r == contains(hay@, needle@),
{
    let h = chars_of(hay);
    let n = chars_of(needle);
    if n.len() > h.len() {
        return false;
    }
    let last: usize = h.len() - n.len();
    let mut at: usize = 0;
    loop
        invariant
            h@ == hay@,
            n@ == needle@,
            at <= last,
            last + n@.len() == h@.len(),
            forall|j: int| 0 <= j < at ==> !#[trigger] occurs_at(h@, n@, j),
        decreases last - at,
    {
        if matches_at(&h, &n, at) {
            assert(occurs_at(h@, n@, at as int));
            return true;
        }
        if at == last {
            return false;
        }
        at = at + 1;
    }
}

/// Whether the text begins with `prefix`.
pub fn begins_with(s: &str, prefix: &str) -> (r: bool)
    ensures
        r == starts_with(s@, prefix@),
{
    let v = chars_of(s);
    let p = chars_of(prefix);
    p.len() <= v.len() && matches_at(&v, &p, 0)
}

/// Whether the text ends with `suffix`.
pub fn finishes_with(s: &str, suffix: &str) -> (r: bool)
    ensures
        r == ends_with(s@, suffix@),
{
    let v = chars_of(s);
    let p = chars_of(suffix);
    p.len() <= v.len() && matches_at(&v, &p, v.len() - p.len())
}

/// What follows `prefix`, where the text begins with it.
pub fn after_prefix(s: &str, prefix: &str) -> (r: Option<String>)
    ensures
        match r {
            Some(rest) => starts_with(s@, prefix@) && rest@ == s@.skip(prefix@.len() as int),
            None => !starts_with(s@, prefix@),
        },
{
    let v = chars_of(s);
    let p = chars_of(prefix);
    if p.len() <= v.len() && matches_at(&v, &p, 0) {
        assert(v@.subrange(p@.len() as int, v@.len() as int) =~= v@.skip(p@.len() as int));
        Some(string_of(&v, p.len(), v.len()))
    } else {
        None
    }
}

proof fn split_is_never_empty(s: Seq<char>, seps: Seq<char>)
    ensures
        split(s, seps).len() > 0,
    decreases s.len(),
{
    if s.len() > 0 {
        split_is_never_empty(s.drop_last(), seps);
    }
}

/// What stands between the separators, in order.
pub fn split_at_any(s: &str, seps: &[char]) -> (r: Vec<String>)
    ensures
        texts(r@) == split(s@, seps@),
        r@.len() > 0,
{
    broadcast use texts_push;

    let v = chars_of(s);
    let mut done: Vec<String> = Vec::new();
    let mut piece = String::new();
    assert(texts(done@) =~= Seq::empty());
    assert(split(v@.take(0), seps@) =~= texts(done@).push(piece@));
    for i in 0..v.len()
        invariant
            split(v@.take(i as int), seps@) == texts(done@).push(piece@),
            v@ == s@,
    {
        broadcast use texts_push;

        let ghost part = v@.take(i + 1);
        assert(part.drop_last() =~= v@.take(i as int));
        assert(part.last() == v@[i as int]);
        assert(texts(done@).push(piece@).drop_last() =~= texts(done@));
        let is_sep = has_char(seps, v[i]);
        if is_sep {
            done.push(piece);
            piece = String::new();
        } else {
            piece.push(v[i]);
        }
    }
    assert(v@.take(v@.len() as int) =~= v@);
    done.push(piece);
    done
}

/// Whether a character is in a list.
pub fn has_char(list: &[char], c: char) -> (r: bool)
    ensures
        r == list@.contains(c),
{
    for i in 0..list.len()
        invariant
            forall|j: int| 0 <= j < i ==> list@[j] != c,
    {
        if list[i] == c {
            assert(list@[i as int] == c);
            return true;
        }
    }
    false
}

/// The maximal runs of characters that are not whitespace, in order.
pub fn words_of(s: &str) -> (r: Vec<String>)
    ensures
        texts(r@) == words(s@),
{
    broadcast use texts_push;

    let v = chars_of(s);
    let mut done: Vec<String> = Vec::new();
    let mut piece = String::new();
    let mut open = false;
    assert(texts(done@) =~= Seq::empty());
    assert(words(v@.take(0)) =~= texts(done@));
    for i in 0..v.len()
        invariant
            v@ == s@,
            open == (i > 0 && !is_white(v@[i - 1])),
            words(v@.take(i as int)) == if open {
                texts(done@).push(piece@)
            } else {
                texts(done@)
            },
            !open ==> piece@.len() == 0,
    {
        broadcast use texts_push;

        let ghost part = v@.take(i + 1);
        assert(part.drop_last() =~= v@.take(i as int));
        assert(part.last() == v@[i as int]);
        assert(i > 0 ==> part[part.len() - 2] == v@[i - 1]);
        assert(texts(done@).push(piece@).drop_last() =~= texts(done@));
        if whitespace(v[i]) {
            if open {
                done.push(piece);
                piece = String::new();
            }
            open = false;
        } else {
            assert(!open ==> piece@.push(v@[i as int]) =~= seq![v@[i as int]]);
            piece.push(v[i]);
            open = true;
        }
    }
    assert(v@.take(v@.len() as int) =~= v@);
    if open {
        done.push(piece);
    }
    done
}

/// The piece without one carriage return at its end.
fn drop_return(s: &str) -> (r: String)
    ensures
        r@ == without_return(s@),
{
    let v = chars_of(s);
    if v.len() > 0 && v[v.len() - 1] == '\r' {
        assert(v@.subrange(0, v@.len() - 1) =~= v@.drop_last());
        string_of(&v, 0, v.len() - 1)
    } else {
        s.to_owned()
    }
}

/// The lines of a text.
pub fn lines_of(s: &str) -> (r: Vec<String>)
    ensures
        texts(r@) == lines(s@),
{
    broadcast use texts_push;

    let seps: [char; 1] = ['\n'];
    assert(seps@ =~= seq!['\n']);
    let pieces = split_at_any(s, &seps);
    let ghost all = split(s@, seq!['\n']);
    assert(texts(pieces@) == all);
    let ghost ended = all.drop_last().map_values(|piece: Seq<char>| without_return(piece));
    let mut done: Vec<String> = Vec::new();
    assert(texts(done@) =~= Seq::empty());
    let count: usize = pieces.len() - 1;
    for i in 0..count
        invariant
            count + 1 == pieces@.len(),
            texts(pieces@) == all,
            ended == all.drop_last().map_values(|piece: Seq<char>| without_return(piece)),
            texts(done@) == ended.take(i as int),
    {
        broadcast use texts_push;

        assert(all[i as int] == pieces@[i as int]@);
        let line = drop_return(&pieces[i]);
        done.push(line);
        assert(ended.take(i + 1) =~= ended.take(i as int).push(without_return(all[i as int])));
    }
    assert(ended.take(count as int) =~= ended);
    assert(all.last() == pieces@[count as int]@);
    if !pieces[count].as_str().is_empty() {
        done.push(pieces[count].clone());
    }
    done
}

/// The pieces with `sep` between each two neighbours.
pub fn joined(parts: &[String], sep: &str) -> (r: String)
    ensures
        r@ == join(texts(parts@), sep@),
{
    let mut t = String::new();
    assert(texts(parts@.take(0)) =~= Seq::empty());
    for i in 0..parts.len()
        invariant
            t@ == join(texts(parts@.take(i as int)), sep@),
    {
        let ghost now = texts(parts@.take(i + 1));
        assert(now.drop_last() =~= texts(parts@.take(i as int)));
        assert(now.last() == parts@[i as int]@);
        if i > 0 {
            t.append(sep);
            t.append(&parts[i]);
        } else {
            t = parts[i].clone();
        }
    }
    assert(parts@.take(parts@.len() as int) =~= parts@);
    t
}

/// A text as selectors compare it: its words with one space between them, in small
/// letters.
pub open spec fn normal(s: Seq<char>) -> Seq<char> {
    lowercase(join(words(s), " "@))
}

/// A text as selectors compare it.
pub fn normalize_text(value: &str) -> (r: String)
    ensures
        r@ == normal(value@),
{
    lowercase_of(&joined(&words_of(value), " "))
}

/// Whether two texts are equal but for spacing and letter case.
pub fn normalized_equals(actual: &str, expected: &str) -> (r: bool)
    ensures
        r == (normal(actual@) == normal(expected@)),
{
    normalize_text(actual) == normalize_text(expected)
}

/// Whether a text is there and contains another but for spacing and letter case. A text of
/// no words is contained in none.
pub open spec fn contains_normal(actual: Option<Seq<char>>, expected: Seq<char>) -> bool {
    normal(expected).len() > 0 && actual is Some && contains(normal(actual->0), normal(expected))
}

/// Whether a text is there and contains another but for spacing and letter case.
pub fn normalized_contains(actual: Option<&str>, expected: &str) -> (r: bool)
    ensures
        r == contains_normal(
            match actual {
                Some(text) => Some(text@),
                None => None,
            },
            expected@,
        ),
{
    let expected = normalize_text(expected);
    if expected.as_str().is_empty() {
        return false;
    }
    match actual {
        Some(text) => includes(&normalize_text(text), &expected),
        None => false,
    }
}

/// The text of an optional one.
pub fn borrowed(o: &Option<String>) -> (r: Option<&str>)
    ensures
        match r {
            Some(text) => text_of(*o) == Some(text@),
            None => *o is None,
        },
{
    match o {
        Some(text) => Some(text.as_str()),
        None => None,
    }
}

/// An optional text as `{:?}` shows it.
pub open spec fn debug_option(o: Option<Seq<char>>) -> Seq<char> {
    match o {
        Some(text) => "Some("@ + debug_text(text) + ")"@,
        None => "None"@,
    }
}

/// An optional text as `{:?}` shows it.
pub fn debug_option_of(o: &Option<String>) -> (r: String)
    ensures
        r@ == debug_option(text_of(*o)),
{
    match o {
        Some(text) => {
            let mut shown = cat("Some(", &debug_of(text));
            shown.append(")");
            shown
        },
        None => "None".to_owned(),
    }
}

/// The ASCII whitespace is the tab, the line ends and the space; no character that prints
/// is whitespace.
pub proof fn ascii_whitespace(c: char)
    requires
        (c as u32) < 0x80,
    ensures
        is_white(c) <==> c == '\t' || c == '\n' || c == '\r' || c == ' ' || c as u32 == 0x0b
            || c as u32 == 0x0c,
{
}

/// Lowering moves each ASCII capital to the small letter that stands as far from `a` as
/// the capital from `A`, and nothing else.
pub proof fn lowering_moves_only_capitals(s: Seq<char>)
    ensures
        lower(s).len() == s.len(),
        forall|i: int|
            0 <= i < s.len() && 'A' <= s[i] <= 'Z' ==> (#[trigger] lower(s)[i]) as u32 - 'a' as u32
                == s[i] as u32 - 'A' as u32,
        forall|i: int|
            0 <= i < s.len() && !('A' <= s[i] <= 'Z') ==> #[trigger] lower(s)[i] == s[i],
        lower(lower(s)) == lower(s),
{
    assert(lower(lower(s)) =~= lower(s));
}

proof fn trim_start_drops(s: Seq<char>) -> (k: int)
    ensures
        0 <= k <= s.len(),
        trim_start(s) == s.skip(k),
        forall|i: int| 0 <= i < k ==> is_white(#[trigger] s[i]),
        k < s.len() ==> !is_white(s[k]),
    decreases s.len(),
{
    if s.len() > 0 && is_white(s[0]) {
        let rest = s.drop_first();
        let k = trim_start_drops(rest);
        assert forall|i: int| 0 <= i < k + 1 implies is_white(#[trigger] s[i]) by {
            if i > 0 {
                assert(rest[i - 1] == s[i]);
            }
        }
        assert(rest.skip(k) =~= s.skip(k + 1));
        k + 1
    } else {
        assert(s.skip(0) =~= s);
        0
    }
}

proof fn trim_end_drops(s: Seq<char>) -> (k: int)
    ensures
        0 <= k <= s.len(),
        trim_end(s) == s.take(k),
        forall|i: int| k <= i < s.len() ==> is_white(#[trigger] s[i]),
        k > 0 ==> !is_white(s[k - 1]),
    decreases s.len(),
{
    if s.len() > 0 && is_white(s.last()) {
        let k = trim_end_drops(s.drop_last());
        assert forall|i: int| k <= i < s.len() implies is_white(#[trigger] s[i]) by {
            if i < s.len() - 1 {
                assert(s.drop_last()[i] == s[i]);
            }
        }
        assert(s.drop_last().take(k) =~= s.take(k));
        k
    } else {
        assert(s.take(s.len() as int) =~= s);
        s.len() as int
    }
}

/// Trimming cuts a piece off either end that is all whitespace, and leaves no whitespace
/// there.
pub proof fn trimming_cuts_only_white(s: Seq<char>)
    ensures
        exists|from: int, to: int|
            0 <= from <= to <= s.len() && trim(s) == #[trigger] s.subrange(from, to) && (forall|
                i: int,
            |
                0 <= i < from || to <= i < s.len() ==> is_white(#[trigger] s[i])),
        trim(s).len() > 0 ==> !is_white(trim(s)[0]) && !is_white(trim(s).last()),
{
    let from = trim_start_drops(s);
    let rest = s.skip(from);
    let kept = trim_end_drops(rest);
    let to = from + kept;
    assert(rest.take(kept) =~= s.subrange(from, to));
    assert forall|i: int| 0 <= i < from || to <= i < s.len() implies is_white(#[trigger] s[i]) by {
        if i >= to {
            assert(rest[i - from] == s[i]);
        }
    }
    if trim(s).len() > 0 {
        assert(trim(s)[0] == s[from]);
        assert(trim(s).last() == rest[kept - 1]);
    }
}

/// A text is blank exactly when every character of it is whitespace.
pub proof fn blank_is_all_white(s: Seq<char>)
    ensures
        is_blank(s) <==> forall|i: int| 0 <= i < s.len() ==> is_white(#[trigger] s[i]),
{
    trimming_cuts_only_white(s);
    let (from, to) = choose|from: int, to: int|
        0 <= from <= to <= s.len() && trim(s) == #[trigger] s.subrange(from, to) && (forall|i: int|
            0 <= i < from || to <= i < s.len() ==> is_white(#[trigger] s[i]));
    if trim(s).len() > 0 {
        assert(trim(s)[0] == s[from]);
    }
}

/// A text without a separator in it is one piece.
pub proof fn unseparated_text_is_one_piece(s: Seq<char>, seps: Seq<char>)
    requires
        forall|i: int| 0 <= i < s.len() ==> !seps.contains(#[trigger] s[i]),
    ensures
        split(s, seps) == seq![s],
    decreases s.len(),
{
    if s.len() > 0 {
        assert forall|i: int| 0 <= i < s.len() - 1 implies !seps.contains(
            #[trigger] s.drop_last()[i],
        ) by {
            assert(s.drop_last()[i] == s[i]);
        }
        unseparated_text_is_one_piece(s.drop_last(), seps);
        assert(s.drop_last().push(s.last()) =~= s);
        assert(seq![s.drop_last()].drop_last().push(s) =~= seq![s]);
    } else {
        assert(s =~= Seq::empty());
    }
}

/// A separator ends the pieces before it and starts those after it.
pub proof fn pieces_meet_at_a_separator(a: Seq<char>, sep: char, b: Seq<char>, seps: Seq<char>)
    requires
        seps.contains(sep),
    ensures
        split(a.push(sep) + b, seps) == split(a, seps) + split(b, seps),
    decreases b.len(),
{
    let whole = a.push(sep) + b;
    split_is_never_empty(a, seps);
    split_is_never_empty(b, seps);
    if b.len() == 0 {
        assert(whole =~= a.push(sep));
        assert(whole.drop_last() =~= a);
        assert(split(a, seps) + split(b, seps) =~= split(a, seps).push(Seq::empty()));
    } else {
        let rest = b.drop_last();
        pieces_meet_at_a_separator(a, sep, rest, seps);
        split_is_never_empty(rest, seps);
        assert(whole.drop_last() =~= a.push(sep) + rest);
        let before = split(a, seps) + split(rest, seps);
        assert(before.last() == split(rest, seps).last());
        assert(before.drop_last() =~= split(a, seps) + split(rest, seps).drop_last());
        assert(split(whole, seps) =~= split(a, seps) + split(b, seps));
    }
}

/// A text without whitespace is one word.
pub proof fn unspaced_text_is_one_word(s: Seq<char>)
    requires
        s.len() > 0,
        forall|i: int| 0 <= i < s.len() ==> !is_white(#[trigger] s[i]),
    ensures
        words(s) == seq![s],
    decreases s.len(),
{
    let rest = s.drop_last();
    if rest.len() > 0 {
        assert forall|i: int| 0 <= i < rest.len() implies !is_white(#[trigger] rest[i]) by {
            assert(rest[i] == s[i]);
        }
        unspaced_text_is_one_word(rest);
        assert(rest.push(s.last()) =~= s);
        assert(seq![rest].drop_last().push(s) =~= seq![s]);
    } else {
        assert(words(rest) =~= Seq::empty());
        assert(seq![s.last()] =~= s);
        assert(words(s) =~= seq![s]);
    }
}

proof fn a_last_letter_is_in_a_word(s: Seq<char>)
    requires
        s.len() > 0,
        !is_white(s.last()),
    ensures
        words(s).len() > 0,
{
}

/// Whitespace ends the words before it and starts those after it.
pub proof fn words_part_at_whitespace(a: Seq<char>, white: char, b: Seq<char>)
    requires
        is_white(white),
    ensures
        words(a.push(white) + b) == words(a) + words(b),
    decreases b.len(),
{
    let whole = a.push(white) + b;
    if b.len() == 0 {
        assert(whole =~= a.push(white));
        assert(whole.drop_last() =~= a);
        assert(words(a) + words(b) =~= words(a));
    } else {
        let rest = b.drop_last();
        words_part_at_whitespace(a, white, rest);
        assert(whole.drop_last() =~= a.push(white) + rest);
        if !is_white(b.last()) && rest.len() > 0 && !is_white(rest.last()) {
            a_last_letter_is_in_a_word(rest);
            let before = words(a) + words(rest);
            assert(before.last() == words(rest).last());
            assert(before.drop_last() =~= words(a) + words(rest).drop_last());
        }
        assert(words(whole) =~= words(a) + words(b));
    }
}

/// Joining two lists of pieces puts one separator where they meet.
pub proof fn joining_meets_at_a_separator(p: Seq<Seq<char>>, q: Seq<Seq<char>>, sep: Seq<char>)
    requires
        p.len() > 0,
        q.len() > 0,
    ensures
        join(p + q, sep) == join(p, sep) + sep + join(q, sep),
        p.len() == 1 ==> join(p, sep) == p[0],
    decreases q.len(),
{
    let rest = q.drop_last();
    assert((p + q).drop_last() =~= p + rest);
    if rest.len() > 0 {
        joining_meets_at_a_separator(p, rest, sep);
        assert(join(p + q, sep) =~= join(p, sep) + sep + join(q, sep));
    } else {
        assert(p + rest =~= p);
        assert(join(p + q, sep) =~= join(p, sep) + sep + join(q, sep));
    }
}

/// What was split at a character is put together again by joining with it.
pub proof fn joining_undoes_splitting(s: Seq<char>, sep: char)
    ensures
        join(split(s, seq![sep]), seq![sep]) == s,
    decreases s.len(),
{
    let seps = seq![sep];
    if s.len() > 0 {
        let rest = s.drop_last();
        let before = split(rest, seps);
        joining_undoes_splitting(rest, sep);
        split_is_never_empty(rest, seps);
        assert(rest.push(s.last()) =~= s);
        if seps.contains(s.last()) {
            assert(s.last() == sep);
            assert(before.push(Seq::empty()) =~= before + seq![Seq::empty()]);
            joining_meets_at_a_separator(before, seq![Seq::<char>::empty()], seps);
            assert(rest + seps + Seq::<char>::empty() =~= s);
        } else {
            let last = before.last();
            let head = before.drop_last();
            let grown = head.push(last.push(s.last()));
            if head.len() > 0 {
                assert(before =~= head + seq![last]);
                assert(grown =~= head + seq![last.push(s.last())]);
                joining_meets_at_a_separator(head, seq![last], seps);
                joining_meets_at_a_separator(head, seq![last.push(s.last())], seps);
                assert(seq![last].len() == 1 && seq![last.push(s.last())].len() == 1);
                assert(join(seq![last], seps) == last);
                assert(join(seq![last.push(s.last())], seps) == last.push(s.last()));
                assert(join(head, seps) + seps + last.push(s.last()) =~= (join(head, seps) + seps
                    + last).push(s.last()));
            } else {
                assert(before =~= seq![last]);
                assert(grown =~= seq![last.push(s.last())]);
                assert(join(seq![last], seps) == last);
                assert(join(grown, seps) == last.push(s.last()));
            }
        }
    }
}

/// A line feed ends a line, which does not hold the carriage return before it, and the
/// text after it has lines of its own; a text without one is a single line, or none where
/// it is empty.
pub proof fn lines_end_at_line_feeds(a: Seq<char>, b: Seq<char>)
    requires
        forall|i: int| 0 <= i < a.len() ==> #[trigger] a[i] != '\n',
    ensures
        a.len() > 0 ==> lines(a) == seq![a],
        a.len() == 0 ==> lines(a).len() == 0,
        a.len() > 0 && a.last() == '\r' ==> lines(a.push('\n') + b) == seq![a.drop_last()] + lines(
            b,
        ),
        !(a.len() > 0 && a.last() == '\r') ==> lines(a.push('\n') + b) == seq![a] + lines(b),
{
    let seps = seq!['\n'];
    assert forall|i: int| 0 <= i < a.len() implies !seps.contains(#[trigger] a[i]) by {}
    unseparated_text_is_one_piece(a, seps);
    assert(seps[0] == '\n');
    pieces_meet_at_a_separator(a, '\n', b, seps);
    split_is_never_empty(b, seps);
    let strip = |piece: Seq<char>| without_return(piece);
    assert(seq![a].drop_last().map_values(strip) =~= Seq::<Seq<char>>::empty());
    assert(Seq::<Seq<char>>::empty().push(a) =~= seq![a]);
    let tail = split(b, seps);
    let whole = seq![a] + tail;
    assert(whole.drop_last() =~= seq![a] + tail.drop_last());
    assert(whole.last() == tail.last());
    assert(whole.drop_last().map_values(strip) =~= seq![without_return(a)]
        + tail.drop_last().map_values(strip));
    assert(lines(a.push('\n') + b) =~= seq![without_return(a)] + lines(b));
}

/// A text contains another exactly when it is that other with something, or nothing, before
/// and after it.
pub proof fn containing_is_standing_between(hay: Seq<char>, needle: Seq<char>)
    ensures
        contains(hay, needle) <==> exists|a: Seq<char>, b: Seq<char>|
            hay == #[trigger] (a + needle + b),
        starts_with(hay, needle) <==> exists|b: Seq<char>| hay == #[trigger] (needle + b),
        ends_with(hay, needle) <==> exists|a: Seq<char>| hay == #[trigger] (a + needle),
{
    if contains(hay, needle) {
        let at = choose|at: int| occurs_at(hay, needle, at);
        let a = hay.take(at);
        let b = hay.skip(at + needle.len());
        assert(hay =~= a + needle + b);
    }
    if exists|a: Seq<char>, b: Seq<char>| hay == #[trigger] (a + needle + b) {
        let (a, b) = choose|a: Seq<char>, b: Seq<char>| hay == #[trigger] (a + needle + b);
        assert(hay.subrange(a.len() as int, a.len() as int + needle.len() as int) =~= needle);
        assert(occurs_at(hay, needle, a.len() as int));
    }
    if starts_with(hay, needle) {
        assert(hay =~= needle + hay.skip(needle.len() as int));
    }
    if exists|b: Seq<char>| hay == #[trigger] (needle + b) {
        let b = choose|b: Seq<char>| hay == #[trigger] (needle + b);
        assert(hay.subrange(0, needle.len() as int) =~= needle);
    }
    if ends_with(hay, needle) {
        assert(hay =~= hay.take(hay.len() - needle.len()) + needle);
    }
    if exists|a: Seq<char>| hay == #[trigger] (a + needle) {
        let a = choose|a: Seq<char>| hay == #[trigger] (a + needle);
        assert(hay.subrange(hay.len() - needle.len(), hay.len() as int) =~= needle);
    }
}

/// A text is filled exactly where it is there and holds a character that is no whitespace.
pub proof fn a_filled_text_holds_something(o: Option<Seq<char>>)
    ensures
        is_filled(o) <==> o is Some && exists|i: int|
            0 <= i < o->0.len() && !is_white(#[trigger] o->0[i]),
{
    if o is Some {
        blank_is_all_white(o->0);
    }
}

} // verus!
