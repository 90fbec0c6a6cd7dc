//! Text handling: splitting, trimming, joining, ordering and number formatting,
//! stated over sequences of characters.
use vstd::prelude::*;
use vstd::string::*;
use vstd::utf8::*;

verus! {

/// Claims of `<str as PartialEq>::eq` that it holds exactly when both texts have the same
/// characters in the same order.
pub assume_specification[ <str as PartialEq>::eq ](a: &str, b: &str) -> (r: bool)
    ensures
        r == (a@ == b@),
;

/// Claims of `String::push` that it appends the given character.
pub assume_specification[ String::push ](s: &mut String, c: char)
    ensures
        final(s)@ == old(s)@.push(c),
;

/// Whether a character has the Unicode property White_Space.
pub open spec fn white_space(c: char) -> bool {
    let n = c as int;
    ||| 0x9 <= n <= 0xd
    ||| n == 0x20
    ||| n == 0x85
    ||| n == 0xa0
    ||| n == 0x1680
    ||| 0x2000 <= n <= 0x200a
    ||| n == 0x2028
    ||| n == 0x2029
    ||| n == 0x202f
    ||| n == 0x205f
    ||| n == 0x3000
}

/// Claims of `char::is_whitespace` that it holds exactly for the characters that have the
/// Unicode property White_Space.
pub assume_specification[ char::is_whitespace ](c: char) -> (r: bool)
    ensures
        r == white_space(c),
;

/// The text that `str::to_lowercase` gives for a text.
pub uninterp spec fn lowercase(s: Seq<char>) -> Seq<char>;

/// Whether a character is one of ASCII.
pub open spec fn ascii(c: char) -> bool {
    (c as int) < 128
}

/// Whether every character of a text is one of ASCII.
pub open spec fn all_ascii(s: Seq<char>) -> bool {
    forall|i: int| 0 <= i < s.len() ==> ascii(#[trigger] s[i])
}

/// A character, the letters A to Z in lower case.
pub open spec fn ascii_lower(c: char) -> char {
    if 'A' <= c && c <= 'Z' {
        ((c as int) + 32) as char
    } else {
        c
    }
}

/// A text, the letters A to Z in lower case.
pub open spec fn ascii_lowered(s: Seq<char>) -> Seq<char> {
    Seq::new(s.len(), |i: int| ascii_lower(s[i]))
}

/// A character, the letters a to z in upper case.
pub open spec fn ascii_upper(c: char) -> char {
    if 'a' <= c && c <= 'z' {
        ((c as int) - 32) as char
    } else {
        c
    }
}

/// A text, the letters a to z in upper case.
pub open spec fn ascii_uppered(s: Seq<char>) -> Seq<char> {
    Seq::new(s.len(), |i: int| ascii_upper(s[i]))
}

/// Claims of `str::to_lowercase` that its result depends on the text alone, and two things of
/// ASCII. Characters of ASCII at the beginning of a text become the beginning of the result, each
/// by itself, the letters A to Z in lower case. And the characters of ASCII with which the lower
/// case form of a beginning of the text begins, that of the whole text begins with too: what
/// follows a character changes only how a capital sigma is written, which never becomes ASCII.
/// Nothing else is claimed of other characters.
pub assume_specification[ str::to_lowercase ](s: &str) -> (r: String)
    ensures
        r@ == lowercase(s@),
        all_ascii(s@) ==> r@ == ascii_lowered(s@),
        forall|n: int|
            0 <= n <= s@.len() && all_ascii(#[trigger] s@.take(n)) ==> n <= r@.len() && r@.take(n)
                == ascii_lowered(s@.take(n)),
        forall|n: int, start: Seq<char>|
            0 <= n <= s@.len() && all_ascii(start) && #[trigger] start.is_prefix_of(
                lowercase(s@.take(n)),
            ) ==> start.is_prefix_of(r@),
;

/// The text that `String::from_utf8_lossy` reads from bytes.
pub uninterp spec fn lossy(bytes: Seq<u8>) -> Seq<char>;

/// Calls `String::from_utf8_lossy`. Claims that the text depends on the bytes alone, and that
/// bytes in valid UTF-8 are decoded as they stand.
#[verifier::external_body]
pub(crate) fn utf8_lossy(bytes: &[u8]) -> (r: String)
    ensures
        r@ == lossy(bytes@),
        valid_utf8(bytes@) ==> r@ == decode_utf8(bytes@),
{
    String::from_utf8_lossy(bytes).into_owned()
}

/// Calls `std::str::from_utf8`. Claims that it gives a text exactly when the bytes are valid
/// UTF-8, and then the text that they encode.
#[verifier::external_body]
pub(crate) fn utf8_text(bytes: &[u8]) -> (r: Option<String>)
    ensures
        r is Some == valid_utf8(bytes@),
        r matches Some(text) ==> text@ == decode_utf8(bytes@),
{
    std::str::from_utf8(bytes).ok().map(|text| text.to_string())
}

/// The contents of a list of strings.
pub open spec fn views(v: Seq<String>) -> Seq<Seq<char>> {
    Seq::new(v.len(), |i: int| v[i]@)
}

/// The content of an optional string.
pub open spec fn opt_view(v: Option<String>) -> Option<Seq<char>> {
    match v {
        Some(s) => Some(s@),
        None => None,
    }
}

/// The content of an optional string slice.
pub open spec fn opt_str_view(v: Option<&str>) -> Option<Seq<char>> {
    match v {
        Some(s) => Some(s@),
        None => None,
    }
}

/// The characters of `s`, in order.
pub fn chars_of(s: &str) -> (r: Vec<char>)
    ensures
        r@ == s@,
{
    let mut r: Vec<char> = Vec::new();
    for c in it: s.chars()
        invariant
            r@ == it.seq().take(it.index() as int),
            it.seq() == s@,
    {
        r.push(c);
    }
    r
}

/// A copy of a list of strings.
pub fn copy_texts(v: &[String]) -> (r: Vec<String>)
    ensures
        r@ == v@,
{
    let mut r: Vec<String> = Vec::new();
    for i in 0..v.len()
        invariant
            r@ == v@.take(i as int),
    {
        r.push(v[i].clone());
    }
    r
}

/// A copy of an optional string.
pub fn copy_opt(v: &Option<String>) -> (r: Option<String>)
    ensures
        r == *v,
{
    match v {
        Some(s) => Some(s.clone()),
        None => None,
    }
}

/// One text followed by another.
pub fn concat(start: &str, end: &str) -> (r: String)
    ensures
        r@ == start@ + end@,
{
    let mut r = start.to_owned();
    r.append(end);
    r
}

/// Whether a text is in a list.
pub fn contains(list: &Vec<String>, s: &str) -> (r: bool)
    ensures
        r == views(list@).contains(s@),
{
    for i in 0..list.len()
        invariant
            forall|j: int| 0 <= j < i ==> (#[trigger] views(list@)[j]) != s@,
    {
        if list[i].as_str().eq(s) {
            assert(views(list@)[i as int] == s@);
            return true;
        }
    }
    false
}

/// The texts of a list that differ from a text, in order.
pub open spec fn others(list: Seq<Seq<char>>, s: Seq<char>) -> Seq<Seq<char>>
    decreases list.len(),
{
    if list.len() == 0 {
        Seq::empty()
    } else {
        let earlier = others(list.drop_last(), s);
        if list.last() == s {
            earlier
        } else {
            earlier.push(list.last())
        }
    }
}

/// The texts of a list that differ from a text, in order.
pub fn without(list: &Vec<String>, s: &str) -> (r: Vec<String>)
    ensures
        views(r@) == others(views(list@), s@),
{
    let mut r: Vec<String> = Vec::new();
    let ghost all = views(list@);
    assert(views(r@) =~= others(all.take(0), s@));
    for i in 0..list.len()
        invariant
            all == views(list@),
            views(r@) == others(all.take(i as int), s@),
    {
        let ghost kept = views(r@);
        assert(all.take(i as int + 1).drop_last() =~= all.take(i as int));
        if !list[i].as_str().eq(s) {
            r.push(list[i].clone());
            assert(views(r@) =~= kept.push(all[i as int]));
        }
    }
    assert(all.take(all.len() as int) =~= all);
    r
}

/// A text is all that is missing among the others.
pub(crate) proof fn others_are_the_rest(list: Seq<Seq<char>>, s: Seq<char>)
    ensures
        others(list, s).to_set() == list.to_set().remove(s),
    decreases list.len(),
{
    if list.len() == 0 {
        assert(others(list, s).to_set() =~= list.to_set().remove(s));
    } else {
        let shorter = list.drop_last();
        others_are_the_rest(shorter, s);
        assert(list =~= shorter.push(list.last()));
        insert_by_push(shorter, list.last());
        insert_by_push(others(shorter, s), list.last());
        assert(others(list, s).to_set() =~= list.to_set().remove(s));
    }
}

/// The elements of a list with one more at its end.
pub(crate) proof fn insert_by_push(list: Seq<Seq<char>>, s: Seq<char>)
    ensures
        list.push(s).to_set() == list.to_set().insert(s),
{
    let longer = list.push(s);
    assert forall|t: Seq<char>| longer.to_set().contains(t) == list.to_set().insert(s).contains(
        t,
    ) by {
        if list.contains(t) {
            let i = choose|i: int| 0 <= i < list.len() && list[i] == t;
            assert(longer[i] == t);
        }
        assert(longer[list.len() as int] == s);
        if longer.contains(t) && t != s {
            let i = choose|i: int| 0 <= i < longer.len() && longer[i] == t;
            assert(list[i] == t);
        }
    }
    assert(longer.to_set() =~= list.to_set().insert(s));
}

/// Whether `s` begins with `prefix`.
pub fn starts_with(s: &str, prefix: &str) -> (r: bool)
    ensures
        r == prefix@.is_prefix_of(s@),
{
    let n: usize = prefix.unicode_len();
    n <= s.unicode_len() && s.substring_char(0, n).eq(prefix)
}

/// What follows `prefix` in `s`, if `s` begins with it.
pub fn strip_prefix<'a>(s: &'a str, prefix: &str) -> (r: Option<&'a str>)
    ensures
        r is Some == prefix@.is_prefix_of(s@),
        r matches Some(rest) ==> rest@ == s@.skip(prefix@.len() as int),
{
    if starts_with(s, prefix) {
        Some(s.substring_char(prefix.unicode_len(), s.unicode_len()))
    } else {
        None
    }
}

/// At most the first `n` characters of `s`.
pub fn first_chars(s: &str, n: usize) -> (r: &str)
    ensures
        r@ == s@.take(if n <= s@.len() { n as int } else { s@.len() as int }),
{
    let len: usize = s.unicode_len();
    s.substring_char(0, if n <= len { n } else { len })
}

/// Whether `c` occurs in `s`.
pub fn has_char(s: &str, c: char) -> (r: bool)
    ensures
        r == s@.contains(c),
{
    let chars = chars_of(s);
    for i in 0..chars.len()
        invariant
            chars@ == s@,
            forall|j: int| 0 <= j < i ==> s@[j] != c,
    {
        if chars[i] == c {
            return true;
        }
    }
    false
}

// ---- splitting -------------------------------------------------------------

/// The pieces of `s` between the characters that `sep` picks; one more piece than there are
/// such characters.
pub open spec fn split_where(s: Seq<char>, sep: spec_fn(char) -> bool) -> Seq<Seq<char>>
    decreases s.len(),
{
    if s.len() == 0 {
        seq![Seq::<char>::empty()]
    } else {
        let before = split_where(s.drop_last(), sep);
        if sep(s.last()) {
            before.push(Seq::<char>::empty())
        } else {
            before.drop_last().push(before.last().push(s.last()))
        }
    }
}

/// The pieces of `s` between the occurrences of `sep`.
pub open spec fn split_at(s: Seq<char>, sep: char) -> Seq<Seq<char>> {
    split_where(s, |c: char| c == sep)
}

/// The pieces of `s` between the occurrences of `sep`.
pub fn split(s: &str, sep: char) -> (r: Vec<String>)
    ensures
        views(r@) == split_at(s@, sep),
        r@.len() >= 1,
{
    let mut done: Vec<String> = Vec::new();
    let mut piece = String::new();
    assert(views(done@).push(piece@) =~= split_at(s@.take(0), sep));
    for c in it: s.chars()
        invariant
            it.seq() == s@,
            views(done@).push(piece@) == split_at(s@.take(it.index() as int), sep),
    {
        let ghost sofar = s@.take(it.index() as int);
        let ghost old_pieces = views(done@).push(piece@);
        assert(s@.take(it.index() as int + 1).drop_last() =~= sofar);
        assert(old_pieces.drop_last() =~= views(done@));
        if c == sep {
            done.push(piece);
            piece = String::new();
            assert(views(done@) =~= old_pieces);
        } else {
            piece.push(c);
        }
    }
    assert(s@.take(s@.len() as int) =~= s@);
    let ghost pieces = views(done@).push(piece@);
    done.push(piece);
    assert(views(done@) =~= pieces);
    done
}

/// The pieces of `s` between white space characters, empty pieces left out.
pub open spec fn words_of(s: Seq<char>) -> Seq<Seq<char>> {
    split_where(s, |c: char| white_space(c)).filter(|w: Seq<char>| w.len() > 0)
}

/// The words of `s`: its pieces between white space, empty ones left out.
pub fn words(s: &str) -> (r: Vec<String>)
    ensures
        views(r@) == words_of(s@),
{
    let ghost sep = |c: char| white_space(c);
    let ghost full = |w: Seq<char>| w.len() > 0;
    let mut done: Vec<String> = Vec::new();
    let mut piece = String::new();
    proof {
        reveal(Seq::filter);
        assert(split_where(s@.take(0), sep).drop_last() =~= Seq::<Seq<char>>::empty());
        assert(views(done@) =~= split_where(s@.take(0), sep).drop_last().filter(full));
    }
    for c in it: s.chars()
        invariant
            it.seq() == s@,
            sep == (|c: char| white_space(c)),
            full == (|w: Seq<char>| w.len() > 0),
            split_where(s@.take(it.index() as int), sep).len() >= 1,
            piece@ == split_where(s@.take(it.index() as int), sep).last(),
            views(done@) == split_where(s@.take(it.index() as int), sep).drop_last().filter(full),
    {
        let ghost sofar = s@.take(it.index() as int);
        let ghost next = s@.take(it.index() as int + 1);
        let ghost old_done = views(done@);
        assert(next.drop_last() =~= sofar);
        if c.is_whitespace() {
            proof {
                reveal(Seq::filter);
                assert(split_where(next, sep).drop_last() =~= split_where(sofar, sep));
            }
            if !piece.as_str().is_empty() {
                let ghost p = piece@;
                done.push(piece);
                assert(views(done@) =~= old_done.push(p));
            }
            piece = String::new();
        } else {
            piece.push(c);
            assert(split_where(next, sep).drop_last() =~= split_where(sofar, sep).drop_last());
        }
    }
    let ghost old_done = views(done@);
    proof {
        assert(s@.take(s@.len() as int) =~= s@);
        reveal(Seq::filter);
    }
    if !piece.as_str().is_empty() {
        let ghost p = piece@;
        done.push(piece);
        assert(views(done@) =~= old_done.push(p));
    }
    done
}

/// A text without one carriage return at its end.
pub open spec fn without_cr(s: Seq<char>) -> Seq<char> {
    if s.len() > 0 && s.last() == '\r' {
        s.drop_last()
    } else {
        s
    }
}

/// The lines of `s`. A line ends at a newline, and a carriage return right before that
/// newline belongs to the ending; what follows the last newline is a line if it is not empty.
pub open spec fn lines_of(s: Seq<char>) -> Seq<Seq<char>> {
    let pieces = split_at(s, '\n');
    let ended = pieces.drop_last().map_values(|p: Seq<char>| without_cr(p));
    if pieces.last().len() == 0 {
        ended
    } else {
        ended.push(pieces.last())
    }
}

/// The lines of `s`.
pub fn lines(s: &str) -> (r: Vec<String>)
    ensures
        views(r@) == lines_of(s@),
{
    let mut pieces = split(s, '\n');
    let ghost all = views(pieces@);
    let mut r: Vec<String> = Vec::new();
    let last = pieces.pop();
    assert(views(pieces@) =~= all.drop_last());
    for i in 0..pieces.len()
        invariant
            views(pieces@) == all.drop_last(),
            views(r@) == all.drop_last().map_values(|p: Seq<char>| without_cr(p)).take(i as int),
    {
        let piece = pieces[i].as_str();
        assert(piece@ == views(pieces@)[i as int]);
        let n: usize = piece.unicode_len();
        let line = if n > 0 && piece.get_char(n - 1) == '\r' {
            piece.substring_char(0, n - 1)
        } else {
            piece
        };
        assert(line@ =~= without_cr(piece@));
        let ghost before = views(r@);
        r.push(line.to_owned());
        assert(views(r@) =~= before.push(line@));
    }
    assert(views(r@) =~= all.drop_last().map_values(|p: Seq<char>| without_cr(p)));
    if let Some(rest) = last {
        assert(rest@ == all.last());
        if !rest.as_str().is_empty() {
            let ghost before = views(r@);
            let ghost text = rest@;
            r.push(rest);
            assert(views(r@) =~= before.push(text));
        }
    }
    r
}

// ---- joining ---------------------------------------------------------------

/// The parts in order, with `sep` between neighbours.
pub open spec fn joined(parts: Seq<Seq<char>>, sep: Seq<char>) -> Seq<char>
    decreases parts.len(),
{
    if parts.len() == 0 {
        Seq::empty()
    } else if parts.len() == 1 {
        parts[0]
    } else {
        joined(parts.drop_last(), sep) + sep + parts.last()
    }
}

/// The parts in order, with `sep` between neighbours.
pub fn join(parts: &Vec<String>, sep: &str) -> (r: String)
    ensures
        r@ == joined(views(parts@), sep@),
{
    let mut r = String::new();
    let ghost all = views(parts@);
    assert(r@ =~= joined(all.take(0), sep@));
    for i in 0..parts.len()
        invariant
            all == views(parts@),
            r@ == joined(all.take(i as int), sep@),
    {
        assert(all.take(i as int + 1).drop_last() =~= all.take(i as int));
        let ghost before = r@;
        if i > 0 {
            r.append(sep);
        }
        r.append(parts[i].as_str());
        if i == 0 {
            assert(r@ =~= all[0]);
        }
    }
    assert(all.take(all.len() as int) =~= all);
    r
}

// ---- trimming --------------------------------------------------------------

/// `s` without the white space it begins with.
pub open spec fn trim_start_of(s: Seq<char>) -> Seq<char>
    decreases s.len(),
{
    if s.len() > 0 && white_space(s[0]) {
        trim_start_of(s.skip(1))
    } else {
        s
    }
}

/// `s` without the white space it ends with.
pub open spec fn trim_end_of(s: Seq<char>) -> Seq<char>
    decreases s.len(),
{
    if s.len() > 0 && white_space(s.last()) {
        trim_end_of(s.drop_last())
    } else {
        s
    }
}

/// `s` without the white space at both ends.
pub open spec fn trim_of(s: Seq<char>) -> Seq<char> {
    trim_end_of(trim_start_of(s))
}

/// `s` without the white space at both ends.
pub fn trim(s: &str) -> (r: &str)
    ensures
        r@ == trim_of(s@),
{
    let chars = chars_of(s);
    let n: usize = chars.len();
    let mut i: usize = 0;
    assert(s@.skip(0) =~= s@);
    while i < n && chars[i].is_whitespace()
        invariant
            chars@ == s@,
            n == s@.len(),
            i <= n,
            trim_start_of(s@.skip(i as int)) == trim_start_of(s@),
        decreases n - i,
    {
        assert(s@.skip(i as int).skip(1) =~= s@.skip(i as int + 1));
        i = i + 1;
    }
    let ghost rest = s@.skip(i as int);
    assert(trim_start_of(s@) == rest);
    let mut j: usize = n;
    assert(s@.subrange(i as int, n as int) =~= rest);
    while i < j && chars[j - 1].is_whitespace()
        invariant
            chars@ == s@,
            n == s@.len(),
            i <= j <= n,
            trim_end_of(s@.subrange(i as int, j as int)) == trim_end_of(rest),
        decreases j,
    {
        assert(s@.subrange(i as int, j as int).drop_last() =~= s@.subrange(i as int, j - 1));
        j = j - 1;
    }
    s.substring_char(i, j)
}

/// Trimming takes away the white space at both ends and nothing else: a text that neither
/// begins nor ends with white space is what is left of it, whatever white space surrounds it.
pub proof fn trimming_takes_white_space(before: Seq<char>, kept: Seq<char>, after: Seq<char>)
    requires
        forall|i: int| 0 <= i < before.len() ==> white_space(#[trigger] before[i]),
        forall|i: int| 0 <= i < after.len() ==> white_space(#[trigger] after[i]),
        kept.len() > 0 ==> !white_space(kept[0]) && !white_space(kept.last()),
    ensures
        trim_of(before + kept + after) == kept,
    decreases before.len() + after.len(),
{
    let s = before + kept + after;
    if before.len() > 0 {
        assert(s[0] == before[0]);
        assert(s.skip(1) =~= before.skip(1) + kept + after);
        trimming_takes_white_space(before.skip(1), kept, after);
    } else if kept.len() > 0 {
        assert(s[0] == kept[0]);
        assert(s =~= kept + after);
        trimming_an_end(kept, after);
    } else {
        assert(s =~= after);
        if after.len() > 0 {
            assert(s[0] == after[0]);
            assert(s.skip(1) =~= before + kept + after.skip(1));
            trimming_takes_white_space(before, kept, after.skip(1));
        } else {
            assert(s =~= kept);
        }
    }
}

proof fn trimming_an_end(kept: Seq<char>, after: Seq<char>)
    requires
        forall|i: int| 0 <= i < after.len() ==> white_space(#[trigger] after[i]),
        kept.len() > 0 ==> !white_space(kept.last()),
    ensures
        trim_end_of(kept + after) == kept,
    decreases after.len(),
{
    let s = kept + after;
    if after.len() > 0 {
        assert(s.last() == after[after.len() - 1]);
        assert(s.drop_last() =~= kept + after.drop_last());
        trimming_an_end(kept, after.drop_last());
    } else {
        assert(s =~= kept);
    }
}

/// `s` without the occurrences of `c` that it ends with.
pub open spec fn trim_end_char_of(s: Seq<char>, c: char) -> Seq<char>
    decreases s.len(),
{
    if s.len() > 0 && s.last() == c {
        trim_end_char_of(s.drop_last(), c)
    } else {
        s
    }
}

/// `s` without the occurrences of `c` that it ends with.
pub fn trim_end_char(s: &str, c: char) -> (r: &str)
    ensures
        r@ == trim_end_char_of(s@, c),
{
    let chars = chars_of(s);
    let mut j: usize = chars.len();
    assert(s@.take(j as int) =~= s@);
    while 0 < j && chars[j - 1] == c
        invariant
            chars@ == s@,
            j <= s@.len(),
            trim_end_char_of(s@.take(j as int), c) == trim_end_char_of(s@, c),
        decreases j,
    {
        assert(s@.take(j as int).drop_last() =~= s@.take(j - 1));
        j = j - 1;
    }
    assert(s@.subrange(0, j as int) =~= s@.take(j as int));
    s.substring_char(0, j)
}

// ---- order -----------------------------------------------------------------

/// The order of texts: the first character in which they differ decides, and a text comes
/// before those that continue it.
pub open spec fn text_before(a: Seq<char>, b: Seq<char>) -> bool
    decreases a.len(),
{
    if b.len() == 0 {
        false
    } else if a.len() == 0 {
        true
    } else if a[0] != b[0] {
        (a[0] as int) < (b[0] as int)
    } else {
        text_before(a.skip(1), b.skip(1))
    }
}

/// Whether `a` has the lower code point.
fn lower_char(a: char, b: char) -> (r: bool)
    ensures
        r == ((a as int) < (b as int)),
{
    (a as u32) < (b as u32)
}

/// Whether `a` comes before `b`.
pub fn comes_before(a: &str, b: &str) -> (r: bool)
    ensures
        r == text_before(a@, b@),
{
    let x = chars_of(a);
    let y = chars_of(b);
    let mut i: usize = 0;
    assert(a@.skip(0) =~= a@);
    assert(b@.skip(0) =~= b@);
    while i < x.len() && i < y.len() && x[i] == y[i]
        invariant
            x@ == a@,
            y@ == b@,
            i <= x.len(),
            i <= y.len(),
            text_before(a@, b@) == text_before(a@.skip(i as int), b@.skip(i as int)),
        decreases x.len() - i,
    {
        assert(a@.skip(i as int).skip(1) =~= a@.skip(i as int + 1));
        assert(b@.skip(i as int).skip(1) =~= b@.skip(i as int + 1));
        i = i + 1;
    }
    if i < x.len() && i < y.len() {
        lower_char(x[i], y[i])
    } else {
        i < y.len()
    }
}

/// Of two different texts exactly one comes before the other, and no text comes before itself.
pub proof fn text_order_is_total(a: Seq<char>, b: Seq<char>)
    ensures
        !(text_before(a, b) && text_before(b, a)),
        text_before(a, b) || text_before(b, a) <==> a != b,
    decreases a.len(),
{
    if a.len() == 0 && b.len() == 0 {
        assert(a =~= b);
    } else if a.len() > 0 && b.len() > 0 {
        if a[0] == b[0] {
            text_order_is_total(a.skip(1), b.skip(1));
            if a.skip(1) == b.skip(1) {
                assert(a =~= seq![a[0]] + a.skip(1));
                assert(b =~= seq![b[0]] + b.skip(1));
            }
        } else {
            assert((a[0] as int) != (b[0] as int));
        }
    }
}

/// The order of texts is transitive.
pub proof fn text_order_is_transitive(a: Seq<char>, b: Seq<char>, c: Seq<char>)
    requires
        text_before(a, b),
        text_before(b, c),
    ensures
        text_before(a, c),
    decreases a.len(),
{
    if a.len() > 0 && a[0] == b[0] && b[0] == c[0] {
        text_order_is_transitive(a.skip(1), b.skip(1), c.skip(1));
    }
}

// ---- numbers ---------------------------------------------------------------

/// The character of a decimal digit.
pub open spec fn digit(d: int) -> char {
    if d == 0 {
        '0'
    } else if d == 1 {
        '1'
    } else if d == 2 {
        '2'
    } else if d == 3 {
        '3'
    } else if d == 4 {
        '4'
    } else if d == 5 {
        '5'
    } else if d == 6 {
        '6'
    } else if d == 7 {
        '7'
    } else if d == 8 {
        '8'
    } else {
        '9'
    }
}

/// A number in decimal, without leading zeros.
pub open spec fn decimal(n: int) -> Seq<char>
    decreases n,
{
    if n < 10 {
        seq![digit(n)]
    } else {
        decimal(n / 10).push(digit(n % 10))
    }
}

/// A number in decimal, with a minus sign if it is negative.
pub open spec fn signed_decimal(n: int) -> Seq<char> {
    if n < 0 {
        "-"@ + decimal(-n)
    } else {
        decimal(n)
    }
}

/// A number in decimal.
pub fn number(n: u64) -> (r: String)
    ensures
        r@ == decimal(n as int),
    decreases n,
{
    let mut r = if n < 10 {
        String::new()
    } else {
        number(n / 10)
    };
    let d: u64 = n % 10;
    r.push(
        if d == 0 {
            '0'
        } else if d == 1 {
            '1'
        } else if d == 2 {
            '2'
        } else if d == 3 {
            '3'
        } else if d == 4 {
            '4'
        } else if d == 5 {
            '5'
        } else if d == 6 {
            '6'
        } else if d == 7 {
            '7'
        } else if d == 8 {
            '8'
        } else {
            '9'
        },
    );
    assert(n < 10 ==> r@ =~= seq![digit(n as int)]);
    r
}

/// A number in decimal, with a minus sign if it is negative.
pub fn signed_number(n: i64) -> (r: String)
    ensures
        r@ == signed_decimal(n as int),
{
    if n < 0 {
        let mut r = "-".to_owned();
        r.append(number((-(n as i128)) as u64).as_str());
        r
    } else {
        number(n as u64)
    }
}

// ---- what holds of texts ---------------------------------------------------

proof fn pieces_there(s: Seq<char>, sep: spec_fn(char) -> bool)
    ensures
        split_where(s, sep).len() >= 1,
    decreases s.len(),
{
    if s.len() > 0 {
        pieces_there(s.drop_last(), sep);
    }
}

proof fn pieces_of_two(a: Seq<char>, c: char, b: Seq<char>, sep: spec_fn(char) -> bool)
    requires
        sep(c),
    ensures
        split_where(a.push(c) + b, sep) == split_where(a, sep) + split_where(b, sep),
        split_where(a, sep).len() >= 1,
        split_where(b, sep).len() >= 1,
    decreases b.len(),
{
    pieces_there(a, sep);
    pieces_there(b, sep);
    let whole = a.push(c) + b;
    if b.len() == 0 {
        assert(whole.drop_last() =~= a);
        assert(whole.last() == c);
        assert(split_where(whole, sep) =~= split_where(a, sep) + split_where(b, sep));
    } else {
        pieces_of_two(a, c, b.drop_last(), sep);
        pieces_there(b.drop_last(), sep);
        assert(whole.drop_last() =~= a.push(c) + b.drop_last());
        assert(whole.last() == b.last());
        assert(split_where(whole, sep) =~= split_where(a, sep) + split_where(b, sep));
    }
}

proof fn only_piece(s: Seq<char>, sep: spec_fn(char) -> bool)
    requires
        forall|i: int| 0 <= i < s.len() ==> !sep(#[trigger] s[i]),
    ensures
        split_where(s, sep) == seq![s],
    decreases s.len(),
{
    if s.len() == 0 {
        assert(s =~= Seq::<char>::empty());
    } else {
        assert forall|i: int| 0 <= i < s.drop_last().len() implies !sep(
            #[trigger] s.drop_last()[i],
        ) by {
            assert(s[i] == s.drop_last()[i]);
        }
        only_piece(s.drop_last(), sep);
        assert(s.last() == s[s.len() - 1]);
        assert(s =~= s.drop_last().push(s.last()));
        assert(split_where(s, sep) =~= seq![s]);
    }
}

/// Splitting cuts a text at every separator and nowhere else: a text without one stays whole,
/// and a separator between two texts parts what each of them is split into.
pub proof fn separators_part_texts(a: Seq<char>, sep: char, b: Seq<char>)
    ensures
        split_at(a.push(sep) + b, sep) == split_at(a, sep) + split_at(b, sep),
        !a.contains(sep) ==> split_at(a, sep) == seq![a],
{
    parting_at(a, sep, b);
    if !a.contains(sep) {
        staying_whole(a, sep);
    }
}

proof fn parting_at(a: Seq<char>, sep: char, b: Seq<char>)
    ensures
        split_at(a.push(sep) + b, sep) == split_at(a, sep) + split_at(b, sep),
        split_at(a, sep).len() >= 1,
        split_at(b, sep).len() >= 1,
    decreases b.len(),
{
    let is_sep = |c: char| c == sep;
    pieces_there(a, is_sep);
    pieces_there(b, is_sep);
    let whole = a.push(sep) + b;
    if b.len() == 0 {
        assert(whole.drop_last() =~= a);
        assert(split_at(whole, sep) =~= split_at(a, sep) + split_at(b, sep));
    } else {
        parting_at(a, sep, b.drop_last());
        assert(whole.drop_last() =~= a.push(sep) + b.drop_last());
        assert(whole.last() == b.last());
        assert(split_at(whole, sep) =~= split_at(a, sep) + split_at(b, sep));
    }
}

proof fn staying_whole(s: Seq<char>, sep: char)
    requires
        !s.contains(sep),
    ensures
        split_at(s, sep) == seq![s],
    decreases s.len(),
{
    if s.len() == 0 {
        assert(s =~= Seq::<char>::empty());
    } else {
        assert forall|i: int| 0 <= i < s.drop_last().len() implies s.drop_last()[i] != sep by {
            assert(s[i] == s.drop_last()[i]);
        }
        staying_whole(s.drop_last(), sep);
        assert(s.last() == s[s.len() - 1]);
        assert(s =~= s.drop_last().push(s.last()));
        assert(split_at(s, sep) =~= seq![s]);
    }
}

/// The words of a text are what stands between white space: white space between two texts
/// parts their words, a text without any is one word, and the empty text holds none.
pub proof fn white_space_parts_words(a: Seq<char>, space: char, b: Seq<char>)
    requires
        white_space(space),
    ensures
        words_of(a.push(space) + b) == words_of(a) + words_of(b),
        a.len() == 0 ==> words_of(a) == Seq::<Seq<char>>::empty(),
        a.len() > 0 && (forall|i: int| 0 <= i < a.len() ==> !white_space(#[trigger] a[i]))
            ==> words_of(a) == seq![a],
{
    let sep = |c: char| white_space(c);
    let full = |w: Seq<char>| w.len() > 0;
    pieces_of_two(a, space, b, sep);
    Seq::filter_distributes_over_add(split_where(a, sep), split_where(b, sep), full);
    reveal(Seq::filter);
    if forall|i: int| 0 <= i < a.len() ==> !white_space(#[trigger] a[i]) {
        assert forall|i: int| 0 <= i < a.len() implies !sep(#[trigger] a[i]) by {}
        only_piece(a, sep);
        let none = Seq::<Seq<char>>::empty();
        assert(seq![a].drop_last() =~= none);
        assert(none.filter(full) =~= none);
        assert(seq![a].filter(full) =~= if a.len() > 0 {
            none.push(a)
        } else {
            none
        });
        assert(none.push(a) =~= seq![a]);
    }
}

/// A text is read line by line: what stands before the first newline is its first line, without
/// one carriage return at its end, and what is left without a newline is a line unless it is
/// empty.
pub proof fn newlines_end_lines(line: Seq<char>, rest: Seq<char>)
    requires
        !line.contains('\n'),
    ensures
        lines_of(line.push('\r').push('\n') + rest) == seq![line] + lines_of(rest),
        line.len() == 0 || line.last() != '\r' ==> lines_of(line.push('\n') + rest) == seq![line]
            + lines_of(rest),
        lines_of(line) == if line.len() == 0 {
            Seq::empty()
        } else {
            seq![line]
        },
{
    one_line_more(line, rest);
    separators_part_texts(line, '\n', Seq::empty());
    assert(seq![line].drop_last() =~= Seq::<Seq<char>>::empty());
    assert(lines_of(line) =~= if line.len() == 0 {
        Seq::empty()
    } else {
        seq![line]
    });
    let returned = line.push('\r');
    assert forall|i: int| 0 <= i < returned.len() implies returned[i] != '\n' by {
        if i < line.len() {
            assert(returned[i] == line[i]);
        }
    }
    one_line_more(returned, rest);
    assert(returned.drop_last() =~= line);
}

proof fn one_line_more(line: Seq<char>, rest: Seq<char>)
    requires
        !line.contains('\n'),
    ensures
        lines_of(line.push('\n') + rest) == seq![without_cr(line)] + lines_of(rest),
{
    separators_part_texts(line, '\n', rest);
    pieces_there(rest, |c: char| c == '\n');
    let pieces = split_at(rest, '\n');
    let all = seq![line] + pieces;
    assert(split_at(line.push('\n') + rest, '\n') == all);
    assert(all.last() == pieces.last());
    let strip = |p: Seq<char>| without_cr(p);
    assert(all.drop_last().map_values(strip) =~= seq![without_cr(line)]
        + pieces.drop_last().map_values(strip));
    assert(lines_of(line.push('\n') + rest) =~= seq![without_cr(line)] + lines_of(rest));
}

/// Joining puts the separator between parts and nowhere else.
pub proof fn separators_join_parts(a: Seq<Seq<char>>, b: Seq<Seq<char>>, sep: Seq<char>)
    requires
        a.len() > 0,
        b.len() > 0,
    ensures
        joined(a + b, sep) == joined(a, sep) + sep + joined(b, sep),
        a.len() == 1 ==> joined(a, sep) == a[0],
        joined(Seq::empty(), sep).len() == 0,
    decreases b.len(),
{
    let all = a + b;
    assert(all.drop_last() =~= a + b.drop_last());
    assert(all.last() == b.last());
    if b.len() == 1 {
        assert(a + b.drop_last() =~= a);
    } else {
        separators_join_parts(a, b.drop_last(), sep);
        assert(joined(all, sep) =~= joined(a, sep) + sep + joined(b, sep));
    }
}

/// The order of texts is that of a dictionary: a text comes before another exactly if the other
/// continues it, or if it has the lower character where they first differ.
pub proof fn order_is_that_of_a_dictionary(a: Seq<char>, b: Seq<char>)
    ensures
        text_before(a, b) <==> (a.len() < b.len() && a.is_prefix_of(b)) || exists|n: int|
            0 <= n < a.len() && n < b.len() && (#[trigger] a[n] as int) < (b[n] as int) && a.take(n)
                == b.take(n),
    decreases a.len(),
{
    if a.len() > 0 && b.len() > 0 && a[0] == b[0] {
        let x = a.skip(1);
        let y = b.skip(1);
        order_is_that_of_a_dictionary(x, y);
        if x.len() < y.len() && x.is_prefix_of(y) {
            assert(a =~= b.take(a.len() as int)) by {
                assert forall|i: int| 0 <= i < a.len() implies a[i] == b[i] by {
                    if i > 0 {
                        assert(x[i - 1] == y.take(x.len() as int)[i - 1]);
                    }
                }
            }
        }
        if a.len() < b.len() && a.is_prefix_of(b) {
            assert forall|i: int| 0 <= i < x.len() implies x[i] == y[i] by {
                assert(a[i + 1] == b.take(a.len() as int)[i + 1]);
            }
            assert(x =~= y.take(x.len() as int));
        }
        if exists|n: int|
            0 <= n < x.len() && n < y.len() && (#[trigger] x[n] as int) < (y[n] as int) && x.take(n)
                == y.take(n) {
            let n = choose|n: int|
                0 <= n < x.len() && n < y.len() && (#[trigger] x[n] as int) < (y[n] as int)
                    && x.take(n) == y.take(n);
            assert forall|i: int| 0 <= i < n + 1 implies a[i] == b[i] by {
                if i > 0 {
                    assert(x.take(n)[i - 1] == y.take(n)[i - 1]);
                }
            }
            assert(a.take(n + 1) =~= b.take(n + 1));
            assert((a[n + 1] as int) < (b[n + 1] as int));
        }
        if exists|n: int|
            0 <= n < a.len() && n < b.len() && (#[trigger] a[n] as int) < (b[n] as int) && a.take(n)
                == b.take(n) {
            let n = choose|n: int|
                0 <= n < a.len() && n < b.len() && (#[trigger] a[n] as int) < (b[n] as int)
                    && a.take(n) == b.take(n);
            assert(n > 0);
            assert forall|i: int| 0 <= i < n - 1 implies x[i] == y[i] by {
                assert(a.take(n)[i + 1] == b.take(n)[i + 1]);
            }
            assert(x.take(n - 1) =~= y.take(n - 1));
            assert((x[n - 1] as int) < (y[n - 1] as int));
        }
    } else if a.len() > 0 && b.len() > 0 {
        if (a[0] as int) < (b[0] as int) {
            assert(a.take(0) =~= b.take(0));
        }
        if a.is_prefix_of(b) {
            assert(a[0] == b.take(a.len() as int)[0]);
        }
        if exists|n: int|
            0 <= n < a.len() && n < b.len() && (#[trigger] a[n] as int) < (b[n] as int) && a.take(n)
                == b.take(n) {
            let n = choose|n: int|
                0 <= n < a.len() && n < b.len() && (#[trigger] a[n] as int) < (b[n] as int)
                    && a.take(n) == b.take(n);
            if n > 0 {
                assert(a.take(n)[0] == b.take(n)[0]);
            }
        }
    }
}

/// Numbers are written digit by digit, the highest first: a digit by itself is its character,
/// and ten times a number and a digit is the number followed by that character.
pub proof fn numbers_are_written_in_decimal(n: int, d: int)
    requires
        n > 0,
        0 <= d < 10,
    ensures
        decimal(d) == seq![(('0' as int) + d) as char],
        decimal(10 * n + d) == decimal(n).push((('0' as int) + d) as char),
        signed_decimal(n) == decimal(n),
        signed_decimal(d) == decimal(d),
        signed_decimal(-n) == seq!['-'] + decimal(n),
{
    reveal_strlit("-");
    assert((10 * n + d) / 10 == n && (10 * n + d) % 10 == d);
    assert("-"@ =~= seq!['-']);
}

/// Taking a text out of a list leaves the others, in order.
pub proof fn others_stay_in_order(list: Seq<Seq<char>>, s: Seq<char>)
    ensures
        others(list, s) == list.filter(|t: Seq<char>| t != s),
{
    others_are_selected(list, s, |t: Seq<char>| t != s);
}

proof fn others_are_selected(
    list: Seq<Seq<char>>,
    s: Seq<char>,
    pick: spec_fn(Seq<char>) -> bool,
)
    requires
        forall|t: Seq<char>| #[trigger] pick(t) == (t != s),
    ensures
        others(list, s) == list.filter(pick),
    decreases list.len(),
{
    reveal(Seq::filter);
    if list.len() > 0 {
        others_are_selected(list.drop_last(), s, pick);
    }
}

/// A character that a text ends with is taken away as often as it stands there, and nothing
/// else is.
pub proof fn trailing_characters_are_taken(kept: Seq<char>, c: char, n: nat)
    requires
        kept.len() > 0 ==> kept.last() != c,
    ensures
        trim_end_char_of(kept + Seq::new(n, |i: int| c), c) == kept,
    decreases n,
{
    let s = kept + Seq::new(n, |i: int| c);
    if n == 0 {
        assert(s =~= kept);
    } else {
        assert(s.drop_last() =~= kept + Seq::new((n - 1) as nat, |i: int| c));
        trailing_characters_are_taken(kept, c, (n - 1) as nat);
    }
}

} // verus!
