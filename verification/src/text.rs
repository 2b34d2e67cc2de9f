//! Text as a sequence of characters: searching, splitting, joining, and decimal numbers.
use vstd::prelude::*;
use vstd::string::StringExecFns;

verus! {

/// Appends one character to a text: `String::push` adds the character at the end.
pub assume_specification[ String::push ](text: &mut String, c: char)
    ensures
        final(text)@ == old(text)@.push(c),
;

/// Whether `pattern` stands in `s` at position `at`.
pub open spec fn occurs_at(s: Seq<char>, pattern: Seq<char>, at: int) -> bool {
    &&& 0 <= at
    &&& at + pattern.len() <= s.len()
    &&& s.subrange(at, at + pattern.len()) == pattern
}

/// Whether `pattern` stands anywhere in `s`.
pub open spec fn has_text(s: Seq<char>, pattern: Seq<char>) -> bool {
    exists|at: int| occurs_at(s, pattern, at)
}

/// Whether `at` is the first position at which `pattern` stands in `s`.
pub open spec fn first_at(s: Seq<char>, pattern: Seq<char>, at: int) -> bool {
    &&& occurs_at(s, pattern, at)
    &&& forall|j: int| j < at ==> !occurs_at(s, pattern, j)
}

/// The first position of `pattern` in `s`.
pub open spec fn find_text(s: Seq<char>, pattern: Seq<char>) -> Option<int> {
    if has_text(s, pattern) {
        Some(choose|at: int| first_at(s, pattern, at))
    } else {
        None
    }
}

/// The pieces of `s` between the occurrences of `pattern`, found from the left and not
/// overlapping. There is always at least one piece.
pub open spec fn split_text(s: Seq<char>, pattern: Seq<char>) -> Seq<Seq<char>>
    decreases s.len(),
{
    match find_text(s, pattern) {
        Some(at) => if pattern.len() > 0 && 0 <= at && at + pattern.len() <= s.len() {
            seq![s.take(at)] + split_text(s.skip(at + pattern.len()), pattern)
        } else {
            seq![s]
        },
        None => seq![s],
    }
}

/// The parts in order, with `separator` between neighbours.
pub open spec fn join_text(parts: Seq<Seq<char>>, separator: Seq<char>) -> Seq<char>
    decreases parts.len(),
{
    if parts.len() == 0 {
        Seq::empty()
    } else if parts.len() == 1 {
        parts[0]
    } else {
        join_text(parts.drop_last(), separator) + separator + parts.last()
    }
}

/// `s` with every occurrence of the character `c` exchanged for `with`.
pub open spec fn replaced(s: Seq<char>, c: char, with: Seq<char>) -> Seq<char>
    decreases s.len(),
{
    if s.len() == 0 {
        Seq::empty()
    } else {
        replaced(s.drop_last(), c, with) + if s.last() == c {
            with
        } else {
            seq![s.last()]
        }
    }
}

proof fn lemma_first_at_unique(s: Seq<char>, pattern: Seq<char>, at: int)
    requires
        first_at(s, pattern, at),
    ensures
        find_text(s, pattern) == Some(at),
{
    let chosen = choose|i: int| first_at(s, pattern, i);
    assert(first_at(s, pattern, chosen));
    if chosen < at {
        assert(!occurs_at(s, pattern, chosen));
    }
    if at < chosen {
        assert(!occurs_at(s, pattern, at));
    }
}

/// A text has a first occurrence of every pattern that it holds.
pub proof fn lemma_find_text(s: Seq<char>, pattern: Seq<char>)
    requires
        has_text(s, pattern),
    ensures
        find_text(s, pattern) is Some,
        first_at(s, pattern, find_text(s, pattern)->0),
{
    let at = choose|at: int| occurs_at(s, pattern, at);
    lemma_first_below(s, pattern, at);
    let first = choose|i: int| first_at(s, pattern, i);
    lemma_first_at_unique(s, pattern, first);
}

proof fn lemma_first_below(s: Seq<char>, pattern: Seq<char>, at: int)
    requires
        occurs_at(s, pattern, at),
    ensures
        exists|i: int| first_at(s, pattern, i),
    decreases at,
{
    if exists|j: int| j < at && occurs_at(s, pattern, j) {
        let j = choose|j: int| j < at && occurs_at(s, pattern, j);
        lemma_first_below(s, pattern, j);
    } else {
        assert(first_at(s, pattern, at));
    }
}

/// Joined parts begin with the first of them.
pub proof fn lemma_join_front(parts: Seq<Seq<char>>, separator: Seq<char>)
    requires
        parts.len() >= 2,
    ensures
        join_text(parts, separator) == parts[0] + separator + join_text(parts.skip(1), separator),
    decreases parts.len(),
{
    reveal_with_fuel(join_text, 2);
    let front = parts.drop_last();
    let rest = parts.skip(1);
    if parts.len() > 2 {
        lemma_join_front(front, separator);
        assert(front.skip(1) =~= rest.drop_last());
        assert(rest.last() == parts.last());
    }
    assert(join_text(parts, separator) =~= parts[0] + separator + join_text(rest, separator));
}

/// Parts that are joined with a character that none of them holds are found again by splitting at
/// that character.
pub proof fn law_joined_parts_are_split(parts: Seq<Seq<char>>, c: char)
    requires
        parts.len() > 0,
        forall|i: int| 0 <= i < parts.len() ==> !(#[trigger] parts[i]).contains(c),
    ensures
        split_text(join_text(parts, seq![c]), seq![c]) == parts,
    decreases parts.len(),
{
    let joined = join_text(parts, seq![c]);
    assert(!parts[0].contains(c));
    if parts.len() == 1 {
        assert forall|at: int| !occurs_at(joined, seq![c], at) by {
            if occurs_at(joined, seq![c], at) {
                assert(joined.subrange(at, at + 1)[0] == c);
                assert(joined[at] == c);
            }
        }
        assert(split_text(joined, seq![c]) =~= parts);
    } else {
        let rest = parts.skip(1);
        let at = parts[0].len() as int;
        lemma_join_front(parts, seq![c]);
        assert(joined.subrange(at, at + 1) =~= seq![c]);
        assert forall|j: int| j < at implies !occurs_at(joined, seq![c], j) by {
            if occurs_at(joined, seq![c], j) {
                assert(joined.subrange(j, j + 1)[0] == c);
                assert(parts[0][j] == c);
            }
        }
        assert(first_at(joined, seq![c], at));
        assert(has_text(joined, seq![c]));
        lemma_first_at_unique(joined, seq![c], at);
        assert(joined.take(at) =~= parts[0]);
        assert(joined.skip(at + 1) =~= join_text(rest, seq![c]));
        assert forall|i: int| 0 <= i < rest.len() implies !(#[trigger] rest[i]).contains(c) by {
            assert(rest[i] == parts[i + 1]);
        }
        law_joined_parts_are_split(rest, c);
        assert(seq![parts[0]] + rest =~= parts);
    }
}

/// The characters of a text.
pub fn to_chars(s: &str) -> (chars: Vec<char>)
    ensures
        chars@ == s@,
{
    let mut chars: Vec<char> = Vec::new();
    for c in iter: s.chars()
        invariant
            chars@ == s@.take(iter.index()),
            iter.seq() == s@,
    {
        chars.push(c);
    }
    chars
}

/// The text of the characters from `from` up to `to`.
pub fn from_chars(chars: &Vec<char>, from: usize, to: usize) -> (s: String)
    requires
        from <= to <= chars@.len(),
    ensures
        s@ == chars@.subrange(from as int, to as int),
{
    let mut s = String::new();
    let mut i: usize = from;
    while i < to
        invariant
            from <= i <= to <= chars@.len(),
            s@ == chars@.subrange(from as int, i as int),
        decreases to - i,
    {
        s.push(chars[i]);
        i = i + 1;
    }
    s
}

/// Whether two texts hold the same characters.
pub fn same_text(a: &str, b: &str) -> (same: bool)
    ensures
        same == (a@ == b@),
{
    let a_chars = to_chars(a);
    let b_chars = to_chars(b);
    if a_chars.len() != b_chars.len() {
        return false;
    }
    assert(a@.subrange(0, a@.len() as int) =~= a@);
    occurs(&a_chars, &b_chars, 0)
}

fn occurs(chars: &Vec<char>, pattern: &Vec<char>, at: usize) -> (found: bool)
    requires
        at + pattern@.len() <= chars@.len(),
    ensures
        found == occurs_at(chars@, pattern@, at as int),
{
    let total: usize = chars.len();
    let mut i: usize = 0;
    while i < pattern.len()
        invariant
            i <= pattern@.len(),
            at + pattern@.len() <= chars@.len(),
            total == chars@.len(),
            forall|j: int| 0 <= j < i ==> chars@[at + j] == pattern@[j],
        decreases pattern@.len() - i,
    {
        if chars[at + i] != pattern[i] {
            assert(chars@.subrange(at as int, at + pattern@.len())[i as int] != pattern@[i as int]);
            return false;
        }
        i = i + 1;
    }
    assert(chars@.subrange(at as int, at + pattern@.len()) =~= pattern@);
    true
}

/// Whether `found` is the first position at or after `from` at which the pattern stands.
spec fn is_next(s: Seq<char>, pattern: Seq<char>, from: int, found: Option<usize>) -> bool {
    match found {
        Some(at) => {
            &&& from <= at
            &&& occurs_at(s, pattern, at as int)
            &&& forall|j: int| from <= j < at ==> !occurs_at(s, pattern, j)
        },
        None => forall|j: int| from <= j ==> !occurs_at(s, pattern, j),
    }
}

/// The first position at or after `from` at which the pattern stands.
fn find_from(chars: &Vec<char>, pattern: &Vec<char>, from: usize) -> (found: Option<usize>)
    requires
        from <= chars@.len(),
    ensures
        is_next(chars@, pattern@, from as int, found),
{
    let total: usize = chars.len();
    let width: usize = pattern.len();
    let mut at: usize = from;
    while at <= total && width <= total - at
        invariant
            from <= at,
            total == chars@.len(),
            width == pattern@.len(),
            at <= total + 1,
            forall|j: int| from <= j < at ==> !occurs_at(chars@, pattern@, j),
        decreases total + 1 - at,
    {
        if occurs(chars, pattern, at) {
            return Some(at);
        }
        if at == total {
            return None;
        }
        at = at + 1;
    }
    None
}

/// The first position of `pattern` in `s`, counted in characters.
pub fn find(s: &str, pattern: &str) -> (found: Option<usize>)
    ensures
        match found {
            Some(at) => find_text(s@, pattern@) == Some(at as int),
            None => find_text(s@, pattern@) is None,
        },
{
    let chars = to_chars(s);
    let wanted = to_chars(pattern);
    let found = find_from(&chars, &wanted, 0);
    proof {
        if let Some(at) = found {
            lemma_first_at_unique(s@, pattern@, at as int);
        }
    }
    found
}

/// Whether `pattern` stands anywhere in `s`.
pub fn contains(s: &str, pattern: &str) -> (found: bool)
    ensures
        found == has_text(s@, pattern@),
{
    let chars = to_chars(s);
    let wanted = to_chars(pattern);
    match find_from(&chars, &wanted, 0) {
        Some(at) => {
            assert(occurs_at(s@, pattern@, at as int));
            true
        },
        None => false,
    }
}

/// Whether `s` begins with `prefix`.
pub fn starts_with(s: &str, prefix: &str) -> (starts: bool)
    ensures
        starts == prefix@.is_prefix_of(s@),
{
    let chars = to_chars(s);
    let wanted = to_chars(prefix);
    wanted.len() <= chars.len() && occurs(&chars, &wanted, 0)
}

/// What follows `prefix` in `s`, where `s` begins with it.
pub fn strip_prefix(s: &str, prefix: &str) -> (rest: Option<String>)
    ensures
        match rest {
            Some(rest) => prefix@.is_prefix_of(s@) && rest@ == s@.skip(prefix@.len() as int),
            None => !prefix@.is_prefix_of(s@),
        },
{
    if !starts_with(s, prefix) {
        return None;
    }
    let chars = to_chars(s);
    let wanted = to_chars(prefix);
    Some(from_chars(&chars, wanted.len(), chars.len()))
}

/// The pieces of `s` between the occurrences of `pattern`.
pub fn split(s: &str, pattern: &str) -> (pieces: Vec<String>)
    requires
        pattern@.len() > 0,
    ensures
        pieces.deep_view() == split_text(s@, pattern@),
        pieces@.len() > 0,
{
    let chars = to_chars(s);
    let wanted = to_chars(pattern);
    let total: usize = chars.len();
    let width: usize = wanted.len();
    let mut pieces: Vec<String> = Vec::new();
    let mut start: usize = 0;
    assert(s@.skip(0) =~= s@);
    assert(pieces.deep_view() + split_text(s@.skip(0), pattern@) =~= split_text(s@, pattern@));
    let mut found = find_from(&chars, &wanted, start);
    while found.is_some()
        invariant
            chars@ == s@,
            wanted@ == pattern@,
            total == chars@.len(),
            width == wanted@.len(),
            width > 0,
            start <= total,
            is_next(s@, pattern@, start as int, found),
            pieces.deep_view() + split_text(s@.skip(start as int), pattern@) == split_text(
                s@,
                pattern@,
            ),
        decreases total - start,
    {
        let at: usize = found.unwrap();
        let piece = from_chars(&chars, start, at);
        proof {
            let rest = s@.skip(start as int);
            lemma_occurs_in_skip(s@, pattern@, start as int);
            assert(first_at(rest, pattern@, at - start));
            lemma_first_at_unique(rest, pattern@, at - start);
            assert(rest.take(at - start) =~= piece@);
            assert(rest.skip(at - start + width) =~= s@.skip(at + width));
        }
        let ghost before = pieces.deep_view();
        pieces.push(piece);
        start = at + width;
        proof {
            assert(pieces.deep_view() =~= before.push(piece@));
            assert(pieces.deep_view() + split_text(s@.skip(start as int), pattern@) =~= before + (seq![
                piece@,
            ] + split_text(s@.skip(start as int), pattern@)));
        }
        found = find_from(&chars, &wanted, start);
    }
    let last = from_chars(&chars, start, total);
    let ghost before = pieces.deep_view();
    proof {
        let rest = s@.skip(start as int);
        lemma_occurs_in_skip(s@, pattern@, start as int);
        assert(forall|j: int| !occurs_at(rest, pattern@, j));
        assert(rest =~= last@);
        assert(split_text(rest, pattern@) =~= seq![last@]);
    }
    pieces.push(last);
    assert(pieces.deep_view() =~= before + seq![last@]);
    pieces
}

proof fn lemma_occurs_in_skip(s: Seq<char>, pattern: Seq<char>, start: int)
    requires
        0 <= start <= s.len(),
    ensures
        forall|j: int|
            0 <= j ==> (#[trigger] occurs_at(s.skip(start), pattern, j) <==> occurs_at(
                s,
                pattern,
                start + j,
            )),
{
    assert forall|j: int| 0 <= j implies (#[trigger] occurs_at(s.skip(start), pattern, j)
        <==> occurs_at(s, pattern, start + j)) by {
        if start + j + pattern.len() <= s.len() {
            assert(s.skip(start).subrange(j, j + pattern.len()) =~= s.subrange(
                start + j,
                start + j + pattern.len(),
            ));
        }
    }
}

/// The parts in order, with `separator` between neighbours.
pub fn join(parts: &Vec<String>, separator: &str) -> (joined: String)
    ensures
        joined@ == join_text(parts.deep_view(), separator@),
{
    let mut joined = String::new();
    let mut i: usize = 0;
    while i < parts.len()
        invariant
            i <= parts@.len(),
            joined@ == join_text(parts.deep_view().take(i as int), separator@),
        decreases parts@.len() - i,
    {
        proof {
            let next = parts.deep_view().take(i + 1);
            assert(next.drop_last() =~= parts.deep_view().take(i as int));
            assert(next.last() == parts@[i as int]@);
        }
        if i > 0 {
            joined.append(separator);
        }
        joined.append(parts[i].as_str());
        i = i + 1;
    }
    assert(parts.deep_view().take(i as int) =~= parts.deep_view());
    joined
}

/// What follows the last occurrence of `c` in `s`; all of `s` where there is none.
pub open spec fn after_last(s: Seq<char>, c: char) -> Seq<char>
    decreases s.len(),
{
    if s.len() == 0 || s.last() == c {
        Seq::empty()
    } else {
        after_last(s.drop_last(), c).push(s.last())
    }
}

proof fn lemma_after_last(s: Seq<char>, c: char, from: int)
    requires
        0 <= from <= s.len(),
        from > 0 ==> s[from - 1] == c,
        forall|j: int| from <= j < s.len() ==> s[j] != c,
    ensures
        after_last(s, c) == s.skip(from),
    decreases s.len(),
{
    if from == s.len() {
        assert(s.skip(from) =~= Seq::empty());
    } else {
        lemma_after_last(s.drop_last(), c, from);
        assert(s.drop_last().skip(from).push(s.last()) =~= s.skip(from));
    }
}

/// What follows the last occurrence of `c` in `s`; all of `s` where there is none.
pub fn text_after_last(s: &str, c: char) -> (rest: String)
    ensures
        rest@ == after_last(s@, c),
{
    let chars = to_chars(s);
    let mut from: usize = chars.len();
    while from > 0 && chars[from - 1] != c
        invariant
            from <= chars@.len(),
            forall|j: int| from <= j < chars@.len() ==> chars@[j] != c,
        decreases from,
    {
        from = from - 1;
    }
    proof {
        lemma_after_last(s@, c, from as int);
    }
    from_chars(&chars, from, chars.len())
}

/// `s` with every occurrence of the character `c` exchanged for `with`.
pub fn replace(s: &str, c: char, with: &str) -> (text: String)
    ensures
        text@ == replaced(s@, c, with@),
{
    let chars = to_chars(s);
    let mut text = String::new();
    let mut i: usize = 0;
    while i < chars.len()
        invariant
            i <= chars@.len(),
            text@ == replaced(chars@.take(i as int), c, with@),
        decreases chars@.len() - i,
    {
        proof {
            assert(chars@.take(i + 1).drop_last() =~= chars@.take(i as int));
        }
        let ghost before = text@;
        if chars[i] == c {
            text.append(with);
        } else {
            text.push(chars[i]);
            assert(before.push(chars@[i as int]) =~= before + seq![chars@[i as int]]);
        }
        i = i + 1;
    }
    assert(chars@.take(i as int) =~= s@);
    text
}

/// The first `count` characters of `s`, or all of them where there are fewer.
pub open spec fn truncated(s: Seq<char>, count: nat) -> Seq<char> {
    if s.len() <= count {
        s
    } else {
        s.take(count as int)
    }
}

/// The first `count` characters of `s`, or all of them where there are fewer.
pub fn take_chars(s: &str, count: usize) -> (text: String)
    ensures
        text@ == truncated(s@, count as nat),
{
    let chars = to_chars(s);
    if chars.len() <= count {
        assert(s@.subrange(0, s@.len() as int) =~= s@);
        from_chars(&chars, 0, chars.len())
    } else {
        from_chars(&chars, 0, count)
    }
}

/// Whether a character has the Unicode property `White_Space`.
pub open spec fn is_white_space(c: char) -> bool {
    ||| '\u{9}' <= c <= '\u{d}'
    ||| c == ' '
    ||| c == '\u{85}'
    ||| c == '\u{a0}'
    ||| c == '\u{1680}'
    ||| '\u{2000}' <= c <= '\u{200a}'
    ||| c == '\u{2028}'
    ||| c == '\u{2029}'
    ||| c == '\u{202f}'
    ||| c == '\u{205f}'
    ||| c == '\u{3000}'
}

/// `char::is_whitespace` says of a character whether it has the Unicode property `White_Space`,
/// which the characters listed in `is_white_space` have and no others.
pub assume_specification[ char::is_whitespace ](c: char) -> (white: bool)
    ensures
        white == is_white_space(c),
;

/// `s` in lower case.
pub uninterp spec fn lowercase(s: Seq<char>) -> Seq<char>;

/// `str::to_lowercase` gives the lower-case form of a text, which depends on the text alone.
pub assume_specification[ str::to_lowercase ](s: &str) -> (lower: String)
    ensures
        lower@ == lowercase(s@),
;

/// `s` without the white space at its beginning.
pub open spec fn trimmed_start(s: Seq<char>) -> Seq<char>
    decreases s.len(),
{
    if s.len() > 0 && is_white_space(s[0]) {
        trimmed_start(s.skip(1))
    } else {
        s
    }
}

/// `s` without the white space at its end.
pub open spec fn trimmed_end(s: Seq<char>) -> Seq<char>
    decreases s.len(),
{
    if s.len() > 0 && is_white_space(s.last()) {
        trimmed_end(s.drop_last())
    } else {
        s
    }
}

/// `s` without the white space at both ends.
pub open spec fn trimmed(s: Seq<char>) -> Seq<char> {
    trimmed_end(trimmed_start(s))
}

/// `s` without the white space at both ends.
pub fn trim(s: &str) -> (text: String)
    ensures
        text@ == trimmed(s@),
{
    let chars = to_chars(s);
    let total: usize = chars.len();
    let mut from: usize = 0;
    assert(s@.skip(0) =~= s@);
    while from < total && chars[from].is_whitespace()
        invariant
            from <= total == chars@.len(),
            trimmed_start(chars@.skip(from as int)) == trimmed_start(chars@),
        decreases total - from,
    {
        assert(chars@.skip(from as int).skip(1) =~= chars@.skip(from + 1));
        from = from + 1;
    }
    let mut to: usize = total;
    let ghost rest = trimmed_start(s@);
    assert(rest == chars@.skip(from as int));
    assert(chars@.subrange(from as int, to as int) =~= rest);
    while from < to && chars[to - 1].is_whitespace()
        invariant
            from <= to <= chars@.len(),
            trimmed_end(chars@.subrange(from as int, to as int)) == trimmed_end(rest),
        decreases to,
    {
        assert(chars@.subrange(from as int, to as int).drop_last() =~= chars@.subrange(
            from as int,
            to - 1,
        ));
        to = to - 1;
    }
    from_chars(&chars, from, to)
}

/// The decimal digit of a number below ten.
pub open spec fn digit(value: int) -> char {
    if value == 0 {
        '0'
    } else if value == 1 {
        '1'
    } else if value == 2 {
        '2'
    } else if value == 3 {
        '3'
    } else if value == 4 {
        '4'
    } else if value == 5 {
        '5'
    } else if value == 6 {
        '6'
    } else if value == 7 {
        '7'
    } else if value == 8 {
        '8'
    } else {
        '9'
    }
}

/// A number in decimal, without leading zeros.
pub open spec fn decimal(n: nat) -> Seq<char>
    decreases n,
{
    if n < 10 {
        seq![digit(n as int)]
    } else {
        decimal(n / 10).push(digit((n % 10) as int))
    }
}

fn digit_char(value: u64) -> (c: char)
    requires
        value < 10,
    ensures
        c == digit(value as int),
{
    match value {
        0 => '0',
        1 => '1',
        2 => '2',
        3 => '3',
        4 => '4',
        5 => '5',
        6 => '6',
        7 => '7',
        8 => '8',
        _ => '9',
    }
}

/// A number in decimal, without leading zeros.
pub fn decimal_text(n: u64) -> (text: String)
    ensures
        text@ == decimal(n as nat),
    decreases n,
{
    if n < 10 {
        let mut text = String::new();
        text.push(digit_char(n));
        assert(text@ =~= seq![digit(n as int)]);
        text
    } else {
        let mut text = decimal_text(n / 10);
        text.push(digit_char(n % 10));
        text
    }
}

/// The value of a decimal digit.
pub open spec fn digit_value(c: char) -> int {
    c as int - '0' as int
}

/// Whether a character is a decimal digit.
pub open spec fn is_digit(c: char) -> bool {
    '0' <= c <= '9'
}

/// The number that a row of decimal digits stands for.
pub open spec fn digits_value(s: Seq<char>) -> int
    decreases s.len(),
{
    if s.len() == 0 {
        0
    } else {
        digits_value(s.drop_last()) * 10 + digit_value(s.last())
    }
}

/// Whether every character of a text is a decimal digit.
pub open spec fn all_digits(s: Seq<char>) -> bool {
    forall|i: int| 0 <= i < s.len() ==> is_digit(#[trigger] s[i])
}

/// A text without the plus sign at its beginning, if it has one.
pub open spec fn without_plus(s: Seq<char>) -> Seq<char> {
    if s.len() > 0 && s[0] == '+' {
        s.skip(1)
    } else {
        s
    }
}

/// The unsigned number that a text spells: an optional plus sign and at least one digit,
/// nothing else, with a value that fits in 64 bits.
pub open spec fn spelled_number(s: Seq<char>) -> Option<u64> {
    let digits = without_plus(s);
    if digits.len() > 0 && all_digits(digits) && digits_value(digits) <= u64::MAX {
        Some(digits_value(digits) as u64)
    } else {
        None
    }
}

proof fn lemma_digits_grow(s: Seq<char>, upto: int)
    requires
        0 <= upto <= s.len(),
        all_digits(s),
    ensures
        0 <= digits_value(s.take(upto)) <= digits_value(s),
    decreases s.len() - upto,
{
    if upto == s.len() {
        assert(s.take(upto) =~= s);
        lemma_digits_not_negative(s);
    } else {
        lemma_digits_grow(s, upto + 1);
        lemma_digits_not_negative(s.take(upto));
        assert(s.take(upto + 1).drop_last() =~= s.take(upto));
        assert(s.take(upto + 1).last() == s[upto]);
    }
}

/// Digits stand for a number that is not negative.
pub proof fn lemma_digits_not_negative(s: Seq<char>)
    requires
        all_digits(s),
    ensures
        0 <= digits_value(s),
    decreases s.len(),
{
    if s.len() > 0 {
        lemma_digits_not_negative(s.drop_last());
        assert(is_digit(s[s.len() - 1]));
    }
}

/// The unsigned number that a text spells, if it spells one that fits in 64 bits.
pub fn parse_number(s: &str) -> (number: Option<u64>)
    ensures
        number == spelled_number(s@),
{
    let chars = to_chars(s);
    let total: usize = chars.len();
    let start: usize = if total > 0 && chars[0] == '+' {
        1
    } else {
        0
    };
    let ghost digits = without_plus(s@);
    assert(digits =~= s@.skip(start as int));
    if start == total {
        return None;
    }
    let mut value: u64 = 0;
    let mut i: usize = start;
    while i < total
        invariant
            start <= i <= total,
            total == chars@.len(),
            chars@ == s@,
            digits == s@.skip(start as int),
            digits.len() == total - start,
            digits.len() > 0,
            digits == without_plus(s@),
            forall|j: int| 0 <= j < i - start ==> is_digit(#[trigger] digits[j]),
            value == digits_value(digits.take(i - start)),
        decreases total - i,
    {
        let c = chars[i];
        assert(c == digits[i - start]);
        if !('0' <= c && c <= '9') {
            return None;
        }
        let next: u64 = match c {
            '0' => 0,
            '1' => 1,
            '2' => 2,
            '3' => 3,
            '4' => 4,
            '5' => 5,
            '6' => 6,
            '7' => 7,
            '8' => 8,
            _ => 9,
        };
        assert(next == digit_value(c));
        proof {
            let upto = i - start + 1;
            assert(digits.take(upto).drop_last() =~= digits.take(i - start));
            assert(digits_value(digits.take(upto)) == value * 10 + next);
            if all_digits(digits) {
                lemma_digits_grow(digits, upto);
            }
        }
        if value > u64::MAX / 10 || value * 10 > u64::MAX - next {
            return None;
        }
        value = value * 10 + next;
        i = i + 1;
    }
    assert(digits.take(total - start) =~= digits);
    Some(value)
}

/// Reading a number back from its decimal form gives the number.
pub proof fn law_decimal_spells_number(n: nat)
    requires
        n <= u64::MAX,
    ensures
        spelled_number(decimal(n)) == Some(n as u64),
{
    lemma_decimal_digits(n);
}

/// A number in decimal consists of digits that stand for it.
pub proof fn lemma_decimal_digits(n: nat)
    ensures
        decimal(n).len() > 0,
        all_digits(decimal(n)),
        digits_value(decimal(n)) == n,
    decreases n,
{
    if n < 10 {
        assert(decimal(n).drop_last() =~= Seq::empty());
        assert(digits_value(decimal(n).drop_last()) == 0);
    } else {
        lemma_decimal_digits(n / 10);
        assert(decimal(n).drop_last() =~= decimal(n / 10));
    }
}

/// Whether `a` does not come after `b`, comparing character by character.
pub open spec fn text_le(a: Seq<char>, b: Seq<char>) -> bool
    decreases a.len(),
{
    if a.len() == 0 {
        true
    } else if b.len() == 0 {
        false
    } else if a[0] != b[0] {
        a[0] < b[0]
    } else {
        text_le(a.skip(1), b.skip(1))
    }
}

/// Whether `a` does not come after `b`, comparing character by character.
pub fn not_after(a: &str, b: &str) -> (le: bool)
    ensures
        le == text_le(a@, b@),
{
    let a_chars = to_chars(a);
    let b_chars = to_chars(b);
    let mut i: usize = 0;
    assert(a@.skip(0) =~= a@);
    assert(b@.skip(0) =~= b@);
    while i < a_chars.len() && i < b_chars.len()
        invariant
            i <= a_chars@.len(),
            i <= b_chars@.len(),
            a_chars@ == a@,
            b_chars@ == b@,
            text_le(a_chars@.skip(i as int), b_chars@.skip(i as int)) == text_le(
                a_chars@,
                b_chars@,
            ),
        decreases a_chars@.len() - i,
    {
        assert(a_chars@.skip(i as int).skip(1) =~= a_chars@.skip(i + 1));
        assert(b_chars@.skip(i as int).skip(1) =~= b_chars@.skip(i + 1));
        if a_chars[i] != b_chars[i] {
            return a_chars[i] < b_chars[i];
        }
        i = i + 1;
    }
    i == a_chars.len()
}

/// The text; empty where there is none.
pub open spec fn text_or_empty(text: Option<Seq<char>>) -> Seq<char> {
    match text {
        Some(text) => text,
        None => Seq::empty(),
    }
}

/// The text; empty where there is none.
pub fn or_empty(text: Option<String>) -> (found: String)
    ensures
        found@ == text_or_empty(text.deep_view()),
{
    match text {
        Some(text) => text,
        None => {
            let empty = String::new();
            assert(empty@ =~= Seq::empty());
            empty
        },
    }
}

/// The two texts one after the other.
pub fn cat2(a: &str, b: &str) -> (text: String)
    ensures
        text@ == a@ + b@,
{
    let mut text = a.to_string();
    text.append(b);
    text
}

/// The three texts one after the other.
pub fn cat3(a: &str, b: &str, c: &str) -> (text: String)
    ensures
        text@ == a@ + b@ + c@,
{
    let mut text = a.to_string();
    text.append(b);
    text.append(c);
    text
}

/// The four texts one after the other.
pub fn cat4(a: &str, b: &str, c: &str, d: &str) -> (text: String)
    ensures
        text@ == a@ + b@ + c@ + d@,
{
    let mut text = a.to_string();
    text.append(b);
    text.append(c);
    text.append(d);
    text
}

/// The five texts one after the other.
pub fn cat5(a: &str, b: &str, c: &str, d: &str, e: &str) -> (text: String)
    ensures
        text@ == a@ + b@ + c@ + d@ + e@,
{
    let mut text = a.to_string();
    text.append(b);
    text.append(c);
    text.append(d);
    text.append(e);
    text
}

/// The six texts one after the other.
pub fn cat6(a: &str, b: &str, c: &str, d: &str, e: &str, f: &str) -> (text: String)
    ensures
        text@ == a@ + b@ + c@ + d@ + e@ + f@,
{
    let mut text = a.to_string();
    text.append(b);
    text.append(c);
    text.append(d);
    text.append(e);
    text.append(f);
    text
}

/// The seven texts one after the other.
pub fn cat7(a: &str, b: &str, c: &str, d: &str, e: &str, f: &str, g: &str) -> (text: String)
    ensures
        text@ == a@ + b@ + c@ + d@ + e@ + f@ + g@,
{
    let mut text = a.to_string();
    text.append(b);
    text.append(c);
    text.append(d);
    text.append(e);
    text.append(f);
    text.append(g);
    text
}

/// The nine texts one after the other.
pub fn cat9(a: &str, b: &str, c: &str, d: &str, e: &str, f: &str, g: &str, h: &str, i: &str) -> (text: String)
    ensures
        text@ == a@ + b@ + c@ + d@ + e@ + f@ + g@ + h@ + i@,
{
    let mut text = a.to_string();
    text.append(b);
    text.append(c);
    text.append(d);
    text.append(e);
    text.append(f);
    text.append(g);
    text.append(h);
    text.append(i);
    text
}

} // verus!
