//! What the operations on texts and documents amount to.
use vstd::prelude::*;
use crate::http::{CredentialsView, HttpRequest, Method, PayloadView};
use crate::json::{Json, JsonView};
use crate::policy_macro::{
    policies_in_argument, split_words, words, words_so_far, AttributeArgument,
};
use crate::reading::{keys_of, text_under, value_under};
use crate::order::{sort_pairs, sort_texts};
use crate::text::{
    contains, decimal_text, digits_value, find, find_text, has_text, is_digit, is_white_space,
    join_text, lemma_find_text, lemma_join_front, not_after, occurs_at, parse_number, replace,
    replaced, split, split_text, strip_prefix, take_chars, text_le, trim, trimmed, trimmed_end,
    trimmed_start, without_plus,
};

verus! {

/// Every character is white space.
pub open spec fn is_blank(s: Seq<char>) -> bool {
    forall|i: int| 0 <= i < s.len() ==> is_white_space(#[trigger] s[i])
}

proof fn lemma_trimmed_start(s: Seq<char>)
    ensures
        ({
            let cut = s.len() - trimmed_start(s).len();
            &&& 0 <= cut <= s.len()
            &&& s.skip(cut) == trimmed_start(s)
            &&& is_blank(s.take(cut))
            &&& trimmed_start(s).len() > 0 ==> !is_white_space(trimmed_start(s)[0])
        }),
    decreases s.len(),
{
    if s.len() > 0 && is_white_space(s[0]) {
        let rest = s.skip(1);
        lemma_trimmed_start(rest);
        let cut = rest.len() - trimmed_start(rest).len();
        assert(s.skip(cut + 1) =~= rest.skip(cut));
        assert forall|i: int| 0 <= i < cut + 1 implies is_white_space(
            #[trigger] s.take(cut + 1)[i],
        ) by {
            if i > 0 {
                assert(rest.take(cut)[i - 1] == s[i]);
            }
        }
    } else {
        assert(s.skip(0) =~= s);
    }
}

proof fn lemma_trimmed_end(s: Seq<char>)
    ensures
        ({
            let kept = trimmed_end(s).len() as int;
            &&& 0 <= kept <= s.len()
            &&& s.take(kept) == trimmed_end(s)
            &&& is_blank(s.skip(kept))
            &&& kept > 0 ==> !is_white_space(trimmed_end(s).last())
        }),
    decreases s.len(),
{
    if s.len() > 0 && is_white_space(s.last()) {
        let front = s.drop_last();
        lemma_trimmed_end(front);
        let kept = trimmed_end(front).len() as int;
        assert(s.take(kept) =~= front.take(kept));
        assert forall|i: int| 0 <= i < s.len() - kept implies is_white_space(
            #[trigger] s.skip(kept)[i],
        ) by {
            if i < front.len() - kept {
                assert(front.skip(kept)[i] == s[kept + i]);
            }
        }
    } else {
        assert(s.take(s.len() as int) =~= s);
    }
}

/// Trimming a text takes off nothing but white space, at both ends, and leaves none there. A text
/// is blank exactly where nothing is left.
pub proof fn law_trimming_takes_off_white_space(s: &str, text: String)
    requires
        call_ensures(trim, (s,), text),
    ensures
        exists|before: Seq<char>, after: Seq<char>|
            s@ == #[trigger] (before + text@ + after) && is_blank(before) && is_blank(after),
        text@.len() > 0 ==> !is_white_space(text@[0]) && !is_white_space(text@.last()),
        text@.len() == 0 <==> is_blank(s@),
        text@ == trimmed(s@),
{
    lemma_trimmed_start(s@);
    let rest = trimmed_start(s@);
    lemma_trimmed_end(rest);
    let cut = s@.len() - rest.len();
    let before = s@.take(cut);
    let after = rest.skip(text@.len() as int);
    assert(s@ =~= before + text@ + after);
    if text@.len() > 0 {
        assert(text@[0] == rest[0]);
    } else {
        assert forall|i: int| 0 <= i < s@.len() implies is_white_space(#[trigger] s@[i]) by {
            if i < cut {
                assert(before[i] == s@[i]);
            } else {
                assert(after[i - cut] == s@[i]);
            }
        }
    }
    if is_blank(s@) && text@.len() > 0 {
        assert(s@[cut] == text@[0]);
    }
}

/// The beginning of a text of the given length is the text up to there, and all of it where it is
/// shorter.
pub proof fn law_beginnings_of_texts(s: &str, count: usize, text: String)
    requires
        call_ensures(take_chars, (s, count), text),
    ensures
        text@.is_prefix_of(s@),
        text@.len() <= count,
        text@.len() < count ==> text@ == s@,
{
    if s@.len() > count {
        assert(s@.subrange(0, count as int) =~= text@);
    } else {
        assert(s@.subrange(0, s@.len() as int) =~= text@);
    }
}

proof fn lemma_words_after(text: Seq<char>, c: char, rest: Seq<char>)
    requires
        is_white_space(c),
    ensures
        words_so_far(text + seq![c] + rest).0 == words(text) + words_so_far(rest).0,
        words_so_far(text + seq![c] + rest).1 == words_so_far(rest).1,
    decreases rest.len(),
{
    let all = text + seq![c] + rest;
    if rest.len() == 0 {
        assert(all.drop_last() =~= text);
        assert(all.last() == c);
        assert(words_so_far(all).0 =~= words(text) + words_so_far(rest).0);
    } else {
        lemma_words_after(text, c, rest.drop_last());
        assert(all.drop_last() =~= text + seq![c] + rest.drop_last());
        assert(all.last() == rest.last());
        let (done, word) = words_so_far(rest.drop_last());
        if is_white_space(rest.last()) && word.len() > 0 {
            assert(words_so_far(all).0 =~= words(text) + words_so_far(rest).0);
        }
    }
}

proof fn lemma_one_word(word: Seq<char>)
    requires
        forall|i: int| 0 <= i < word.len() ==> !is_white_space(#[trigger] word[i]),
    ensures
        words_so_far(word) == (Seq::<Seq<char>>::empty(), word),
    decreases word.len(),
{
    if word.len() > 0 {
        let front = word.drop_last();
        assert forall|i: int| 0 <= i < front.len() implies !is_white_space(#[trigger] front[i]) by {
            assert(front[i] == word[i]);
        }
        lemma_one_word(front);
        assert(!is_white_space(word[word.len() - 1]));
        assert(front.push(word.last()) =~= word);
    } else {
        assert(word =~= Seq::empty());
    }
}

/// A text falls into words at its white space: the words of two texts with white space between them
/// are those of the one and then those of the other. A text without white space is one word, and an
/// empty one has none.
pub proof fn law_words_stand_between_white_space(
    text: &str,
    found: Vec<String>,
    before: Seq<char>,
    c: char,
    after: Seq<char>,
)
    requires
        call_ensures(split_words, (text,), found),
    ensures
        found.deep_view() == words(text@),
        is_white_space(c) ==> words(before + seq![c] + after) == words(before) + words(after),
        text@.len() == 0 ==> found@.len() == 0,
        text@.len() > 0 && (forall|i: int|
            0 <= i < text@.len() ==> !is_white_space(#[trigger] text@[i])) ==> found.deep_view()
            == seq![text@],
{
    if is_white_space(c) {
        lemma_words_after(before, c, after);
        assert(words(before + seq![c] + after) =~= words(before) + words(after));
    }
    assert(found.deep_view().len() == found@.len());
    if forall|i: int| 0 <= i < text@.len() ==> !is_white_space(#[trigger] text@[i]) {
        lemma_one_word(text@);
        assert(text@.len() > 0 ==> words(text@) =~= seq![text@]);
    }
}

/// The policies that an argument asks for are the words of its text; an argument without a text asks
/// for none and is refused, with what was expected.
pub proof fn law_policies_are_the_words_of_the_argument(
    argument: AttributeArgument,
    policies: Result<Vec<String>, String>,
)
    requires
        call_ensures(policies_in_argument, (argument,), policies),
    ensures
        match argument {
            AttributeArgument::Text(text) => policies matches Ok(policies) && policies.deep_view()
                == words(text@),
            AttributeArgument::OtherValue => policies matches Err(fault) && fault@
                == "expected a string literal"@,
            AttributeArgument::NoValue => policies matches Err(fault) && fault@
                == "expected `policies = \"...\"`"@,
        },
{
}

/// Adding an entry to a document gives it that entry, in place of one under the same key, and
/// changes no other; what is no object stays as it is.
pub proof fn law_entries_are_added(json: Json, key: &str, value: Json, longer: Json)
    requires
        call_ensures(Json::with, (json, key, value), longer),
    ensures
        json.deep_view() is Object ==> {
            &&& value_under(longer.deep_view(), key@) == Some(value.deep_view())
            &&& keys_of(longer.deep_view()) == keys_of(json.deep_view()).insert(key@)
            &&& forall|other: Seq<char>|
                other != key@ ==> #[trigger] value_under(longer.deep_view(), other) == value_under(
                    json.deep_view(),
                    other,
                )
        },
        !(json.deep_view() is Object) ==> longer.deep_view() == json.deep_view(),
{
    if json.deep_view() is Object {
        assert(keys_of(longer.deep_view()) =~= keys_of(json.deep_view()).insert(key@));
    }
}

/// What a document has under a key is found there, and its text only where it is a text.
pub proof fn law_entries_are_found(
    json: &Json,
    key: &str,
    found: Option<&Json>,
    text: Option<String>,
    member: Json,
    copy: Json,
)
    requires
        call_ensures(Json::get, (json, key), found),
        call_ensures(Json::text_at, (json, key), text),
        call_ensures(Json::member, (json, key), member),
        call_ensures(Json::copy, (json,), copy),
    ensures
        found.deep_view() == value_under(json.deep_view(), key@),
        text.deep_view() == text_under(json.deep_view(), key@),
        member.deep_view() == (match value_under(json.deep_view(), key@) {
            Some(value) => value,
            None => JsonView::Null,
        }),
        copy.deep_view() == json.deep_view(),
{
}

/// A request is put together part by part: it has its method and its address, every header that was
/// added, in order, and the credentials and the document that were added last.
pub proof fn law_requests_are_put_together(
    method: Method,
    url: String,
    bare: HttpRequest,
    request: HttpRequest,
    name: &str,
    value: &str,
    with_header: HttpRequest,
    with_token: HttpRequest,
    with_password: HttpRequest,
    json: Json,
    with_json: HttpRequest,
)
    requires
        call_ensures(HttpRequest::new, (method, url), bare),
        call_ensures(HttpRequest::header, (request, name, value), with_header),
        call_ensures(HttpRequest::bearer, (request, value), with_token),
        call_ensures(HttpRequest::basic, (request, name, value), with_password),
        call_ensures(HttpRequest::json, (request, json), with_json),
    ensures
        bare.deep_view().method == method,
        bare.deep_view().url == url@,
        bare.deep_view().headers.len() == 0,
        bare.deep_view().credentials == CredentialsView::Anonymous,
        bare.deep_view().payload == PayloadView::Nothing,
        ({
            let before = request.deep_view();
            let headed = with_header.deep_view();
            let trusted = with_token.deep_view();
            let known = with_password.deep_view();
            let loaded = with_json.deep_view();
            &&& headed.method == before.method && headed.url == before.url
            &&& headed.credentials == before.credentials && headed.payload == before.payload
            &&& headed.headers.len() == before.headers.len() + 1
            &&& headed.headers.drop_last() == before.headers
            &&& headed.headers.last() == (name@, value@)
            &&& trusted.method == before.method && trusted.url == before.url
            &&& trusted.headers == before.headers && trusted.payload == before.payload
            &&& trusted.credentials == CredentialsView::Bearer(value@)
            &&& known.method == before.method && known.url == before.url
            &&& known.headers == before.headers && known.payload == before.payload
            &&& known.credentials == CredentialsView::Basic(name@, value@)
            &&& loaded.method == before.method && loaded.url == before.url
            &&& loaded.headers == before.headers && loaded.credentials == before.credentials
            &&& loaded.payload == PayloadView::Json(json.deep_view())
        }),
{
    assert(with_header.deep_view().headers.drop_last() =~= request.deep_view().headers);
}

proof fn lemma_split_pieces(s: Seq<char>, pattern: Seq<char>)
    requires
        pattern.len() > 0,
    ensures
        split_text(s, pattern).len() > 0,
        join_text(split_text(s, pattern), pattern) == s,
        forall|i: int|
            0 <= i < split_text(s, pattern).len() ==> !has_text(
                #[trigger] split_text(s, pattern)[i],
                pattern,
            ),
    decreases s.len(),
{
    let pieces = split_text(s, pattern);
    if has_text(s, pattern) {
        lemma_find_text(s, pattern);
        let at = find_text(s, pattern)->0;
        let rest = s.skip(at + pattern.len());
        lemma_split_pieces(rest, pattern);
        let tail = split_text(rest, pattern);
        assert(pieces == seq![s.take(at)] + tail);
        lemma_join_front(pieces, pattern);
        assert(pieces.skip(1) =~= tail);
        assert(s.subrange(at, at + pattern.len()) == pattern);
        assert(s =~= s.take(at) + pattern + rest);
        assert forall|i: int| 0 <= i < pieces.len() implies !has_text(
            #[trigger] pieces[i],
            pattern,
        ) by {
            if i > 0 {
                assert(pieces[i] == tail[i - 1]);
            } else if has_text(pieces[0], pattern) {
                let j = choose|j: int| occurs_at(pieces[0], pattern, j);
                assert(s.subrange(j, j + pattern.len()) =~= pieces[0].subrange(
                    j,
                    j + pattern.len(),
                ));
                assert(occurs_at(s, pattern, j));
            }
        }
    }
}

/// A text is split into the pieces between a pattern: they hold it no longer, and joined by it they
/// are the text again.
pub proof fn law_texts_are_split(s: &str, pattern: &str, pieces: Vec<String>)
    requires
        pattern@.len() > 0,
        call_ensures(split, (s, pattern), pieces),
    ensures
        pieces@.len() > 0,
        join_text(pieces.deep_view(), pattern@) == s@,
        forall|i: int|
            0 <= i < pieces@.len() ==> !has_text(#[trigger] pieces.deep_view()[i], pattern@),
{
    lemma_split_pieces(s@, pattern@);
}

/// A pattern is found where it stands first, and it is held exactly where it is found. A prefix is
/// stripped exactly where the text begins with it.
pub proof fn law_patterns_are_found(
    s: &str,
    pattern: &str,
    found: Option<usize>,
    held: bool,
    rest: Option<String>,
)
    requires
        call_ensures(find, (s, pattern), found),
        call_ensures(contains, (s, pattern), held),
        call_ensures(strip_prefix, (s, pattern), rest),
    ensures
        held <==> exists|before: Seq<char>, after: Seq<char>|
            s@ == #[trigger] (before + pattern@ + after),
        found is Some <==> held,
        found matches Some(at) ==> at + pattern@.len() <= s@.len() && s@ == s@.take(at as int)
            + pattern@ + s@.skip(at + pattern@.len()),
        found matches Some(at) ==> forall|before: Seq<char>, after: Seq<char>|
            s@ == #[trigger] (before + pattern@ + after) ==> before.len() >= at,
        rest matches Some(rest) ==> s@ == pattern@ + rest@,
        rest is None ==> forall|other: Seq<char>| s@ != #[trigger] (pattern@ + other),
{
    if held {
        lemma_find_text(s@, pattern@);
        let at = find_text(s@, pattern@)->0;
        assert(s@ =~= s@.take(at) + pattern@ + s@.skip(at + pattern@.len()));
    }
    assert forall|before: Seq<char>, after: Seq<char>|
        s@ == #[trigger] (before + pattern@ + after) implies occurs_at(
        s@,
        pattern@,
        before.len() as int,
    ) by {
        let at = before.len() as int;
        assert(s@.subrange(at, at + pattern@.len()) =~= pattern@);
    }
    if let Some(rest) = rest {
        assert(s@ =~= pattern@ + rest@);
    } else {
        assert forall|other: Seq<char>| s@ != #[trigger] (pattern@ + other) by {
            if s@ == pattern@ + other {
                assert(s@.subrange(0, pattern@.len() as int) =~= pattern@);
            }
        }
    }
}

/// A character is exchanged everywhere and nothing else is: the exchange goes part by part.
pub proof fn law_characters_are_exchanged(
    a: Seq<char>,
    b: Seq<char>,
    s: &str,
    c: char,
    with: &str,
    text: String,
)
    requires
        call_ensures(replace, (s, c, with), text),
        s@ == a + b,
    ensures
        text@ == replaced(a, c, with@) + replaced(b, c, with@),
        s@ == seq![c] ==> text@ == with@,
        !s@.contains(c) ==> text@ == s@,
{
    lemma_replaced_parts(a, b, c, with@);
    if s@ == seq![c] {
        assert(s@.drop_last() =~= Seq::empty());
        assert(replaced(s@.drop_last(), c, with@) =~= Seq::empty());
        assert(text@ =~= with@);
    }
    if !s@.contains(c) {
        lemma_replaced_nothing(s@, c, with@);
    }
}

proof fn lemma_replaced_parts(a: Seq<char>, b: Seq<char>, c: char, with: Seq<char>)
    ensures
        replaced(a + b, c, with) == replaced(a, c, with) + replaced(b, c, with),
    decreases b.len(),
{
    if b.len() == 0 {
        assert(a + b =~= a);
        assert(replaced(a, c, with) + replaced(b, c, with) =~= replaced(a, c, with));
    } else {
        lemma_replaced_parts(a, b.drop_last(), c, with);
        assert((a + b).drop_last() =~= a + b.drop_last());
        assert((a + b).last() == b.last());
        assert(replaced(a + b, c, with) =~= replaced(a, c, with) + replaced(b, c, with));
    }
}

proof fn lemma_replaced_nothing(s: Seq<char>, c: char, with: Seq<char>)
    requires
        !s.contains(c),
    ensures
        replaced(s, c, with) == s,
    decreases s.len(),
{
    if s.len() > 0 {
        assert(!s.drop_last().contains(c)) by {
            if s.drop_last().contains(c) {
                let i = s.drop_last().index_of(c);
                assert(s[i] == c);
            }
        }
        lemma_replaced_nothing(s.drop_last(), c, with);
        assert(s[s.len() - 1] != c);
        assert(replaced(s, c, with) =~= s);
    } else {
        assert(s =~= Seq::empty());
    }
}

/// A number that is written is read again. A text with another digit at its end stands for ten times
/// the number and the digit, where that fits; a text with anything but digits, and one without any,
/// stands for none.
pub proof fn law_numbers_are_read(
    n: u64,
    written: String,
    text: &str,
    read: Option<u64>,
    s: &str,
    number: Option<u64>,
    longer: &str,
    c: char,
    next: Option<u64>,
)
    requires
        call_ensures(decimal_text, (n,), written),
        text@ == written@,
        call_ensures(parse_number, (text,), read),
        call_ensures(parse_number, (s,), number),
        longer@ == s@.push(c),
        call_ensures(parse_number, (longer,), next),
    ensures
        read == Some(n),
        s@.len() == 0 ==> number is None,
        !('0' <= c <= '9') ==> next is None,
        '0' <= c <= '9' ==> (number matches Some(known) ==> {
            let value = known * 10 + (c as int - '0' as int);
            next == (if value <= u64::MAX {
                Some(value as u64)
            } else {
                None
            })
        }),
{
    crate::text::law_decimal_spells_number(n as nat);
    let digits = without_plus(s@);
    let more = without_plus(longer@);
    if s@.len() > 0 {
        assert(more =~= digits.push(c));
        assert(more.drop_last() =~= digits);
        if number is Some && '0' <= c <= '9' {
            assert forall|i: int| 0 <= i < more.len() implies is_digit(#[trigger] more[i]) by {
                if i < digits.len() {
                    assert(more[i] == digits[i]);
                }
            }
            crate::text::lemma_digits_not_negative(digits);
            assert(digits_value(more) == digits_value(digits) * 10 + (c as int - '0' as int));
        }
    }
    if !('0' <= c <= '9') {
        if more.len() > 0 {
            assert(more.last() == c);
            assert(!is_digit(more[more.len() - 1]));
        }
    }
}

proof fn lemma_common_front(front: Seq<char>, a: Seq<char>, b: Seq<char>)
    ensures
        text_le(front + a, front + b) == text_le(a, b),
    decreases front.len(),
{
    if front.len() == 0 {
        assert(front + a =~= a);
        assert(front + b =~= b);
    } else {
        let rest = front.skip(1);
        lemma_common_front(rest, a, b);
        assert((front + a).skip(1) =~= rest + a);
        assert((front + b).skip(1) =~= rest + b);
    }
}

/// Texts are ordered by the first character in which they differ, and a text comes before every
/// longer one that begins with it.
pub proof fn law_texts_are_ordered(
    front: Seq<char>,
    more: Seq<char>,
    other: Seq<char>,
    a: &str,
    b: &str,
    le: bool,
)
    requires
        call_ensures(not_after, (a, b), le),
        a@ == front + more,
        b@ == front + other,
    ensures
        more.len() == 0 ==> le,
        more.len() > 0 && other.len() == 0 ==> !le,
        more.len() > 0 && other.len() > 0 && more[0] != other[0] ==> le == (more[0] < other[0]),
{
    lemma_common_front(front, more, other);
}

/// Sorting changes the order of texts and of pairs and nothing else, and then none comes after its
/// successors; pairs go by the first text, and then by the second.
pub proof fn law_sorted_texts_are_in_order(
    texts: Vec<String>,
    sorted: Vec<String>,
    pairs: &Vec<(String, String)>,
    sorted_pairs: Vec<(String, String)>,
    i: int,
    j: int,
)
    requires
        call_ensures(sort_texts, (texts,), sorted),
        call_ensures(sort_pairs, (pairs,), sorted_pairs),
    ensures
        sorted.deep_view().to_multiset() == texts.deep_view().to_multiset(),
        sorted_pairs.deep_view().to_multiset() == pairs.deep_view().to_multiset(),
        0 <= i < j < sorted@.len() ==> text_le(sorted.deep_view()[i], sorted.deep_view()[j]),
        0 <= i < j < sorted_pairs@.len() ==> {
            let a = sorted_pairs.deep_view()[i];
            let b = sorted_pairs.deep_view()[j];
            &&& text_le(a.0, b.0)
            &&& a.0 == b.0 ==> text_le(a.1, b.1)
        },
{
    let text_order = crate::order::text_order();
    let pair_order = crate::order::pair_order();
    crate::order::lemma_text_order();
    crate::order::lemma_pair_order();
    texts.deep_view().lemma_sort_by_ensures(text_order);
    pairs.deep_view().lemma_sort_by_ensures(pair_order);
    if 0 <= i < j < sorted@.len() {
        assert(text_order(sorted.deep_view()[i], sorted.deep_view()[j]));
    }
    if 0 <= i < j < sorted_pairs@.len() {
        let a = sorted_pairs.deep_view()[i];
        let b = sorted_pairs.deep_view()[j];
        assert(pair_order(a, b));
        assert(text_order(a.0, a.0));
    }
}

} // verus!
