//! Learning the type and the size of a content from the headers of a reply.
use vstd::prelude::*;
use crate::error::{outcome, ErrorReport, ErrorView, ServiceError};
use crate::text::{parse_number, spelled_number};
use crate::types::{ContentHeadInfo, HeadInfoView};

verus! {

/// The headers of a reply that describe its content, where they are there and readable.
#[derive(Debug)]
pub struct ContentHeaders {
    pub content_type: Option<String>,
    pub content_length: Option<String>,
}

pub struct ContentHeadersView {
    pub content_type: Option<Seq<char>>,
    pub content_length: Option<Seq<char>>,
}

impl DeepView for ContentHeaders {
    type V = ContentHeadersView;

    open spec fn deep_view(&self) -> ContentHeadersView {
        ContentHeadersView {
            content_type: self.content_type.deep_view(),
            content_length: self.content_length.deep_view(),
        }
    }
}

/// The size that a header spells; zero where it spells none.
pub open spec fn size_of_header(content_length: Option<Seq<char>>) -> u64 {
    match content_length {
        Some(text) => match spelled_number(text) {
            Some(size) => size,
            None => 0,
        },
        None => 0,
    }
}

/// What the headers of a reply say of its content.
pub open spec fn described_content(headers: ContentHeadersView) -> HeadInfoView {
    HeadInfoView {
        mime_type: match headers.content_type {
            Some(mime_type) => mime_type,
            None => ""@,
        },
        size: size_of_header(headers.content_length),
        filename: None,
    }
}

/// What the headers of a reply say of its content.
pub fn content_from_headers(headers: ContentHeaders) -> (info: ContentHeadInfo)
    ensures
        info.deep_view() == described_content(headers.deep_view()),
{
    let size: u64 = match headers.content_length {
        Some(text) => match parse_number(text.as_str()) {
            Some(size) => size,
            None => 0,
        },
        None => 0,
    };
    let mime_type = match headers.content_type {
        Some(mime_type) => mime_type,
        None => "".to_string(),
    };
    ContentHeadInfo { mime_type, size, filename: None }
}

/// What a reply, or the lack of one, says of a content.
pub open spec fn head_outcome(reply: Result<ContentHeaders, ErrorReport>) -> Result<
    HeadInfoView,
    ErrorView,
> {
    match reply {
        Ok(headers) => Ok(described_content(headers.deep_view())),
        Err(report) => Err(ErrorView::ReqwestError(report.deep_view())),
    }
}

/// Reads a reply that describes a content. A reply with a status of failure comes as an error.
pub fn read_head_reply(reply: Result<ContentHeaders, ErrorReport>) -> (info: Result<
    ContentHeadInfo,
    ServiceError,
>)
    ensures
        outcome(info) == head_outcome(reply),
{
    match reply {
        Ok(headers) => Ok(content_from_headers(headers)),
        Err(report) => Err(ServiceError::ReqwestError(report)),
    }
}

/// What the results of several operations say.
pub open spec fn outcomes<T: DeepView>(results: Seq<Result<T, ServiceError>>) -> Seq<
    Result<<T as DeepView>::V, ErrorView>,
> {
    results.map_values(|result: Result<T, ServiceError>| outcome(result))
}

/// All the values, or the first error.
pub open spec fn collected<V>(results: Seq<Result<V, ErrorView>>) -> Result<Seq<V>, ErrorView>
    decreases results.len(),
{
    if results.len() == 0 {
        Ok(Seq::empty())
    } else {
        match collected(results.drop_last()) {
            Err(error) => Err(error),
            Ok(values) => match results.last() {
                Ok(value) => Ok(values.push(value)),
                Err(error) => Err(error),
            },
        }
    }
}

/// All the values, or the first error.
pub fn collect_results<T: DeepView>(results: Vec<Result<T, ServiceError>>) -> (collection: Result<
    Vec<T>,
    ServiceError,
>)
    ensures
        outcome(collection) == collected(outcomes(results@)),
{
    let ghost all = outcomes(results@);
    let mut values: Vec<T> = Vec::new();
    assert(values.deep_view() =~= Seq::empty());
    assert(all.take(0) =~= Seq::empty());
    for result in iter: results
        invariant
            iter.seq() == results@,
            all == outcomes(results@),
            collected(all.take(iter.index() as int)) == Ok::<
                Seq<<T as DeepView>::V>,
                ErrorView,
            >(values.deep_view()),
    {
        let ghost at = iter.index() as int;
        let ghost known = values.deep_view();
        proof {
            assert(all.take(at + 1).drop_last() =~= all.take(at));
            assert(all.take(at + 1).last() == outcome(result));
        }
        match result {
            Ok(value) => {
                values.push(value);
                assert(values.deep_view() =~= known.push(value.deep_view()));
            },
            Err(error) => {
                proof {
                    lemma_error_stays(all, at + 1);
                }
                return Err(error);
            },
        }
    }
    assert(all.take(all.len() as int) =~= all);
    Ok(values)
}

proof fn lemma_error_stays<V>(results: Seq<Result<V, ErrorView>>, upto: int)
    requires
        0 <= upto <= results.len(),
        collected(results.take(upto)) is Err,
    ensures
        collected(results) == collected(results.take(upto)),
    decreases results.len() - upto,
{
    if upto < results.len() {
        assert(results.take(upto + 1).drop_last() =~= results.take(upto));
        lemma_error_stays(results, upto + 1);
    } else {
        assert(results.take(upto) =~= results);
    }
}

/// Where all values were collected, each stands where its result stood.
pub proof fn lemma_collected<V>(results: Seq<Result<V, ErrorView>>)
    ensures
        collected(results) matches Ok(values) ==> values.len() == results.len() && forall|i: int|
            0 <= i < values.len() ==> results[i] == Ok::<V, ErrorView>(#[trigger] values[i]),
    decreases results.len(),
{
    if results.len() > 0 {
        lemma_collected(results.drop_last());
        if let Ok(values) = collected(results) {
            let known = collected(results.drop_last())->Ok_0;
            assert forall|i: int| 0 <= i < values.len() implies results[i] == Ok::<V, ErrorView>(
                #[trigger] values[i],
            ) by {
                if i < known.len() {
                    assert(values[i] == known[i]);
                    assert(results.drop_last()[i] == results[i]);
                }
            }
        }
    }
}

/// Where every result is a value, all of them are collected.
pub proof fn lemma_all_collected<V>(results: Seq<Result<V, ErrorView>>)
    requires
        forall|i: int| 0 <= i < results.len() ==> (#[trigger] results[i]) is Ok,
    ensures
        collected(results) is Ok,
    decreases results.len(),
{
    if results.len() > 0 {
        let rest = results.drop_last();
        assert forall|i: int| 0 <= i < rest.len() implies (#[trigger] rest[i]) is Ok by {
            assert(rest[i] == results[i]);
        }
        lemma_all_collected(rest);
        assert(results[results.len() - 1] is Ok);
    }
}

/// Where nothing was collected, the error is that of one of the results.
pub proof fn lemma_collected_error<V>(results: Seq<Result<V, ErrorView>>)
    requires
        collected(results) is Err,
    ensures
        exists|i: int|
            0 <= i < results.len() && #[trigger] results[i] == Err::<V, ErrorView>(
                collected(results)->Err_0,
            ),
    decreases results.len(),
{
    let rest = results.drop_last();
    if collected(rest) is Err {
        lemma_collected_error(rest);
        let i = choose|i: int|
            0 <= i < rest.len() && #[trigger] rest[i] == Err::<V, ErrorView>(
                collected(rest)->Err_0,
            );
        assert(results[i] == rest[i]);
    } else {
        assert(results[results.len() - 1] == results.last());
    }
}

/// Results come to all their values, in order, exactly where all of them are values, and otherwise
/// to the first error.
pub proof fn law_the_first_error_counts<T: DeepView>(
    results: Vec<Result<T, ServiceError>>,
    collection: Result<Vec<T>, ServiceError>,
    at: int,
)
    requires
        call_ensures(collect_results::<T>, (results,), collection),
        0 <= at < results@.len(),
        forall|i: int| 0 <= i < at ==> (#[trigger] results@[i]) is Ok,
    ensures
        results@[at] matches Err(error) ==> (collection matches Err(found) && found.deep_view()
            == error.deep_view()),
        collection matches Ok(values) ==> (values@.len() == results@.len() && (results@[at]
            matches Ok(value) && values@[at].deep_view() == value.deep_view())),
        at == results@.len() - 1 && results@[at] is Ok ==> collection is Ok,
{
    let all = outcomes(results@);
    assert(all[at] == outcome(results@[at]));
    if let Ok(values) = collection {
        lemma_collected(all);
        assert(values.deep_view().len() == values@.len());
        assert(values.deep_view()[at] == values@[at].deep_view());
    }
    if results@[at] is Err {
        let front = all.take(at);
        assert forall|i: int| 0 <= i < front.len() implies (#[trigger] front[i]) is Ok by {
            assert(results@[i] is Ok);
        }
        lemma_all_collected(front);
        assert(all.take(at + 1).drop_last() =~= front);
        assert(all.take(at + 1).last() == all[at]);
        lemma_error_stays(all, at + 1);
    } else if at == results@.len() - 1 {
        assert forall|i: int| 0 <= i < all.len() implies (#[trigger] all[i]) is Ok by {
            assert(results@[i] is Ok);
        }
        lemma_all_collected(all);
    }
}

/// A reply to a request for headers describes the content by them, and a failure is reported as it
/// is.
pub proof fn law_head_replies_describe_contents(
    reply: Result<ContentHeaders, ErrorReport>,
    info: Result<ContentHeadInfo, ServiceError>,
)
    requires
        call_ensures(read_head_reply, (reply,), info),
    ensures
        reply matches Err(report) ==> (info matches Err(ServiceError::ReqwestError(found))
            && found.deep_view() == report.deep_view()),
        reply matches Ok(headers) ==> (info matches Ok(info) && {
            &&& info.filename is None
            &&& info.mime_type@ == (match headers.content_type {
                Some(mime_type) => mime_type@,
                None => Seq::empty(),
            })
            &&& match headers.content_length {
                Some(text) => match spelled_number(text@) {
                    Some(size) => info.size == size,
                    None => info.size == 0,
                },
                None => info.size == 0,
            }
        }),
{
    reveal_strlit("");
    assert(""@ =~= Seq::empty());
}

} // verus!
