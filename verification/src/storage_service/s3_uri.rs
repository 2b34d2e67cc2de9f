//! URIs of objects in S3 buckets.
use vstd::prelude::*;
use crate::error::{outcome, ErrorView, ServiceError};
use crate::text::{
    after_last, cat3, cat4, find, find_text, first_at, from_chars, lemma_find_text, occurs_at,
    strip_prefix, text_after_last, to_chars,
};

verus! {

/// The parts of the URI of an object.
#[derive(Debug)]
pub struct AwsS3Uri {
    pub bucket_name: String,
    pub object_key: String,
    pub filename: String,
}

pub struct AwsS3UriView {
    pub bucket_name: Seq<char>,
    pub object_key: Seq<char>,
    pub filename: Seq<char>,
}

impl DeepView for AwsS3Uri {
    type V = AwsS3UriView;

    open spec fn deep_view(&self) -> AwsS3UriView {
        AwsS3UriView {
            bucket_name: self.bucket_name@,
            object_key: self.object_key@,
            filename: self.filename@,
        }
    }
}

/// The error for a text that is not the URI of an object.
pub open spec fn s3_uri_error(uri: Seq<char>) -> ErrorView {
    ErrorView::InvalidRequestParameters("Invalid AWS S3 URI ["@ + uri + "] format"@)
}

/// The parts of the URI of an object: after the scheme, the bucket up to the first slash and
/// the key after it. The filename is what follows the last slash.
pub open spec fn s3_parts(uri: Seq<char>) -> Result<AwsS3UriView, ErrorView> {
    if !"s3://"@.is_prefix_of(uri) {
        Err(s3_uri_error(uri))
    } else {
        let rest = uri.skip("s3://"@.len() as int);
        match find_text(rest, "/"@) {
            None => Err(s3_uri_error(uri)),
            Some(at) => Ok(
                AwsS3UriView {
                    bucket_name: rest.take(at),
                    object_key: rest.skip(at + 1),
                    filename: after_last(rest, '/'),
                },
            ),
        }
    }
}

/// The URI of an object.
pub open spec fn s3_uri(bucket_name: Seq<char>, object_key: Seq<char>) -> Seq<char> {
    "s3://"@ + bucket_name + "/"@ + object_key
}

/// The URI of an object.
pub fn object_uri(bucket_name: &str, object_key: &str) -> (uri: String)
    ensures
        uri@ == s3_uri(bucket_name@, object_key@),
{
    cat4("s3://", bucket_name, "/", object_key)
}

impl AwsS3Uri {
    fn refuse(uri: &str) -> (result: Result<Self, ServiceError>)
        ensures
            result matches Err(error) && error.deep_view() == s3_uri_error(uri@),
    {
        Err(ServiceError::InvalidRequestParameters(cat3("Invalid AWS S3 URI [", uri, "] format")))
    }

    /// Takes the URI of an object apart.
    pub fn parse(uri: &str) -> (parts: Result<Self, ServiceError>)
        ensures
            outcome(parts) == s3_parts(uri@),
    {
        let rest = match strip_prefix(uri, "s3://") {
            Some(rest) => rest,
            None => {
                return Self::refuse(uri);
            },
        };
        let at: usize = match find(rest.as_str(), "/") {
            Some(at) => at,
            None => {
                return Self::refuse(uri);
            },
        };
        proof {
            reveal_strlit("/");
            lemma_find_text(rest@, "/"@);
        }
        let chars = to_chars(rest.as_str());
        let total: usize = chars.len();
        assert(at + 1 <= total);
        let bucket_name = from_chars(&chars, 0, at);
        let object_key = from_chars(&chars, at + 1, total);
        let filename = text_after_last(rest.as_str(), '/');
        Ok(AwsS3Uri { bucket_name, object_key, filename })
    }

    /// Whether a text is the URI of an object.
    pub fn is_valid(uri: &str) -> (valid: bool)
        ensures
            valid == (s3_parts(uri@) is Ok),
    {
        Self::parse(uri).is_ok()
    }
}

/// The URI of an object has the bucket and the key that it was made of, where no bucket name
/// holds a slash.
pub proof fn law_parts_of_uri(bucket_name: Seq<char>, object_key: Seq<char>)
    requires
        !bucket_name.contains('/'),
    ensures
        s3_parts(s3_uri(bucket_name, object_key)) matches Ok(parts) && parts.bucket_name
            == bucket_name && parts.object_key == object_key,
{
    reveal_strlit("s3://");
    reveal_strlit("/");
    let uri = s3_uri(bucket_name, object_key);
    let rest = uri.skip(5);
    let at = bucket_name.len() as int;
    assert(uri.subrange(0, 5) =~= "s3://"@);
    assert(rest =~= bucket_name + "/"@ + object_key);
    assert(occurs_at(rest, "/"@, at)) by {
        assert(rest.subrange(at, at + 1) =~= "/"@);
    }
    assert forall|j: int| j < at implies !occurs_at(rest, "/"@, j) by {
        if occurs_at(rest, "/"@, j) {
            assert(rest.subrange(j, j + 1)[0] == '/');
            assert(bucket_name[j] == '/');
        }
    }
    assert(first_at(rest, "/"@, at));
    lemma_find_text(rest, "/"@);
    assert(rest.take(at) =~= bucket_name);
    assert(rest.skip(at + 1) =~= object_key);
}

/// A URI is the one of its bucket and its key.
pub proof fn law_uri_of_parts(uri: Seq<char>)
    ensures
        s3_parts(uri) matches Ok(parts) ==> s3_uri(parts.bucket_name, parts.object_key) == uri,
{
    reveal_strlit("s3://");
    reveal_strlit("/");
    if let Ok(parts) = s3_parts(uri) {
        let rest = uri.skip(5);
        lemma_find_text(rest, "/"@);
        let at = find_text(rest, "/"@)->0;
        assert(rest.subrange(at, at + 1) == "/"@);
        assert(rest =~= parts.bucket_name + "/"@ + parts.object_key);
        assert(uri =~= "s3://"@ + rest);
        assert(uri =~= s3_uri(parts.bucket_name, parts.object_key));
    }
}

} // verus!
