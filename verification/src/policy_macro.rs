//! What `#[require_policies(policies = "...")]` asks for: the policies that a caller needs before
//! a method runs.
use vstd::prelude::*;
use crate::text::{is_white_space, to_chars};

verus! {

/// The argument of an attribute.
#[derive(Debug)]
pub enum AttributeArgument {
    /// A name and a text.
    Text(String),
    /// A name and a value of another kind.
    OtherValue,
    /// Anything else.
    NoValue,
}

pub enum ArgumentView {
    Text(Seq<char>),
    OtherValue,
    NoValue,
}

impl DeepView for AttributeArgument {
    type V = ArgumentView;

    open spec fn deep_view(&self) -> ArgumentView {
        match self {
            AttributeArgument::Text(text) => ArgumentView::Text(text@),
            AttributeArgument::OtherValue => ArgumentView::OtherValue,
            AttributeArgument::NoValue => ArgumentView::NoValue,
        }
    }
}

/// The argument that a text spells, if it spells one.
pub uninterp spec fn parsed_argument(text: Seq<char>) -> Option<ArgumentView>;

/// The argument that was found, if one was.
pub open spec fn found_argument(parsed: Result<AttributeArgument, String>) -> Option<ArgumentView> {
    match parsed {
        Ok(argument) => Some(argument.deep_view()),
        Err(_) => None,
    }
}

/// `syn::parse_str` into a `syn::Meta`, of which a name with a text, a name with another value,
/// and everything else are told apart. How it words an error is left open.
#[verifier::external_body]
fn parse_argument(text: &str) -> (parsed: Result<AttributeArgument, String>)
    ensures
        found_argument(parsed) == parsed_argument(text@),
{
    match syn::parse_str::<syn::Meta>(text) {
        Ok(syn::Meta::NameValue(pair)) => match pair.value {
            syn::Expr::Lit(syn::ExprLit { lit: syn::Lit::Str(value), .. }) => {
                Ok(AttributeArgument::Text(value.value()))
            },
            _ => Ok(AttributeArgument::OtherValue),
        },
        Ok(_) => Ok(AttributeArgument::NoValue),
        Err(err) => Err(err.to_string()),
    }
}

/// The text of an argument, or what is wrong with it.
pub open spec fn argument_text(argument: ArgumentView) -> Result<Seq<char>, Seq<char>> {
    match argument {
        ArgumentView::Text(text) => Ok(text),
        ArgumentView::OtherValue => Err("expected a string literal"@),
        ArgumentView::NoValue => Err("expected `policies = \"...\"`"@),
    }
}

/// The text of an argument, or what is wrong with it.
pub fn extract_str_literal(argument: AttributeArgument) -> (text: Result<String, String>)
    ensures
        match text {
            Ok(text) => argument_text(argument.deep_view()) == Ok::<Seq<char>, Seq<char>>(text@),
            Err(fault) => argument_text(argument.deep_view()) == Err::<Seq<char>, Seq<char>>(
                fault@,
            ),
        },
{
    match argument {
        AttributeArgument::Text(text) => Ok(text),
        AttributeArgument::OtherValue => Err("expected a string literal".to_string()),
        AttributeArgument::NoValue => Err("expected `policies = \"...\"`".to_string()),
    }
}

/// The words that are complete at the end of a text, and the one that is not.
pub open spec fn words_so_far(text: Seq<char>) -> (Seq<Seq<char>>, Seq<char>)
    decreases text.len(),
{
    if text.len() == 0 {
        (Seq::empty(), Seq::empty())
    } else {
        let (done, word) = words_so_far(text.drop_last());
        if !is_white_space(text.last()) {
            (done, word.push(text.last()))
        } else if word.len() == 0 {
            (done, word)
        } else {
            (done.push(word), Seq::empty())
        }
    }
}

/// The words of a text: what stands between white space.
pub open spec fn words(text: Seq<char>) -> Seq<Seq<char>> {
    let (done, word) = words_so_far(text);
    if word.len() == 0 {
        done
    } else {
        done.push(word)
    }
}

/// The words of a text.
pub fn split_words(text: &str) -> (found: Vec<String>)
    ensures
        found.deep_view() == words(text@),
{
    let chars = to_chars(text);
    let mut found: Vec<String> = Vec::new();
    let mut word = String::new();
    let mut i: usize = 0;
    assert(chars@.take(0) =~= Seq::empty());
    assert(found.deep_view() =~= Seq::empty());
    assert(word@ =~= Seq::empty());
    while i < chars.len()
        invariant
            i <= chars@.len(),
            found.deep_view() == words_so_far(chars@.take(i as int)).0,
            word@ == words_so_far(chars@.take(i as int)).1,
        decreases chars@.len() - i,
    {
        let ghost known = found.deep_view();
        let ghost upto = chars@.take(i + 1);
        proof {
            assert(upto.drop_last() =~= chars@.take(i as int));
            assert(upto.last() == chars@[i as int]);
        }
        let c: char = chars[i];
        if !c.is_whitespace() {
            word.push(c);
        } else if !word.as_str().is_empty() {
            let ghost complete = word@;
            found.push(word);
            word = String::new();
            assert(word@ =~= Seq::empty());
            assert(found.deep_view() =~= known.push(complete));
        }
        i += 1;
    }
    assert(chars@.take(i as int) =~= text@);
    if !word.as_str().is_empty() {
        let ghost known = found.deep_view();
        let ghost complete = word@;
        found.push(word);
        assert(found.deep_view() =~= known.push(complete));
    }
    found
}

/// The policies that an argument lists.
pub open spec fn listed_policies(argument: ArgumentView) -> Result<Seq<Seq<char>>, Seq<char>> {
    match argument_text(argument) {
        Ok(text) => Ok(words(text)),
        Err(fault) => Err(fault),
    }
}

/// The policies that an argument lists.
pub fn policies_in_argument(argument: AttributeArgument) -> (policies: Result<Vec<String>, String>)
    ensures
        match policies {
            Ok(policies) => listed_policies(argument.deep_view()) == Ok::<
                Seq<Seq<char>>,
                Seq<char>,
            >(policies.deep_view()),
            Err(fault) => listed_policies(argument.deep_view()) == Err::<
                Seq<Seq<char>>,
                Seq<char>,
            >(fault@),
        },
{
    match extract_str_literal(argument) {
        Ok(text) => Ok(split_words(text.as_str())),
        Err(fault) => Err(fault),
    }
}

/// The policies that the attribute with the given argument asks for, or what is wrong with the
/// argument. How a text that is no argument is complained of is left to the parser.
pub fn required_policies(attribute: &str) -> (policies: Result<Vec<String>, String>)
    ensures
        match parsed_argument(attribute@) {
            Some(argument) => match policies {
                Ok(policies) => listed_policies(argument) == Ok::<Seq<Seq<char>>, Seq<char>>(
                    policies.deep_view(),
                ),
                Err(fault) => listed_policies(argument) == Err::<Seq<Seq<char>>, Seq<char>>(
                    fault@,
                ),
            },
            None => policies is Err,
        },
{
    match parse_argument(attribute) {
        Ok(argument) => policies_in_argument(argument),
        Err(fault) => Err(fault),
    }
}

/// A word is not empty and holds no white space.
pub open spec fn is_word(word: Seq<char>) -> bool {
    &&& word.len() > 0
    &&& forall|i: int| 0 <= i < word.len() ==> !is_white_space(#[trigger] word[i])
}

proof fn lemma_words_so_far(text: Seq<char>)
    ensures
        forall|i: int|
            0 <= i < words_so_far(text).0.len() ==> is_word(#[trigger] words_so_far(text).0[i]),
        words_so_far(text).1.len() > 0 ==> is_word(words_so_far(text).1),
    decreases text.len(),
{
    if text.len() > 0 {
        lemma_words_so_far(text.drop_last());
    }
}

/// Every policy that is listed is a word.
pub proof fn law_policies_are_words(argument: ArgumentView)
    ensures
        listed_policies(argument) matches Ok(policies) ==> forall|i: int|
            0 <= i < policies.len() ==> is_word(#[trigger] policies[i]),
{
    if let Ok(text) = argument_text(argument) {
        lemma_words_so_far(text);
    }
}

} // verus!
