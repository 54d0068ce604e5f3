//! What a query can fail with, and how a failure reads.

use vstd::prelude::*;

verus! {

/// One message of the registry about a request that it turned down.
#[derive(Debug, Clone, PartialEq, Eq)]
pub struct ErrorDetail {
    pub detail: String,
}

/// The registry's answer to a request that it turned down: its messages, in
/// the order in which it gave them.
#[derive(Debug, Clone, PartialEq, Eq)]
pub struct GetCrateErrorResponse {
    pub errors: Vec<ErrorDetail>,
}

/// A transfer that gave no usable answer: the request failed, or what came
/// back could not be read. `message` is the cause in words.
#[derive(Debug, Clone, PartialEq, Eq)]
pub struct TransportError {
    pub message: String,
}

/// Why a query gave no answer.
#[derive(Debug, Clone, PartialEq, Eq)]
pub enum GetCrateError {
    /// No answer of a known shape arrived.
    Reqwest(TransportError),
    /// The registry answered, and turned the request down.
    Api(GetCrateErrorResponse),
}

/// The text that `{:?}` writes for a string: the string between double
/// quotes, with the characters that std escapes written as escapes.
pub uninterp spec fn debug_text(s: Seq<char>) -> Seq<char>;

/// `format!("{:?}", s)` for a string slice, that is `<str as Debug>::fmt`.
/// The contract only names what it returns.
#[verifier::external_body]
fn debug_string(s: &str) -> (result: String)
    ensures
        result@ == debug_text(s@),
{
    format!("{:?}", s)
}

/// How one message reads inside a list of messages.
pub open spec fn detail_text(detail: ErrorDetail) -> Seq<char> {
    "ErrorDetail { detail: "@ + debug_text(detail.detail@) + " }"@
}

/// The first `n` messages of `errors` as they read in a list, `", "`
/// between each two.
pub open spec fn joined_details(errors: Seq<ErrorDetail>, n: nat) -> Seq<char>
    recommends
        n <= errors.len(),
    decreases n,
{
    if n == 0 {
        Seq::empty()
    } else if n == 1 {
        detail_text(errors[0])
    } else {
        joined_details(errors, (n - 1) as nat) + ", "@ + detail_text(errors[n - 1])
    }
}

/// How a list of messages reads: each message between square brackets.
pub open spec fn response_text(errors: Seq<ErrorDetail>) -> Seq<char> {
    "["@ + joined_details(errors, errors.len()) + "]"@
}

/// What stands before the cause in every failure's text.
pub open spec fn failure_prefix() -> Seq<char> {
    "error retrieving crate information: "@
}

/// How a failure reads: the prefix, then the cause.
pub open spec fn failure_text(e: GetCrateError) -> Seq<char> {
    match e {
        GetCrateError::Reqwest(cause) => failure_prefix() + cause.message@,
        GetCrateError::Api(response) => failure_prefix() + response_text(response.errors@),
    }
}

/// `part` stands somewhere in `text`, whole and unbroken.
pub open spec fn holds_text(text: Seq<char>, part: Seq<char>) -> bool {
    exists|k: int|
        0 <= k && k + part.len() <= text.len() && #[trigger] text.subrange(k, k + part.len())
            == part
}

/// What stands in a text still stands in it when more is written before and
/// after.
proof fn lemma_holds_in_middle(before: Seq<char>, text: Seq<char>, after: Seq<char>, part: Seq<char>)
    requires
        holds_text(text, part),
    ensures
        holds_text(before + text + after, part),
{
    let k = choose|k: int|
        0 <= k && k + part.len() <= text.len() && #[trigger] text.subrange(k, k + part.len())
            == part;
    let whole = before + text + after;
    let at = before.len() + k;
    assert(whole.subrange(at, at + part.len()) =~= text.subrange(k, k + part.len()));
}

/// A text holds itself.
proof fn lemma_holds_itself(text: Seq<char>)
    ensures
        holds_text(text, text),
{
    assert(text.subrange(0, 0int + text.len()) =~= text);
}

/// Each of the first `n` messages stands in the list of the first `n`.
proof fn lemma_joined_holds_each(errors: Seq<ErrorDetail>, n: nat, i: int)
    requires
        0 <= i < n <= errors.len(),
    ensures
        holds_text(joined_details(errors, n), debug_text(errors[i].detail@)),
    decreases n,
{
    let empty = Seq::<char>::empty();
    let quoted = debug_text(errors[i].detail@);
    if n == 1 || i == n - 1 {
        lemma_holds_itself(quoted);
        lemma_holds_in_middle("ErrorDetail { detail: "@, quoted, " }"@, quoted);
        let item = detail_text(errors[i]);
        if n == 1 {
            assert(joined_details(errors, n) == item);
        } else {
            let head = joined_details(errors, (n - 1) as nat) + ", "@;
            lemma_holds_in_middle(head, item, empty, quoted);
            assert(head + item + empty =~= joined_details(errors, n));
        }
    } else {
        let head = joined_details(errors, (n - 1) as nat);
        lemma_joined_holds_each(errors, (n - 1) as nat, i);
        let tail = ", "@ + detail_text(errors[n - 1]);
        lemma_holds_in_middle(empty, head, tail, quoted);
        assert(empty + head + tail =~= joined_details(errors, n));
    }
}

/// No failure reads as its prefix alone where there is a cause to tell. The
/// text of a failed transfer ends with the cause, letter for letter; the
/// text of a refusal holds every message of the registry, each as `{:?}`
/// writes it.
pub proof fn lemma_failure_text_holds_cause(e: GetCrateError)
    ensures
        match e {
            GetCrateError::Reqwest(cause) => failure_text(e).subrange(
                failure_prefix().len() as int,
                failure_text(e).len() as int,
            ) == cause.message@,
            GetCrateError::Api(response) => forall|i: int|
                0 <= i < response.errors@.len() ==> holds_text(
                    failure_text(e),
                    debug_text(#[trigger] response.errors@[i].detail@),
                ),
        },
{
    match e {
        GetCrateError::Reqwest(cause) => {
            assert(failure_text(e).subrange(
                failure_prefix().len() as int,
                failure_text(e).len() as int,
            ) =~= cause.message@);
        },
        GetCrateError::Api(response) => {
            let errors = response.errors@;
            assert forall|i: int| 0 <= i < errors.len() implies holds_text(
                failure_text(e),
                debug_text(#[trigger] errors[i].detail@),
            ) by {
                lemma_joined_holds_each(errors, errors.len(), i);
                lemma_holds_in_middle(
                    failure_prefix() + "["@,
                    joined_details(errors, errors.len()),
                    "]"@,
                    debug_text(errors[i].detail@),
                );
                assert(failure_prefix() + "["@ + joined_details(errors, errors.len()) + "]"@
                    =~= failure_text(e));
            }
        },
    }
}

impl ErrorDetail {
    /// The message, as the registry gave it.
    pub fn to_string(&self) -> (result: String)
        ensures
            result@ == self.detail@,
    {
        self.detail.clone()
    }

    /// The message as it reads inside a list of messages.
    fn to_debug_string(&self) -> (result: String)
        ensures
            result@ == detail_text(*self),
    {
        let mut out = String::from_str("ErrorDetail { detail: ");
        let quoted = debug_string(self.detail.as_str());
        out.append(quoted.as_str());
        out.append(" }");
        out
    }
}

impl GetCrateErrorResponse {
    /// All messages, in their order, as a list.
    pub fn to_string(&self) -> (result: String)
        ensures
            result@ == response_text(self.errors@),
    {
        let mut out = String::from_str("[");
        let mut i: usize = 0;
        while i < self.errors.len()
            invariant
                0 <= i <= self.errors@.len(),
                out@ == "["@ + joined_details(self.errors@, i as nat),
            decreases self.errors@.len() - i,
        {
            if i > 0 {
                out.append(", ");
            }
            let item = self.errors[i].to_debug_string();
            out.append(item.as_str());
            i += 1;
            assert(out@ =~= "["@ + joined_details(self.errors@, i as nat));
        }
        out.append("]");
        out
    }
}

impl TransportError {
    /// The cause, in words.
    pub fn to_string(&self) -> (result: String)
        ensures
            result@ == self.message@,
    {
        self.message.clone()
    }
}

impl GetCrateError {
    /// The failure in words: a fixed prefix, then the cause itself, so that
    /// nothing of what the transfer or the registry reported is lost.
    pub fn to_string(&self) -> (result: String)
        ensures
            result@ == failure_text(*self),
    {
        let mut out = String::from_str("error retrieving crate information: ");
        match self {
            GetCrateError::Reqwest(cause) => {
                out.append(cause.message.as_str());
            },
            GetCrateError::Api(response) => {
                let list = response.to_string();
                out.append(list.as_str());
            },
        }
        out
    }
}

} // verus!
