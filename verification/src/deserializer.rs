//! Decoding an inbound envelope into the value that a handler wants.
//!
//! A handler names its target type and gets the value together with the
//! invocation context. There are two strategies, and the target type alone
//! selects one:
//!
//! * the envelope itself is handed back as it came
//!   (`Envelope::from_alb_request`);
//! * a type that declares itself an `RpcRequest` is parsed from the JSON text
//!   in the envelope's body (`T::from_alb_request`, of `RpcDeserialize`).
//!
//! Neither strategy touches the context, and no type is served by both.

use crate::envelope::Envelope;
use crate::error::DecodeError;
use crate::model::Context;
use vstd::prelude::*;

verus! {

/// `serde_json::Error`, the parser's own error. Opaque here.
#[verifier::external_type_specification]
#[verifier::external_body]
pub struct ExJsonError(serde_json::Error);

/// Marks a type as the body of an RPC request, to be parsed from the
/// envelope's payload. It has no methods: a type opts in by implementing it.
pub trait RpcRequest {}

/// How a target type is decoded.
#[derive(Clone, Copy, Debug, PartialEq, Eq)]
pub enum Strategy {
    /// The envelope is the value.
    Identity,
    /// The value is parsed from the envelope's body.
    Structured,
}

/// A type that a handler may ask for, with the one strategy that serves it.
///
/// The two impls below stand together only as long as `Envelope` is no
/// `RpcRequest`: were it ever made one, they would overlap and the crate
/// would no longer build.
pub trait Target {
    /// The strategy that decodes this type.
    spec fn strategy() -> Strategy;
}

impl Target for Envelope {
    open spec fn strategy() -> Strategy {
        Strategy::Identity
    }
}

impl<T: RpcRequest> Target for T {
    open spec fn strategy() -> Strategy {
        Strategy::Structured
    }
}

/// Every `RpcRequest` type is decoded from the body, the envelope never is:
/// the strategy of an `RpcRequest` type differs from the envelope's.
pub proof fn lemma_strategies_exclusive<T: RpcRequest>()
    ensures
        <T as Target>::strategy() == Strategy::Structured,
        <Envelope as Target>::strategy() == Strategy::Identity,
        <T as Target>::strategy() != <Envelope as Target>::strategy(),
{
}

/// Conversion of an envelope and its context into a `T` and the same context.
pub trait AlbDeserialize<T> {
    /// Decodes `req`. Whatever the strategy, a context that comes back is the
    /// one that went in, invocation counter included.
    fn from_alb_request(req: Envelope, ctx: Context) -> (decoded: Result<(T, Context), DecodeError>)
        ensures
            decoded matches Ok((_, out)) ==> out == ctx,
    ;
}

impl AlbDeserialize<Envelope> for Envelope {
    /// The identity strategy: always succeeds, and returns the envelope and
    /// the context as they came.
    fn from_alb_request(req: Envelope, ctx: Context) -> (decoded: Result<
        (Envelope, Context),
        DecodeError,
    >)
        ensures
            decoded == Ok::<(Envelope, Context), DecodeError>((req, ctx)),
    {
        Ok((req, ctx))
    }
}

/// What the structured strategy returns once the parser has spoken: the
/// parsed value beside the untouched context, or the parser's diagnostic as
/// a malformed payload.
pub open spec fn structured_outcome<T>(parsed: Result<T, String>, ctx: Context) -> Result<
    (T, Context),
    DecodeError,
> {
    match parsed {
        Ok(value) => Ok((value, ctx)),
        Err(cause) => Err(DecodeError::MalformedPayload(cause)),
    }
}

/// The structured outcome follows the parser: it is a value exactly when the
/// parser gave one, and then that value beside the context as it came,
/// invocation counter included; otherwise it is `MalformedPayload` with the
/// parser's diagnostic, and never `MissingPayload`.
pub proof fn lemma_structured_outcome_follows_parser<T>(parsed: Result<T, String>, ctx: Context)
    ensures
        structured_outcome(parsed, ctx) is Ok <==> parsed is Ok,
        parsed matches Ok(value) ==> structured_outcome(parsed, ctx) == Ok::<
            (T, Context),
            DecodeError,
        >((value, ctx)),
        parsed matches Err(cause) ==> structured_outcome(parsed, ctx) == Err::<
            (T, Context),
            DecodeError,
        >(DecodeError::MalformedPayload(cause)),
        structured_outcome(parsed, ctx) != Err::<(T, Context), DecodeError>(
            DecodeError::MissingPayload,
        ),
        structured_outcome(parsed, ctx) matches Ok((_, out)) ==> out == ctx && out.invocations
            == ctx.invocations,
{
}

/// Second half of the structured strategy: turns the parser's verdict on a
/// body, its error already rendered, into the result of the decode.
pub fn decode_parsed<T>(parsed: Result<T, String>, ctx: Context) -> (decoded: Result<
    (T, Context),
    DecodeError,
>)
    ensures
        decoded == structured_outcome(parsed, ctx),
{
    match parsed {
        Ok(value) => Ok((value, ctx)),
        Err(cause) => Err(DecodeError::MalformedPayload(cause)),
    }
}

/// Whether `parsed` is the parser's `verdict` with its error rendered: the
/// same value, or the text that `to_string` gives for the parser's error,
/// which is the parser's message as it stands.
pub open spec fn rendered<T>(
    verdict: Result<T, serde_json::Error>,
    parsed: Result<T, String>,
) -> bool {
    match verdict {
        Ok(value) => parsed == Ok::<T, String>(value),
        Err(error) => parsed matches Err(text)
            && vstd::string::to_string_from_display_ensures::<serde_json::Error>(&error, text),
    }
}

/// Renders the error of a parser's verdict with `to_string`, and leaves a
/// value alone.
pub fn render_verdict<T>(verdict: Result<T, serde_json::Error>) -> (parsed: Result<T, String>)
    ensures
        rendered(verdict, parsed),
{
    match verdict {
        Ok(value) => Ok(value),
        Err(error) => Err(error.to_string()),
    }
}

/// Calls `serde_json::from_str` on `text`.
///
/// Nothing is claimed of the result. Whether a text is accepted, and as which
/// value, is up to the parser and to the `Deserialize` impl of `T`, which this
/// crate does not see. The parser itself returns an error on every text it
/// refuses, input nested deeper than 128 levels included.
#[verifier::external_body]
fn parse_json<T>(text: &str) -> (verdict: Result<T, serde_json::Error>)
    where T: for<'de> serde::Deserialize<'de>
{
    serde_json::from_str(text)
}

/// Whether `verdict` is what the JSON parser may return for `T` on a text of
/// the characters `text`: a possible outcome of that very call, nothing
/// more. Which outcomes are possible is not said: that is up to the parser
/// and to `T`'s own `Deserialize` impl, and two calls on one text are not
/// taken to agree.
pub closed spec fn parser_gives<T>(text: Seq<char>, verdict: Result<T, serde_json::Error>) -> bool
    where T: for<'de> serde::Deserialize<'de>
{
    exists|asked: &str| asked@ == text && call_ensures(parse_json::<T>, (asked,), verdict)
}

/// The structured strategy, for every `RpcRequest` type: the value is parsed
/// as JSON from the envelope's payload.
///
/// The trait is implemented here for all `RpcRequest` types at once and
/// admits no other impl.
pub trait RpcDeserialize: RpcRequest + Sized {
    /// Decodes `req` into a `Self`.
    ///
    /// Without a body the result is `MissingPayload`, whatever else the
    /// envelope holds, and only then. With a body the parser is asked once,
    /// on the payload, and its verdict decides: a value comes back beside
    /// the context as it came, an error as `MalformedPayload` with the
    /// parser's message.
    fn from_alb_request(req: Envelope, ctx: Context) -> (decoded: Result<
        (Self, Context),
        DecodeError,
    >)
        where Self: for<'de> serde::Deserialize<'de>
        ensures
            req.body is None <==> decoded == Err::<(Self, Context), DecodeError>(
                DecodeError::MissingPayload,
            ),
            req.body matches Some(body) ==> exists|
                verdict: Result<Self, serde_json::Error>,
                parsed: Result<Self, String>,
            |
                parser_gives(body@, verdict) && rendered(verdict, parsed) && decoded
                    == structured_outcome(parsed, ctx),
            decoded matches Ok((_, out)) ==> out == ctx,
            decoded matches Err(error) ==> (error is MalformedPayload <==> req.body is Some),
    ;
}

impl<T: RpcRequest> RpcDeserialize for T {
    fn from_alb_request(req: Envelope, ctx: Context) -> (decoded: Result<(T, Context), DecodeError>)
        where T: for<'de> serde::Deserialize<'de>
    {
        match req.payload() {
            Some(text) => {
                let verdict = parse_json::<T>(text);
                let ghost given = verdict;
                let parsed = render_verdict(verdict);
                let decoded = decode_parsed(parsed, ctx);
                assert(parser_gives(req.body->Some_0@, given) && rendered(given, parsed) && decoded
                    == structured_outcome(parsed, ctx));
                decoded
            },
            None => Err(DecodeError::MissingPayload),
        }
    }
}

} // verus!
