//! The parsers that turn tokens into a document tree and metadata.
use vstd::prelude::*;
use crate::error::Error;
use crate::tokenizer::token::{tokens_view, Token, TokenModel};
use self::metadata_parser::{metadata_parse_spec, MetadataParser};
use self::node::document_view;
use self::node_parser::{node_parse_spec, NodeParser};
use self::parser_result::ParserResult;

pub mod meta;
pub mod meta_information;
pub mod meta_parser;
pub mod metadata;
pub mod metadata_builder;
pub mod metadata_model;
pub mod metadata_parser;
pub mod node;
pub mod node_parser;
pub mod parser_result;
pub mod section_type;

verus! {

/// The tokens of `ts` without the line breaks that follow a line break; where `prev_newline`
/// holds, the stream counts as starting right after one.
pub open spec fn cleanup_from(ts: Seq<TokenModel>, prev_newline: bool) -> Seq<TokenModel>
    decreases ts.len(),
{
    if ts.len() == 0 {
        seq![]
    } else if ts[0] is Newline && prev_newline {
        cleanup_from(ts.drop_first(), true)
    } else {
        seq![ts[0]] + cleanup_from(ts.drop_first(), ts[0] is Newline)
    }
}

/// The token stream without leading line breaks and without repeated line breaks.
pub open spec fn cleanup_spec(ts: Seq<TokenModel>) -> Seq<TokenModel> {
    cleanup_from(ts, true)
}

/// Whether cleaning up keeps the token at `i`: all but a line break at the start or right
/// after another line break.
pub open spec fn kept_at(ts: Seq<TokenModel>, i: int) -> bool {
    !(ts[i] is Newline) || (i > 0 && !(ts[i - 1] is Newline))
}

/// The tokens among the first `n` of `ts` that cleaning up keeps, in order.
pub open spec fn kept_prefix(ts: Seq<TokenModel>, n: nat) -> Seq<TokenModel>
    decreases n,
{
    if n == 0 || n > ts.len() {
        seq![]
    } else if kept_at(ts, n - 1) {
        kept_prefix(ts, (n - 1) as nat).push(ts[n - 1])
    } else {
        kept_prefix(ts, (n - 1) as nat)
    }
}

proof fn lemma_cleanup_split(ts: Seq<TokenModel>, n: nat)
    requires
        n <= ts.len(),
    ensures
        cleanup_spec(ts) == kept_prefix(ts, n) + cleanup_from(
            ts.skip(n as int),
            n == 0 || ts[n - 1] is Newline,
        ),
    decreases n,
{
    if n == 0 {
        assert(ts.skip(0) =~= ts);
        assert(Seq::<TokenModel>::empty() + cleanup_from(ts, true) =~= cleanup_from(ts, true));
    } else {
        let m = (n - 1) as nat;
        lemma_cleanup_split(ts, m);
        let rest = ts.skip(m as int);
        let f = m == 0 || ts[m - 1] is Newline;
        assert(rest[0] == ts[m as int]);
        assert(rest.drop_first() =~= ts.skip(n as int));
        if ts[m as int] is Newline && f {
            assert(!kept_at(ts, m as int));
        } else {
            assert(kept_at(ts, m as int));
            let tail = cleanup_from(ts.skip(n as int), ts[m as int] is Newline);
            assert(kept_prefix(ts, m) + (seq![ts[m as int]] + tail) =~= kept_prefix(ts, m).push(
                ts[m as int],
            ) + tail);
        }
    }
}

/// Cleaning up keeps, in their order, exactly the tokens that are not a line break at the
/// start or right after another line break.
pub proof fn lemma_cleanup_filters(ts: Seq<TokenModel>)
    ensures
        cleanup_spec(ts) == kept_prefix(ts, ts.len()),
{
    lemma_cleanup_split(ts, ts.len());
    assert(ts.skip(ts.len() as int) =~= Seq::<TokenModel>::empty());
    assert(kept_prefix(ts, ts.len()) + Seq::<TokenModel>::empty() =~= kept_prefix(ts, ts.len()));
}

/// The tokens of `ts` that are not line breaks, in order.
pub open spec fn content_tokens(ts: Seq<TokenModel>) -> Seq<TokenModel>
    decreases ts.len(),
{
    if ts.len() == 0 {
        seq![]
    } else if ts[0] is Newline {
        content_tokens(ts.drop_first())
    } else {
        seq![ts[0]] + content_tokens(ts.drop_first())
    }
}

/// Whether no two line breaks follow each other in `ts`.
pub open spec fn no_repeated_newlines(ts: Seq<TokenModel>) -> bool {
    forall|i: int| 0 <= i < ts.len() - 1 ==> !(#[trigger] ts[i] is Newline && ts[i + 1] is Newline)
}

proof fn lemma_cleanup_from_shape(ts: Seq<TokenModel>, prev_newline: bool)
    ensures
        no_repeated_newlines(cleanup_from(ts, prev_newline)),
        prev_newline && cleanup_from(ts, prev_newline).len() > 0 ==> !(cleanup_from(
            ts,
            prev_newline,
        )[0] is Newline),
        content_tokens(cleanup_from(ts, prev_newline)) == content_tokens(ts),
        cleanup_from(cleanup_from(ts, prev_newline), prev_newline) == cleanup_from(ts, prev_newline),
    decreases ts.len(),
{
    if ts.len() > 0 {
        let t0 = ts[0];
        let tail = ts.drop_first();
        if t0 is Newline && prev_newline {
            lemma_cleanup_from_shape(tail, true);
        } else {
            lemma_cleanup_from_shape(tail, t0 is Newline);
            let rest = cleanup_from(tail, t0 is Newline);
            let r = seq![t0] + rest;
            assert(r.drop_first() =~= rest);
            assert(r[0] == t0);
            assert forall|i: int| 0 <= i < r.len() - 1 implies !(#[trigger] r[i] is Newline && r[i
                + 1] is Newline) by {
                if i > 0 {
                    assert(r[i] == rest[i - 1]);
                    assert(r[i + 1] == rest[i]);
                }
            }
        }
    }
}

/// The cleaned-up stream starts with no line break and holds no two line breaks in a row.
pub proof fn lemma_cleanup_shape(ts: Seq<TokenModel>)
    ensures
        cleanup_spec(ts).len() > 0 ==> !(cleanup_spec(ts)[0] is Newline),
        no_repeated_newlines(cleanup_spec(ts)),
{
    lemma_cleanup_from_shape(ts, true);
}

/// Cleaning up keeps every token that is not a line break, in order.
pub proof fn lemma_cleanup_keeps_content(ts: Seq<TokenModel>)
    ensures
        content_tokens(cleanup_spec(ts)) == content_tokens(ts),
{
    lemma_cleanup_from_shape(ts, true);
}

/// Cleaning up a stream that was cleaned up already changes nothing.
pub proof fn lemma_cleanup_idempotent(ts: Seq<TokenModel>)
    ensures
        cleanup_spec(cleanup_spec(ts)) == cleanup_spec(ts),
{
    lemma_cleanup_from_shape(ts, true);
}

/// A parser that turns a token stream into its result.
pub trait ParserTrait {
    type OkType;

    /// Parse the given tokens into the parser's result.
    fn parse(&mut self, tokens: Vec<Token>) -> Result<Self::OkType, Error>;
}

#[derive(Default)]
pub struct Parser {}

impl Parser {
    pub fn new() -> (r: Parser) {
        Parser {  }
    }

    /// The document and the metadata of a token stream; chords are read in the notation that
    /// the metadata names.
    pub fn parse(&mut self, tokens: Vec<Token>) -> (r: Result<ParserResult, Error>)
        ensures
            ({
                let ts = tokens_view(tokens@);
                let meta = metadata_parse_spec(ts);
                match node_parse_spec(ts, meta.b_notation) {
                    Err(e) => r matches Err(e2) && e2 == e,
                    Ok(d) => r matches Ok(pr) && pr.metadata@ == meta && document_view(pr.node)
                        == Some(d),
                }
            }),
    {
        let meta = match MetadataParser::new().parse_borrowed(tokens.as_slice()) {
            Ok(m) => m,
            Err(e) => return Err(e),
        };
        let node = match NodeParser::with_b_notation(meta.b_notation).parse(tokens) {
            Ok(n) => n,
            Err(e) => return Err(e),
        };
        Ok(ParserResult::new(node, meta))
    }

    /// Remove leading and repeated line breaks from the stream.
    pub fn cleanup_tokens(tokens: Vec<Token>) -> (r: Vec<Token>)
        ensures
            tokens_view(r@) == cleanup_spec(tokens_view(tokens@)),
    {
        let ghost ts = tokens_view(tokens@);
        // starts as `true` so that leading line breaks are skipped
        let mut previous_token_was_newline: bool = true;
        let mut result: Vec<Token> = Vec::new();
        let mut i: usize = 0;
        assert(ts.skip(0) =~= ts);
        assert(tokens_view(result@) =~= Seq::<TokenModel>::empty());
        while i < tokens.len()
            invariant
                i <= tokens.len(),
                ts == tokens_view(tokens@),
                cleanup_spec(ts) == tokens_view(result@) + cleanup_from(
                    ts.skip(i as int),
                    previous_token_was_newline,
                ),
            decreases tokens.len() - i,
        {
            let token = &tokens[i];
            assert(ts.skip(i as int)[0] == token@);
            assert(ts.skip(i as int).drop_first() =~= ts.skip(i + 1));
            let is_newline = token.is_newline();
            if !(is_newline && previous_token_was_newline) {
                let ghost before = result@;
                result.push(token.duplicate());
                assert(tokens_view(result@) =~= tokens_view(before) + seq![token@]);
            }
            previous_token_was_newline = is_newline;
            i = i + 1;
        }
        assert(ts.skip(i as int) =~= Seq::<TokenModel>::empty());
        assert(tokens_view(result@) + Seq::<TokenModel>::empty() =~= tokens_view(result@));
        result
    }
}

impl ParserTrait for Parser {
    type OkType = ParserResult;

    fn parse(&mut self, tokens: Vec<Token>) -> (r: Result<ParserResult, Error>)
        ensures
            ({
                let ts = tokens_view(tokens@);
                let meta = metadata_parse_spec(ts);
                match node_parse_spec(ts, meta.b_notation) {
                    Err(e) => r matches Err(e2) && e2 == e,
                    Ok(d) => r matches Ok(pr) && pr.metadata@ == meta && document_view(pr.node)
                        == Some(d),
                }
            }),
    {
        Parser::parse(self, tokens)
    }
}

impl ParserTrait for MetadataParser {
    type OkType = self::metadata::Metadata;

    fn parse(&mut self, tokens: Vec<Token>) -> (r: Result<self::metadata::Metadata, Error>)
        ensures
            r matches Ok(m) && m@ == metadata_parse_spec(tokens_view(tokens@)),
    {
        MetadataParser::parse(self, tokens)
    }
}

} // verus!
