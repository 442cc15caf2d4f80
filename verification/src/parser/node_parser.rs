//! The parser that builds the document tree from tokens.
use vstd::prelude::*;
use crate::error::Error;
use crate::models::b_notation::BNotation;
use crate::models::chord::{parse_chords, Chords};
use crate::tokenizer::token::{tokens_view, Token, TokenModel};
use super::node::{
    all_leaves, all_tops, document_view, leaf_view, leaves_view, top_view, tops_view, LeafModel,
    Node, TopModel,
};
use super::section_type::{section_type_of, SectionType};
use crate::tokenizer::modifier::Modifier;
use super::cleanup_spec;

verus! {

/// Whether a token starts a new section: a headline or a quote.
pub open spec fn is_section_start(t: TokenModel) -> bool {
    t is Headline || t is Quote
}

/// The leaf that the tokens at `i` make, and the index after them: a chord takes the text that
/// follows it (and ends its line where a line break comes next); every other token stands alone.
pub open spec fn leaf_at(ts: Seq<TokenModel>, i: int, notation: BNotation) -> Result<
    (LeafModel, int),
    Error,
> {
    match ts[i] {
        TokenModel::Chord(c) => match parse_chords(c, notation) {
            Err(e) => Err(e),
            Ok(cs) => if i + 1 < ts.len() && ts[i + 1] is Literal {
                if i + 2 < ts.len() && ts[i + 2] is Newline {
                    Ok((LeafModel::ChordTextPairLastInLine { chords: cs, text: ts[i + 1] }, i + 2))
                } else {
                    Ok((LeafModel::ChordTextPair { chords: cs, text: ts[i + 1] }, i + 2))
                }
            } else {
                Ok((LeafModel::ChordStandalone(cs), i + 1))
            },
        },
        TokenModel::Meta(m) => Ok((LeafModel::Meta(m), i + 1)),
        TokenModel::Metadata(m) => Ok((LeafModel::Metadata(m), i + 1)),
        TokenModel::Literal(_) => Ok((LeafModel::Text(ts[i]), i + 1)),
        TokenModel::Quote(_) => Ok((LeafModel::Quote(ts[i]), i + 1)),
        TokenModel::Headline { .. } => Ok((LeafModel::Headline(ts[i]), i + 1)),
        TokenModel::Newline => Ok((LeafModel::Newline, i + 1)),
    }
}

/// The index of the first section start at or after `i` (or the end).
pub open spec fn run_end(ts: Seq<TokenModel>, i: int) -> int
    decreases ts.len() - i,
{
    if i < 0 || i >= ts.len() || is_section_start(ts[i]) {
        i
    } else {
        run_end(ts, i + 1)
    }
}

/// The leaves that the tokens from `i` up to the next section start make.
pub open spec fn leaves_from(ts: Seq<TokenModel>, i: int, notation: BNotation) -> Result<
    Seq<LeafModel>,
    Error,
>
    decreases ts.len() - i,
{
    if i < 0 || i >= ts.len() || is_section_start(ts[i]) {
        Ok(seq![])
    } else {
        match leaf_at(ts, i, notation) {
            Err(e) => Err(e),
            Ok((l, j)) => if j <= i {
                Err(e_unreachable())
            } else {
                match leaves_from(ts, j, notation) {
                    Err(e) => Err(e),
                    Ok(rest) => Ok(seq![l] + rest),
                }
            },
        }
    }
}

/// An error value that the definitions above never produce.
pub open spec fn e_unreachable() -> Error {
    Error::EmptyChord
}

/// The child of a document that the tokens at `i` make, and the index after them: a headline
/// opens a section that takes everything up to the next section start; a quote makes a
/// section of its own that refers to another one; every other token makes a leaf.
pub open spec fn top_at(ts: Seq<TokenModel>, i: int, notation: BNotation) -> Result<
    (TopModel, int),
    Error,
> {
    if ts[i] is Headline {
        match leaves_from(ts, i + 1, notation) {
            Err(e) => Err(e),
            Ok(children) => Ok(
                (
                    TopModel::Section {
                        head: ts[i],
                        section_type: section_type_of(ts[i]->modifier),
                        children,
                    },
                    run_end(ts, i + 1),
                ),
            ),
        }
    } else if ts[i] is Quote {
        Ok(
            (
                TopModel::Section { head: ts[i], section_type: SectionType::Reference, children: seq![] },
                i + 1,
            ),
        )
    } else {
        match leaf_at(ts, i, notation) {
            Err(e) => Err(e),
            Ok((l, j)) => Ok((TopModel::Leaf(l), j)),
        }
    }
}

/// The children of a document that the tokens from `i` make.
#[verifier::opaque]
pub open spec fn tops_from(ts: Seq<TokenModel>, i: int, notation: BNotation) -> Result<
    Seq<TopModel>,
    Error,
>
    decreases ts.len() - i,
{
    if i < 0 || i >= ts.len() {
        Ok(seq![])
    } else {
        match top_at(ts, i, notation) {
            Err(e) => Err(e),
            Ok((t, j)) => if j <= i || j > ts.len() {
                Err(e_unreachable())
            } else {
                chain(seq![t], tops_from(ts, j, notation))
            },
        }
    }
}

/// The document that a token stream makes: the stream is cleaned up first.
pub open spec fn node_parse_spec(ts: Seq<TokenModel>, notation: BNotation) -> Result<
    Seq<TopModel>,
    Error,
> {
    tops_from(cleanup_spec(ts), 0, notation)
}

/// The view of a parse result.
pub open spec fn document_result_view(r: Result<Node, Error>) -> Result<Seq<TopModel>, Error> {
    match r {
        Ok(n) => match document_view(n) {
            Some(d) => Ok(d),
            None => Err(e_unreachable()),
        },
        Err(e) => Err(e),
    }
}

/// `pre` followed by the outcome `r`.
pub open spec fn chain<A>(pre: Seq<A>, r: Result<Seq<A>, Error>) -> Result<Seq<A>, Error> {
    match r {
        Ok(rest) => Ok(pre + rest),
        Err(e) => Err(e),
    }
}

/// Whether a child of a document is typed as its head says: a headline marked with `!` heads a
/// chorus, one marked with `-` a bridge, one without a mark a section of unknown kind, and a
/// quote heads a reference.
pub open spec fn typed_by_head(t: TopModel) -> bool {
    match t {
        TopModel::Section { head, section_type, .. } => match head {
            TokenModel::Headline { modifier, .. } => match modifier {
                Modifier::Chorus => section_type == SectionType::Chorus,
                Modifier::Bridge => section_type == SectionType::Bridge,
                Modifier::Plain => section_type == SectionType::Unknown,
            },
            TokenModel::Quote(_) => section_type == SectionType::Reference,
            _ => false,
        },
        TopModel::Leaf(_) => true,
    }
}

proof fn lemma_tops_typed(ts: Seq<TokenModel>, i: int, notation: BNotation)
    requires
        0 <= i,
    ensures
        tops_from(ts, i, notation) matches Ok(d) ==> forall|k: int|
            0 <= k < d.len() ==> typed_by_head(#[trigger] d[k]),
    decreases ts.len() - i,
{
    reveal(tops_from);
    if i < ts.len() {
        match top_at(ts, i, notation) {
            Ok((t, j)) => {
                if i < j <= ts.len() {
                    lemma_tops_typed(ts, j, notation);
                    assert(typed_by_head(t));
                    match tops_from(ts, j, notation) {
                        Ok(rest) => {
                            let d = seq![t] + rest;
                            assert forall|k: int| 0 <= k < d.len() implies typed_by_head(
                                #[trigger] d[k],
                            ) by {
                                if k > 0 {
                                    assert(d[k] == rest[k - 1]);
                                }
                            }
                        },
                        Err(_) => {},
                    }
                }
            },
            Err(_) => {},
        }
    }
}

/// Every section of a parsed document is typed as its head says: a headline's mark decides
/// between chorus, bridge and a section of unknown kind, and a quote makes a reference.
pub proof fn lemma_sections_typed_by_head(ts: Seq<TokenModel>, notation: BNotation)
    ensures
        node_parse_spec(ts, notation) matches Ok(d) ==> forall|k: int|
            0 <= k < d.len() ==> typed_by_head(#[trigger] d[k]),
{
    lemma_tops_typed(cleanup_spec(ts), 0, notation);
}

pub struct NodeParser {
    b_notation: BNotation,
}

/// Putting one more item in front of an outcome.
proof fn lemma_chain_push<A>(pre: Seq<A>, x: A, r: Result<Seq<A>, Error>)
    ensures
        chain(pre, chain(seq![x], r)) == chain(pre.push(x), r),
{
    match r {
        Ok(rest) => {
            assert(pre + (seq![x] + rest) =~= pre.push(x) + rest);
        },
        Err(_) => {},
    }
}

/// One step of the top-level parse.
proof fn lemma_tops_step(ts: Seq<TokenModel>, i: int, notation: BNotation)
    requires
        0 <= i <= ts.len(),
    ensures
        i == ts.len() ==> tops_from(ts, i, notation) == Ok::<Seq<TopModel>, Error>(seq![]),
        i < ts.len() ==>
        match top_at(ts, i, notation) {
            Ok((t, j)) => i < j <= ts.len() ==> tops_from(ts, i, notation) == chain(
                seq![t],
                tops_from(ts, j, notation),
            ),
            Err(e) => tops_from(ts, i, notation) == Err::<Seq<TopModel>, Error>(e),
        },
{
    reveal(tops_from);
}

/// One step of the parse of a section's children.
proof fn lemma_leaves_step(ts: Seq<TokenModel>, i: int, notation: BNotation)
    requires
        0 <= i < ts.len(),
        !is_section_start(ts[i]),
    ensures
        match leaf_at(ts, i, notation) {
            Ok((l, j)) => i < j ==> leaves_from(ts, i, notation) == chain(
                seq![l],
                leaves_from(ts, j, notation),
            ),
            Err(e) => leaves_from(ts, i, notation) == Err::<Seq<LeafModel>, Error>(e),
        },
{
    match leaf_at(ts, i, notation) {
        Ok((l, j)) => {
            if i < j {
                match leaves_from(ts, j, notation) {
                    Ok(rest) => {},
                    Err(_) => {},
                }
            }
        },
        Err(_) => {},
    }
}

fn token_is_start_of_section(token: &Token) -> (r: bool)
    ensures
        r == is_section_start(token@),
{
    match token {
        Token::Headline { .. } => true,
        Token::Quote(_) => true,
        _ => false,
    }
}

proof fn lemma_run_end_step(ts: Seq<TokenModel>, i: int, j: int)
    requires
        0 <= i <= j <= ts.len(),
        forall|k: int| i <= k < j ==> !is_section_start(#[trigger] ts[k]),
    ensures
        run_end(ts, i) == run_end(ts, j),
    decreases j - i,
{
    if i < j {
        lemma_run_end_step(ts, i + 1, j);
    }
}

impl NodeParser {
    /// A parser that reads chords in the given notation.
    pub fn with_b_notation(b_notation: BNotation) -> (r: NodeParser)
        ensures
            r.notation() == b_notation,
    {
        NodeParser { b_notation }
    }

    /// The notation in which chords are read.
    pub closed spec fn notation(&self) -> BNotation {
        self.b_notation
    }

    /// Build the document of `tokens`, after cleaning the stream up.
    #[verifier::rlimit(40)]
    pub fn parse(&mut self, tokens: Vec<Token>) -> (r: Result<Node, Error>)
        ensures
            document_result_view(r) == node_parse_spec(tokens_view(tokens@), old(self).notation()),
            r matches Ok(n) ==> document_view(n) is Some,
            final(self).notation() == old(self).notation(),
    {
        let ghost old_tokens = tokens@;
        let cleaned = super::Parser::cleanup_tokens(tokens);
        let ghost ts = tokens_view(cleaned@);
        assert(ts == cleanup_spec(tokens_view(old_tokens)));
        let mut elements: Vec<Node> = Vec::new();
        let mut i: usize = 0;
        assert(tops_view(elements@) =~= Seq::<TopModel>::empty());
        while i < cleaned.len()
            invariant
                i <= cleaned.len(),
                ts == tokens_view(cleaned@),
                ts == cleanup_spec(tokens_view(old_tokens)),
                old_tokens == tokens@,
                self.b_notation == old(self).b_notation,
                all_tops(elements@),
                tops_from(ts, 0, self.b_notation) == chain(
                    tops_view(elements@),
                    tops_from(ts, i as int, self.b_notation),
                ),
            decreases cleaned.len() - i,
        {
            proof {
                lemma_tops_step(ts, i as int, self.b_notation);
            }
            let (node, next) = match self.visit(&cleaned, i) {
                Ok(x) => x,
                Err(e) => {
                    assert(tops_from(ts, i as int, self.b_notation) == Err::<Seq<TopModel>, Error>(
                        e,
                    ));
                    assert(tops_from(ts, 0, self.b_notation) == Err::<Seq<TopModel>, Error>(e));
                    assert(document_result_view(Err(e)) == Err::<Seq<TopModel>, Error>(e));
                    return Err(e);
                },
            };
            let ghost before = elements@;
            let ghost t = top_view(node)->0;
            proof {
                lemma_chain_push(tops_view(before), t, tops_from(ts, next as int, self.b_notation));
                assert(tops_from(ts, i as int, self.b_notation) == chain(
                    seq![t],
                    tops_from(ts, next as int, self.b_notation),
                ));
            }
            elements.push(node);
            assert(tops_view(elements@) =~= tops_view(before).push(t));
            assert(all_tops(elements@)) by {
                assert forall|k: int| 0 <= k < elements@.len() implies top_view(
                    #[trigger] elements@[k],
                ) is Some by {
                    if k < before.len() {
                        assert(elements@[k] == before[k]);
                    }
                }
            }
            i = next;
        }
        proof {
            lemma_tops_step(ts, i as int, self.b_notation);
        }
        assert(tops_view(elements@) + Seq::<TopModel>::empty() =~= tops_view(elements@));
        Ok(Node::Document(elements))
    }

    /// The child of the document that the tokens at `i` make, and the index after them.
    fn visit(&self, tokens: &Vec<Token>, i: usize) -> (r: Result<(Node, usize), Error>)
        requires
            i < tokens.len(),
        ensures
            ({
                let ts = tokens_view(tokens@);
                match top_at(ts, i as int, self.b_notation) {
                    Err(e) => r == Err::<(Node, usize), Error>(e),
                    Ok((t, j)) => r matches Ok((n, k)) && k == j && top_view(n) == Some(t),
                }
            }),
            r matches Ok((n, k)) ==> i < k <= tokens.len(),
    {
        let ghost ts = tokens_view(tokens@);
        assert(ts[i as int] == tokens@[i as int]@);
        match &tokens[i] {
            Token::Headline { level: _, text: _, modifier } => {
                let head = Some(Box::new(Node::Headline(tokens[i].duplicate())));
                let mut children: Vec<Node> = Vec::new();
                let mut j = i + 1;
                assert(leaves_view(children@) =~= Seq::<LeafModel>::empty());
                while j < tokens.len() && !token_is_start_of_section(&tokens[j])
                    invariant
                        i < j <= tokens.len(),
                        ts == tokens_view(tokens@),
                        all_leaves(children@),
                        run_end(ts, i + 1) == run_end(ts, j as int),
                        ts[i as int] is Headline,
                        leaves_from(ts, i + 1, self.b_notation) == chain(
                            leaves_view(children@),
                            leaves_from(ts, j as int, self.b_notation),
                        ),
                    decreases tokens.len() - j,
                {
                    assert(ts[j as int] == tokens@[j as int]@);
                    proof {
                        lemma_leaves_step(ts, j as int, self.b_notation);
                    }
                    let (node, next) = match self.visit_leaf(tokens, j) {
                        Ok(x) => x,
                        Err(e) => {
                            assert(leaves_from(ts, i + 1, self.b_notation) == Err::<
                                Seq<LeafModel>,
                                Error,
                            >(e));
                            assert(ts[i as int] is Headline);
                            return Err(e);
                        },
                    };
                    proof {
                        lemma_chain_push(leaves_view(children@), leaf_view(node)->0, leaves_from(ts, next as int, self.b_notation));
                        if next == j + 2 {
                            assert(ts[j + 1] is Literal);
                        }
                        lemma_run_end_step(ts, j as int, next as int);
                    }
                    let ghost before = children@;
                    children.push(node);
                    assert(leaves_view(children@) =~= leaves_view(before).push(leaf_view(node)->0));
                    assert(all_leaves(children@)) by {
                        assert forall|k: int| 0 <= k < children@.len() implies leaf_view(
                            #[trigger] children@[k],
                        ) is Some by {
                            if k < before.len() {
                                assert(children@[k] == before[k]);
                            }
                        }
                    }
                    j = next;
                }
                proof {
                    if j < tokens.len() {
                        assert(ts[j as int] == tokens@[j as int]@);
                    }
                    assert(run_end(ts, j as int) == j);
                    assert(leaves_from(ts, j as int, self.b_notation) == Ok::<
                        Seq<LeafModel>,
                        Error,
                    >(seq![]));
                    assert(leaves_view(children@) + Seq::<LeafModel>::empty() =~= leaves_view(
                        children@,
                    ));
                }
                let node = Node::Section {
                    head,
                    children,
                    section_type: SectionType::from_modifier(*modifier),
                };
                Ok((node, j))
            },
            Token::Quote(_) => {
                let children: Vec<Node> = Vec::new();
                let node = Node::Section {
                    head: Some(Box::new(Node::Quote(tokens[i].duplicate()))),
                    children,
                    section_type: SectionType::Reference,
                };
                assert(leaves_view(children@) =~= Seq::<LeafModel>::empty());
                Ok((node, i + 1))
            },
            _ => {
                let (node, next) = match self.visit_leaf(tokens, i) {
                    Ok(x) => x,
                    Err(e) => return Err(e),
                };
                Ok((node, next))
            },
        }
    }

    /// The leaf that the tokens at `i` make, and the index after them.
    fn visit_leaf(&self, tokens: &Vec<Token>, i: usize) -> (r: Result<(Node, usize), Error>)
        requires
            i < tokens.len(),
        ensures
            ({
                let ts = tokens_view(tokens@);
                match leaf_at(ts, i as int, self.b_notation) {
                    Err(e) => r == Err::<(Node, usize), Error>(e),
                    Ok((l, j)) => r matches Ok((n, k)) && k == j && leaf_view(n) == Some(l),
                }
            }),
            r matches Ok((n, k)) ==> i < k <= tokens.len(),
    {
        let ghost ts = tokens_view(tokens@);
        assert(ts[i as int] == tokens@[i as int]@);
        match &tokens[i] {
            Token::Chord(c) => {
                let chords = match Chords::try_from(c.as_str(), self.b_notation) {
                    Ok(cs) => cs,
                    Err(e) => return Err(e),
                };
                if i + 1 < tokens.len() {
                    assert(ts[i + 1] == tokens@[i + 1]@);
                    if let Token::Literal(_) = &tokens[i + 1] {
                        let text = tokens[i + 1].duplicate();
                        if i + 2 < tokens.len() && tokens[i + 2].is_newline() {
                            assert(ts[i + 2] == tokens@[i + 2]@);
                            return Ok((Node::ChordTextPairLastInLine { chords, text }, i + 2));
                        }
                        proof {
                            if i + 2 < tokens.len() {
                                assert(ts[i + 2] == tokens@[i + 2]@);
                            }
                        }
                        return Ok((Node::ChordTextPair { chords, text }, i + 2));
                    }
                }
                Ok((Node::ChordStandalone(chords), i + 1))
            },
            Token::Meta(m) => Ok((Node::Meta(m.duplicate()), i + 1)),
            Token::Metadata(m) => Ok((Node::Metadata(m.duplicate()), i + 1)),
            Token::Literal(_) => Ok((Node::Text(tokens[i].duplicate()), i + 1)),
            Token::Quote(_) => Ok((Node::Quote(tokens[i].duplicate()), i + 1)),
            Token::Headline { .. } => Ok((Node::Headline(tokens[i].duplicate()), i + 1)),
            Token::Newline => Ok((Node::Newline, i + 1)),
        }
    }
}

impl super::ParserTrait for NodeParser {
    type OkType = Node;

    fn parse(&mut self, tokens: Vec<Token>) -> (r: Result<Node, Error>)
        ensures
            document_result_view(r) == node_parse_spec(tokens_view(tokens@), old(self).notation()),
            r matches Ok(n) ==> document_view(n) is Some,
            final(self).notation() == old(self).notation(),
    {
        NodeParser::parse(self, tokens)
    }
}

} // verus!
