//! The nodes of a parsed song.
use vstd::prelude::*;
use crate::error::Error;
use crate::models::b_notation::BNotation;
use crate::models::chord::{parse_chords, ChordModel, Chords};
use crate::tokenizer::keyword::MetaModel;
use crate::tokenizer::meta::Meta;
use crate::tokenizer::metadata::RawMetadata;
use crate::tokenizer::modifier::Modifier;
use crate::tokenizer::token::{Token, TokenModel};
use super::section_type::{section_type_of, SectionType};

verus! {

#[derive(PartialOrd, PartialEq, Debug)]
pub enum Node {
    ChordTextPair { chords: Chords, text: Token },
    /// A chord over text that ends its line
    ChordTextPairLastInLine { chords: Chords, text: Token },
    ChordStandalone(Chords),
    Text(Token),
    Meta(Meta),
    Metadata(RawMetadata),
    Document(Vec<Node>),
    Headline(Token),
    Quote(Token),
    Section { head: Option<Box<Node>>, section_type: SectionType, children: Vec<Node> },
    Newline,
}

/// The abstract value of a node that holds no other nodes.
pub enum LeafModel {
    ChordTextPair { chords: Seq<ChordModel>, text: TokenModel },
    ChordTextPairLastInLine { chords: Seq<ChordModel>, text: TokenModel },
    ChordStandalone(Seq<ChordModel>),
    Text(TokenModel),
    Meta(MetaModel),
    Metadata(MetaModel),
    Headline(TokenModel),
    Quote(TokenModel),
    Newline,
}

/// The abstract value of a child of a document: a section with its headline, or a leaf.
pub enum TopModel {
    Section { head: TokenModel, section_type: SectionType, children: Seq<LeafModel> },
    Leaf(LeafModel),
}

/// The value of a node that holds no other nodes (`None` for a container).
pub open spec fn leaf_view(n: Node) -> Option<LeafModel> {
    match n {
        Node::ChordTextPair { chords, text } => Some(
            LeafModel::ChordTextPair { chords: chords@, text: text@ },
        ),
        Node::ChordTextPairLastInLine { chords, text } => Some(
            LeafModel::ChordTextPairLastInLine { chords: chords@, text: text@ },
        ),
        Node::ChordStandalone(c) => Some(LeafModel::ChordStandalone(c@)),
        Node::Text(t) => Some(LeafModel::Text(t@)),
        Node::Meta(m) => Some(LeafModel::Meta(m@)),
        Node::Metadata(m) => Some(LeafModel::Metadata(m@)),
        Node::Headline(t) => Some(LeafModel::Headline(t@)),
        Node::Quote(t) => Some(LeafModel::Quote(t@)),
        Node::Newline => Some(LeafModel::Newline),
        _ => None,
    }
}

/// Whether every node of `ns` holds no other nodes.
pub open spec fn all_leaves(ns: Seq<Node>) -> bool {
    forall|i: int| 0 <= i < ns.len() ==> leaf_view(#[trigger] ns[i]) is Some
}

/// The values of a sequence of leaf nodes.
pub open spec fn leaves_view(ns: Seq<Node>) -> Seq<LeafModel> {
    ns.map_values(|n: Node| leaf_view(n)->0)
}

/// The value of a child of a document: a section whose children are leaves, headed by a
/// headline node holding a headline token or by a quote node holding a quote token, or a leaf
/// (`None` for any other shape).
pub open spec fn top_view(n: Node) -> Option<TopModel> {
    match n {
        Node::Section { head, section_type, children } => match head {
            Some(h) => match *h {
                Node::Headline(t) => if t@ is Headline && all_leaves(children@) {
                    Some(
                        TopModel::Section {
                            head: t@,
                            section_type,
                            children: leaves_view(children@),
                        },
                    )
                } else {
                    None
                },
                Node::Quote(t) => if t@ is Quote && all_leaves(children@) {
                    Some(
                        TopModel::Section {
                            head: t@,
                            section_type,
                            children: leaves_view(children@),
                        },
                    )
                } else {
                    None
                },
                _ => None,
            },
            None => None,
        },
        _ => match leaf_view(n) {
            Some(l) => Some(TopModel::Leaf(l)),
            None => None,
        },
    }
}

/// Whether every node of `ns` has a value as a child of a document.
pub open spec fn all_tops(ns: Seq<Node>) -> bool {
    forall|i: int| 0 <= i < ns.len() ==> top_view(#[trigger] ns[i]) is Some
}

/// The values of the children of a document.
pub open spec fn tops_view(ns: Seq<Node>) -> Seq<TopModel> {
    ns.map_values(|n: Node| top_view(n)->0)
}

/// The value of a document (`None` for any other node).
pub open spec fn document_view(n: Node) -> Option<Seq<TopModel>> {
    match n {
        Node::Document(children) => if all_tops(children@) {
            Some(tops_view(children@))
        } else {
            None
        },
        _ => None,
    }
}

impl Node {
    /// A section headed by a headline of the given level, with the given children.
    pub fn section(level: u8, value: &str, modifier: Modifier, children: Vec<Node>) -> (r: Node)
        ensures
            r matches Node::Section { head: Some(h), section_type: t, children: cs } && t
                == section_type_of(modifier) && cs == children && leaf_view(*h) == Some(
                LeafModel::Headline(TokenModel::Headline { level, text: value@, modifier }),
            ),
            all_leaves(children@) ==> top_view(r) == Some(
                TopModel::Section {
                    head: TokenModel::Headline { level, text: value@, modifier },
                    section_type: section_type_of(modifier),
                    children: leaves_view(children@),
                },
            ),
    {
        let section_type = SectionType::from_modifier(modifier);
        Node::Section {
            head: Some(Box::new(Node::headline(level, value, section_type.to_modifier()))),
            section_type,
            children,
        }
    }

    /// A headline node.
    pub fn headline(level: u8, value: &str, modifier: Modifier) -> (r: Node)
        ensures
            leaf_view(r) == Some(
                LeafModel::Headline(TokenModel::Headline { level, text: value@, modifier }),
            ),
    {
        Node::Headline(Token::headline(level, value, modifier))
    }

    /// A chord mark without text, read in the `B` notation; the error of the chord text where
    /// it does not parse.
    pub fn chord_standalone(value: &str) -> (r: Result<Node, Error>)
        ensures
            match parse_chords(value@, BNotation::B) {
                Ok(c) => r matches Ok(Node::ChordStandalone(cs)) && cs@ == c,
                Err(e) => r == Err::<Node, Error>(e),
            },
    {
        match Chords::try_from(value, BNotation::B) {
            Ok(c) => Ok(Node::ChordStandalone(c)),
            Err(e) => Err(e),
        }
    }

    /// A chord mark over text, read in the `B` notation; the text is kept as it is. The error
    /// of the chord text where it does not parse.
    pub fn chord_text_pair(chords: &str, text: &str) -> (r: Result<Node, Error>)
        ensures
            match parse_chords(chords@, BNotation::B) {
                Ok(c) => r matches Ok(Node::ChordTextPair { chords: cs, text: t }) && cs@ == c
                    && t@ == TokenModel::Literal(text@),
                Err(e) => r == Err::<Node, Error>(e),
            },
    {
        match Chords::try_from(chords, BNotation::B) {
            Ok(c) => Ok(Node::ChordTextPair { chords: c, text: Token::literal(text) }),
            Err(e) => Err(e),
        }
    }

    /// A chord mark over text that ends its line, read in the `B` notation; the text is kept as
    /// it is. The error of the chord text where it does not parse.
    pub fn chord_text_pair_last_in_line(chords: &str, text: &str) -> (r: Result<Node, Error>)
        ensures
            match parse_chords(chords@, BNotation::B) {
                Ok(c) => r matches Ok(Node::ChordTextPairLastInLine { chords: cs, text: t })
                    && cs@ == c && t@ == TokenModel::Literal(text@),
                Err(e) => r == Err::<Node, Error>(e),
            },
    {
        match Chords::try_from(chords, BNotation::B) {
            Ok(c) => Ok(Node::ChordTextPairLastInLine { chords: c, text: Token::literal(text) }),
            Err(e) => Err(e),
        }
    }

    /// A line break node.
    pub fn newline() -> (r: Node)
        ensures
            leaf_view(r) == Some(LeafModel::Newline),
    {
        Node::Newline
    }

    /// A text node.
    pub fn text(value: &str) -> (r: Node)
        ensures
            leaf_view(r) == Some(LeafModel::Text(TokenModel::Literal(value@))),
    {
        Node::Text(Token::literal(value))
    }

    /// A quote node.
    pub fn quote(value: &str) -> (r: Node)
        ensures
            leaf_view(r) == Some(LeafModel::Quote(TokenModel::Quote(value@))),
    {
        Node::Quote(Token::quote(value))
    }

    /// A metadata node read from a line such as `Artist: The Fantastic Corns`.
    pub fn meta(value: &str) -> (r: Result<Node, ()>)
        ensures
            match crate::tokenizer::keyword::meta_from_line(value@) {
                Some(m) => r matches Ok(n) && leaf_view(n) == Some(LeafModel::Meta(m)),
                None => r is Err,
            },
    {
        match Meta::try_from_str(value) {
            Ok(m) => Ok(Node::Meta(m)),
            Err(e) => Err(e),
        }
    }
}

} // verus!
