//! Token trees as plain values.

use vstd::prelude::*;

verus! {

/// How a group of token trees is delimited.
#[derive(Clone, Copy, Debug, PartialEq, Eq, Structural)]
pub enum Delimiter {
    /// `( ... )`
    Parenthesis,
    /// `{ ... }`
    Brace,
    /// `[ ... ]`
    Bracket,
    /// No visible delimiter.
    Invisible,
}

/// Whether a punctuation character is immediately followed by another one.
#[derive(Clone, Copy, Debug, PartialEq, Eq, Structural)]
pub enum Spacing {
    /// The next token is not punctuation, or is set apart from this one.
    Alone,
    /// The next token is punctuation and follows without a gap, as `<` in `<-`.
    Joint,
}

/// A token tree, the mathematical model of one element of a token stream.
///
/// Spans are not part of the model. An identifier and a literal are the text
/// they print as.
pub enum Tree {
    /// An identifier or keyword; a raw identifier with its `r#`.
    Ident(Seq<char>),
    /// One punctuation character.
    Punct(char, Spacing),
    /// A literal: a number, a character, a string.
    Literal(Seq<char>),
    /// A delimited run of token trees.
    Group(Delimiter, Seq<Tree>),
}

/// The outermost layer of a token tree: what the comprehension grammar looks at.
/// Of a group it keeps nothing but that it is one.
#[derive(Debug, PartialEq, Eq)]
pub enum Token {
    /// An identifier or keyword, as it prints.
    Ident(String),
    /// One punctuation character.
    Punct(char, Spacing),
    /// A literal, as it prints.
    Literal(String),
    /// A delimited group.
    Group,
}

impl Token {
    /// This token is the outermost layer of `tree`.
    pub open spec fn is_head_of(&self, tree: Tree) -> bool {
        match (*self, tree) {
            (Token::Ident(name), Tree::Ident(text)) => name@ == text,
            (Token::Punct(ch, spacing), Tree::Punct(c, s)) => ch == c && spacing == s,
            (Token::Literal(repr), Tree::Literal(text)) => repr@ == text,
            (Token::Group, Tree::Group(_, _)) => true,
            _ => false,
        }
    }

    /// This token is the keyword `in`.
    pub fn is_keyword_in(&self) -> (yes: bool)
        ensures
            yes == (*self matches Token::Ident(name) && name@ == "in"@),
    {
        match self {
            Token::Ident(name) => {
                let text = name.as_str();
                let yes = text.unicode_len() == 2 && text.get_char(0) == 'i' && text.get_char(1)
                    == 'n';
                proof {
                    reveal_strlit("in");
                    if yes {
                        assert(name@ =~= "in"@);
                    }
                }
                yes
            },
            _ => false,
        }
    }

    /// This token is the punctuation character `ch`, whatever follows it.
    pub fn is_punct(&self, ch: char) -> (yes: bool)
        ensures
            yes == (*self matches Token::Punct(c, _) && c == ch),
    {
        match self {
            Token::Punct(c, _) => *c == ch,
            _ => false,
        }
    }

    /// This token is the punctuation character `ch`, joined to the next token.
    pub fn is_joint_punct(&self, ch: char) -> (yes: bool)
        ensures
            yes == (*self == Token::Punct(ch, Spacing::Joint)),
    {
        match self {
            Token::Punct(c, Spacing::Joint) => *c == ch,
            _ => false,
        }
    }
}

impl Clone for Token {
    fn clone(&self) -> (copy: Token)
        ensures
            copy == *self,
    {
        match self {
            Token::Ident(name) => Token::Ident(name.clone()),
            Token::Punct(ch, spacing) => Token::Punct(*ch, *spacing),
            Token::Literal(repr) => Token::Literal(repr.clone()),
            Token::Group => Token::Group,
        }
    }
}

/// The identifier with the given name.
pub open spec fn ident(name: &str) -> Tree {
    Tree::Ident(name@)
}

/// `tree` is the keyword `in`.
pub open spec fn is_in(tree: Tree) -> bool {
    tree == ident("in")
}

/// `tree` is the punctuation character `ch`, whatever follows it.
pub open spec fn is_punct(tree: Tree, ch: char) -> bool {
    tree matches Tree::Punct(c, _) && c == ch
}

/// The binding operator `<-` stands at `pos`: a `<` joined to a `-`.
pub open spec fn arrow_at(trees: Seq<Tree>, pos: nat) -> bool {
    &&& pos + 1 < trees.len()
    &&& trees[pos as int] == Tree::Punct('<', Spacing::Joint)
    &&& is_punct(trees[(pos + 1) as int], '-')
}

/// The condition separator `,` stands at `pos`.
pub open spec fn comma_at(trees: Seq<Tree>, pos: nat) -> bool {
    pos < trees.len() && is_punct(trees[pos as int], ',')
}

} // verus!
