//! The style tree: an ordered sequence of `(selector, body)` entries, where
//! a body is an ordered sequence of `(property key, value)` pairs and a
//! value is either a displayable leaf or a nested body whose keys are again
//! treated as selectors (at-rules, keyframe blocks).  Insertion order is
//! preserved and significant; duplicate selectors are kept, each emitting
//! its own block.

use vstd::prelude::*;

verus! {

/// A terminal property value, already reduced to a displayable scalar.
/// A list value (such as `1px solid green`) arrives pre-joined as text.
#[derive(Debug, PartialEq, Eq)]
pub enum LeafValue {
    /// A boolean, spelled `true` or `false`.
    Bool(bool),
    /// An integer, spelled in minimal decimal form.
    Int(i64),
    /// Text, emitted verbatim.
    Text(String),
}

/// A property value: either a leaf or a nested body.  The union makes it
/// structurally impossible for an entry to be both at once.
#[derive(Debug, PartialEq, Eq)]
pub enum PropertyValue {
    /// A displayable scalar.
    Leaf(LeafValue),
    /// A sub-tree whose keys are treated as selectors one level deeper.
    Nested(StyleBody),
}

/// The ordered `(property key, value)` pairs inside one selector block.
#[derive(Debug, PartialEq, Eq)]
pub struct StyleBody {
    /// The pairs, in insertion order.
    pub entries: Vec<(String, PropertyValue)>,
}

/// The ordered `(selector, body)` entries of a whole style sheet.
#[derive(Debug, PartialEq, Eq)]
pub struct StyleTree {
    /// The entries, in insertion order.
    pub entries: Vec<(String, StyleBody)>,
}

/// The error surfaced by rendering, in specification form.
pub enum SpecCssError {
    /// A property key that resolves to nothing, with the enclosing selector
    /// when one is known.
    UnknownProperty { key: Seq<char>, selector: Option<Seq<char>> },
}

/// The error surfaced by rendering in strict mode.  A value of an
/// unsupported shape cannot arise here: the [`PropertyValue`] union is
/// closed over displayable leaves and nested bodies, so the only failure
/// rendering can meet is a property key that resolves to nothing.
#[derive(Debug, PartialEq, Eq)]
pub enum CssError {
    /// A property key that resolves to nothing, with the enclosing selector
    /// when one is known.
    UnknownProperty {
        /// The key that could not be resolved.
        key: String,
        /// The selector whose body held the key, when known.
        selector: Option<String>,
    },
}

impl View for CssError {
    type V = SpecCssError;

    open spec fn view(&self) -> SpecCssError {
        match self {
            CssError::UnknownProperty { key, selector } => SpecCssError::UnknownProperty {
                key: key@,
                selector: match selector {
                    Some(s) => Some(s@),
                    None => None,
                },
            },
        }
    }
}

/// The diagnostic text of an error.
pub open spec fn spec_message(e: SpecCssError) -> Seq<char> {
    match e {
        SpecCssError::UnknownProperty { key, selector } => "invalid style name: `"@ + key + "` "@
            + match selector {
            Some(s) => "in selector: `"@ + s + "`"@,
            None => Seq::<char>::empty(),
        },
    }
}

impl CssError {
    /// The diagnostic text for this error.
    pub fn message(&self) -> (r: String)
        ensures
            r@ == spec_message(self@),
    {
        match self {
            CssError::UnknownProperty { key, selector } => {
                let mut m = "invalid style name: `".to_owned();
                m.append(key.as_str());
                m.append("` ");
                match selector {
                    Some(s) => {
                        m.append("in selector: `");
                        m.append(s.as_str());
                        m.append("`");
                    },
                    None => {},
                }
                proof {
                    assert(m@ =~= spec_message(self@));
                }
                m
            },
        }
    }
}

impl StyleBody {
    /// An empty body.
    pub fn new() -> (b: StyleBody)
        ensures
            b.entries@ =~= Seq::<(String, PropertyValue)>::empty(),
    {
        StyleBody { entries: Vec::new() }
    }

    /// Append one `(property key, value)` pair.
    pub fn push(&mut self, key: &str, value: PropertyValue)
        ensures
            final(self).entries@.len() == old(self).entries@.len() + 1,
            final(self).entries@.last().0@ == key@,
            final(self).entries@.last().1 == value,
            final(self).entries@.drop_last() == old(self).entries@,
    {
        let owned = key.to_owned();
        self.entries.push((owned, value));
        proof {
            assert(final(self).entries@.drop_last() =~= old(self).entries@);
        }
    }
}

impl StyleTree {
    /// An empty tree.
    pub fn new() -> (t: StyleTree)
        ensures
            t.entries@ =~= Seq::<(String, StyleBody)>::empty(),
    {
        StyleTree { entries: Vec::new() }
    }

    /// Append one `(selector, body)` entry.
    pub fn push(&mut self, selector: &str, body: StyleBody)
        ensures
            final(self).entries@.len() == old(self).entries@.len() + 1,
            final(self).entries@.last().0@ == selector@,
            final(self).entries@.last().1 == body,
            final(self).entries@.drop_last() == old(self).entries@,
    {
        let owned = selector.to_owned();
        self.entries.push((owned, body));
        proof {
            assert(final(self).entries@.drop_last() =~= old(self).entries@);
        }
    }
}

impl PropertyValue {
    /// A text leaf.
    pub fn text(s: &str) -> (v: PropertyValue)
        ensures
            v matches PropertyValue::Leaf(l) && l matches LeafValue::Text(t) && t@ == s@,
    {
        PropertyValue::Leaf(LeafValue::Text(s.to_owned()))
    }

    /// An integer leaf.
    pub fn integer(i: i64) -> (v: PropertyValue)
        ensures
            v == PropertyValue::Leaf(LeafValue::Int(i)),
    {
        PropertyValue::Leaf(LeafValue::Int(i))
    }

    /// A boolean leaf.
    pub fn bool_value(b: bool) -> (v: PropertyValue)
        ensures
            v == PropertyValue::Leaf(LeafValue::Bool(b)),
    {
        PropertyValue::Leaf(LeafValue::Bool(b))
    }

    /// A nested body.
    pub fn nested(body: StyleBody) -> (v: PropertyValue)
        ensures
            v == PropertyValue::Nested(body),
    {
        PropertyValue::Nested(body)
    }
}

} // verus!
