//! The attribute capability and the serialization of an attribute list.

use crate::markup::{rendered_attribute, rendered_attributes, AttrPair};
use vstd::prelude::*;

verus! {

/// Something that contributes one `key="value"` pair to an opening marker.
///
/// Key and value are final text: the engine copies them without change.
/// A verified implementation states both as spec functions; of one that
/// leaves them out nothing is known.
pub trait Attribute {
    /// The key this attribute is emitted under.
    open spec fn spec_attr_key(&self) -> Seq<char> {
        arbitrary()
    }

    /// The value this attribute is emitted with.
    open spec fn spec_attr_value(&self) -> Seq<char> {
        arbitrary()
    }

    fn attr_key(&self) -> (key: String)
        ensures
            key@ == self.spec_attr_key(),
    ;

    fn attr_value(&self) -> (value: String)
        ensures
            value@ == self.spec_attr_value(),
    ;
}

/// The pair that an attribute stands for.
pub open spec fn attr_pair<A: Attribute + ?Sized>(attribute: &A) -> AttrPair {
    (attribute.spec_attr_key(), attribute.spec_attr_value())
}

/// The pair that a resolved attribute stands for.
pub open spec fn pair_of(attribute: (String, String)) -> AttrPair {
    (attribute.0@, attribute.1@)
}

/// The pairs that a list of resolved attributes stands for, in the order of the list.
pub open spec fn pairs_of(attributes: Seq<(String, String)>) -> Seq<AttrPair> {
    Seq::new(attributes.len(), |i: int| pair_of(attributes[i]))
}

/// Reads an attribute into its key and its value.
pub fn resolve_attribute<A: Attribute + ?Sized>(attribute: &A) -> (pair: (String, String))
    ensures
        pair_of(pair) == attr_pair(attribute),
{
    (attribute.attr_key(), attribute.attr_value())
}

/// Serializes the attributes in their order, each preceded by one space.
/// An empty list gives the empty string.
pub fn render_attributes(attributes: &Vec<(String, String)>) -> (out: String)
    ensures
        out@ == rendered_attributes(pairs_of(attributes@)),
{
    let mut out = String::new();
    let n = attributes.len();
    let mut i: usize = 0;
    while i < n
        invariant
            n == attributes@.len(),
            i <= n,
            out@ == rendered_attributes(pairs_of(attributes@).take(i as int)),
        decreases n - i,
    {
        let one = render_attribute(&attributes[i]);
        out.append(" ");
        out.append(one.as_str());
        proof {
            let pairs = pairs_of(attributes@);
            assert(pairs.take(i + 1).drop_last() =~= pairs.take(i as int));
            assert(pairs.take(i + 1).last() == pair_of(attributes@[i as int]));
        }
        i += 1;
    }
    proof {
        assert(pairs_of(attributes@).take(n as int) =~= pairs_of(attributes@));
    }
    out
}

/// Serializes one attribute as the key, `=`, and the value between double quotes.
pub fn render_attribute(attribute: &(String, String)) -> (out: String)
    ensures
        out@ == rendered_attribute(pair_of(*attribute)),
{
    let mut out = attribute.0.clone();
    out.append("=\"");
    out.append(attribute.1.as_str());
    out.append("\"");
    out
}

} // verus!
