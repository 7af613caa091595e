//! The style-declaration capability and the text of a declaration list.

use vstd::prelude::*;

verus! {

/// One style declaration: a property and its value, both final text.
///
/// A verified implementation states both as spec functions; of one that
/// leaves them out nothing is known.
pub trait Style {
    /// The property that is declared.
    open spec fn spec_style_key(&self) -> Seq<char> {
        arbitrary()
    }

    /// The value that the property is given.
    open spec fn spec_style_value(&self) -> Seq<char> {
        arbitrary()
    }

    fn style_key(&self) -> (key: String)
        ensures
            key@ == self.spec_style_key(),
    ;

    fn style_value(&self) -> (value: String)
        ensures
            value@ == self.spec_style_value(),
    ;
}

/// A declaration as a pair of property and value.
pub type Declaration = (Seq<char>, Seq<char>);

/// The pair that a declaration stands for.
pub open spec fn declaration<S: Style + ?Sized>(style: &S) -> Declaration {
    (style.spec_style_key(), style.spec_style_value())
}

/// The pairs that a list of declarations stands for, in the order of the list.
pub open spec fn declarations(styles: Seq<&dyn Style>) -> Seq<Declaration> {
    Seq::new(styles.len(), |i: int| declaration(styles[i]))
}

/// One declaration: the property, a colon and a space, and the value.
pub open spec fn rendered_style(pair: Declaration) -> Seq<char> {
    pair.0 + ": "@ + pair.1
}

/// A declaration list: each declaration followed by `"; "`, and the
/// declarations in the reverse of their order in the list.
pub open spec fn rendered_styles(pairs: Seq<Declaration>) -> Seq<char>
    decreases pairs.len(),
{
    if pairs.len() == 0 {
        Seq::empty()
    } else {
        rendered_style(pairs.last()) + "; "@ + rendered_styles(pairs.drop_last())
    }
}

/// Serializes a declaration list; the last declaration of the list comes first.
pub fn render_styles(styles: &Vec<&dyn Style>) -> (out: String)
    ensures
        out@ == rendered_styles(declarations(styles@)),
{
    let mut out = String::new();
    let n = styles.len();
    let mut i: usize = 0;
    while i < n
        invariant
            n == styles@.len(),
            i <= n,
            out@ == rendered_styles(declarations(styles@).take(i as int)),
        decreases n - i,
    {
        let mut next = render_style(styles[i]);
        next.append("; ");
        next.append(out.as_str());
        proof {
            let pairs = declarations(styles@);
            assert(pairs.take(i + 1).drop_last() =~= pairs.take(i as int));
            assert(pairs.take(i + 1).last() == declaration(styles@[i as int]));
        }
        out = next;
        i += 1;
    }
    proof {
        assert(declarations(styles@).take(n as int) =~= declarations(styles@));
    }
    out
}

/// Serializes one declaration as the property, `": "`, and the value.
pub fn render_style<S: Style + ?Sized>(style: &S) -> (out: String)
    ensures
        out@ == rendered_style(declaration(style)),
{
    let mut out = style.style_key();
    let value = style.style_value();
    out.append(": ");
    out.append(value.as_str());
    out
}

} // verus!
