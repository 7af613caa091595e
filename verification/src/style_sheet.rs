//! Style sheets: rules that give declarations to named selectors, and the
//! text they compile to.

use crate::style_traits::{declarations, render_styles, rendered_styles, Style};
use vstd::prelude::*;

verus! {

/// A list of rules, compiled in their order.
pub struct StyleSheet<'a> {
    pub assignments: Vec<StyleAssignment<'a>>,
}

/// One rule: the selectors it names and the declarations it gives them.
pub struct StyleAssignment<'a> {
    pub names: Vec<String>,
    pub styles: Vec<&'a dyn Style>,
}

/// The texts of a list of strings.
pub open spec fn texts(names: Seq<String>) -> Seq<Seq<char>> {
    Seq::new(names.len(), |i: int| names[i]@)
}

/// `names` with `", "` between each two neighbours.
pub open spec fn comma_joined(names: Seq<Seq<char>>) -> Seq<char>
    decreases names.len(),
{
    if names.len() == 0 {
        Seq::empty()
    } else if names.len() == 1 {
        names[0]
    } else {
        comma_joined(names.drop_last()) + ", "@ + names.last()
    }
}

/// One rule: the selectors, then the declarations between `" { "` and `" }"`.
pub open spec fn compiled_rule(assignment: StyleAssignment<'_>) -> Seq<char> {
    comma_joined(texts(assignment.names@)) + " { "@ + rendered_styles(
        declarations(assignment.styles@),
    ) + " }"@
}

/// The rules in their order, each preceded by one space.
pub open spec fn compiled_sheet(assignments: Seq<StyleAssignment<'_>>) -> Seq<char>
    decreases assignments.len(),
{
    if assignments.len() == 0 {
        Seq::empty()
    } else {
        compiled_sheet(assignments.drop_last()) + " "@ + compiled_rule(assignments.last())
    }
}

/// Compiles a style sheet to text.
pub fn style_sheet_string(style_sheet: &StyleSheet) -> (out: String)
    ensures
        out@ == compiled_sheet(style_sheet.assignments@),
{
    let mut out = String::new();
    let n = style_sheet.assignments.len();
    let mut i: usize = 0;
    while i < n
        invariant
            n == style_sheet.assignments@.len(),
            i <= n,
            out@ == compiled_sheet(style_sheet.assignments@.take(i as int)),
        decreases n - i,
    {
        let rule = single_style_string(&style_sheet.assignments[i]);
        out.append(" ");
        out.append(rule.as_str());
        proof {
            let rules = style_sheet.assignments@;
            assert(rules.take(i + 1).drop_last() =~= rules.take(i as int));
            assert(rules.take(i + 1).last() == rules[i as int]);
        }
        i += 1;
    }
    proof {
        assert(style_sheet.assignments@.take(n as int) =~= style_sheet.assignments@);
    }
    out
}

/// Joins the names with `", "`.
fn join_names(names: &Vec<String>) -> (out: String)
    ensures
        out@ == comma_joined(texts(names@)),
{
    let mut out = String::new();
    let n = names.len();
    let mut i: usize = 0;
    while i < n
        invariant
            n == names@.len(),
            i <= n,
            out@ == comma_joined(texts(names@).take(i as int)),
        decreases n - i,
    {
        if i > 0 {
            out.append(", ");
        }
        out.append(names[i].as_str());
        proof {
            let all = texts(names@);
            assert(all.take(i + 1).drop_last() =~= all.take(i as int));
            assert(all.take(i + 1).last() == names@[i as int]@);
            assert(all.take(i + 1)[0] == all[0]);
            if i == 0 {
                assert(out@ =~= names@[0]@);
            }
        }
        i += 1;
    }
    proof {
        assert(texts(names@).take(n as int) =~= texts(names@));
    }
    out
}

/// Compiles one rule to text.
pub fn single_style_string(style_assignment: &StyleAssignment) -> (out: String)
    ensures
        out@ == compiled_rule(*style_assignment),
{
    let mut out = join_names(&style_assignment.names);
    let body = render_styles(&style_assignment.styles);
    out.append(" { ");
    out.append(body.as_str());
    out.append(" }");
    out
}

} // verus!
