//! Filling the placeholders of a text with the values of variables.

use crate::text::{
    chars_of, lemma_replace_all_without_occurrence, occurs, replace, replace_all, text_of,
};
use crate::types::{variables, HSLink, Variable};
use vstd::prelude::*;

verus! {

/// A name that begins with `_` is reserved: a variable of that name is never
/// filled in.
pub open spec fn is_reserved(name: Seq<char>) -> bool {
    name.len() > 0 && name[0] == '_'
}

/// The placeholder of a variable: its name between braces.
pub open spec fn placeholder(name: Seq<char>) -> Seq<char> {
    seq!['{'] + name + seq!['}']
}

/// `text` after one variable has been applied: unchanged for a reserved
/// name, else with every placeholder of the variable replaced by its value.
pub open spec fn apply_variable(text: Seq<char>, variable: Variable) -> Seq<char> {
    if is_reserved(variable.name) {
        text
    } else {
        replace_all(text, placeholder(variable.name), variable.value)
    }
}

/// `text` after the variables have been applied one after the other, in the
/// order of the list. Each works on what the earlier ones left, so a value
/// put in by one variable is read by the later ones.
pub open spec fn apply_variables(text: Seq<char>, vars: Seq<Variable>) -> Seq<char>
    decreases vars.len(),
{
    if vars.len() == 0 {
        text
    } else {
        apply_variable(apply_variables(text, vars.drop_last()), vars.last())
    }
}

/// A reserved variable changes no text, whatever placeholders the text holds.
pub proof fn lemma_reserved_variable_is_skipped(text: Seq<char>, variable: Variable)
    requires
        is_reserved(variable.name),
    ensures
        apply_variables(text, seq![variable]) == text,
{
    assert(apply_variables(text, seq![variable].drop_last()) == text);
}

/// Reserved variables can be taken out of a list without changing what the
/// list does to a text.
pub proof fn lemma_reserved_variables_do_nothing(text: Seq<char>, vars: Seq<Variable>)
    ensures
        apply_variables(text, vars) == apply_variables(
            text,
            vars.filter(|v: Variable| !is_reserved(v.name)),
        ),
    decreases vars.len(),
{
    let keep = |v: Variable| !is_reserved(v.name);
    reveal(Seq::filter);
    if vars.len() > 0 {
        lemma_reserved_variables_do_nothing(text, vars.drop_last());
        if keep(vars.last()) {
            let kept = vars.filter(keep);
            assert(kept.drop_last() == vars.drop_last().filter(keep));
        }
    }
}

/// A variable whose placeholder does not occur in the text leaves the text as
/// it is.
pub proof fn lemma_absent_placeholder_is_kept(text: Seq<char>, variable: Variable)
    requires
        !occurs(text, placeholder(variable.name)),
    ensures
        apply_variable(text, variable) == text,
{
    lemma_replace_all_without_occurrence(text, placeholder(variable.name), variable.value);
}

/// Without variables, every placeholder stays in the text.
pub proof fn lemma_no_variables_keep_text(text: Seq<char>)
    ensures
        apply_variables(text, Seq::<Variable>::empty()) == text,
{
}

/// Applying a list of variables is applying its first part, then the rest.
pub proof fn lemma_variables_apply_in_order(
    text: Seq<char>,
    first: Seq<Variable>,
    then: Seq<Variable>,
)
    ensures
        apply_variables(text, first + then) == apply_variables(apply_variables(text, first), then),
    decreases then.len(),
{
    if then.len() > 0 {
        assert((first + then).drop_last() == first + then.drop_last());
        lemma_variables_apply_in_order(text, first, then.drop_last());
    }
}

/// Whether a name is reserved.
pub fn name_is_reserved(name: &str) -> (reserved: bool)
    ensures
        reserved == is_reserved(name@),
{
    !name.is_empty() && name.get_char(0) == '_'
}

/// The placeholder of a variable, as characters.
pub fn placeholder_of(name: &str) -> (pattern: Vec<char>)
    ensures
        pattern@ == placeholder(name@),
{
    let mut pattern: Vec<char> = Vec::new();
    pattern.push('{');
    let mut letters = chars_of(name);
    pattern.append(&mut letters);
    pattern.push('}');
    pattern
}

/// Applies the variables to `body`, one after the other.
pub fn fill(body: &str, vars: &Vec<HSLink>) -> (text: String)
    ensures
        text@ == apply_variables(body@, variables(vars@)),
{
    let mut text = chars_of(body);
    let ghost all = variables(vars@);
    let mut i: usize = 0;
    while i < vars.len()
        invariant
            i <= vars.len(),
            all == variables(vars@),
            text@ == apply_variables(body@, all.take(i as int)),
        decreases vars.len() - i,
    {
        let var = &vars[i];
        assert(all.take(i + 1).drop_last() == all.take(i as int));
        if !name_is_reserved(var.name.as_str()) {
            let pattern = placeholder_of(var.name.as_str());
            let value = chars_of(var.value.as_str());
            text = replace(&text, &pattern, &value);
        }
        i = i + 1;
    }
    assert(all.take(vars.len() as int) == all);
    text_of(&text)
}

} // verus!
