//! The pipeline: fill the placeholders, render the Markdown, sanitize the
//! HTML.

use crate::builder::{
    add_clean_content_tags, add_generic_attributes, add_tag_attributes, add_tags, clean, cleaned,
    new_builder,
};
use crate::markdown::{markdown_html, render_markdown};
use crate::policy::{
    lemma_policy_is_accepted, policy, ADDED_GENERIC_ATTRIBUTES, ADDED_TAGS, CLEAN_CONTENT_TAGS,
    IMG_ATTRIBUTES,
};
use crate::text::occurs;
use crate::types::{variables, HSLink, Variable};
use crate::variables::{
    apply_variables, fill, is_reserved, lemma_absent_placeholder_is_kept,
    lemma_reserved_variable_is_skipped, placeholder,
};
use vstd::prelude::*;

verus! {

/// The safe HTML for a Markdown or HTML text: the text rendered as Markdown,
/// then sanitized under the policy of this library.
pub open spec fn sanitized(text: Seq<char>) -> Seq<char> {
    cleaned(policy(), markdown_html(text))
}

/// The safe HTML for a template: the variables are applied to the raw text
/// first, so whatever markup a value brings is sanitized with the rest.
pub open spec fn templated(body: Seq<char>, vars: Seq<Variable>) -> Seq<char> {
    sanitized(apply_variables(body, vars))
}

/// A reserved variable changes nothing: the template gives what the body
/// alone gives, whatever placeholders the body holds.
pub proof fn lemma_template_skips_reserved_variable(body: Seq<char>, variable: Variable)
    requires
        is_reserved(variable.name),
    ensures
        templated(body, seq![variable]) == sanitized(body),
{
    lemma_reserved_variable_is_skipped(body, variable);
}

/// A placeholder that no variable names passes through: with a variable whose
/// placeholder the body does not hold, and with no variable at all, the
/// template gives what the body alone gives.
pub proof fn lemma_template_keeps_unmatched_placeholders(body: Seq<char>, variable: Variable)
    requires
        !occurs(body, placeholder(variable.name)),
    ensures
        templated(body, seq![variable]) == sanitized(body),
        templated(body, Seq::<Variable>::empty()) == sanitized(body),
{
    assert(apply_variables(body, seq![variable].drop_last()) == body);
    lemma_absent_placeholder_is_kept(body, variable);
}

/// What a template gives is what sanitizing some text gives: the values of
/// the variables pass through the sanitizer like the rest of the text, and no
/// markup that a value brings gets past it.
pub proof fn lemma_template_is_sanitized_text(body: Seq<char>, vars: Seq<Variable>)
    ensures
        exists|text: Seq<char>| templated(body, vars) == #[trigger] sanitized(text),
{
    assert(templated(body, vars) == sanitized(apply_variables(body, vars)));
}

/// Sanitizes an HTML fragment under the policy of this library.
pub fn clean_html(html: &str) -> (out: String)
    ensures
        out@ == cleaned(policy(), html@),
{
    let mut builder = new_builder();
    add_clean_content_tags(&mut builder, &CLEAN_CONTENT_TAGS);
    add_tags(&mut builder, &ADDED_TAGS);
    add_generic_attributes(&mut builder, &ADDED_GENERIC_ATTRIBUTES);
    add_tag_attributes(&mut builder, "img", &IMG_ATTRIBUTES);
    proof {
        lemma_policy_is_accepted();
    }
    clean(&builder, html)
}

/// Renders `body` as Markdown and sanitizes the HTML.
pub fn sanitize(body: &str) -> (out: String)
    ensures
        out@ == sanitized(body@),
{
    let html = render_markdown(body);
    clean_html(html.as_str())
}

/// Fills the placeholders of `body` with the variables, in their order, then
/// renders and sanitizes the text.
pub fn template(body: &str, vars: Vec<HSLink>) -> (out: String)
    ensures
        out@ == templated(body@, variables(vars@)),
{
    let text = fill(body, &vars);
    sanitize(text.as_str())
}

} // verus!
