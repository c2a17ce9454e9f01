//! The HTML sanitizer of `ammonia`, behind the contracts that this library
//! trusts of it.

use crate::policy::{attributes_of, names, with_attributes, SanitizationPolicy};
use vstd::prelude::*;

verus! {

/// `ammonia::Builder`, the sanitizer with its settings. What it holds is
/// known only through the contracts below.
#[verifier::external_type_specification]
#[verifier::external_body]
pub struct ExBuilder<'a>(ammonia::Builder<'a>);

/// The tags that a builder lets through: its field `tags`.
pub uninterp spec fn allowed_tags(builder: ammonia::Builder<'static>) -> Set<Seq<char>>;

/// The tags that a builder removes with their content: its field
/// `clean_content_tags`.
pub uninterp spec fn clean_content_tags(builder: ammonia::Builder<'static>) -> Set<Seq<char>>;

/// The attributes that a builder lets through on every tag: its field
/// `generic_attributes`.
pub uninterp spec fn generic_attributes(builder: ammonia::Builder<'static>) -> Set<Seq<char>>;

/// The attributes that a builder lets through on single tags: its field
/// `tag_attributes`.
pub uninterp spec fn tag_attributes(builder: ammonia::Builder<'static>) -> Map<
    Seq<char>,
    Set<Seq<char>>,
>;

/// Whether all that a builder holds beside those four is as
/// `ammonia::Builder::new` made it: the URL schemes, the treatment of
/// relative URLs, `rel="noopener noreferrer"` on links, no allowed classes,
/// no attribute values, prefixes or filter, no id prefix, comments stripped.
pub uninterp spec fn keeps_other_defaults(builder: ammonia::Builder<'static>) -> bool;

/// What `ammonia::Builder::clean` makes of `html`, serialised, under a builder
/// that holds these four collections and keeps the other defaults.
pub uninterp spec fn cleaned_html(
    tags: Set<Seq<char>>,
    clean_content_tags: Set<Seq<char>>,
    generic_attributes: Set<Seq<char>>,
    tag_attributes: Map<Seq<char>, Set<Seq<char>>>,
    html: Seq<char>,
) -> Seq<char>;

/// The policy that a builder holds.
pub open spec fn settings(builder: ammonia::Builder<'static>) -> SanitizationPolicy {
    SanitizationPolicy {
        tags: allowed_tags(builder),
        clean_content_tags: clean_content_tags(builder),
        generic_attributes: generic_attributes(builder),
        tag_attributes: tag_attributes(builder),
    }
}

/// `html` sanitized under a policy.
pub open spec fn cleaned(policy: SanitizationPolicy, html: Seq<char>) -> Seq<char> {
    cleaned_html(
        policy.tags,
        policy.clean_content_tags,
        policy.generic_attributes,
        policy.tag_attributes,
        html,
    )
}

/// The tags that the sanitizer allows by itself.
pub const BASE_TAGS: [&'static str; 76] = [
    "a", "abbr", "acronym", "area", "article", "aside", "b", "bdi", "bdo", "blockquote", "br",
    "caption", "center", "cite", "code", "col", "colgroup", "data", "dd", "del", "details", "dfn",
    "div", "dl", "dt", "em", "figcaption", "figure", "footer", "h1", "h2", "h3", "h4", "h5", "h6",
    "header", "hgroup", "hr", "i", "img", "ins", "kbd", "kbd", "li", "map", "mark", "nav", "ol",
    "p", "pre", "q", "rp", "rt", "rtc", "ruby", "s", "samp", "small", "span", "strike", "strong",
    "sub", "summary", "sup", "table", "tbody", "td", "th", "thead", "time", "tr", "tt", "u", "ul",
    "var", "wbr",
];

/// The tags that the sanitizer removes with their content by itself.
pub const BASE_CLEAN_CONTENT_TAGS: [&'static str; 2] = ["script", "style"];

/// The attributes that the sanitizer allows on every tag by itself.
pub const BASE_GENERIC_ATTRIBUTES: [&'static str; 2] = ["lang", "title"];

/// The attributes that the sanitizer allows on single tags by itself.
pub open spec fn base_tag_attributes() -> Map<Seq<char>, Set<Seq<char>>> {
    map![
        "a"@ => set!["href"@, "hreflang"@],
        "bdo"@ => set!["dir"@],
        "blockquote"@ => set!["cite"@],
        "col"@ => set!["align"@, "char"@, "charoff"@, "span"@],
        "colgroup"@ => set!["align"@, "char"@, "charoff"@, "span"@],
        "del"@ => set!["cite"@, "datetime"@],
        "hr"@ => set!["align"@, "size"@, "width"@],
        "img"@ => set!["align"@, "alt"@, "height"@, "src"@, "width"@],
        "ins"@ => set!["cite"@, "datetime"@],
        "ol"@ => set!["start"@],
        "q"@ => set!["cite"@],
        "table"@ => set!["align"@, "char"@, "charoff"@, "summary"@],
        "tbody"@ => set!["align"@, "char"@, "charoff"@],
        "td"@ => set!["align"@, "char"@, "charoff"@, "colspan"@, "headers"@, "rowspan"@],
        "tfoot"@ => set!["align"@, "char"@, "charoff"@],
        "th"@ => set![
            "align"@,
            "char"@,
            "charoff"@,
            "colspan"@,
            "headers"@,
            "rowspan"@,
            "scope"@
        ],
        "thead"@ => set!["align"@, "char"@, "charoff"@],
        "tr"@ => set!["align"@, "char"@, "charoff"@]
    ]
}

/// The policy of a builder as `ammonia::Builder::new` makes it.
pub open spec fn base_policy() -> SanitizationPolicy {
    SanitizationPolicy {
        tags: names(BASE_TAGS@),
        clean_content_tags: names(BASE_CLEAN_CONTENT_TAGS@),
        generic_attributes: names(BASE_GENERIC_ATTRIBUTES@),
        tag_attributes: base_tag_attributes(),
    }
}

/// The policies under which `ammonia::Builder::clean` does its work, for a
/// builder that keeps the other defaults. It panics on the others: where
/// `rel` is allowed on links, which it sets itself; where a clean-content tag
/// is allowed or has attributes of its own; where an SVG animation tag is
/// allowed.
pub open spec fn accepted(policy: SanitizationPolicy) -> bool {
    &&& !policy.generic_attributes.contains("rel"@)
    &&& !attributes_of(policy.tag_attributes, "a"@).contains("rel"@)
    &&& forall|tag: Seq<char>| #[trigger]
        policy.clean_content_tags.contains(tag) ==> !policy.tags.contains(tag)
            && !policy.tag_attributes.contains_key(tag)
    &&& !policy.tags.contains("animate"@)
    &&& !policy.tags.contains("animateTransform"@)
    &&& !policy.tags.contains("animateMotion"@)
    &&& !policy.tags.contains("animateColor"@)
    &&& !policy.tags.contains("set"@)
}

/// A new builder.
///
/// Trusted: the body is `ammonia::Builder::new`, which returns
/// `Builder::default()`. The contract repeats the four collections that
/// `default` writes out and says that the rest is the default.
#[verifier::external_body]
pub(crate) fn new_builder() -> (builder: ammonia::Builder<'static>)
    ensures
        settings(builder) == base_policy(),
        keeps_other_defaults(builder),
{
    ammonia::Builder::new()
}

/// Has more tags removed with their content.
///
/// Trusted: the body is `ammonia::Builder::add_clean_content_tags`, which
/// extends the builder's `clean_content_tags` by the names of the list and
/// touches nothing else.
#[verifier::external_body]
pub(crate) fn add_clean_content_tags(
    builder: &mut ammonia::Builder<'static>,
    tags: &[&'static str],
)
    ensures
        settings(*final(builder)) == (SanitizationPolicy {
            clean_content_tags: clean_content_tags(*old(builder)).union(names(tags@)),
            ..settings(*old(builder))
        }),
        keeps_other_defaults(*final(builder)) == keeps_other_defaults(*old(builder)),
{
    builder.add_clean_content_tags(tags.iter().copied());
}

/// Allows more tags.
///
/// Trusted: the body is `ammonia::Builder::add_tags`, which extends the
/// builder's `tags` by the names of the list and touches nothing else.
#[verifier::external_body]
pub(crate) fn add_tags(builder: &mut ammonia::Builder<'static>, tags: &[&'static str])
    ensures
        settings(*final(builder)) == (SanitizationPolicy {
            tags: allowed_tags(*old(builder)).union(names(tags@)),
            ..settings(*old(builder))
        }),
        keeps_other_defaults(*final(builder)) == keeps_other_defaults(*old(builder)),
{
    builder.add_tags(tags.iter().copied());
}

/// Allows more attributes on every tag.
///
/// Trusted: the body is `ammonia::Builder::add_generic_attributes`, which
/// extends the builder's `generic_attributes` by the names of the list and
/// touches nothing else.
#[verifier::external_body]
pub(crate) fn add_generic_attributes(
    builder: &mut ammonia::Builder<'static>,
    attributes: &[&'static str],
)
    ensures
        settings(*final(builder)) == (SanitizationPolicy {
            generic_attributes: generic_attributes(*old(builder)).union(names(attributes@)),
            ..settings(*old(builder))
        }),
        keeps_other_defaults(*final(builder)) == keeps_other_defaults(*old(builder)),
{
    builder.add_generic_attributes(attributes.iter().copied());
}

/// Allows more attributes on one tag.
///
/// Trusted: the body is `ammonia::Builder::add_tag_attributes`, which takes
/// the entry of the tag in the builder's `tag_attributes`, an empty one if
/// there was none, extends it by the names of the list and touches nothing
/// else.
#[verifier::external_body]
pub(crate) fn add_tag_attributes(
    builder: &mut ammonia::Builder<'static>,
    tag: &'static str,
    attributes: &[&'static str],
)
    ensures
        settings(*final(builder)) == (SanitizationPolicy {
            tag_attributes: with_attributes(tag_attributes(*old(builder)), tag@, attributes@),
            ..settings(*old(builder))
        }),
        keeps_other_defaults(*final(builder)) == keeps_other_defaults(*old(builder)),
{
    builder.add_tag_attributes(tag, attributes.iter().copied());
}

/// Sanitizes an HTML fragment.
///
/// Trusted: the body is `ammonia::Builder::clean`, which parses the fragment,
/// filters the tree by the builder's settings and never fails on a text, and
/// `ammonia::Document::to_string`, which serialises the tree. `requires`
/// leaves out the settings on which `clean` panics. The contract claims that
/// the output is a function of the four collections and the text.
#[verifier::external_body]
pub(crate) fn clean(builder: &ammonia::Builder<'static>, html: &str) -> (out: String)
    requires
        keeps_other_defaults(*builder),
        accepted(settings(*builder)),
    ensures
        out@ == cleaned_html(
            allowed_tags(*builder),
            clean_content_tags(*builder),
            generic_attributes(*builder),
            tag_attributes(*builder),
            html@,
        ),
{
    builder.clean(html).to_string()
}

} // verus!
