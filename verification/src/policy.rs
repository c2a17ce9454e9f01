//! What survives sanitization: the tags and attributes that are let through.

use crate::builder::{
    accepted, base_policy, BASE_CLEAN_CONTENT_TAGS, BASE_GENERIC_ATTRIBUTES, BASE_TAGS,
};
use vstd::prelude::*;

verus! {

/// A sanitization policy.
///
/// An element whose tag is in `tags` is kept; one whose tag is in
/// `clean_content_tags` is removed with everything inside it; any other is
/// taken away while its children stay. On a kept element an attribute stays
/// if its name is in `generic_attributes` or in the set that
/// `tag_attributes` gives for the element's tag.
pub struct SanitizationPolicy {
    pub tags: Set<Seq<char>>,
    pub clean_content_tags: Set<Seq<char>>,
    pub generic_attributes: Set<Seq<char>>,
    pub tag_attributes: Map<Seq<char>, Set<Seq<char>>>,
}

/// Tags that are removed with all that they hold, whatever the sanitizer
/// removes by itself: style sheets and embedded frames, whose content must
/// not be reachable even as text.
pub const CLEAN_CONTENT_TAGS: [&'static str; 2] = ["style", "iframe"];

/// Tags allowed beside those that the sanitizer allows by itself.
pub const ADDED_TAGS: [&'static str; 19] = [
    "span", "img", "video", "p", "br", "center", "div", "h1", "h2", "h3", "h4", "h5", "section",
    "article", "lang", "code", "pre", "strong", "em",
];

/// Attributes allowed on every tag beside those that the sanitizer allows by
/// itself.
pub const ADDED_GENERIC_ATTRIBUTES: [&'static str; 11] = [
    "id",
    "class",
    "style",
    "data-src",
    "data-background-image",
    "data-background-image-set",
    "data-background-delimiter",
    "data-icon",
    "data-inline",
    "data-height",
    "code",
];

/// Attributes allowed on `img` beside those that the sanitizer allows by
/// itself.
pub const IMG_ATTRIBUTES: [&'static str; 8] = [
    "src",
    "alt",
    "width",
    "height",
    "crossorigin",
    "referrerpolicy",
    "sizes",
    "srcset",
];

/// The names of a list, as a set.
pub open spec fn names(list: Seq<&'static str>) -> Set<Seq<char>> {
    Set::new(|name: Seq<char>| exists|i: int| 0 <= i < list.len() && (#[trigger] list[i])@ == name)
}

/// The attributes that a map allows on a tag: none where it does not list
/// the tag.
pub open spec fn attributes_of(by_tag: Map<Seq<char>, Set<Seq<char>>>, tag: Seq<char>) -> Set<
    Seq<char>,
> {
    if by_tag.contains_key(tag) {
        by_tag[tag]
    } else {
        Set::empty()
    }
}

/// A map of attributes by tag, with more attributes allowed on one tag.
pub open spec fn with_attributes(
    by_tag: Map<Seq<char>, Set<Seq<char>>>,
    tag: Seq<char>,
    attributes: Seq<&'static str>,
) -> Map<Seq<char>, Set<Seq<char>>> {
    by_tag.insert(tag, attributes_of(by_tag, tag).union(names(attributes)))
}

/// The policy of this library: the sanitizer's own policy, widened by the
/// lists above.
pub open spec fn policy() -> SanitizationPolicy {
    let base = base_policy();
    SanitizationPolicy {
        tags: base.tags.union(names(ADDED_TAGS@)),
        clean_content_tags: base.clean_content_tags.union(names(CLEAN_CONTENT_TAGS@)),
        generic_attributes: base.generic_attributes.union(names(ADDED_GENERIC_ATTRIBUTES@)),
        tag_attributes: with_attributes(base.tag_attributes, "img"@, IMG_ATTRIBUTES@),
    }
}

/// Whether two texts differ in length or in one of their first `n`
/// characters.
spec fn differ(a: Seq<char>, b: Seq<char>, n: nat) -> bool
    decreases n,
{
    a.len() != b.len() || (n > 0 && (a[n - 1] != b[n - 1] || differ(a, b, (n - 1) as nat)))
}

/// Whether none of the first `n` names of a list is `name`.
spec fn lacks(list: Seq<&'static str>, name: Seq<char>, n: nat) -> bool
    decreases n,
{
    n == 0 || (differ(list[n - 1]@, name, name.len()) && lacks(list, name, (n - 1) as nat))
}

/// Texts that differ in length or in a character are not the same.
proof fn lemma_differ(a: Seq<char>, b: Seq<char>, n: nat)
    requires
        differ(a, b, n),
    ensures
        a != b,
    decreases n,
{
    if a.len() == b.len() && n > 0 && a[n - 1] == b[n - 1] {
        lemma_differ(a, b, (n - 1) as nat);
    }
}

/// A list that lacks a name up to `n` holds it at no place before `n`.
proof fn lemma_lacks_each(list: Seq<&'static str>, name: Seq<char>, n: nat)
    requires
        lacks(list, name, n),
    ensures
        forall|i: int| 0 <= i < n ==> (#[trigger] list[i])@ != name,
    decreases n,
{
    if n > 0 {
        lemma_differ(list[n - 1]@, name, name.len());
        lemma_lacks_each(list, name, (n - 1) as nat);
    }
}

/// A list that lacks a name throughout does not have it among its names.
proof fn lemma_lacks(list: Seq<&'static str>, name: Seq<char>)
    requires
        lacks(list, name, list.len()),
    ensures
        !names(list).contains(name),
{
    lemma_lacks_each(list, name, list.len());
}

/// The names that must not be among the allowed tags: the clean-content
/// tags of the policy, and the SVG animation tags, which the sanitizer
/// refuses.
spec fn is_refused_tag(name: Seq<char>) -> bool {
    ||| name == "script"@
    ||| name == "style"@
    ||| name == "iframe"@
    ||| name == "animate"@
    ||| name == "animateTransform"@
    ||| name == "animateMotion"@
    ||| name == "animateColor"@
    ||| name == "set"@
}

/// None of them is among the tags that the sanitizer allows by itself.
proof fn lemma_base_tags_lack(name: Seq<char>)
    requires
        is_refused_tag(name),
    ensures
        !names(BASE_TAGS@).contains(name),
{
    reveal_strlit("script");
    reveal_strlit("style");
    reveal_strlit("iframe");
    reveal_strlit("animate");
    reveal_strlit("animateTransform");
    reveal_strlit("animateMotion");
    reveal_strlit("animateColor");
    reveal_strlit("set");
    reveal_strlit("a");
    reveal_strlit("abbr");
    reveal_strlit("acronym");
    reveal_strlit("area");
    reveal_strlit("article");
    reveal_strlit("aside");
    reveal_strlit("b");
    reveal_strlit("bdi");
    reveal_strlit("bdo");
    reveal_strlit("blockquote");
    reveal_strlit("br");
    reveal_strlit("caption");
    reveal_strlit("center");
    reveal_strlit("cite");
    reveal_strlit("code");
    reveal_strlit("col");
    reveal_strlit("colgroup");
    reveal_strlit("data");
    reveal_strlit("dd");
    reveal_strlit("del");
    reveal_strlit("details");
    reveal_strlit("dfn");
    reveal_strlit("div");
    reveal_strlit("dl");
    reveal_strlit("dt");
    reveal_strlit("em");
    reveal_strlit("figcaption");
    reveal_strlit("figure");
    reveal_strlit("footer");
    reveal_strlit("h1");
    reveal_strlit("h2");
    reveal_strlit("h3");
    reveal_strlit("h4");
    reveal_strlit("h5");
    reveal_strlit("h6");
    reveal_strlit("header");
    reveal_strlit("hgroup");
    reveal_strlit("hr");
    reveal_strlit("i");
    reveal_strlit("img");
    reveal_strlit("ins");
    reveal_strlit("kbd");
    reveal_strlit("li");
    reveal_strlit("map");
    reveal_strlit("mark");
    reveal_strlit("nav");
    reveal_strlit("ol");
    reveal_strlit("p");
    reveal_strlit("pre");
    reveal_strlit("q");
    reveal_strlit("rp");
    reveal_strlit("rt");
    reveal_strlit("rtc");
    reveal_strlit("ruby");
    reveal_strlit("s");
    reveal_strlit("samp");
    reveal_strlit("small");
    reveal_strlit("span");
    reveal_strlit("strike");
    reveal_strlit("strong");
    reveal_strlit("sub");
    reveal_strlit("summary");
    reveal_strlit("sup");
    reveal_strlit("table");
    reveal_strlit("tbody");
    reveal_strlit("td");
    reveal_strlit("th");
    reveal_strlit("thead");
    reveal_strlit("time");
    reveal_strlit("tr");
    reveal_strlit("tt");
    reveal_strlit("u");
    reveal_strlit("ul");
    reveal_strlit("var");
    reveal_strlit("wbr");
    assert(lacks(BASE_TAGS@, name, 76)) by {
        reveal_with_fuel(lacks, 77);
        reveal_with_fuel(differ, 8);
    }
    lemma_lacks(BASE_TAGS@, name);
}

/// None of them is among the added tags.
proof fn lemma_added_tags_lack(name: Seq<char>)
    requires
        is_refused_tag(name),
    ensures
        !names(ADDED_TAGS@).contains(name),
{
    reveal_strlit("script");
    reveal_strlit("style");
    reveal_strlit("iframe");
    reveal_strlit("animate");
    reveal_strlit("animateTransform");
    reveal_strlit("animateMotion");
    reveal_strlit("animateColor");
    reveal_strlit("set");
    reveal_strlit("span");
    reveal_strlit("img");
    reveal_strlit("video");
    reveal_strlit("p");
    reveal_strlit("br");
    reveal_strlit("center");
    reveal_strlit("div");
    reveal_strlit("h1");
    reveal_strlit("h2");
    reveal_strlit("h3");
    reveal_strlit("h4");
    reveal_strlit("h5");
    reveal_strlit("section");
    reveal_strlit("article");
    reveal_strlit("lang");
    reveal_strlit("code");
    reveal_strlit("pre");
    reveal_strlit("strong");
    reveal_strlit("em");
    assert(lacks(ADDED_TAGS@, name, 19)) by {
        reveal_with_fuel(lacks, 20);
        reveal_with_fuel(differ, 8);
    }
    lemma_lacks(ADDED_TAGS@, name);
}

/// `rel` is not allowed on every tag.
proof fn lemma_generic_attributes_lack_rel()
    ensures
        !names(BASE_GENERIC_ATTRIBUTES@).contains("rel"@),
        !names(ADDED_GENERIC_ATTRIBUTES@).contains("rel"@),
{
    reveal_strlit("rel");
    reveal_strlit("lang");
    reveal_strlit("title");
    reveal_strlit("id");
    reveal_strlit("class");
    reveal_strlit("style");
    reveal_strlit("data-src");
    reveal_strlit("data-background-image");
    reveal_strlit("data-background-image-set");
    reveal_strlit("data-background-delimiter");
    reveal_strlit("data-icon");
    reveal_strlit("data-inline");
    reveal_strlit("data-height");
    reveal_strlit("code");
    assert(lacks(BASE_GENERIC_ATTRIBUTES@, "rel"@, 2) && lacks(
        ADDED_GENERIC_ATTRIBUTES@,
        "rel"@,
        11,
    )) by {
        reveal_with_fuel(lacks, 12);
        reveal_with_fuel(differ, 4);
    }
    lemma_lacks(BASE_GENERIC_ATTRIBUTES@, "rel"@);
    lemma_lacks(ADDED_GENERIC_ATTRIBUTES@, "rel"@);
}

/// The clean-content tags of the policy are `script`, `style` and
/// `iframe`.
pub proof fn lemma_clean_content_tags()
    ensures
        policy().clean_content_tags == set!["script"@, "style"@, "iframe"@],
{
    assert(BASE_CLEAN_CONTENT_TAGS@[0]@ == "script"@);
    assert(BASE_CLEAN_CONTENT_TAGS@[1]@ == "style"@);
    assert(CLEAN_CONTENT_TAGS@[0]@ == "style"@);
    assert(CLEAN_CONTENT_TAGS@[1]@ == "iframe"@);
    assert forall|name: Seq<char>| names(BASE_CLEAN_CONTENT_TAGS@).contains(name) implies name
        == "script"@ || name == "style"@ by {
        let i = choose|i: int| 0 <= i < 2 && (#[trigger] BASE_CLEAN_CONTENT_TAGS@[i])@ == name;
        assert(i == 0 || i == 1);
    }
    assert forall|name: Seq<char>| names(CLEAN_CONTENT_TAGS@).contains(name) implies name
        == "style"@ || name == "iframe"@ by {
        let i = choose|i: int| 0 <= i < 2 && (#[trigger] CLEAN_CONTENT_TAGS@[i])@ == name;
        assert(i == 0 || i == 1);
    }
    assert(policy().clean_content_tags =~= set!["script"@, "style"@, "iframe"@]);
}

/// No clean-content tag has attributes of its own, and `rel` is not allowed
/// on links.
proof fn lemma_tag_attributes_spare_clean_content_and_rel()
    ensures
        !policy().tag_attributes.contains_key("script"@),
        !policy().tag_attributes.contains_key("style"@),
        !policy().tag_attributes.contains_key("iframe"@),
        !attributes_of(policy().tag_attributes, "a"@).contains("rel"@),
{
    reveal_strlit("script");
    reveal_strlit("style");
    reveal_strlit("iframe");
    reveal_strlit("rel");
    reveal_strlit("href");
    reveal_strlit("hreflang");
    reveal_strlit("a");
    reveal_strlit("bdo");
    reveal_strlit("blockquote");
    reveal_strlit("col");
    reveal_strlit("colgroup");
    reveal_strlit("del");
    reveal_strlit("hr");
    reveal_strlit("img");
    reveal_strlit("ins");
    reveal_strlit("ol");
    reveal_strlit("q");
    reveal_strlit("table");
    reveal_strlit("tbody");
    reveal_strlit("td");
    reveal_strlit("tfoot");
    reveal_strlit("th");
    reveal_strlit("thead");
    reveal_strlit("tr");
    reveal_with_fuel(differ, 7);
    lemma_differ("a"@, "script"@, 6);
    lemma_differ("a"@, "style"@, 5);
    lemma_differ("a"@, "iframe"@, 6);
    lemma_differ("bdo"@, "script"@, 6);
    lemma_differ("bdo"@, "style"@, 5);
    lemma_differ("bdo"@, "iframe"@, 6);
    lemma_differ("bdo"@, "a"@, 1);
    lemma_differ("blockquote"@, "script"@, 6);
    lemma_differ("blockquote"@, "style"@, 5);
    lemma_differ("blockquote"@, "iframe"@, 6);
    lemma_differ("blockquote"@, "a"@, 1);
    lemma_differ("col"@, "script"@, 6);
    lemma_differ("col"@, "style"@, 5);
    lemma_differ("col"@, "iframe"@, 6);
    lemma_differ("col"@, "a"@, 1);
    lemma_differ("colgroup"@, "script"@, 6);
    lemma_differ("colgroup"@, "style"@, 5);
    lemma_differ("colgroup"@, "iframe"@, 6);
    lemma_differ("colgroup"@, "a"@, 1);
    lemma_differ("del"@, "script"@, 6);
    lemma_differ("del"@, "style"@, 5);
    lemma_differ("del"@, "iframe"@, 6);
    lemma_differ("del"@, "a"@, 1);
    lemma_differ("hr"@, "script"@, 6);
    lemma_differ("hr"@, "style"@, 5);
    lemma_differ("hr"@, "iframe"@, 6);
    lemma_differ("hr"@, "a"@, 1);
    lemma_differ("img"@, "script"@, 6);
    lemma_differ("img"@, "style"@, 5);
    lemma_differ("img"@, "iframe"@, 6);
    lemma_differ("img"@, "a"@, 1);
    lemma_differ("ins"@, "script"@, 6);
    lemma_differ("ins"@, "style"@, 5);
    lemma_differ("ins"@, "iframe"@, 6);
    lemma_differ("ins"@, "a"@, 1);
    lemma_differ("ol"@, "script"@, 6);
    lemma_differ("ol"@, "style"@, 5);
    lemma_differ("ol"@, "iframe"@, 6);
    lemma_differ("ol"@, "a"@, 1);
    lemma_differ("q"@, "script"@, 6);
    lemma_differ("q"@, "style"@, 5);
    lemma_differ("q"@, "iframe"@, 6);
    lemma_differ("q"@, "a"@, 1);
    lemma_differ("table"@, "script"@, 6);
    lemma_differ("table"@, "style"@, 5);
    lemma_differ("table"@, "iframe"@, 6);
    lemma_differ("table"@, "a"@, 1);
    lemma_differ("tbody"@, "script"@, 6);
    lemma_differ("tbody"@, "style"@, 5);
    lemma_differ("tbody"@, "iframe"@, 6);
    lemma_differ("tbody"@, "a"@, 1);
    lemma_differ("td"@, "script"@, 6);
    lemma_differ("td"@, "style"@, 5);
    lemma_differ("td"@, "iframe"@, 6);
    lemma_differ("td"@, "a"@, 1);
    lemma_differ("tfoot"@, "script"@, 6);
    lemma_differ("tfoot"@, "style"@, 5);
    lemma_differ("tfoot"@, "iframe"@, 6);
    lemma_differ("tfoot"@, "a"@, 1);
    lemma_differ("th"@, "script"@, 6);
    lemma_differ("th"@, "style"@, 5);
    lemma_differ("th"@, "iframe"@, 6);
    lemma_differ("th"@, "a"@, 1);
    lemma_differ("thead"@, "script"@, 6);
    lemma_differ("thead"@, "style"@, 5);
    lemma_differ("thead"@, "iframe"@, 6);
    lemma_differ("thead"@, "a"@, 1);
    lemma_differ("tr"@, "script"@, 6);
    lemma_differ("tr"@, "style"@, 5);
    lemma_differ("tr"@, "iframe"@, 6);
    lemma_differ("tr"@, "a"@, 1);
    lemma_differ("href"@, "rel"@, 3);
    lemma_differ("hreflang"@, "rel"@, 3);
}

/// The sanitizer does its work under the policy of this library: no
/// clean-content tag is allowed or has attributes of its own, `rel` is left
/// to the sanitizer, and no SVG animation tag is allowed.
pub proof fn lemma_policy_is_accepted()
    ensures
        accepted(policy()),
{
    lemma_clean_content_tags();
    lemma_generic_attributes_lack_rel();
    lemma_tag_attributes_spare_clean_content_and_rel();
    lemma_base_tags_lack("script"@);
    lemma_added_tags_lack("script"@);
    lemma_base_tags_lack("style"@);
    lemma_added_tags_lack("style"@);
    lemma_base_tags_lack("iframe"@);
    lemma_added_tags_lack("iframe"@);
    lemma_base_tags_lack("animate"@);
    lemma_added_tags_lack("animate"@);
    lemma_base_tags_lack("animateTransform"@);
    lemma_added_tags_lack("animateTransform"@);
    lemma_base_tags_lack("animateMotion"@);
    lemma_added_tags_lack("animateMotion"@);
    lemma_base_tags_lack("animateColor"@);
    lemma_added_tags_lack("animateColor"@);
    lemma_base_tags_lack("set"@);
    lemma_added_tags_lack("set"@);
}

/// A `script`, `style` or `iframe` element goes with all that it holds: each
/// of the three is a clean-content tag, is not allowed, and has no
/// attributes of its own.
pub proof fn lemma_clean_content_is_removed_whole(tag: Seq<char>)
    requires
        tag == "script"@ || tag == "style"@ || tag == "iframe"@,
    ensures
        policy().clean_content_tags.contains(tag),
        !policy().tags.contains(tag),
        !policy().tag_attributes.contains_key(tag),
{
    lemma_clean_content_tags();
    lemma_tag_attributes_spare_clean_content_and_rel();
    lemma_base_tags_lack(tag);
    lemma_added_tags_lack(tag);
}

} // verus!
