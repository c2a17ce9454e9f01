use htmlsanitize::sanitizer::{clean_html, sanitize, template};
use htmlsanitize::types::HSLink;

fn link(name: &str, value: &str) -> HSLink {
    HSLink { name: name.to_string(), value: value.to_string() }
}

#[test]
fn sanitize_renders_markdown() {
    assert_eq!(sanitize("hello"), "<p>hello</p>\n");
    assert_eq!(sanitize("*a* **b**"), "<p><em>a</em> <strong>b</strong></p>\n");
    assert_eq!(sanitize(""), "");
}

#[test]
fn sanitize_renders_the_extensions() {
    assert_eq!(sanitize("~~gone~~"), "<p><del>gone</del></p>\n");
    assert_eq!(sanitize("\"quoted\""), "<p>\u{201c}quoted\u{201d}</p>\n");
    let table = sanitize("| a | b |\n|---|---|\n| 1 | 2 |\n");
    assert!(table.contains("<table>"));
    assert!(table.contains("<th>a</th>"));
    assert!(table.contains("<td>2</td>"));
}

#[test]
fn sanitize_keeps_a_heading_and_removes_a_script() {
    let html = sanitize("# Title\n<script>alert(1)</script>");
    assert!(html.contains("<h1>Title</h1>"));
    assert!(!html.contains("<script>"));
    assert!(!html.contains("alert"));
}

#[test]
fn sanitize_removes_a_script_with_all_it_holds() {
    let html = sanitize("before<script>var hidden = \"<b>inside</b>\";</script>after");
    assert!(!html.contains("script"));
    assert!(!html.contains("hidden"));
    assert!(!html.contains("inside"));
    assert!(html.contains("before"));
    assert!(html.contains("after"));
}

#[test]
fn clean_html_removes_a_script_with_all_it_holds() {
    assert_eq!(clean_html("<script>alert(1)</script>after"), "after");
    assert_eq!(clean_html("a<script><p>nested</p></script>b"), "ab");
}

#[test]
fn clean_html_unwraps_a_tag_that_is_not_allowed() {
    assert_eq!(clean_html("<marquee>text</marquee>"), "text");
    assert_eq!(clean_html("<form><b>kept</b></form>"), "<b>kept</b>");
}

#[test]
fn clean_html_keeps_the_tags_that_the_sanitizer_allows_by_itself() {
    assert_eq!(clean_html("<b>bold</b> <i>it</i>"), "<b>bold</b> <i>it</i>");
    assert_eq!(clean_html("<ul><li>x</li></ul>"), "<ul><li>x</li></ul>");
}

#[test]
fn clean_html_keeps_the_added_tags() {
    assert_eq!(clean_html("<video>v</video>"), "<video>v</video>");
    assert_eq!(clean_html("<section>s</section>"), "<section>s</section>");
    assert_eq!(clean_html("<lang>l</lang>"), "<lang>l</lang>");
}

#[test]
fn clean_html_removes_style_and_iframe_with_all_they_hold() {
    assert_eq!(clean_html("<style>p { color: red }</style>after"), "after");
    assert_eq!(
        clean_html("a<iframe src=\"https://example.com/\" width=\"10\">inner</iframe>b"),
        "ab"
    );
    assert_eq!(clean_html("<div><style>.x{}</style><b>kept</b></div>"), "<div><b>kept</b></div>");
}

#[test]
fn sanitize_removes_a_style_sheet_and_keeps_what_follows() {
    let html = sanitize("<style>p{color:red}</style><p>x</p>");
    assert!(!html.contains("<style"));
    assert!(!html.contains("color:red"));
    assert!(html.contains("<p>x</p>"));
}

#[test]
fn sanitize_removes_the_text_inside_a_script_and_keeps_what_is_outside() {
    for text in ["a", "alert1", "x9", "Z", "0", "hiddenText42"] {
        let html = sanitize(&format!("<div>ok<script>{}</script></div>", text));
        assert_eq!(html.trim_end(), "<div>ok</div>");
    }
}

#[test]
fn sanitize_leaves_no_element_that_is_not_allowed() {
    let inputs = [
        "<script>a()</script><object data=\"o\">o</object><embed src=\"e\">",
        "<form action=\"/f\"><input name=\"i\"><button>go</button></form>",
        "<svg><circle r=\"1\"></circle></svg><link rel=\"stylesheet\" href=\"s.css\">",
        "<div><iframe src=\"https://example.com/\"></iframe><style>p{}</style>text</div>",
        "text <SCRIPT>a()</SCRIPT> <ScRiPt src=\"x\"></sCrIpT> more",
        "<p>unclosed <script>a()",
    ];
    let refused = [
        "<script", "<object", "<embed", "<form", "<input", "<button", "<svg", "<link", "<iframe",
        "<style",
    ];
    for input in inputs {
        let html = sanitize(input).to_lowercase();
        for tag in refused {
            assert!(!html.contains(tag), "{} in {}", tag, html);
        }
    }
}

#[test]
fn sanitize_leaves_no_event_handler() {
    let inputs = [
        "<p onclick=\"a()\">p</p>",
        "<img src=\"a.png\" onerror=\"a()\" onload=\"b()\">",
        "<div ONMOUSEOVER=\"a()\" id=\"d\">d</div>",
        "<a href=\"https://example.com/\" onfocus=\"a()\">l</a>",
    ];
    for input in inputs {
        let html = sanitize(input).to_lowercase();
        assert!(!html.contains(" on"), "{}", html);
        assert!(!html.contains("a()"), "{}", html);
    }
}

#[test]
fn clean_html_drops_attributes_that_are_not_allowed() {
    assert_eq!(clean_html("<b onclick=\"x()\">bold</b>"), "<b>bold</b>");
    assert_eq!(
        clean_html("<span data-icon=\"i\" title=\"t\" data-other=\"no\">s</span>"),
        "<span data-icon=\"i\" title=\"t\">s</span>"
    );
}

#[test]
fn clean_html_keeps_the_added_generic_attributes() {
    assert_eq!(
        clean_html("<p id=\"one\" class=\"c\" style=\"color: red\">t</p>"),
        "<p id=\"one\" class=\"c\" style=\"color: red\">t</p>"
    );
    assert_eq!(clean_html("<div data-src=\"x\">t</div>"), "<div data-src=\"x\">t</div>");
}

#[test]
fn clean_html_keeps_the_added_attributes_of_img() {
    assert_eq!(
        clean_html("<img srcset=\"a.png 1x\" sizes=\"10px\" src=\"a.png\" onerror=\"x()\">"),
        "<img srcset=\"a.png 1x\" sizes=\"10px\" src=\"a.png\">"
    );
    assert_eq!(
        clean_html("<p srcset=\"a.png 1x\">t</p>"),
        "<p>t</p>"
    );
}

#[test]
fn clean_html_marks_links() {
    assert_eq!(
        clean_html("<a href=\"https://example.com/\" rel=\"me\">x</a>"),
        "<a href=\"https://example.com/\" rel=\"noopener noreferrer\">x</a>"
    );
    assert_eq!(
        clean_html("<a href=\"javascript:alert(1)\">x</a>"),
        "<a rel=\"noopener noreferrer\">x</a>"
    );
}

#[test]
fn clean_html_leaves_only_allowed_tags_and_attributes_of_tag_soup() {
    let soup = "<div><foo><bar onclick=1 class=k><p id=1 style=\"x\" bad=1>t</p></bar></foo>\
                <object data=x></object></div>";
    assert_eq!(clean_html(soup), "<div><p id=\"1\" style=\"x\">t</p></div>");
}

#[test]
fn clean_html_twice_is_clean_html_once() {
    let inputs = [
        "",
        "plain text",
        "<b onclick=\"x()\">bold</b>",
        "<script>alert(1)</script>after",
        "<marquee>text</marquee>",
        "<a href=\"https://example.com/\">x</a>",
        "<div><foo><bar><p id=1>t</p></bar></foo></div>",
        "<p>unclosed <b>bold",
        "<h1>Title</h1>\n<p>a &lt; b &amp; c</p>\n",
        "<img src=\"a.png\" alt=\"a\">",
    ];
    for input in inputs {
        let once = clean_html(input);
        assert_eq!(clean_html(&once), once);
    }
}

#[test]
fn sanitize_twice_is_sanitize_once_on_rendered_blocks() {
    let inputs = ["# Title", "hello *world*", "- a\n- b\n", "> quote\n"];
    for input in inputs {
        let once = sanitize(input);
        assert_eq!(sanitize(&once), once);
    }
}

#[test]
fn template_sanitizes_what_a_value_brings() {
    let html = template("<p>{x}</p>", vec![link("x", "<script>evil()</script>")]);
    assert!(!html.contains("<script>"));
    assert!(!html.contains("evil"));
}

#[test]
fn template_keeps_a_placeholder_that_no_variable_names() {
    let html = template("Hello {missing}", Vec::new());
    assert!(html.contains("Hello {missing}"));
    assert_eq!(html, "<p>Hello {missing}</p>\n");
}

#[test]
fn template_skips_a_reserved_variable() {
    let html = template("Hello {_name}", vec![link("_name", "World")]);
    assert_eq!(html, "<p>Hello {_name}</p>\n");
    assert_eq!(html, sanitize("Hello {_name}"));
}

#[test]
fn template_fills_before_it_renders() {
    let html = template("# {title}\n\n{text}", vec![link("title", "News"), link("text", "*new*")]);
    assert_eq!(html, "<h1>News</h1>\n<p><em>new</em></p>\n");
}

#[test]
fn template_is_sanitize_of_the_filled_text() {
    let vars = vec![link("who", "<b>you</b>"), link("_x", "y")];
    assert_eq!(template("hi {who} {_x}", vars), sanitize("hi <b>you</b> {_x}"));
}

fn sanitized_by_hand(body: &str) -> String {
    let parser = pulldown_cmark::Parser::new_ext(body, pulldown_cmark::Options::all());
    let mut html = String::new();
    pulldown_cmark::html::push_html(&mut html, parser);
    ammonia::Builder::new()
        .add_clean_content_tags(&["style", "iframe"])
        .add_tags(&[
            "span", "img", "video", "p", "br", "center", "div", "h1", "h2", "h3", "h4", "h5",
            "section", "article", "lang", "code", "pre", "strong", "em",
        ])
        .add_generic_attributes(&[
            "id",
            "class",
            "style",
            "data-src",
            "data-background-image",
            "data-background-image-set",
            "data-background-delimiter",
            "data-icon",
            "data-inline",
            "data-height",
            "code",
        ])
        .add_tag_attributes(
            "img",
            &["src", "alt", "width", "height", "crossorigin", "referrerpolicy", "sizes", "srcset"],
        )
        .clean(&html)
        .to_string()
}

#[test]
fn sanitize_agrees_with_the_two_crates_called_by_hand() {
    let inputs = [
        "",
        "plain",
        "# Title\n<script>alert(1)</script>",
        "# Title {#id .class}\n\ntext",
        "*em* **strong** ~~del~~ `code`",
        "| a | b |\n|---|---|\n| 1 | 2 |\n",
        "- [x] done\n- [ ] open\n",
        "note[^1]\n\n[^1]: the note\n",
        "\"quotes\" -- and ... dots",
        "[link](https://example.com) ![img](a.png \"t\")",
        "<div class=\"c\" onclick=\"x()\"><video src=\"v.mp4\" poster=\"javascript:x\"></video></div>",
        "<iframe src=\"https://example.com/\" height=\"1\" width=\"2\" name=\"n\"></iframe>",
        "<style>p { color: red }</style>\n\n<p style=\"color: red\">t</p>",
        "<img src=\"a.png\" srcset=\"a.png 1x\" sizes=\"1px\" crossorigin referrerpolicy=\"no-referrer\" onerror=\"x()\">",
        "<svg><animate></animate><set></set><a href=\"x\">y</a></svg>",
        "<math><mi><style>x</style></mi></math>",
        "<a href=\"javascript:alert(1)\" rel=\"me\">x</a>",
        "<span data-src=\"s\" data-icon=\"i\" data-inline=\"1\" data-height=\"2\" code=\"c\" lang=\"en\">s</span>",
        "<p>unclosed <b>bold <i>both",
        "<!-- comment -->after<?php echo 1 ?>",
        "<body>hi",
        "<pre>\n\nx</pre>",
        "caf\u{e9} \u{1f600} &amp; &lt;b&gt;",
    ];
    for input in inputs {
        assert_eq!(sanitize(input), sanitized_by_hand(input));
    }
}
