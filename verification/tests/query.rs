use htmlsanitize::query::{
    asset_cached, asset_read, cache_answered, entity_fetched, entity_statement, post_fetched,
    post_statement, query, Entity, EntityRow, Query, ServerError, ServerResponse, Step,
};
use htmlsanitize::sanitizer::{sanitize, template};
use htmlsanitize::types::HSLink;

fn link(name: &str, value: &str) -> HSLink {
    HSLink { name: name.to_string(), value: value.to_string() }
}

fn response(html: &str) -> Result<ServerResponse, ServerError> {
    Ok(ServerResponse::Response(html.to_string()))
}

fn error(message: &str) -> Result<ServerResponse, ServerError> {
    Err(ServerError::Error(message.to_string()))
}

#[test]
fn a_raw_body_is_sanitized_at_once() {
    let step = query(Query::SanitizeRaw { body: "# Title\n<script>alert(1)</script>".to_string() });
    match step {
        Step::Done(Ok(ServerResponse::Response(html))) => {
            assert!(html.contains("<h1>Title</h1>"));
            assert!(!html.contains("<script>"));
            assert_eq!(html, sanitize("# Title\n<script>alert(1)</script>"));
        }
        other => panic!("unexpected step: {:?}", other),
    }
}

#[test]
fn a_template_is_filled_and_sanitized_at_once() {
    let step = query(Query::SanitizeTemplate {
        body: "Hello {name} {_kept}".to_string(),
        extra_links: vec![link("name", "*World*"), link("_kept", "x")],
    });
    assert_eq!(step, Step::Done(response("<p>Hello <em>World</em> {_kept}</p>\n")));
}

#[test]
fn a_bot_is_fetched_by_its_id() {
    let step = query(Query::BotLongDescription { bot_id: "does-not-exist".to_string() });
    assert_eq!(step, Step::FetchEntity { entity: Entity::Bot, id: "does-not-exist".to_string() });
}

#[test]
fn a_server_is_fetched_by_its_id() {
    let step = query(Query::ServerLongDescription { server_id: "42".to_string() });
    assert_eq!(step, Step::FetchEntity { entity: Entity::Server, id: "42".to_string() });
}

#[test]
fn a_blog_post_is_fetched_by_its_slug() {
    let step = query(Query::BlogPost { slug: "hello-world".to_string() });
    assert_eq!(step, Step::FetchPost { slug: "hello-world".to_string() });
}

#[test]
fn a_registered_asset_is_looked_up_in_the_cache_by_its_path() {
    let step = query(Query::SanitizeCDN { asset: "changelogs".to_string() });
    assert_eq!(step, Step::CacheGet { path: "CHANGELOGS.md".to_string() });
}

#[test]
fn an_asset_that_is_not_registered_fails() {
    let step = query(Query::SanitizeCDN { asset: "secrets".to_string() });
    assert_eq!(step, Step::Done(error("Asset not registered with htmlsanitize?")));
    let step = query(Query::SanitizeCDN { asset: "CHANGELOGS.md".to_string() });
    assert_eq!(step, Step::Done(error("Asset not registered with htmlsanitize?")));
}

#[test]
fn an_absent_bot_is_not_found() {
    assert_eq!(entity_fetched(Entity::Bot, Ok(None)), error("Bot not found"));
}

#[test]
fn an_absent_server_is_not_found() {
    assert_eq!(entity_fetched(Entity::Server, Ok(None)), error("Server not found"));
}

#[test]
fn a_failure_of_the_store_is_passed_on() {
    let failed = Err("pool timed out".to_string());
    assert_eq!(entity_fetched(Entity::Bot, failed), error("pool timed out"));
    let failed = Err("connection refused".to_string());
    assert_eq!(post_fetched(failed), error("connection refused"));
}

#[test]
fn variables_that_cannot_be_decoded_fail_the_request() {
    let row = EntityRow {
        long: "# Long".to_string(),
        extra_links: Err("invalid type: map, expected a sequence".to_string()),
    };
    assert_eq!(
        entity_fetched(Entity::Server, Ok(Some(row))),
        error("invalid type: map, expected a sequence")
    );
}

#[test]
fn a_long_description_is_a_template_for_the_stored_variables() {
    let row = EntityRow {
        long: "# {name}\n\nSee {site} <script>x()</script>".to_string(),
        extra_links: Ok(vec![link("name", "Bot"), link("site", "<b>here</b>"), link("_x", "y")]),
    };
    let expected = template(
        "# {name}\n\nSee {site} <script>x()</script>",
        vec![link("name", "Bot"), link("site", "<b>here</b>"), link("_x", "y")],
    );
    assert_eq!(entity_fetched(Entity::Bot, Ok(Some(row))), Ok(ServerResponse::Response(expected)));
    let row = EntityRow { long: "Hi {name}".to_string(), extra_links: Ok(vec![link("name", "you")]) };
    assert_eq!(entity_fetched(Entity::Server, Ok(Some(row))), response("<p>Hi you</p>\n"));
}

#[test]
fn an_absent_blog_post_is_not_found() {
    assert_eq!(post_fetched(Ok(None)), error("Blog post not found"));
}

#[test]
fn a_blog_post_is_sanitized_without_variables() {
    assert_eq!(
        post_fetched(Ok(Some("Post about *{name}*".to_string()))),
        response("<p>Post about <em>{name}</em></p>\n")
    );
}

#[test]
fn a_cached_asset_is_the_answer() {
    let step = cache_answered("/srv", "CHANGELOGS.md".to_string(), Some("<p>cached</p>".to_string()));
    assert_eq!(step, Step::Done(response("<p>cached</p>")));
}

#[test]
fn an_asset_that_is_not_cached_is_read_from_its_file() {
    let step = cache_answered("/srv/cdn", "CHANGELOGS.md".to_string(), None);
    assert_eq!(
        step,
        Step::ReadAsset {
            path: "CHANGELOGS.md".to_string(),
            file: "/srv/cdn/CHANGELOGS.md".to_string(),
        }
    );
}

#[test]
fn an_asset_that_was_read_is_sanitized_and_cached() {
    let step = asset_read("CHANGELOGS.md".to_string(), Ok("# Changes\n\nversion {v}".to_string()));
    assert_eq!(
        step,
        Step::CachePut {
            path: "CHANGELOGS.md".to_string(),
            html: "<h1>Changes</h1>\n<p>version {v}</p>\n".to_string(),
        }
    );
    let step = asset_read("a.md".to_string(), Ok("<script>x()</script>".to_string()));
    match step {
        Step::CachePut { path, html } => {
            assert_eq!(path, "a.md");
            assert_eq!(html, sanitize("<script>x()</script>"));
            assert!(!html.contains("script"));
        }
        other => panic!("unexpected step: {:?}", other),
    }
}

#[test]
fn an_asset_that_cannot_be_read_fails() {
    let step = asset_read(
        "CHANGELOGS.md".to_string(),
        Err("No such file or directory (os error 2)".to_string()),
    );
    assert_eq!(step, Step::Done(error("No such file or directory (os error 2)")));
}

#[test]
fn a_cached_asset_answers_the_request() {
    assert_eq!(asset_cached("<p>x</p>".to_string()), response("<p>x</p>"));
}

#[test]
fn success_is_200_and_failure_is_400() {
    assert_eq!(ServerResponse::Response(String::new()).status(), 200);
    assert_eq!(ServerError::Error("Bot not found".to_string()).status(), 400);
}

#[test]
fn each_fetch_has_its_statement() {
    assert_eq!(
        entity_statement(Entity::Bot),
        "SELECT long, extra_links FROM bots WHERE bot_id = $1"
    );
    assert_eq!(
        entity_statement(Entity::Server),
        "SELECT long, extra_links FROM servers WHERE server_id = $1"
    );
    assert_eq!(post_statement(), "SELECT content FROM blogs WHERE slug = $1");
}
