//! The dispatcher: which raw text a request names, what is asked of the
//! outside world to get it, and which answer the request receives.
//!
//! The library reads no table, cache or file. [`query`] and the functions
//! that take what the outside world gave back say in a [`Step`] what has to
//! happen next; the caller does it and comes back with the outcome.

use crate::assets::{asset_file, asset_path, file_name, registered_path};
use crate::sanitizer::{sanitize, sanitized, template, templated};
use crate::types::{variables, HSLink, Variable};
use vstd::prelude::*;
use vstd::string::StringExecFns;

verus! {

/// A request that failed, with a message for the caller.
#[derive(Debug, PartialEq, Eq)]
pub enum ServerError {
    Error(String),
}

/// A request that succeeded, with the sanitized HTML.
#[derive(Debug, PartialEq, Eq)]
pub enum ServerResponse {
    Response(String),
}

/// A request.
#[derive(Debug, PartialEq, Eq)]
pub enum Query {
    /// Sanitize a raw Markdown or HTML text.
    SanitizeRaw { body: String },
    /// Sanitize a registered static asset.
    SanitizeCDN { asset: String },
    /// Sanitize a raw Markdown or HTML text after filling in variables.
    SanitizeTemplate { body: String, extra_links: Vec<HSLink> },
    /// Sanitize the long description of a bot.
    BotLongDescription { bot_id: String },
    /// Sanitize the long description of a server.
    ServerLongDescription { server_id: String },
    /// Sanitize the content of a blog post.
    BlogPost { slug: String },
}

/// The two kinds of stored entity that have a long description.
#[derive(Debug, Clone, Copy, PartialEq, Eq, Structural)]
pub enum Entity {
    Bot,
    Server,
}

/// The stored row of a bot or a server: its long description, and its
/// variables as far as they could be decoded, else the decoder's message.
#[derive(Debug, PartialEq, Eq)]
pub struct EntityRow {
    pub long: String,
    pub extra_links: Result<Vec<HSLink>, String>,
}

/// What has to happen next for a request.
#[derive(Debug, PartialEq, Eq)]
pub enum Step {
    /// Nothing: this is the answer.
    Done(Result<ServerResponse, ServerError>),
    /// Fetch the row of a bot or a server by its id, with
    /// [`entity_statement`].
    FetchEntity { entity: Entity, id: String },
    /// Fetch the content of a blog post by its slug, with
    /// [`post_statement`].
    FetchPost { slug: String },
    /// Look in the cache for the sanitized asset, by its path.
    CacheGet { path: String },
    /// Read the file of the asset.
    ReadAsset { path: String, file: String },
    /// Put the sanitized asset into the cache under its path.
    CachePut { path: String, html: String },
}

/// A request as plain text.
pub enum QueryView {
    SanitizeRaw { body: Seq<char> },
    SanitizeCDN { asset: Seq<char> },
    SanitizeTemplate { body: Seq<char>, extra_links: Seq<Variable> },
    BotLongDescription { bot_id: Seq<char> },
    ServerLongDescription { server_id: Seq<char> },
    BlogPost { slug: Seq<char> },
}

/// A stored row as plain text.
pub struct EntityRowView {
    pub long: Seq<char>,
    pub extra_links: Result<Seq<Variable>, Seq<char>>,
}

/// A step as plain text. An answer is the sanitized HTML or the message of
/// the failure.
pub enum StepView {
    Done(Result<Seq<char>, Seq<char>>),
    FetchEntity { entity: Entity, id: Seq<char> },
    FetchPost { slug: Seq<char> },
    CacheGet { path: Seq<char> },
    ReadAsset { path: Seq<char>, file: Seq<char> },
    CachePut { path: Seq<char>, html: Seq<char> },
}

impl View for Query {
    type V = QueryView;

    open spec fn view(&self) -> QueryView {
        match *self {
            Query::SanitizeRaw { body } => QueryView::SanitizeRaw { body: body@ },
            Query::SanitizeCDN { asset } => QueryView::SanitizeCDN { asset: asset@ },
            Query::SanitizeTemplate { body, extra_links } => QueryView::SanitizeTemplate {
                body: body@,
                extra_links: variables(extra_links@),
            },
            Query::BotLongDescription { bot_id } => QueryView::BotLongDescription {
                bot_id: bot_id@,
            },
            Query::ServerLongDescription { server_id } => QueryView::ServerLongDescription {
                server_id: server_id@,
            },
            Query::BlogPost { slug } => QueryView::BlogPost { slug: slug@ },
        }
    }
}

impl View for EntityRow {
    type V = EntityRowView;

    open spec fn view(&self) -> EntityRowView {
        EntityRowView {
            long: self.long@,
            extra_links: match self.extra_links {
                Ok(links) => Ok(variables(links@)),
                Err(message) => Err(message@),
            },
        }
    }
}

impl View for Step {
    type V = StepView;

    open spec fn view(&self) -> StepView {
        match *self {
            Step::Done(answer) => StepView::Done(answer_view(answer)),
            Step::FetchEntity { entity, id } => StepView::FetchEntity { entity, id: id@ },
            Step::FetchPost { slug } => StepView::FetchPost { slug: slug@ },
            Step::CacheGet { path } => StepView::CacheGet { path: path@ },
            Step::ReadAsset { path, file } => StepView::ReadAsset { path: path@, file: file@ },
            Step::CachePut { path, html } => StepView::CachePut { path: path@, html: html@ },
        }
    }
}

/// An answer as plain text: the sanitized HTML, or the message of the
/// failure.
pub open spec fn answer_view(answer: Result<ServerResponse, ServerError>) -> Result<
    Seq<char>,
    Seq<char>,
> {
    match answer {
        Ok(ServerResponse::Response(html)) => Ok(html@),
        Err(ServerError::Error(message)) => Err(message@),
    }
}

/// What a fetch gave, as plain text: a failure of the store with its
/// message, or the row if there is one.
pub open spec fn fetched_view(fetched: Result<Option<EntityRow>, String>) -> Result<
    Option<EntityRowView>,
    Seq<char>,
> {
    match fetched {
        Ok(Some(row)) => Ok(Some(row@)),
        Ok(None) => Ok(None),
        Err(message) => Err(message@),
    }
}

/// What the fetch of a blog post gave, as plain text: a failure of the store
/// with its message, or the content if there is a post.
pub open spec fn post_view(fetched: Result<Option<String>, String>) -> Result<
    Option<Seq<char>>,
    Seq<char>,
> {
    match fetched {
        Ok(Some(content)) => Ok(Some(content@)),
        Ok(None) => Ok(None),
        Err(message) => Err(message@),
    }
}

/// What the cache gave, as plain text.
pub open spec fn cached_view(cached: Option<String>) -> Option<Seq<char>> {
    match cached {
        Some(html) => Some(html@),
        None => None,
    }
}

/// What the read of a file gave, as plain text: its content, or the message
/// of the failure.
pub open spec fn content_view(content: Result<String, String>) -> Result<Seq<char>, Seq<char>> {
    match content {
        Ok(text) => Ok(text@),
        Err(message) => Err(message@),
    }
}

/// The message for an entity that is not in the store.
pub open spec fn not_found(entity: Entity) -> Seq<char> {
    match entity {
        Entity::Bot => "Bot not found"@,
        Entity::Server => "Server not found"@,
    }
}

/// The first step of a request.
///
/// A literal body is answered at once, with variables where the request
/// brings them. A bot, a server or a blog post has to be fetched. An asset
/// that is registered is looked up in the cache by its path; one that is not
/// registered fails.
pub open spec fn first_step(query: QueryView) -> StepView {
    match query {
        QueryView::SanitizeRaw { body } => StepView::Done(Ok(sanitized(body))),
        QueryView::SanitizeTemplate { body, extra_links } => StepView::Done(
            Ok(templated(body, extra_links)),
        ),
        QueryView::BotLongDescription { bot_id } => StepView::FetchEntity {
            entity: Entity::Bot,
            id: bot_id,
        },
        QueryView::ServerLongDescription { server_id } => StepView::FetchEntity {
            entity: Entity::Server,
            id: server_id,
        },
        QueryView::BlogPost { slug } => StepView::FetchPost { slug },
        QueryView::SanitizeCDN { asset } => match registered_path(asset) {
            Some(path) => StepView::CacheGet { path },
            None => StepView::Done(Err("Asset not registered with htmlsanitize?"@)),
        },
    }
}

/// The answer for a bot or a server, from what the fetch gave.
///
/// A failure of the store is passed on with its message. Without a row the
/// entity is not found. With a row whose variables could not be decoded the
/// decoder's message is passed on. Else the long description is the body of
/// a template and the stored variables fill it.
pub open spec fn entity_answer(
    entity: Entity,
    fetched: Result<Option<EntityRowView>, Seq<char>>,
) -> Result<Seq<char>, Seq<char>> {
    match fetched {
        Err(message) => Err(message),
        Ok(None) => Err(not_found(entity)),
        Ok(Some(row)) => match row.extra_links {
            Err(message) => Err(message),
            Ok(links) => Ok(templated(row.long, links)),
        },
    }
}

/// The answer for a blog post, from what the fetch gave: its content is
/// sanitized, without variables.
pub open spec fn post_answer(fetched: Result<Option<Seq<char>>, Seq<char>>) -> Result<
    Seq<char>,
    Seq<char>,
> {
    match fetched {
        Err(message) => Err(message),
        Ok(None) => Err("Blog post not found"@),
        Ok(Some(content)) => Ok(sanitized(content)),
    }
}

/// The step after the cache was asked: what it holds is the answer; where it
/// holds nothing the file of the asset is read.
pub open spec fn step_after_cache(
    root: Seq<char>,
    path: Seq<char>,
    cached: Option<Seq<char>>,
) -> StepView {
    match cached {
        Some(html) => StepView::Done(Ok(html)),
        None => StepView::ReadAsset { path, file: file_name(root, path) },
    }
}

/// The step after the file of an asset was read: its content is sanitized,
/// without variables, and goes into the cache; a file that could not be read
/// fails the request with the message of the failure.
pub open spec fn step_after_read(
    path: Seq<char>,
    content: Result<Seq<char>, Seq<char>>,
) -> StepView {
    match content {
        Ok(text) => StepView::CachePut { path, html: sanitized(text) },
        Err(message) => StepView::Done(Err(message)),
    }
}

/// What is not in the store is not found: a request for a bot, a server or
/// a blog post that has no row fails, with the message that says so.
pub proof fn lemma_absent_entity_is_not_found(entity: Entity)
    ensures
        entity_answer(entity, Ok(None)) == Err::<Seq<char>, Seq<char>>(not_found(entity)),
        post_answer(Ok(None)) == Err::<Seq<char>, Seq<char>>("Blog post not found"@),
{
}

/// An asset that the cache does not hold is made anew, whatever the cache
/// held before: the request asks the cache by the registered path, a miss
/// has the file below the root read, and what is then put into the cache
/// under that path is the content of the file, sanitized. When the cache
/// lets go of an entry is for the cache to say.
pub proof fn lemma_missed_asset_is_made_anew(
    root: Seq<char>,
    asset: Seq<char>,
    path: Seq<char>,
    content: Seq<char>,
)
    requires
        registered_path(asset) == Some(path),
    ensures
        first_step(QueryView::SanitizeCDN { asset }) == (StepView::CacheGet { path }),
        step_after_cache(root, path, None) == (StepView::ReadAsset {
            path,
            file: file_name(root, path),
        }),
        step_after_read(path, Ok(content)) == (StepView::CachePut {
            path,
            html: sanitized(content),
        }),
{
}

/// The statement that fetches the row of a bot or a server by its id.
pub fn entity_statement(entity: Entity) -> (sql: &'static str)
    ensures
        sql@ == (match entity {
            Entity::Bot => "SELECT long, extra_links FROM bots WHERE bot_id = $1"@,
            Entity::Server => "SELECT long, extra_links FROM servers WHERE server_id = $1"@,
        }),
{
    match entity {
        Entity::Bot => "SELECT long, extra_links FROM bots WHERE bot_id = $1",
        Entity::Server => "SELECT long, extra_links FROM servers WHERE server_id = $1",
    }
}

/// The statement that fetches the content of a blog post by its slug.
pub fn post_statement() -> (sql: &'static str)
    ensures
        sql@ == "SELECT content FROM blogs WHERE slug = $1"@,
{
    "SELECT content FROM blogs WHERE slug = $1"
}

/// A failed answer with a message.
fn failure(message: &str) -> (answer: Result<ServerResponse, ServerError>)
    ensures
        answer_view(answer) == Err::<Seq<char>, Seq<char>>(message@),
{
    Err(ServerError::Error(String::from_str(message)))
}

impl ServerResponse {
    /// The HTTP status of a request that succeeded.
    pub fn status(&self) -> (code: u16)
        ensures
            code == 200,
    {
        200
    }
}

impl ServerError {
    /// The HTTP status of a request that failed, whatever the failure.
    pub fn status(&self) -> (code: u16)
        ensures
            code == 400,
    {
        400
    }
}

/// Starts a request.
pub fn query(request: Query) -> (step: Step)
    ensures
        step@ == first_step(request@),
{
    match request {
        Query::SanitizeRaw { body } => {
            let sanitized = sanitize(body.as_str());
            Step::Done(Ok(ServerResponse::Response(sanitized)))
        },
        Query::SanitizeTemplate { body, extra_links } => {
            let sanitized = template(body.as_str(), extra_links);
            Step::Done(Ok(ServerResponse::Response(sanitized)))
        },
        Query::BotLongDescription { bot_id } => Step::FetchEntity {
            entity: Entity::Bot,
            id: bot_id,
        },
        Query::ServerLongDescription { server_id } => Step::FetchEntity {
            entity: Entity::Server,
            id: server_id,
        },
        Query::BlogPost { slug } => Step::FetchPost { slug },
        Query::SanitizeCDN { asset } => match asset_path(asset.as_str()) {
            Some(path) => Step::CacheGet { path: String::from_str(path) },
            None => Step::Done(failure("Asset not registered with htmlsanitize?")),
        },
    }
}

/// Answers a request for a bot or a server with what the fetch gave.
pub fn entity_fetched(entity: Entity, fetched: Result<Option<EntityRow>, String>) -> (answer:
    Result<ServerResponse, ServerError>)
    ensures
        answer_view(answer) == entity_answer(entity, fetched_view(fetched)),
{
    match fetched {
        Err(message) => Err(ServerError::Error(message)),
        Ok(None) => match entity {
            Entity::Bot => failure("Bot not found"),
            Entity::Server => failure("Server not found"),
        },
        Ok(Some(row)) => match row.extra_links {
            Err(message) => Err(ServerError::Error(message)),
            Ok(links) => Ok(ServerResponse::Response(template(row.long.as_str(), links))),
        },
    }
}

/// Answers a request for a blog post with what the fetch gave.
pub fn post_fetched(fetched: Result<Option<String>, String>) -> (answer: Result<
    ServerResponse,
    ServerError,
>)
    ensures
        answer_view(answer) == post_answer(post_view(fetched)),
{
    match fetched {
        Err(message) => Err(ServerError::Error(message)),
        Ok(None) => failure("Blog post not found"),
        Ok(Some(content)) => Ok(ServerResponse::Response(sanitize(content.as_str()))),
    }
}

/// Goes on with a request for an asset after the cache was asked.
pub fn cache_answered(root: &str, path: String, cached: Option<String>) -> (step: Step)
    ensures
        step@ == step_after_cache(root@, path@, cached_view(cached)),
{
    match cached {
        Some(html) => Step::Done(Ok(ServerResponse::Response(html))),
        None => {
            let file = asset_file(root, path.as_str());
            Step::ReadAsset { path, file }
        },
    }
}

/// Goes on with a request for an asset after its file was read.
pub fn asset_read(path: String, content: Result<String, String>) -> (step: Step)
    ensures
        step@ == step_after_read(path@, content_view(content)),
{
    match content {
        Ok(text) => {
            let html = sanitize(text.as_str());
            Step::CachePut { path, html }
        },
        Err(message) => Step::Done(Err(ServerError::Error(message))),
    }
}

/// Answers a request for an asset once the sanitized asset is in the cache.
pub fn asset_cached(html: String) -> (answer: Result<ServerResponse, ServerError>)
    ensures
        answer_view(answer) == Ok::<Seq<char>, Seq<char>>(html@),
{
    Ok(ServerResponse::Response(html))
}

} // verus!
