//! Settings of a connection to the engine, and the decisions of a client
//! that pages through the engine's answer.
//!
//! Nothing here talks to the engine. A caller sends what these functions
//! describe and hands back what the engine answered.

use std::time::Duration;
use vstd::prelude::*;
use vstd::string::*;
use crate::json::{lemma_array_model, Json, JsonValue};
use crate::text::{append_decimal, decimal_text, parse_unsigned, unsigned_in_range};
use crate::utils::binary::{text_encoded, text_to_base64};

verus! {

/// The settings of a connection.
#[derive(Debug, PartialEq, Eq)]
pub struct Client {
    pub base_url: String,
    pub port: u32,
    pub user: Option<String>,
    /// The value of the `Authorization` header, where the connection has one.
    pub authorization: Option<String>,
    pub timeout: Option<Duration>,
}

/// The model of a [`Client`].
pub struct ClientModel {
    pub base_url: Seq<char>,
    pub port: u32,
    pub user: Option<Seq<char>>,
    pub authorization: Option<Seq<char>>,
    pub timeout: Option<Duration>,
}

impl View for Client {
    type V = ClientModel;

    open spec fn view(&self) -> ClientModel {
        ClientModel {
            base_url: self.base_url@,
            port: self.port,
            user: self.user.deep_view(),
            authorization: self.authorization.deep_view(),
            timeout: self.timeout,
        }
    }
}

/// Collects the settings of a connection one by one.
#[derive(Debug)]
pub struct ClientBuilder {
    base_url: Option<String>,
    port: Option<u32>,
    user: Option<String>,
    password: Option<String>,
    timeout: Option<Duration>,
}

/// The model of a [`ClientBuilder`].
pub struct ClientBuilderModel {
    pub base_url: Option<Seq<char>>,
    pub port: Option<u32>,
    pub user: Option<Seq<char>>,
    pub password: Option<Seq<char>>,
    pub timeout: Option<Duration>,
}

impl View for ClientBuilder {
    type V = ClientBuilderModel;

    closed spec fn view(&self) -> ClientBuilderModel {
        ClientBuilderModel {
            base_url: self.base_url.deep_view(),
            port: self.port,
            user: self.user.deep_view(),
            password: self.password.deep_view(),
            timeout: self.timeout,
        }
    }
}

/// What a user and a password are sent as: the word `Basic` and the base64
/// text of `user:password`.
pub open spec fn basic_authorization_spec(user: Seq<char>, password: Seq<char>) -> Seq<char> {
    "Basic "@ + text_encoded(user + ":"@ + password)
}

/// The `Authorization` header of a connection: none unless both a user and a
/// password are set.
pub open spec fn authorization_spec(
    user: Option<Seq<char>>,
    password: Option<Seq<char>>,
) -> Option<Seq<char>> {
    match (user, password) {
        (Some(user), Some(password)) => Some(basic_authorization_spec(user, password)),
        _ => None,
    }
}

/// The `Authorization` header value for a base64 text of credentials.
pub fn basic_authorization_for(encoded: &str) -> (header: String)
    ensures
        header@ == "Basic "@ + encoded@,
{
    let mut header = String::from_str("Basic ");
    header.append(encoded);
    header
}

/// The `Authorization` header value for a user and a password.
pub fn basic_authorization(user: &str, password: &str) -> (header: String)
    ensures
        header@ == basic_authorization_spec(user@, password@),
{
    let mut credentials = String::from_str(user);
    credentials.append(":");
    credentials.append(password);
    let encoded = text_to_base64(credentials.as_str());
    basic_authorization_for(encoded.as_str())
}

/// An owned copy of a text that may be missing.
fn owned(text: Option<&str>) -> (copy: Option<String>)
    ensures
        copy.deep_view() == text.deep_view(),
{
    match text {
        Some(text) => Some(String::from_str(text)),
        None => None,
    }
}

impl ClientBuilder {
    /// A builder with nothing set.
    pub fn new() -> (builder: Self)
        ensures
            builder@ == (ClientBuilderModel {
                base_url: None,
                port: None,
                user: None,
                password: None,
                timeout: None,
            }),
    {
        ClientBuilder { base_url: None, port: None, user: None, password: None, timeout: None }
    }

    /// A builder with the settings that an environment names: the port as
    /// text, and address, user and password where the environment has them.
    ///
    /// `None` where the text of the port spells no number of 32 bits.
    pub fn from_environment(
        host: Option<&str>,
        port: &str,
        user: Option<&str>,
        password: Option<&str>,
    ) -> (builder: Option<Self>)
        ensures
            match builder {
                Some(b) => unsigned_in_range(port@) is Some && b@ == (ClientBuilderModel {
                    base_url: host.deep_view(),
                    port: unsigned_in_range(port@),
                    user: user.deep_view(),
                    password: password.deep_view(),
                    timeout: None,
                }),
                None => unsigned_in_range(port@) is None,
            },
    {
        match parse_unsigned(port) {
            None => None,
            Some(port) => Some(
                ClientBuilder {
                    base_url: owned(host),
                    port: Some(port),
                    user: owned(user),
                    password: owned(password),
                    timeout: None,
                },
            ),
        }
    }

    /// Sets the address of the engine, without the port.
    pub fn base_url(self, url: &str) -> (builder: Self)
        ensures
            builder@ == (ClientBuilderModel { base_url: Some(url@), ..self@ }),
    {
        let mut builder = self;
        builder.base_url = Some(String::from_str(url));
        builder
    }

    /// Sets the port of the engine.
    pub fn port(self, port: u32) -> (builder: Self)
        ensures
            builder@ == (ClientBuilderModel { port: Some(port), ..self@ }),
    {
        let mut builder = self;
        builder.port = Some(port);
        builder
    }

    /// Sets the user in whose name statements are sent.
    pub fn user(self, user: &str) -> (builder: Self)
        ensures
            builder@ == (ClientBuilderModel { user: Some(user@), ..self@ }),
    {
        let mut builder = self;
        builder.user = Some(String::from_str(user));
        builder
    }

    /// Sets the time after which a request is given up.
    pub fn timeout(self, timeout: Duration) -> (builder: Self)
        ensures
            builder@ == (ClientBuilderModel { timeout: Some(timeout), ..self@ }),
    {
        let mut builder = self;
        builder.timeout = Some(timeout);
        builder
    }

    /// Sets the password of the user.
    pub fn password(self, password: &str) -> (builder: Self)
        ensures
            builder@ == (ClientBuilderModel { password: Some(password@), ..self@ }),
    {
        let mut builder = self;
        builder.password = Some(String::from_str(password));
        builder
    }

    /// Whether the address is set.
    pub fn has_base_url(&self) -> (set: bool)
        ensures
            set == self@.base_url is Some,
    {
        self.base_url.is_some()
    }

    /// Whether the port is set.
    pub fn has_port(&self) -> (set: bool)
        ensures
            set == self@.port is Some,
    {
        self.port.is_some()
    }

    /// Whether address and port are set, so that `build` may be called.
    pub fn is_complete(&self) -> (complete: bool)
        ensures
            complete == (self@.base_url is Some && self@.port is Some),
    {
        self.has_base_url() && self.has_port()
    }

    /// The settings collected. Address and port must have been set.
    pub fn build(self) -> (client: Client)
        requires
            self@.base_url is Some,
            self@.port is Some,
        ensures
            client@ == (ClientModel {
                base_url: self@.base_url->0,
                port: self@.port->0,
                user: self@.user,
                authorization: authorization_spec(self@.user, self@.password),
                timeout: self@.timeout,
            }),
    {
        let authorization = match (&self.user, &self.password) {
            (Some(user), Some(password)) => Some(
                basic_authorization(user.as_str(), password.as_str()),
            ),
            _ => None,
        };
        Client {
            base_url: self.base_url.unwrap(),
            port: self.port.unwrap(),
            user: self.user,
            authorization,
            timeout: self.timeout,
        }
    }
}

/// The address that statements are sent to.
pub open spec fn statement_url_spec(base_url: Seq<char>, port: u32) -> Seq<char> {
    base_url + ":"@ + decimal_text(port as nat) + "/v1/statement"@
}

/// The headers that go with a statement: the user's name and the
/// authorization, each where the connection has one.
pub open spec fn statement_headers_spec(client: ClientModel) -> Seq<(Seq<char>, Seq<char>)> {
    let user = match client.user {
        Some(user) => seq![("X-Trino-User"@, user)],
        None => Seq::empty(),
    };
    let authorization = match client.authorization {
        Some(value) => seq![("Authorization"@, value)],
        None => Seq::empty(),
    };
    user + authorization
}

impl Client {
    /// The settings of a connection without password and without timeout.
    pub fn new(base_url: &str, port: u32, user: Option<&str>) -> (client: Client)
        ensures
            client@ == (ClientModel {
                base_url: base_url@,
                port,
                user: user.deep_view(),
                authorization: None,
                timeout: None,
            }),
    {
        Client {
            base_url: String::from_str(base_url),
            port,
            user: owned(user),
            authorization: None,
            timeout: None,
        }
    }

    /// The address that statements are sent to: the engine's address, a
    /// colon, the port and the path `/v1/statement`.
    pub fn statement_url(&self) -> (url: String)
        ensures
            url@ == statement_url_spec(self@.base_url, self@.port),
    {
        let mut url = self.base_url.clone();
        url.append(":");
        append_decimal(&mut url, self.port);
        url.append("/v1/statement");
        url
    }

    /// The headers that go with a statement.
    pub fn statement_headers(&self) -> (headers: Vec<(String, String)>)
        ensures
            headers.deep_view() == statement_headers_spec(self@),
    {
        let mut headers: Vec<(String, String)> = Vec::new();
        if let Some(user) = &self.user {
            headers.push((String::from_str("X-Trino-User"), user.clone()));
        }
        if let Some(value) = &self.authorization {
            headers.push((String::from_str("Authorization"), value.clone()));
        }
        headers
    }
}

/// One page of the engine's answer to a statement.
#[derive(Debug, PartialEq, Eq)]
pub struct QueryResults<T> {
    /// Where the next page is to be had; `None` on the last page.
    pub next_uri: Option<String>,
    /// The rows of this page, where it has any.
    pub data: Option<Vec<T>>,
}

/// The rows of a page.
pub open spec fn page_rows<T>(page: QueryResults<T>) -> Seq<T> {
    match page.data {
        Some(rows) => rows@,
        None => Seq::empty(),
    }
}

/// The rows gathered from the pages of an answer, and where the next page is
/// to be had.
#[derive(Debug)]
pub struct RowStream<T> {
    pub rows: Vec<T>,
    pub next_uri: Option<String>,
}

impl<T> RowStream<T> {
    /// Starts with the engine's first answer, which says where the first
    /// page of rows is to be had. No rows are taken from the first answer.
    pub fn begin(first: QueryResults<T>) -> (stream: Self)
        ensures
            stream.rows@ == Seq::<T>::empty(),
            stream.next_uri == first.next_uri,
    {
        RowStream { rows: Vec::new(), next_uri: first.next_uri }
    }

    /// Takes in a page: its rows follow the rows gathered so far, in their
    /// order, and the page says where the next one is to be had.
    pub fn accept(&mut self, page: QueryResults<T>)
        ensures
            final(self).rows@ == old(self).rows@ + page_rows(page),
            final(self).next_uri == page.next_uri,
    {
        let QueryResults { next_uri, data } = page;
        if let Some(mut rows) = data {
            self.rows.append(&mut rows);
        }
        self.next_uri = next_uri;
    }

    /// Where the next page is to be had; `None` when all pages are in.
    pub fn pending(&self) -> (uri: Option<&String>)
        ensures
            uri.deep_view() == self.next_uri.deep_view(),
            uri is Some == self.next_uri is Some,
    {
        self.next_uri.as_ref()
    }

    /// The rows gathered.
    pub fn finish(self) -> (rows: Vec<T>)
        ensures
            rows@ == self.rows@,
    {
        self.rows
    }
}

/// What a client that looks for a single document does after a page.
#[derive(Debug, PartialEq, Eq)]
pub enum SearchStep {
    /// The page holds the document: this is its text.
    Found(String),
    /// The page holds no document; the next page is to be had here.
    Follow(String),
    /// The page holds no document and there is no further page.
    Exhausted,
    /// The last row of the page is an array that does not start with a
    /// string.
    Malformed,
}

/// The model of a [`SearchStep`].
pub enum SearchStepModel {
    Found(Seq<char>),
    Follow(Seq<char>),
    Exhausted,
    Malformed,
}

impl DeepView for SearchStep {
    type V = SearchStepModel;

    open spec fn deep_view(&self) -> SearchStepModel {
        match self {
            SearchStep::Found(text) => SearchStepModel::Found(text@),
            SearchStep::Follow(uri) => SearchStepModel::Follow(uri@),
            SearchStep::Exhausted => SearchStepModel::Exhausted,
            SearchStep::Malformed => SearchStepModel::Malformed,
        }
    }
}

/// The step after a page that holds no document.
pub open spec fn follow_spec(next_uri: Option<Seq<char>>) -> SearchStepModel {
    match next_uri {
        Some(uri) => SearchStepModel::Follow(uri),
        None => SearchStepModel::Exhausted,
    }
}

/// The step after a page, by the page's rows and continuation. The document
/// is the first cell of the last row, where that row is an array.
pub open spec fn search_step_spec(
    next_uri: Option<Seq<char>>,
    data: Option<Seq<JsonValue>>,
) -> SearchStepModel {
    match data {
        Some(rows) => if rows.len() > 0 {
            match rows.last() {
                JsonValue::Array(cells) => if cells.len() > 0 {
                    match cells[0] {
                        JsonValue::String(text) => SearchStepModel::Found(text),
                        _ => SearchStepModel::Malformed,
                    }
                } else {
                    SearchStepModel::Malformed
                },
                _ => follow_spec(next_uri),
            }
        } else {
            follow_spec(next_uri)
        },
        None => follow_spec(next_uri),
    }
}

/// The step after the engine's first answer, which holds no document: the
/// first page is fetched, or there is none.
pub fn first_step<T>(first: &QueryResults<T>) -> (step: SearchStep)
    ensures
        step.deep_view() == follow_spec(first.next_uri.deep_view()),
{
    match &first.next_uri {
        Some(uri) => SearchStep::Follow(uri.clone()),
        None => SearchStep::Exhausted,
    }
}

/// Decides what to do after a page when a single document is looked for.
pub fn search_step(page: &QueryResults<Json>) -> (step: SearchStep)
    ensures
        step.deep_view() == search_step_spec(page.next_uri.deep_view(), page.data.deep_view()),
{
    if let Some(rows) = &page.data {
        if rows.len() > 0 {
            if let Some(cells) = rows[rows.len() - 1].items() {
                if cells.len() > 0 {
                    if let Some(text) = cells[0].text() {
                        return SearchStep::Found(text.clone());
                    }
                }
                return SearchStep::Malformed;
            }
        }
    }
    first_step(page)
}

/// The page that a document of the engine describes: its `nextUri`, where
/// it has one, and its `data`, where it has some. A document that is no
/// object, or whose `nextUri` is no string, or whose `data` is no array,
/// describes none.
pub open spec fn page_spec(doc: JsonValue) -> Option<(Option<Seq<char>>, Option<Seq<JsonValue>>)> {
    match doc {
        JsonValue::Object(_) => {
            let next_uri = match Json::member_spec(doc, "nextUri"@) {
                None => Some(None),
                Some(JsonValue::Null) => Some(None),
                Some(JsonValue::String(uri)) => Some(Some(uri)),
                Some(_) => None,
            };
            let data = match Json::member_spec(doc, "data"@) {
                None => Some(None),
                Some(JsonValue::Null) => Some(None),
                Some(JsonValue::Array(rows)) => Some(Some(rows)),
                Some(_) => None,
            };
            match (next_uri, data) {
                (Some(next_uri), Some(data)) => Some((next_uri, data)),
                _ => None,
            }
        },
        _ => None,
    }
}

/// Reads a page of the engine's answer from a JSON document.
pub fn page_of(doc: &Json) -> (page: Option<QueryResults<Json>>)
    ensures
        match page {
            Some(p) => page_spec(doc@) == Some((p.next_uri.deep_view(), p.data.deep_view())),
            None => page_spec(doc@) is None,
        },
{
    match doc {
        Json::Object(_) => {},
        _ => {
            return None;
        },
    }
    let next_uri = match doc.member("nextUri") {
        None => None,
        Some(Json::Null) => None,
        Some(Json::String(uri)) => Some(uri.clone()),
        Some(_) => {
            return None;
        },
    };
    let data = match doc.member("data") {
        None => None,
        Some(value) => match value.duplicate() {
            Json::Null => None,
            Json::Array(rows) => {
                proof {
                    lemma_array_model(rows);
                }
                Some(rows)
            },
            _ => {
                return None;
            },
        },
    };
    Some(QueryResults { next_uri, data })
}

} // verus!
