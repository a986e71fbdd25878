//! What each endpoint decides and answers, from plain values to plain values.

use crate::config::{ApiKey, StatusDisplayTypes};
use crate::state::{expiry_of, SpaceGuard, SpaceStatus, TimerAction, TimerHandle, Timestamp};
use rocket::http::hyper::header::{
    ACCESS_CONTROL_ALLOW_HEADERS, ACCESS_CONTROL_ALLOW_METHODS, ACCESS_CONTROL_ALLOW_ORIGIN,
};
use rocket::http::Status;
use vstd::prelude::*;
use vstd::string::*;

verus! {

/// The HTTP status code of a request that is not authorized.
pub const UNAUTHORIZED: u16 = 401;

/// Reads the field `code` of `rocket::http::Status::Unauthorized`. Taken on
/// trust: that constant is declared with the code 401.
#[verifier::external_body]
fn unauthorized() -> (code: u16)
    ensures
        code == UNAUTHORIZED,
{
    Status::Unauthorized.code
}

/// The media type of an answer.
#[derive(Clone, Copy, Debug, PartialEq, Eq, Structural)]
pub enum ContentType {
    HTML,
    Text,
}

impl ApiKey {
    /// Whether the key that a request carries in its `X-API-Key` header is the
    /// configured one.
    pub open spec fn admits(header: Option<&str>, configured: Option<&ApiKey>) -> bool {
        match (header, configured) {
            (Some(sent), Some(key)) => sent@ == key@,
            _ => false,
        }
    }

    /// Authorizes a request by the key in its `X-API-Key` header. A request
    /// without the header, with another key than the configured one, or to a
    /// server without a configured key is turned away as unauthorized.
    pub fn from_request(header: Option<&str>, configured: Option<&ApiKey>) -> (outcome: Result<
        ApiKey,
        (u16, &'static str),
    >)
        ensures
            outcome is Ok <==> ApiKey::admits(header, configured),
            outcome matches Ok(key) ==> key@ == header->0@,
            outcome matches Err(refusal) ==> refusal.0 == UNAUTHORIZED && refusal.1@
                == "Api key missing"@,
    {
        if let Some(api_key) = header {
            if let Some(api_key_config) = configured {
                let sent = api_key.to_owned();
                if sent == api_key_config.0 {
                    return Ok(ApiKey(sent));
                }
            }
        }
        Err((unauthorized(), "Api key missing"))
    }
}

/// Implementation for CORS: lets pages of any origin read the status and
/// send the API key.
pub struct Cors;

/// At which point of the handling of a request a fairing acts.
#[derive(Clone, Copy, Debug, PartialEq, Eq, Structural)]
pub enum Kind {
    Request,
    Response,
}

/// How a fairing presents itself.
#[derive(Clone, Copy, Debug)]
pub struct Info {
    pub name: &'static str,
    pub kind: Kind,
}

/// A header to set on a response.
#[derive(Clone, Copy, Debug)]
pub struct Header {
    pub name: &'static str,
    pub value: &'static str,
}

/// Calls `as_str` on `rocket::http::hyper::header::ACCESS_CONTROL_ALLOW_HEADERS`,
/// a constant of the `http` crate that rocket hands on. Taken on trust: it
/// gives the name that the constant was declared with,
/// `access-control-allow-headers`.
#[verifier::external_body]
fn allow_headers() -> (name: &'static str)
    ensures
        name@ == "access-control-allow-headers"@,
{
    ACCESS_CONTROL_ALLOW_HEADERS.as_str()
}

/// Calls `as_str` on `rocket::http::hyper::header::ACCESS_CONTROL_ALLOW_METHODS`,
/// a constant of the `http` crate that rocket hands on. Taken on trust: it
/// gives the name that the constant was declared with,
/// `access-control-allow-methods`.
#[verifier::external_body]
fn allow_methods() -> (name: &'static str)
    ensures
        name@ == "access-control-allow-methods"@,
{
    ACCESS_CONTROL_ALLOW_METHODS.as_str()
}

/// Calls `as_str` on `rocket::http::hyper::header::ACCESS_CONTROL_ALLOW_ORIGIN`,
/// a constant of the `http` crate that rocket hands on. Taken on trust: it
/// gives the name that the constant was declared with,
/// `access-control-allow-origin`.
#[verifier::external_body]
fn allow_origin() -> (name: &'static str)
    ensures
        name@ == "access-control-allow-origin"@,
{
    ACCESS_CONTROL_ALLOW_ORIGIN.as_str()
}

impl Cors {
    /// The names and values of the headers that CORS is governed by: the API
    /// key may be sent, by POST and GET, from all locations.
    pub open spec fn headers() -> Seq<(Seq<char>, Seq<char>)> {
        seq![
            ("access-control-allow-headers"@, "X-API-Key"@),
            ("access-control-allow-methods"@, "POST,GET"@),
            ("access-control-allow-origin"@, "*"@),
        ]
    }

    /// The name of the fairing, and that it acts on responses.
    pub fn info(&self) -> (info: Info)
        ensures
            info.name@ == "CORS Settings"@,
            info.kind == Kind::Response,
    {
        Info { name: "CORS Settings", kind: Kind::Response }
    }

    /// The headers to set on every response, in this order.
    pub fn on_response(&self) -> (headers: Vec<Header>)
        ensures
            headers@.len() == Cors::headers().len(),
            forall|i: int|
                0 <= i < headers@.len() ==> (#[trigger] headers@[i].name@, headers@[i].value@)
                    == Cors::headers()[i],
    {
        let mut headers = Vec::new();
        headers.push(Header { name: allow_headers(), value: "X-API-Key" });
        headers.push(Header { name: allow_methods(), value: "POST,GET" });
        headers.push(Header { name: allow_origin(), value: "*" });
        headers
    }
}

/// Opens the space for an authorized client. The pending timer, if there is
/// one, is to be cancelled.
pub fn open_space(_api_key: ApiKey, space: &mut SpaceGuard) -> (timers: TimerAction)
    ensures
        final(space)@ == old(space)@.opened(),
        timers == (TimerAction { cancel: old(space)@.revert_token, arm: None }),
{
    space.open()
}

/// Closes the space for an authorized client. The pending timer, if there is
/// one, is to be cancelled.
pub fn close_space(_api_key: ApiKey, space: &mut SpaceGuard) -> (timers: TimerAction)
    ensures
        final(space)@ == old(space)@.closed(),
        timers == (TimerAction { cancel: old(space)@.revert_token, arm: None }),
{
    space.close()
}

/// The answer to a keep-open request.
#[derive(Clone, Copy, Debug, PartialEq, Eq, Structural)]
pub struct KeepOpenResponse {
    /// Timestamp (UTC) till the space stays open
    pub open_till: u64,
}

/// Keeps the space open for an authorized client, from `now` for `duration`
/// seconds, a negative duration counting as zero. Answers with the deadline.
/// The pending timer, if there is one, is to be cancelled, and a timer is to
/// be armed for the deadline.
pub fn keep_open(_api_key: ApiKey, space: &mut SpaceGuard, now: Timestamp, duration: i64) -> (kept: (
    KeepOpenResponse,
    TimerAction,
))
    requires
        expiry_of(now, duration) <= Timestamp::MAX,
    ensures
        kept.0.open_till == expiry_of(now, duration),
        final(space)@ == old(space)@.kept_open(kept.0.open_till),
        kept.1 == (TimerAction {
            cancel: old(space)@.revert_token,
            arm: Some(TimerHandle { deadline: kept.0.open_till }),
        }),
{
    let (till, timers) = space.keep_open(now, duration);
    (KeepOpenResponse { open_till: till }, timers)
}

/// What the form of the admin page can ask for.
#[derive(Clone, Copy, Debug, PartialEq, Eq, Structural)]
pub enum AdminUiControlAction {
    Open,
    Close,
}

impl AdminUiControlAction {
    /// The word for the action.
    pub open spec fn name(self) -> Seq<char> {
        match self {
            AdminUiControlAction::Open => "open"@,
            AdminUiControlAction::Close => "close"@,
        }
    }

    /// What the page says once the action is done.
    pub open spec fn hint(self) -> Seq<char> {
        match self {
            AdminUiControlAction::Open => "Space is now open"@,
            AdminUiControlAction::Close => "Space is now closed"@,
        }
    }

    /// The status once the action is done.
    pub open spec fn applied_to(self, status: SpaceStatus) -> SpaceStatus {
        match self {
            AdminUiControlAction::Open => status.opened(),
            AdminUiControlAction::Close => status.closed(),
        }
    }

    /// The value that stands for the action in the form.
    pub fn to_str(&self) -> (name: &'static str)
        ensures
            name@ == self.name(),
    {
        match self {
            AdminUiControlAction::Open => "open",
            AdminUiControlAction::Close => "close",
        }
    }
}

/// What the form of the admin page sends.
#[derive(Debug)]
pub struct AdminUiControlForm {
    pub api_key: String,
    pub action: AdminUiControlAction,
}

/// The two pages of the admin interface.
#[derive(Clone, Copy, Debug, PartialEq, Eq, Structural)]
pub enum Route {
    /// The page that shows the form.
    AdminUiView,
    /// The address that the form is sent to.
    AdminUiControl,
}

/// Whether a flash message reports success or failure.
#[derive(Clone, Copy, Debug, PartialEq, Eq, Structural)]
pub enum FlashKind {
    Success,
    Error,
}

/// A redirect that carries a message to the page it leads to.
#[derive(Clone, Copy, Debug)]
pub struct Flash {
    pub kind: FlashKind,
    pub redirect: Route,
    pub message: &'static str,
}

/// Carries out what the form of the admin page asks for, if the key in the
/// form is the configured one. With another key the status stays as it is and
/// no timer is touched. Returns where to send the browser and with which
/// message, and what to do about timers.
pub fn admin_ui_control(data: &AdminUiControlForm, space: &mut SpaceGuard, api_key: &ApiKey) -> (answer: (
    Flash,
    TimerAction,
))
    ensures
        data.api_key@ == api_key@ ==> {
            &&& final(space)@ == data.action.applied_to(old(space)@)
            &&& answer.0.kind == FlashKind::Success
            &&& answer.0.redirect == Route::AdminUiView
            &&& answer.0.message@ == data.action.hint()
            &&& answer.1 == (TimerAction { cancel: old(space)@.revert_token, arm: None })
        },
        data.api_key@ != api_key@ ==> {
            &&& final(space)@ == old(space)@
            &&& answer.0.kind == FlashKind::Error
            &&& answer.0.redirect == Route::AdminUiControl
            &&& answer.0.message@ == "Invalid API-Key"@
            &&& answer.1 == (TimerAction { cancel: None, arm: None })
        },
{
    if data.api_key == api_key.0 {
        let (hint, timers) = match data.action {
            AdminUiControlAction::Open => {
                let timers = space.open();
                ("Space is now open", timers)
            },
            AdminUiControlAction::Close => {
                let timers = space.close();
                ("Space is now closed", timers)
            },
        };
        (Flash { kind: FlashKind::Success, redirect: Route::AdminUiView, message: hint }, timers)
    } else {
        (
            Flash {
                kind: FlashKind::Error,
                redirect: Route::AdminUiControl,
                message: "Invalid API-Key",
            },
            TimerAction { cancel: None, arm: None },
        )
    }
}

/// The flash message as the admin page shows it: nothing without a message.
pub open spec fn flash_hint(flash: Option<&str>) -> Seq<char> {
    match flash {
        Some(message) => "<div>"@ + message@ + "</div>"@,
        None => ""@,
    }
}

/// The action that the button of the admin page offers: the one that changes
/// the state.
pub open spec fn offered_action(is_open: bool) -> AdminUiControlAction {
    if is_open {
        AdminUiControlAction::Close
    } else {
        AdminUiControlAction::Open
    }
}

/// The label of the button of the admin page.
pub open spec fn command_title(is_open: bool) -> Seq<char> {
    if is_open {
        "üîê Close space"@
    } else {
        "üîì Open space"@
    }
}

/// The admin page.
pub open spec fn admin_ui_page(
    hint: Seq<char>,
    command_uri: Seq<char>,
    command_value: Seq<char>,
    command_title: Seq<char>,
) -> Seq<char> {
    r#"<html>
        <head>
            <meta charset="utf-8">
        </head>
        <body>
            "#@ + hint + r#"
            <form action=""#@ + command_uri + r#"" method="POST">
                <label for="api_key">API-Key</label>
                <input type="password" name="api_key"/>
                <input type="hidden" name="action" value=""#@ + command_value + r#""/>
                <br>
                <input type="submit" value=""#@ + command_title + r#"" />
            </form>
        </body>
    </html>
    "#@
}

/// Renders the admin page: the message of the flash that led here, if any,
/// and a form that sends the API key and the action that changes the state to
/// `command_uri`.
pub fn admin_ui_view(space: &SpaceGuard, flash: Option<&str>, command_uri: &str) -> (page: (
    ContentType,
    String,
))
    ensures
        page.0 == ContentType::HTML,
        page.1@ == admin_ui_page(
            flash_hint(flash),
            command_uri@,
            offered_action(space@.is_open).name(),
            command_title(space@.is_open),
        ),
{
    let hint = match flash {
        Some(message) => {
            let mut hint = String::from_str("<div>");
            hint.append(message);
            hint.append("</div>");
            hint
        },
        None => String::from_str(""),
    };
    let (command_title, command_value) = if space.is_open() {
        ("üîê Close space", AdminUiControlAction::Close.to_str())
    } else {
        ("üîì Open space", AdminUiControlAction::Open.to_str())
    };

    let mut html = String::from_str(r#"<html>
        <head>
            <meta charset="utf-8">
        </head>
        <body>
            "#);
    html.append(hint.as_str());
    html.append(r#"
            <form action=""#);
    html.append(command_uri);
    html.append(r#"" method="POST">
                <label for="api_key">API-Key</label>
                <input type="password" name="api_key"/>
                <input type="hidden" name="action" value=""#);
    html.append(command_value);
    html.append(r#""/>
                <br>
                <input type="submit" value=""#);
    html.append(command_title);
    html.append(r#"" />
            </form>
        </body>
    </html>
    "#);
    (ContentType::HTML, html)
}

/// The index page.
pub open spec fn index_page(logo: Seq<char>, name: Seq<char>, status: Seq<char>) -> Seq<char> {
    r#"<html>
        <body>
            <center>
                <img src=""#@ + logo + r#"" alt=""#@ + name + r#""></img>
                <div>"#@ + status + r#"</div>
                <div><a href="https://github.com/dezentrale/spaceapi-rs">"#@ + crate::SOFTWARE@ + " v"@ + crate::VERSION@ + r#"</a></div>
            </center>
        </body>
    </html>
    "#@
}

/// Minimalistic implementation of the index page: the logo and the name of
/// the space, and the configured text for its state.
pub fn index(space: &SpaceGuard, displays: &StatusDisplayTypes, name: &str, logo: &str) -> (page: (
    ContentType,
    String,
))
    ensures
        page.0 == ContentType::HTML,
        page.1@ == index_page(logo@, name@, displays.text.shown(space@.is_open)),
{
    let status = if space.is_open() {
        &displays.text.open
    } else {
        &displays.text.closed
    };

    let mut html = String::from_str(r#"<html>
        <body>
            <center>
                <img src=""#);
    html.append(logo);
    html.append(r#"" alt=""#);
    html.append(name);
    html.append(r#""></img>
                <div>"#);
    html.append(status.as_str());
    html.append(r#"</div>
                <div><a href="https://github.com/dezentrale/spaceapi-rs">"#);
    html.append(crate::SOFTWARE);
    html.append(" v");
    html.append(crate::VERSION);
    html.append(r#"</a></div>
            </center>
        </body>
    </html>
    "#);
    (ContentType::HTML, html)
}

/// The versions of the SpaceAPI.
#[derive(Clone, Copy, Debug, PartialEq, Eq, Structural)]
pub enum ApiVersion {
    V14,
}

/// What the machine-readable status adds to the configured description of
/// the space.
#[derive(Debug)]
pub struct StatusV14 {
    /// The versions of the SpaceAPI that the status conforms to.
    pub api_compatibility: Vec<ApiVersion>,
    /// Whether the space is open.
    pub open: bool,
    /// The time of the answer.
    pub lastchange: Timestamp,
}

/// The state of the space for the SpaceAPI, version 14, as of `now`.
pub fn get_status_v14(space: &SpaceGuard, now: Timestamp) -> (status: StatusV14)
    ensures
        status.api_compatibility@ == seq![ApiVersion::V14],
        status.open == space@.is_open,
        status.lastchange == now,
{
    let mut api_compatibility = Vec::new();
    api_compatibility.push(ApiVersion::V14);
    StatusV14 { api_compatibility, open: space.is_open(), lastchange: now }
}

/// The state of the space as plain text.
pub fn get_status_text(space: &SpaceGuard, displays: &StatusDisplayTypes) -> (page: (
    ContentType,
    String,
))
    ensures
        page.0 == ContentType::Text,
        page.1@ == displays.text.shown(space@.is_open),
{
    let status = if space.is_open() {
        displays.text.open.clone()
    } else {
        displays.text.closed.clone()
    };
    (ContentType::Text, status)
}

/// The state of the space as a piece of HTML.
pub fn get_status_html(space: &SpaceGuard, displays: &StatusDisplayTypes) -> (page: (
    ContentType,
    String,
))
    ensures
        page.0 == ContentType::HTML,
        page.1@ == displays.html.shown(space@.is_open),
{
    let status = if space.is_open() {
        displays.html.open.clone()
    } else {
        displays.html.closed.clone()
    };
    (ContentType::HTML, status)
}

/// OPTION fallback handler required for CORS
pub fn options_catch_all() {
}

} // verus!
