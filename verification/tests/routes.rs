use spaceapi_dezentrale_server::config::{ApiKey, StatusDisplay, StatusDisplayTypes};
use spaceapi_dezentrale_server::routes::{
    admin_ui_control, admin_ui_view, close_space, get_status_html, get_status_text,
    get_status_v14, index, keep_open, open_space, options_catch_all, AdminUiControlAction,
    AdminUiControlForm, ApiVersion, ContentType, Cors, FlashKind, KeepOpenResponse,
    Kind, Route,
};
use spaceapi_dezentrale_server::state::{SpaceGuard, SpaceStatus, TimerAction, TimerHandle};
use spaceapi_dezentrale_server::{SOFTWARE, VERSION};

fn key(secret: &str) -> ApiKey {
    ApiKey(secret.to_string())
}

fn displays() -> StatusDisplayTypes {
    StatusDisplayTypes {
        text: StatusDisplay { open: "come in".to_string(), closed: "nobody home".to_string() },
        html: StatusDisplay {
            open: "<b>come in</b>".to_string(),
            closed: "<i>nobody home</i>".to_string(),
        },
    }
}

fn admin_page(hint: &str, command_uri: &str, command_value: &str, command_title: &str) -> String {
    format!(
        r#"<html>
        <head>
            <meta charset="utf-8">
        </head>
        <body>
            {hint}
            <form action="{command_uri}" method="POST">
                <label for="api_key">API-Key</label>
                <input type="password" name="api_key"/>
                <input type="hidden" name="action" value="{command_value}"/>
                <br>
                <input type="submit" value="{command_title}" />
            </form>
        </body>
    </html>
    "#
    )
}

fn index_page(logo: &str, name: &str, status: &str) -> String {
    format!(
        r#"<html>
        <body>
            <center>
                <img src="{logo}" alt="{name}"></img>
                <div>{status}</div>
                <div><a href="https://github.com/dezentrale/spaceapi-rs">{0} v{1}</a></div>
            </center>
        </body>
    </html>
    "#,
        SOFTWARE, VERSION,
    )
}

#[test]
fn api_key_is_accepted() {
    let configured = key("s3cret");
    let outcome = ApiKey::from_request(Some("s3cret"), Some(&configured));
    assert_eq!(outcome.map(|key| key.0), Ok("s3cret".to_string()));
}

#[test]
fn wrong_api_key_is_unauthorized() {
    let configured = key("s3cret");
    let outcome = ApiKey::from_request(Some("guess"), Some(&configured));
    assert_eq!(outcome.map(|key| key.0), Err((401, "Api key missing")));
    let outcome = ApiKey::from_request(Some("s3cret "), Some(&configured));
    assert_eq!(outcome.map(|key| key.0), Err((401, "Api key missing")));
    let outcome = ApiKey::from_request(Some(""), Some(&configured));
    assert_eq!(outcome.map(|key| key.0), Err((401, "Api key missing")));
}

#[test]
fn missing_api_key_is_unauthorized() {
    let configured = key("s3cret");
    let outcome = ApiKey::from_request(None, Some(&configured));
    assert_eq!(outcome.map(|key| key.0), Err((401, "Api key missing")));
}

#[test]
fn no_configured_api_key_admits_nobody() {
    let outcome = ApiKey::from_request(Some("s3cret"), None);
    assert_eq!(outcome.map(|key| key.0), Err((401, "Api key missing")));
    let outcome = ApiKey::from_request(None, None);
    assert_eq!(outcome.map(|key| key.0), Err((401, "Api key missing")));
}

#[test]
fn cors_presents_itself() {
    let info = Cors.info();
    assert_eq!(info.name, "CORS Settings");
    assert_eq!(info.kind, Kind::Response);
}

#[test]
fn cors_sets_three_headers() {
    let headers: Vec<(&str, &str)> =
        Cors.on_response().iter().map(|header| (header.name, header.value)).collect();
    assert_eq!(
        headers,
        vec![
            ("access-control-allow-headers", "X-API-Key"),
            ("access-control-allow-methods", "POST,GET"),
            ("access-control-allow-origin", "*"),
        ]
    );
}

#[test]
fn open_space_opens() {
    let mut space = SpaceGuard::new();
    assert_eq!(open_space(key("k"), &mut space), TimerAction { cancel: None, arm: None });
    assert!(space.is_open());
    assert_eq!(space.expires_at(), None);
}

#[test]
fn close_space_closes_and_cancels() {
    let mut space = SpaceGuard::new();
    keep_open(key("k"), &mut space, 1_000, 60);
    assert_eq!(
        close_space(key("k"), &mut space),
        TimerAction { cancel: Some(TimerHandle { deadline: 1_060 }), arm: None }
    );
    assert!(!space.is_open());
    assert_eq!(space.expires_at(), None);
}

#[test]
fn keep_open_answers_with_the_deadline() {
    let mut space = SpaceGuard::new();
    let (answer, timers) = keep_open(key("k"), &mut space, 1_700_000_000, 900);
    assert_eq!(answer, KeepOpenResponse { open_till: 1_700_000_900 });
    assert_eq!(
        timers,
        TimerAction { cancel: None, arm: Some(TimerHandle { deadline: 1_700_000_900 }) }
    );
    assert!(space.is_open());
    assert_eq!(space.expires_at(), Some(1_700_000_900));

    let (answer, timers) = keep_open(key("k"), &mut space, 1_700_000_100, 900);
    assert_eq!(answer.open_till, 1_700_001_000);
    assert_eq!(timers.cancel, Some(TimerHandle { deadline: 1_700_000_900 }));
    assert_eq!(timers.arm, Some(TimerHandle { deadline: 1_700_001_000 }));
}

#[test]
fn actions_have_their_form_values() {
    assert_eq!(AdminUiControlAction::Open.to_str(), "open");
    assert_eq!(AdminUiControlAction::Close.to_str(), "close");
}

#[test]
fn admin_form_with_the_key_opens() {
    let mut space = SpaceGuard::new();
    let form = AdminUiControlForm { api_key: "s3cret".to_string(), action: AdminUiControlAction::Open };
    let (flash, timers) = admin_ui_control(&form, &mut space, &key("s3cret"));
    assert_eq!(flash.kind, FlashKind::Success);
    assert_eq!(flash.redirect, Route::AdminUiView);
    assert_eq!(flash.message, "Space is now open");
    assert_eq!(timers, TimerAction { cancel: None, arm: None });
    assert!(space.is_open());
}

#[test]
fn admin_form_with_the_key_closes() {
    let mut space = SpaceGuard::new();
    space.keep_open(0, 60);
    let form =
        AdminUiControlForm { api_key: "s3cret".to_string(), action: AdminUiControlAction::Close };
    let (flash, timers) = admin_ui_control(&form, &mut space, &key("s3cret"));
    assert_eq!(flash.kind, FlashKind::Success);
    assert_eq!(flash.redirect, Route::AdminUiView);
    assert_eq!(flash.message, "Space is now closed");
    assert_eq!(timers, TimerAction { cancel: Some(TimerHandle { deadline: 60 }), arm: None });
    assert!(!space.is_open());
    assert_eq!(space.expires_at(), None);
}

#[test]
fn admin_form_with_another_key_changes_nothing() {
    let mut space = SpaceGuard::new();
    space.keep_open(0, 60);
    let before = space.status();
    for action in [AdminUiControlAction::Open, AdminUiControlAction::Close] {
        let form = AdminUiControlForm { api_key: "guess".to_string(), action };
        let (flash, timers) = admin_ui_control(&form, &mut space, &key("s3cret"));
        assert_eq!(flash.kind, FlashKind::Error);
        assert_eq!(flash.redirect, Route::AdminUiControl);
        assert_eq!(flash.message, "Invalid API-Key");
        assert_eq!(timers, TimerAction { cancel: None, arm: None });
        assert_eq!(space.status(), before);
    }
    assert_eq!(
        before,
        SpaceStatus {
            is_open: true,
            opened_until: Some(60),
            revert_token: Some(TimerHandle { deadline: 60 }),
        }
    );
}

#[test]
fn admin_page_offers_to_open_a_closed_space() {
    let space = SpaceGuard::new();
    let (content_type, html) = admin_ui_view(&space, None, "/admin/ui");
    assert_eq!(content_type, ContentType::HTML);
    assert_eq!(html, admin_page("", "/admin/ui", "open", "\u{f8ff}\u{fc}\u{ee}\u{ec} Open space"));
}

#[test]
fn admin_page_offers_to_close_an_open_space() {
    let mut space = SpaceGuard::new();
    space.open();
    let (content_type, html) = admin_ui_view(&space, None, "/admin/ui");
    assert_eq!(content_type, ContentType::HTML);
    assert_eq!(html, admin_page("", "/admin/ui", "close", "\u{f8ff}\u{fc}\u{ee}\u{ea} Close space"));
}

#[test]
fn admin_page_shows_the_flash_message() {
    let mut space = SpaceGuard::new();
    space.keep_open(0, 60);
    let (_, html) = admin_ui_view(&space, Some("Space is now open"), "/somewhere/else");
    assert_eq!(
        html,
        admin_page(
            "<div>Space is now open</div>",
            "/somewhere/else",
            "close",
            "\u{f8ff}\u{fc}\u{ee}\u{ea} Close space"
        )
    );
    let (_, html) = admin_ui_view(&space, Some(""), "/admin/ui");
    assert_eq!(
        html,
        admin_page("<div></div>", "/admin/ui", "close", "\u{f8ff}\u{fc}\u{ee}\u{ea} Close space")
    );
}

#[test]
fn index_shows_name_logo_and_state() {
    let mut space = SpaceGuard::new();
    let (content_type, html) = index(&space, &displays(), "Hackspace", "https://example.org/logo.png");
    assert_eq!(content_type, ContentType::HTML);
    assert_eq!(html, index_page("https://example.org/logo.png", "Hackspace", "nobody home"));

    space.open();
    let (_, html) = index(&space, &displays(), "Hackspace", "https://example.org/logo.png");
    assert_eq!(html, index_page("https://example.org/logo.png", "Hackspace", "come in"));
    assert!(html.contains("spaceapi-dezentrale-server v0.9.0</a>"));
}

#[test]
fn status_v14_reports_state_and_time() {
    let mut space = SpaceGuard::new();
    let status = get_status_v14(&space, 1_700_000_000);
    assert_eq!(status.api_compatibility, vec![ApiVersion::V14]);
    assert!(!status.open);
    assert_eq!(status.lastchange, 1_700_000_000);

    space.keep_open(1_700_000_000, 60);
    let status = get_status_v14(&space, 1_700_000_030);
    assert_eq!(status.api_compatibility, vec![ApiVersion::V14]);
    assert!(status.open);
    assert_eq!(status.lastchange, 1_700_000_030);
}

#[test]
fn status_text_follows_the_state() {
    let mut space = SpaceGuard::new();
    assert_eq!(get_status_text(&space, &displays()), (ContentType::Text, "nobody home".to_string()));
    space.open();
    assert_eq!(get_status_text(&space, &displays()), (ContentType::Text, "come in".to_string()));
    space.close();
    assert_eq!(get_status_text(&space, &displays()), (ContentType::Text, "nobody home".to_string()));
}

#[test]
fn status_html_follows_the_state() {
    let mut space = SpaceGuard::new();
    assert_eq!(
        get_status_html(&space, &displays()),
        (ContentType::HTML, "<i>nobody home</i>".to_string())
    );
    space.keep_open(0, 1);
    assert_eq!(
        get_status_html(&space, &displays()),
        (ContentType::HTML, "<b>come in</b>".to_string())
    );
    space.timer_fired(TimerHandle { deadline: 1 });
    assert_eq!(
        get_status_html(&space, &displays()),
        (ContentType::HTML, "<i>nobody home</i>".to_string())
    );
}

#[test]
fn options_are_answered_with_nothing() {
    options_catch_all();
}
