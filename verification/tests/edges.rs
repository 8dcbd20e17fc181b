use ts_presence::config::Config;
use ts_presence::http::render_html;
use ts_presence::journal::parse_show_value;

#[test]
fn show_value_is_text_after_equals() {
    let out = "ExecMainStartTimestamp=Mon 2024-04-01 12:00:00 UTC\n";
    assert_eq!(
        parse_show_value(out).as_deref(),
        Some("Mon 2024-04-01 12:00:00 UTC")
    );
}

#[test]
fn show_value_without_equals_is_rejected() {
    assert!(parse_show_value("no key value shape here\n").is_none());
    assert!(parse_show_value("").is_none());
}

#[test]
fn show_value_splits_on_first_equals_and_trims_newlines() {
    assert_eq!(parse_show_value("k=a=b\n\n\n").as_deref(), Some("a=b"));
    assert_eq!(parse_show_value("k=").as_deref(), Some(""));
    assert_eq!(parse_show_value("k=v").as_deref(), Some("v"));
}

#[test]
fn html_wraps_the_report_verbatim() {
    let page = render_html("---Online users---");
    assert_eq!(
        page,
        "\n        <html>\n            <head></head>\n            <body>\n                <pre>\n---Online users---\n                </pre>\n            </body>\n        </html>\n        "
    );
}

#[test]
fn explicit_since_wins_over_default() {
    let mut cfg = Config {
        unit: "teamspeak3-server.service".to_owned(),
        serve_http: false,
        port: 3000,
        since: Some("yesterday".to_owned()),
    };
    cfg.apply_default_since(Some("2024-04-01".to_owned()));
    assert_eq!(cfg.since.as_deref(), Some("yesterday"));
}

#[test]
fn missing_since_takes_the_default() {
    let mut cfg = Config {
        unit: "teamspeak3-server.service".to_owned(),
        serve_http: true,
        port: 3000,
        since: None,
    };
    cfg.apply_default_since(Some("2024-04-01".to_owned()));
    assert_eq!(cfg.since.as_deref(), Some("2024-04-01"));
}

#[test]
fn failed_default_lookup_degrades_gracefully() {
    let mut cfg = Config {
        unit: "teamspeak3-server.service".to_owned(),
        serve_http: false,
        port: 8080,
        since: None,
    };
    cfg.apply_default_since(None);
    assert!(cfg.since.is_none());
    assert_eq!(cfg.port, 8080);
}
