use experiment_launcher::image::{contains_char, process_image};
use experiment_launcher::json::{
    frame_compact, frame_pretty, frame_request, params_pretty, quote_pairs, request_body,
};
use experiment_launcher::outcome::{decimal_text, outcome_for_status, LaunchOutcome};
use experiment_launcher::params::{build_params, join_images, process_images, ExperimentSettings};
use experiment_launcher::recipients::{resolve_recipients, trim_text};
use experiment_launcher::text::join_with;

fn s(x: &str) -> String {
    x.to_string()
}

fn settings(images: &[&str], tenant: Option<&str>) -> ExperimentSettings {
    ExperimentSettings {
        duration: s("15"),
        description: s("Basic test run"),
        config_image: s("config"),
        recipients: s("dev@example.com"),
        images: images.iter().map(|i| s(i)).collect(),
        tenant_name: tenant.map(s),
    }
}

fn keys(p: &[(String, String)]) -> Vec<&str> {
    p.iter().map(|(k, _)| k.as_str()).collect()
}

fn pairs(p: &[(&str, &str)]) -> Vec<(String, String)> {
    p.iter().map(|(k, v)| (s(k), s(v))).collect()
}

#[test]
fn image_with_path_is_kept() {
    assert_eq!(process_image("gcr.io/org/app:1", Some("acme")), "gcr.io/org/app:1");
    assert_eq!(process_image("a/b", None), "a/b");
}

#[test]
fn bare_image_is_qualified_with_tenant() {
    assert_eq!(
        process_image("app:latest", Some("acme")),
        "us-central1-docker.pkg.dev/molten-verve-216720/acme-repository/app:latest"
    );
}

#[test]
fn bare_image_without_tenant_is_kept() {
    assert_eq!(process_image("app:latest", None), "app:latest");
}

#[test]
fn contains_char_finds_separator() {
    assert!(contains_char("x/y", '/'));
    assert!(!contains_char("xy", '/'));
    assert!(!contains_char("", '/'));
}

#[test]
fn images_are_joined_with_semicolons() {
    let v = vec![s("a"), s("b"), s("c")];
    assert_eq!(join_images(&v), "a;b;c");
    assert_eq!(join_images(&vec![s("only")]), "only");
    assert_eq!(join_images(&vec![]), "");
}

#[test]
fn join_with_longer_separator() {
    assert_eq!(join_with(&vec![s("x"), s(""), s("z")], ", "), "x, , z");
}

#[test]
fn each_image_is_qualified() {
    let v = vec![s("a"), s("r/b")];
    assert_eq!(
        process_images(&v, Some("t")),
        vec![s("us-central1-docker.pkg.dev/molten-verve-216720/t-repository/a"), s("r/b")]
    );
    assert_eq!(process_images(&v, None), v);
}

#[test]
fn params_without_images_have_four_keys() {
    let p = build_params(&settings(&[], None));
    assert_eq!(
        keys(&p),
        vec![
            "antithesis.config_image",
            "antithesis.description",
            "antithesis.duration",
            "antithesis.report.recipients",
        ]
    );
    assert_eq!(
        p,
        pairs(&[
            ("antithesis.config_image", "config"),
            ("antithesis.description", "Basic test run"),
            ("antithesis.duration", "15"),
            ("antithesis.report.recipients", "dev@example.com"),
        ])
    );
}

#[test]
fn params_with_images_have_images_key() {
    let p = build_params(&settings(&["a", "b", "c"], None));
    assert_eq!(p.len(), 5);
    assert_eq!(p[3], (s("antithesis.images"), s("a;b;c")));
}

#[test]
fn params_qualify_config_and_images_with_tenant() {
    let p = build_params(&settings(&["app", "x/y"], Some("acme")));
    assert_eq!(
        p[0].1,
        "us-central1-docker.pkg.dev/molten-verve-216720/acme-repository/config"
    );
    assert_eq!(
        p[3].1,
        "us-central1-docker.pkg.dev/molten-verve-216720/acme-repository/app;x/y"
    );
}

#[test]
fn recipients_come_from_lookup_when_not_given() {
    assert_eq!(resolve_recipients(None, Some(s("dev@example.com"))), "dev@example.com");
    assert_eq!(resolve_recipients(None, Some(s("dev@example.com\n"))), "dev@example.com");
}

#[test]
fn recipients_are_empty_when_lookup_fails() {
    assert_eq!(resolve_recipients(None, None), "");
    assert_eq!(resolve_recipients(None, Some(s(" \n"))), "");
}

#[test]
fn given_recipients_win() {
    assert_eq!(
        resolve_recipients(Some(s("a@b.c, d@e.f")), Some(s("dev@example.com"))),
        "a@b.c, d@e.f"
    );
    assert_eq!(resolve_recipients(Some(s("")), Some(s("dev@example.com"))), "");
}

#[test]
fn trim_removes_unicode_white_space_at_both_ends() {
    assert_eq!(trim_text("  \t x y \r\n"), "x y");
    assert_eq!(trim_text("\u{3000}\u{a0}é\u{85}\u{2029}"), "é");
    assert_eq!(trim_text(""), "");
    assert_eq!(trim_text("   "), "");
    assert_eq!(trim_text("\u{200b}a"), "\u{200b}a");
    for t in ["  a b\t", "\n\n", "x", " \u{2000}q\u{202f}"] {
        assert_eq!(trim_text(t), t.trim());
    }
}

#[test]
fn unauthorized_is_a_failure() {
    let o = outcome_for_status(401);
    assert_eq!(o, LaunchOutcome::Rejected { status: 401 });
    assert_ne!(o.exit_code(), 0);
    assert_eq!(o.message(), "Failed to launch experiment: HTTP status 401");
}

#[test]
fn server_error_is_a_failure() {
    let o = outcome_for_status(500);
    assert_eq!(o, LaunchOutcome::Rejected { status: 500 });
    assert_eq!(o.exit_code(), 1);
    assert_eq!(o.message(), "Failed to launch experiment: HTTP status 500");
}

#[test]
fn ok_is_a_launch() {
    let o = outcome_for_status(200);
    assert_eq!(o, LaunchOutcome::Launched);
    assert_eq!(o.exit_code(), 0);
    assert_eq!(o.message(), "Successfully launched experiment");
}

#[test]
fn status_range_edges() {
    assert_eq!(outcome_for_status(204), LaunchOutcome::Launched);
    assert_eq!(outcome_for_status(299), LaunchOutcome::Launched);
    assert_eq!(outcome_for_status(199), LaunchOutcome::Rejected { status: 199 });
    assert_eq!(outcome_for_status(302), LaunchOutcome::Rejected { status: 302 });
}

#[test]
fn decimal_text_values() {
    assert_eq!(decimal_text(0), "0");
    assert_eq!(decimal_text(7), "7");
    assert_eq!(decimal_text(404), "404");
    assert_eq!(decimal_text(65535), "65535");
}

#[test]
fn quoting_escapes_strings() {
    let q = quote_pairs(&pairs(&[("k", "a\"b\\c\n")]));
    assert_eq!(q, pairs(&[("\"k\"", "\"a\\\"b\\\\c\\n\"")]));
}

#[test]
fn frames_compact_object() {
    assert_eq!(frame_compact(&vec![]), "{}");
    assert_eq!(
        frame_compact(&pairs(&[("\"a\"", "\"1\""), ("\"b\"", "\"2\"")])),
        "{\"a\":\"1\",\"b\":\"2\"}"
    );
}

#[test]
fn frames_pretty_object() {
    assert_eq!(frame_pretty(&vec![]), "{}");
    assert_eq!(
        frame_pretty(&pairs(&[("\"a\"", "\"1\""), ("\"b\"", "\"2\"")])),
        "{\n  \"a\": \"1\",\n  \"b\": \"2\"\n}"
    );
}

#[test]
fn frames_request() {
    assert_eq!(frame_request("\"params\"", "{}"), "{\"params\":{}}");
}

#[test]
fn request_body_matches_serde_json() {
    let p = build_params(&settings(&["app"], Some("acme")));
    let mut inner = serde_json::Map::new();
    for (k, v) in &p {
        inner.insert(k.clone(), serde_json::Value::String(v.clone()));
    }
    let mut outer = serde_json::Map::new();
    outer.insert(s("params"), serde_json::Value::Object(inner.clone()));
    let expected = serde_json::to_string(&serde_json::Value::Object(outer)).unwrap();
    assert_eq!(request_body(&p), expected);
    let pretty = serde_json::to_string_pretty(&serde_json::Value::Object(inner)).unwrap();
    assert_eq!(params_pretty(&p), pretty);
}

#[test]
fn request_body_exact_text() {
    let p = pairs(&[("antithesis.duration", "15")]);
    assert_eq!(request_body(&p), "{\"params\":{\"antithesis.duration\":\"15\"}}");
    assert_eq!(params_pretty(&p), "{\n  \"antithesis.duration\": \"15\"\n}");
}

#[test]
fn quoting_escapes_control_characters() {
    let q = quote_pairs(&pairs(&[
        ("\u{8}\u{c}\t\r", "\u{0}\u{1}\u{1f}"),
        ("\u{7f}/é", "x y"),
    ]));
    assert_eq!(
        q,
        pairs(&[
            ("\"\\b\\f\\t\\r\"", "\"\\u0000\\u0001\\u001f\""),
            ("\"\u{7f}/é\"", "\"x y\""),
        ])
    );
}

#[test]
fn quoting_changes_the_text() {
    let q = quote_pairs(&pairs(&[("", "plain")]));
    assert_eq!(q, pairs(&[("\"\"", "\"plain\"")]));
}

#[test]
fn request_body_escapes_values_as_serde_json_does() {
    let mut st = settings(&[], None);
    st.description = s("line one\nline \"two\"\u{2}");
    let p = build_params(&st);
    let mut inner = serde_json::Map::new();
    for (k, v) in &p {
        inner.insert(k.clone(), serde_json::Value::String(v.clone()));
    }
    let mut outer = serde_json::Map::new();
    outer.insert(s("params"), serde_json::Value::Object(inner.clone()));
    let expected = serde_json::to_string(&serde_json::Value::Object(outer)).unwrap();
    assert_eq!(request_body(&p), expected);
    let pretty = serde_json::to_string_pretty(&serde_json::Value::Object(inner)).unwrap();
    assert_eq!(params_pretty(&p), pretty);
}
