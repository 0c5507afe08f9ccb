use glimesh::auth::{
    check_token_status, choose_token, client_credentials_form, format_glimesh_date, parse_glimesh_date,
    refresh_form, TokenChoice, DATE_FORMAT, TOKEN_URL,
};
use chrono::{DateTime, Utc};
use glimesh::{AccessToken, Auth, AuthError, ClientConfig, Timestamp};

const MIN_TS: i64 = -8334601228800;
const MAX_TS: i64 = 8210266876799;

fn token(created_secs: i64, created_nanos: u32, expires_in: i64) -> AccessToken {
    AccessToken {
        access_token: "tok".to_string(),
        refresh_token: Some("refresh".to_string()),
        created_at: Timestamp { secs: created_secs, nanos: created_nanos },
        expires_in,
        scope: Some("public chat".to_string()),
        token_type: "bearer".to_string(),
    }
}

fn at(secs: i64) -> Timestamp {
    Timestamp { secs, nanos: 0 }
}

fn config(redirect: Option<&str>) -> ClientConfig {
    ClientConfig {
        client_id: "id".to_string(),
        client_secret: "secret".to_string(),
        redirect_uri: redirect.map(|s| s.to_string()),
    }
}

fn pairs(form: &[(String, String)]) -> Vec<(&str, &str)> {
    form.iter().map(|(a, b)| (a.as_str(), b.as_str())).collect()
}

#[test]
fn chrono_range_matches_the_stated_bounds() {
    let min = DateTime::<Utc>::MIN_UTC;
    let max = DateTime::<Utc>::MAX_UTC;
    assert_eq!(min.timestamp(), MIN_TS);
    assert_eq!(max.timestamp(), MAX_TS);
}

#[test]
fn token_is_reused_until_five_minutes_before_expiry() {
    let t = token(1_000_000, 0, 3600);
    // Deadline is 1_000_000 + 3600 - 300 = 1_003_300.
    assert!(matches!(choose_token(Some(t.clone()), &at(1_003_299)), TokenChoice::Reuse(_)));
    assert!(matches!(choose_token(Some(t.clone()), &Timestamp { secs: 1_003_299, nanos: 999_999_999 }), TokenChoice::Reuse(_)));
    assert!(matches!(choose_token(Some(t.clone()), &at(1_003_300)), TokenChoice::Refresh));
    assert!(matches!(choose_token(Some(t), &at(2_000_000)), TokenChoice::Refresh));
}

#[test]
fn no_cached_token_means_refresh() {
    assert!(matches!(choose_token(None, &at(0)), TokenChoice::Refresh));
}

#[test]
fn sub_second_creation_time_is_kept() {
    let t = token(100, 500, 400);
    // Deadline is 200 seconds and 500 nanoseconds.
    assert!(matches!(choose_token(Some(t.clone()), &Timestamp { secs: 200, nanos: 499 }), TokenChoice::Reuse(_)));
    assert!(matches!(choose_token(Some(t), &Timestamp { secs: 200, nanos: 500 }), TokenChoice::Refresh));
}

#[test]
fn expiry_out_of_chrono_range_overflows() {
    // Lifetime beyond what TimeDelta::seconds accepts.
    let too_long = token(0, 0, i64::MAX / 1000 + 1);
    assert!(matches!(choose_token(Some(too_long), &at(0)), TokenChoice::Overflow));
    let too_short = token(0, 0, -(i64::MAX / 1000) - 1);
    assert!(matches!(choose_token(Some(too_short), &at(0)), TokenChoice::Overflow));
    // Expiry exactly at the last second is fine, one past it is not.
    let edge = token(MAX_TS - 1000, 0, 1000);
    assert!(matches!(choose_token(Some(edge), &at(0)), TokenChoice::Reuse(_)));
    let past = token(MAX_TS - 1000, 0, 1001);
    assert!(matches!(choose_token(Some(past), &at(0)), TokenChoice::Overflow));
    // Deadline exactly at the first second is fine, one before it is not.
    let low = token(MIN_TS + 100, 0, 200);
    assert!(matches!(choose_token(Some(low), &Timestamp { secs: MIN_TS - 1, nanos: 0 }), TokenChoice::Reuse(_)));
    let lower = token(MIN_TS + 100, 0, 199);
    assert!(matches!(choose_token(Some(lower), &at(0)), TokenChoice::Overflow));
}

#[test]
fn leap_second_creation_time_does_not_panic() {
    // 1_483_228_799 is 2016-12-31T23:59:59Z, the second before a leap second.
    let t = token(1_483_228_799, 1_500_000_000, 3600);
    match choose_token(Some(t), &at(0)) {
        TokenChoice::Reuse(_) => {}
        other => panic!("unexpected {:?}", other),
    }
}

#[test]
fn refresh_form_fields_in_order() {
    let form = refresh_form(&config(Some("https://example.com/cb")), Some("r1".to_string())).unwrap();
    assert_eq!(
        pairs(&form),
        vec![
            ("grant_type", "refresh_token"),
            ("client_id", "id"),
            ("client_secret", "secret"),
            ("redirect_uri", "https://example.com/cb"),
            ("refresh_token", "r1"),
        ]
    );
}

#[test]
fn refresh_form_errors() {
    assert!(matches!(
        refresh_form(&config(Some("x")), None),
        Err(AuthError::MissingRefreshToken)
    ));
    // The missing refresh token is reported before the missing redirect.
    assert!(matches!(refresh_form(&config(None), None), Err(AuthError::MissingRefreshToken)));
    assert!(matches!(
        refresh_form(&config(None), Some("r".to_string())),
        Err(AuthError::MissingRedirect)
    ));
}

#[test]
fn client_credentials_form_fields() {
    let form = client_credentials_form(&config(None));
    assert_eq!(
        pairs(&form),
        vec![("grant_type", "client_credentials"), ("client_id", "id"), ("client_secret", "secret")]
    );
}

#[test]
fn token_status_checks() {
    assert!(check_token_status(200).is_ok());
    assert!(check_token_status(299).is_ok());
    assert!(matches!(check_token_status(199), Err(AuthError::BadStatus(199))));
    assert!(matches!(check_token_status(300), Err(AuthError::BadStatus(300))));
    assert!(matches!(check_token_status(401), Err(AuthError::BadStatus(401))));
    let unknown: AuthError = anyhow::Error::msg("boom").into();
    assert!(matches!(unknown, AuthError::Unknown(_)));
    assert_eq!(TOKEN_URL, "https://glimesh.tv/api/oauth/token");
}

#[test]
fn auth_constructors() {
    assert!(matches!(Auth::client_id("abc"), Auth::ClientId(ref s) if s == "abc"));
    assert!(matches!(Auth::client_id(String::from("abc")), Auth::ClientId(ref s) if s == "abc"));
    assert!(matches!(Auth::access_token("t"), Auth::AccessToken(ref s) if s == "t"));
    match Auth::refreshable_access_token("id", "secret", "https://cb", token(0, 0, 60)) {
        Auth::RefreshableAccessToken(t) => {
            let c = t.client_config();
            assert_eq!(c.client_id, "id");
            assert_eq!(c.client_secret, "secret");
            assert_eq!(c.redirect_uri.as_deref(), Some("https://cb"));
            assert_eq!(t.token_cell().read().access_token, "tok");
        }
        _ => panic!("wrong variant"),
    }
    match Auth::client_credentials("id", "secret") {
        Auth::ClientCredentials(t) => {
            let c = t.client_config();
            assert_eq!(c.client_id, "id");
            assert_eq!(c.client_secret, "secret");
            assert!(c.redirect_uri.is_none());
            assert!(t.token_cell().read().is_none());
        }
        _ => panic!("wrong variant"),
    }
}

#[test]
fn glimesh_dates_format() {
    assert_eq!(DATE_FORMAT, "%FT%T");
    assert_eq!(format_glimesh_date(&at(0)), "1970-01-01T00:00:00");
    assert_eq!(format_glimesh_date(&at(1629829805)), "2021-08-24T18:30:05");
    let with_fraction = Timestamp { secs: 1629829805, nanos: 999_999_999 };
    assert_eq!(format_glimesh_date(&with_fraction), "2021-08-24T18:30:05");
    let chrono_text = DateTime::<Utc>::from_timestamp(-1, 0).unwrap().format("%FT%T").to_string();
    assert_eq!(format_glimesh_date(&at(-1)), chrono_text);
    assert_eq!(format_glimesh_date(&at(-1)), "1969-12-31T23:59:59");
}

#[test]
fn glimesh_dates_parse() {
    let t = parse_glimesh_date("2021-08-24T18:30:05").unwrap();
    assert_eq!((t.secs, t.nanos), (1629829805, 0));
    let t = parse_glimesh_date("1970-01-01T00:00:00").unwrap();
    assert_eq!((t.secs, t.nanos), (0, 0));
    assert!(parse_glimesh_date("2021-08-24").is_err());
    assert!(parse_glimesh_date("2021-08-24 18:30:05").is_err());
    assert!(parse_glimesh_date("2021-02-30T00:00:00").is_err());
    assert!(parse_glimesh_date("").is_err());
    let back = parse_glimesh_date(&format_glimesh_date(&at(1629829805))).unwrap();
    assert_eq!((back.secs, back.nanos), (1629829805, 0));
}
