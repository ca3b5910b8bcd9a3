use debug_proxy::admin::{asset_path, is_admin_path, provided_token, route_with_pairs};
use debug_proxy::{route_admin, AdminRoute};

const TOKEN: &str = "test-token";

#[test]
fn admin_unauthenticated_scenario() {
    let r = route_admin("GET", "/_proxy", "", TOKEN);
    assert_eq!(r, AdminRoute::Unauthorized);
    assert_eq!(r.fixed_status(), Some(401));
    let r = route_admin("GET", "/_proxy", "token=test-token", TOKEN);
    assert_eq!(r, AdminRoute::Ui);
    assert_eq!(r.fixed_status(), None);
    assert_eq!(route_admin("GET", "/_proxy/api/config", "token=test-token", TOKEN), AdminRoute::GetConfig);
}

#[test]
fn wrong_or_missing_token_is_refused() {
    for q in ["", "token=", "token=wrong", "tok=test-token", "token=test-token&token=x", "x=1"] {
        for p in ["/_proxy", "/_proxy/", "/_proxy/api/logs", "/_proxy/nothing"] {
            assert_eq!(route_admin("GET", p, q, TOKEN), AdminRoute::Unauthorized, "{} {}", p, q);
        }
    }
    // The last `token` wins, as in a map built from the pairs.
    assert_eq!(route_admin("GET", "/_proxy", "token=x&token=test-token", TOKEN), AdminRoute::Ui);
    // The query is decoded before the comparison.
    assert_eq!(route_admin("GET", "/_proxy", "token=a%20b", "a b"), AdminRoute::Ui);
    assert_eq!(route_admin("GET", "/_proxy", "token=a+b", "a b"), AdminRoute::Ui);
}

#[test]
fn assets_need_no_token() {
    assert_eq!(route_admin("GET", "/_proxy/assets/app.js", "", TOKEN), AdminRoute::Asset);
    assert_eq!(route_admin("POST", "/_proxy/assets/app.js", "", TOKEN), AdminRoute::NotFound);
    assert_eq!(asset_path("/_proxy/assets/app.js"), "assets/app.js");
    assert_eq!(asset_path("/elsewhere"), "/elsewhere");
}

#[test]
fn admin_routes() {
    let q = "token=test-token";
    assert_eq!(route_admin("GET", "/_proxy/", q, TOKEN), AdminRoute::Ui);
    assert_eq!(route_admin("POST", "/_proxy/api/config", q, TOKEN), AdminRoute::UpdateConfig);
    assert_eq!(route_admin("GET", "/_proxy/api/logs", q, TOKEN), AdminRoute::GetLogs);
    assert_eq!(route_admin("DELETE", "/_proxy/api/logs", q, TOKEN), AdminRoute::ClearLogs);
    let r = route_admin("PUT", "/_proxy/api/logs", q, TOKEN);
    assert_eq!(r, AdminRoute::NotFound);
    assert_eq!(r.fixed_status(), Some(404));
}

#[test]
fn admin_paths() {
    assert!(is_admin_path("/_proxy"));
    assert!(is_admin_path("/_proxyfoo"));
    assert!(!is_admin_path("/test"));
    assert!(!is_admin_path("/_prox"));
}

#[test]
fn token_lookup_on_pairs() {
    let pairs = vec![
        ("token".to_string(), "a".to_string()),
        ("x".to_string(), "y".to_string()),
        ("token".to_string(), "b".to_string()),
    ];
    assert_eq!(provided_token(&pairs).as_deref(), Some("b"));
    assert_eq!(route_with_pairs("GET", "/_proxy", &pairs, "b"), AdminRoute::Ui);
    assert_eq!(route_with_pairs("GET", "/_proxy", &pairs, "a"), AdminRoute::Unauthorized);
    assert_eq!(provided_token(&vec![]), None);
}
