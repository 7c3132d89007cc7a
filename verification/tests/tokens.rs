use sync_msteams_jira_comments::ms_graph_api::cfg::Config;
use sync_msteams_jira_comments::ms_graph_api::delegated_token::GrantedToken;
use sync_msteams_jira_comments::ms_graph_api::delegated_token::TokenGrant;
use sync_msteams_jira_comments::ms_graph_api::model::MSGraphAPIState;
use sync_msteams_jira_comments::ms_graph_api::model::RenewalAction;
use sync_msteams_jira_comments::ms_graph_api::model::RenewalLoop;
use sync_msteams_jira_comments::ms_graph_api::token::ApplicationToken;
use sync_msteams_jira_comments::ms_graph_api::token::TokenError;

fn config() -> Config {
    Config {
        tenant_id: "tenant".to_string(),
        client_id: "client".to_string(),
        client_secret: "secret".to_string(),
        notification_url: "https://bridge.example/teams".to_string(),
        lifecycle_notification_url: "https://bridge.example/teams_lifecycle".to_string(),
        oauth_url: "https://bridge.example/ms_oauth".to_string(),
        group_id: "group".to_string(),
        channel_id: "channel".to_string(),
        teams_user: "bot@example.com".to_string(),
    }
}

#[test]
fn new_service_token_is_empty() {
    let token = ApplicationToken::new();
    assert_eq!(token.get(0), Err(TokenError::Empty));
    assert_eq!(token.get(u64::MAX), Err(TokenError::Empty));
}

#[test]
fn renewed_token_expires_at_half_life() {
    let now = 1_000_000;
    let mut token = ApplicationToken::new();
    let handed = token.renew("abc".to_string(), 3600, now);
    assert_eq!(handed, "abc");
    assert_eq!(token.expires_at, u128::from(now) + 1800);
    assert_eq!(token.get(now), Ok("abc".to_string()));
    assert_eq!(token.get(now + 1799), Ok("abc".to_string()));
    assert_eq!(token.get(now + 1800), Err(TokenError::Expired));
    assert_eq!(token.get(now + 1801), Err(TokenError::Expired));
    assert_eq!(token.get(now + 3600), Err(TokenError::Expired));
}

#[test]
fn renewal_holds_at_every_reading_of_the_clock() {
    let mut token = ApplicationToken::new();
    assert_eq!(token.renew("v".to_string(), 3600, u64::MAX), "v");
    assert_eq!(token.expires_at, u128::from(u64::MAX) + 1800);
    assert_eq!(token.get(u64::MAX), Ok("v".to_string()));
    token.renew("w".to_string(), u64::MAX, u64::MAX - 1);
    assert_eq!(token.get(u64::MAX), Ok("w".to_string()));
    let mut granted = GrantedToken::new();
    granted.set(
        TokenGrant { access_token: "a".to_string(), refresh_token: "r".to_string(), expires_in: 2 },
        u64::MAX,
    );
    assert_eq!(granted.get(u64::MAX), Ok("a".to_string()));
}

#[test]
fn odd_lifetime_is_halved_downwards() {
    let mut token = ApplicationToken::new();
    token.renew("t".to_string(), 7, 10);
    assert_eq!(token.expires_at, 13);
    assert_eq!(token.get(12), Ok("t".to_string()));
    assert_eq!(token.get(13), Err(TokenError::Expired));
}

#[test]
fn empty_token_is_reported_before_expiry() {
    let mut token = ApplicationToken::new();
    token.renew(String::new(), 3600, 0);
    assert_eq!(token.get(1), Err(TokenError::Empty));
    assert_eq!(token.get(5000), Err(TokenError::Empty));
}

#[test]
fn renewal_overwrites_previous_token() {
    let mut token = ApplicationToken::new();
    token.renew("first".to_string(), 100, 0);
    token.renew("second".to_string(), 200, 40);
    assert_eq!(token.get(60), Ok("second".to_string()));
    assert_eq!(token.get(139), Ok("second".to_string()));
    assert_eq!(token.get(140), Err(TokenError::Expired));
}

#[test]
fn delegated_token_is_empty_until_consent() {
    let token = GrantedToken::new();
    assert_eq!(token.get(0), Err(TokenError::Empty));
}

#[test]
fn delegated_token_rotates_refresh_token_and_halves_lifetime() {
    let mut token = GrantedToken::new();
    let lifetime = token.set(
        TokenGrant {
            access_token: "a1".to_string(),
            refresh_token: "r1".to_string(),
            expires_in: 3600,
        },
        500,
    );
    assert_eq!(lifetime, 3600);
    assert_eq!(token.refresh_token, "r1");
    assert_eq!(token.expires_in, 3600);
    assert_eq!(token.get(500), Ok("a1".to_string()));
    assert_eq!(token.get(2299), Ok("a1".to_string()));
    assert_eq!(token.get(2300), Err(TokenError::Expired));
    token.set(
        TokenGrant {
            access_token: "a2".to_string(),
            refresh_token: "r2".to_string(),
            expires_in: 600,
        },
        2300,
    );
    assert_eq!(token.refresh_token, "r2");
    assert_eq!(token.get(2300), Ok("a2".to_string()));
    assert_eq!(token.get(2600), Err(TokenError::Expired));
}

fn pairs(form: &[sync_msteams_jira_comments::ms_graph_api::delegated_token::FormField]) -> Vec<(String, String)> {
    form.iter().map(|f| (f.name.clone(), f.value.clone())).collect()
}

#[test]
fn authorization_form_has_the_code_and_redirect() {
    let form = GrantedToken::set_first_time(&config(), "the-code");
    assert_eq!(
        pairs(&form),
        vec![
            ("client_id".to_string(), "client".to_string()),
            ("scope".to_string(), "ChannelMessage.Send ChannelMessage.ReadWrite".to_string()),
            ("code".to_string(), "the-code".to_string()),
            ("redirect_uri".to_string(), "https://bridge.example/ms_oauth".to_string()),
            ("grant_type".to_string(), "authorization_code".to_string()),
        ]
    );
}

#[test]
fn refresh_form_has_the_current_refresh_token() {
    let mut token = GrantedToken::new();
    token.set(
        TokenGrant {
            access_token: "a".to_string(),
            refresh_token: "refresh-1".to_string(),
            expires_in: 10,
        },
        0,
    );
    let form = token.refresh_and_get_expiration_time(&config());
    assert_eq!(
        pairs(&form),
        vec![
            ("client_id".to_string(), "client".to_string()),
            ("scope".to_string(), "ChannelMessage.Send ChannelMessage.ReadWrite".to_string()),
            ("refresh_token".to_string(), "refresh-1".to_string()),
            ("grant_type".to_string(), "refresh_token".to_string()),
        ]
    );
}

#[test]
fn expired_delegated_token_is_still_present() {
    let mut token = GrantedToken::new();
    assert!(!token.is_present());
    token.set(
        TokenGrant { access_token: "a".to_string(), refresh_token: "r".to_string(), expires_in: 2 },
        0,
    );
    assert_eq!(token.get(5), Err(TokenError::Expired));
    assert!(token.is_present());
}

#[test]
fn shared_state_starts_empty() {
    let state = MSGraphAPIState::new();
    assert_eq!(state.token.get(0), Err(TokenError::Empty));
    assert_eq!(state.subscription.subscription_id, 0);
    assert_eq!(state.subscription.subscription_secret, 0);
}

#[test]
fn renewal_loop_waits_for_consent() {
    let (mut renewal, action) = RenewalLoop::manage_granted_token();
    assert_eq!(action, RenewalAction::Sleep(1));
    assert_eq!(renewal.after_sleep(false), RenewalAction::Sleep(1));
    assert_eq!(renewal.after_sleep(false), RenewalAction::Sleep(1));
    assert!(renewal.token_is_empty);
    assert_eq!(renewal.after_sleep(true), RenewalAction::Refresh);
    assert!(!renewal.token_is_empty);
}

#[test]
fn renewal_loop_sleeps_half_the_lifetime() {
    let (mut renewal, _) = RenewalLoop::manage_granted_token();
    renewal.after_sleep(true);
    assert_eq!(renewal.after_refresh(Some(3600)), RenewalAction::Sleep(1800));
    assert_eq!(renewal.backoff, 1800);
    // Once consent was seen the loop renews after every sleep.
    assert_eq!(renewal.after_sleep(false), RenewalAction::Refresh);
}

#[test]
fn renewal_loop_halves_on_failure_and_gives_up() {
    let (mut renewal, _) = RenewalLoop::manage_granted_token();
    renewal.after_sleep(true);
    renewal.after_refresh(Some(16));
    assert_eq!(renewal.backoff, 8);
    assert_eq!(renewal.after_refresh(None), RenewalAction::Sleep(4));
    assert_eq!(renewal.after_refresh(None), RenewalAction::Sleep(2));
    assert_eq!(renewal.after_refresh(None), RenewalAction::GiveUp);
    assert_eq!(renewal.backoff, 1);
}

#[test]
fn first_renewal_failure_is_fatal() {
    let (mut renewal, _) = RenewalLoop::manage_granted_token();
    assert_eq!(renewal.after_sleep(true), RenewalAction::Refresh);
    assert_eq!(renewal.after_refresh(None), RenewalAction::GiveUp);
    assert_eq!(renewal.backoff, 0);
}

#[test]
fn renewal_loop_gives_up_within_sixty_four_failures() {
    let mut renewal = RenewalLoop { backoff: u64::MAX, token_is_empty: false };
    let mut failures = 0;
    loop {
        failures += 1;
        if renewal.after_refresh(None) == RenewalAction::GiveUp {
            break;
        }
    }
    assert_eq!(failures, 63);
}
