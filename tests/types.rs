use beatmap_watcher::types::{GrantScope, GrantType, RankStatus, TokenGrantRequest};

const ALL: [RankStatus; 7] = [
    RankStatus::Graveyard,
    RankStatus::Wip,
    RankStatus::Pending,
    RankStatus::Ranked,
    RankStatus::Approved,
    RankStatus::Qualified,
    RankStatus::Loved,
];

#[test]
fn rank_status_codes_round_trip() {
    let codes: Vec<i8> = ALL.iter().map(|s| s.code()).collect();
    assert_eq!(codes, vec![-2, -1, 0, 1, 2, 3, 4]);
    for s in ALL {
        assert_eq!(RankStatus::from_code(s.code()), Some(s));
    }
}

#[test]
fn rank_status_unknown_codes() {
    assert_eq!(RankStatus::from_code(-3), None);
    assert_eq!(RankStatus::from_code(5), None);
    assert_eq!(RankStatus::from_code(i8::MIN), None);
    assert_eq!(RankStatus::from_code(i8::MAX), None);
}

#[test]
fn rank_status_terminal_set() {
    let terminal: Vec<RankStatus> = ALL.iter().copied().filter(|s| s.is_terminal()).collect();
    assert_eq!(
        terminal,
        vec![RankStatus::Graveyard, RankStatus::Wip, RankStatus::Ranked, RankStatus::Loved]
    );
}

#[test]
fn rank_status_labels() {
    let labels: Vec<&str> = ALL.iter().map(|s| s.label()).collect();
    assert_eq!(
        labels,
        vec!["Graveyard", "WIP", "Pending", "Ranked", "Approved", "Qualified", "Loved"]
    );
}

#[test]
fn token_request_with_credentials() {
    let r = TokenGrantRequest::with_credentials("id".to_string(), "secret".to_string());
    assert_eq!(r.client_id, "id");
    assert_eq!(r.client_secret, "secret");
    assert_eq!(r.grant_type, GrantType::ClientCredentials);
    assert_eq!(r.scope, GrantScope::Public);
    assert_eq!(r.grant_type.as_str(), "client_credentials");
    assert_eq!(r.scope.as_str(), "public");
}
