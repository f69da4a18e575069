use setmod::bootstrap::{
    check_config, construct, credential_requests, player_gate, BootConfig, BootError, Feature,
    FeatureSet, Identity, PlayerHandle, Provider, TaskKind,
};
use setmod::credential::Credential;

fn config(db: bool, player: bool, chat: bool, song: bool) -> BootConfig {
    BootConfig {
        database_url: if db { Some("postgres://localhost/setmod".to_string()) } else { None },
        has_player: player,
        has_chat: chat,
        features: FeatureSet { enabled: if song { vec![Feature::Song] } else { vec![] } },
    }
}

fn grants(n: usize) -> Vec<Result<Credential, String>> {
    (0..n).map(|i| Ok(Credential::new(format!("token-{}", i)))).collect()
}

#[test]
fn scenario_no_player_no_chat() {
    let c = config(true, false, false, true);
    assert!(check_config(&c).is_ok());
    let requests = credential_requests(&c);
    assert_eq!(requests, vec![Identity::Spotify, Identity::TwitchStreamer]);
    let plan = construct(&c, grants(2)).ok().unwrap();
    assert_eq!(
        plan.tasks,
        vec![
            TaskKind::Web,
            TaskKind::Renewal(Identity::Spotify),
            TaskKind::Renewal(Identity::TwitchStreamer),
            TaskKind::Notifier,
        ]
    );
    assert_eq!(plan.player, None);
    assert!(plan.credentials.bot.is_none());
    assert_eq!(plan.credentials.spotify.read(), "token-0");
    assert_eq!(plan.credentials.streamer.read(), "token-1");
}

#[test]
fn missing_database_url_is_fatal() {
    let c = config(false, false, false, false);
    assert_eq!(check_config(&c), Err(BootError::MissingDatabaseUrl));
}

#[test]
fn player_needs_section_and_feature() {
    assert!(!player_gate(&config(true, true, false, false)));
    assert!(!player_gate(&config(true, false, false, true)));
    assert!(player_gate(&config(true, true, false, true)));
}

#[test]
fn disabled_player_gives_absent_capability() {
    for c in [config(true, true, true, false), config(true, false, true, true)] {
        let plan = construct(&c, grants(3)).ok().unwrap();
        assert!(!plan.tasks.contains(&TaskKind::Player));
        assert!(plan.tasks.contains(&TaskKind::Chat { with_player: false }));
        assert_eq!(plan.player, None);
    }
}

#[test]
fn enabled_player_is_constructed_and_shared() {
    let c = config(true, true, true, true);
    let plan = construct(&c, grants(3)).ok().unwrap();
    assert_eq!(
        plan.tasks,
        vec![
            TaskKind::Web,
            TaskKind::Renewal(Identity::Spotify),
            TaskKind::Renewal(Identity::TwitchStreamer),
            TaskKind::Notifier,
            TaskKind::Player,
            TaskKind::Renewal(Identity::TwitchBot),
            TaskKind::Chat { with_player: true },
        ]
    );
    assert_eq!(plan.player, Some(PlayerHandle {}));
    assert_eq!(plan.credentials.bot.unwrap().read(), "token-2");
}

#[test]
fn chat_adds_one_bot_request() {
    let without = credential_requests(&config(true, false, false, false));
    let with = credential_requests(&config(true, false, true, false));
    assert_eq!(with.len(), without.len() + 1);
    assert_eq!(with, vec![Identity::Spotify, Identity::TwitchStreamer, Identity::TwitchBot]);
    assert_eq!(Identity::TwitchBot.provider(), Provider::Twitch);
    assert_eq!(Identity::Spotify.provider(), Provider::Spotify);
}

#[test]
fn one_refused_acquisition_constructs_nothing() {
    let c = config(true, true, true, true);
    let mut results = grants(3);
    results[1] = Err("access denied".to_string());
    match construct(&c, results) {
        Err(BootError::Acquisition { index, identity, message }) => {
            assert_eq!(index, 1);
            assert_eq!(identity, Identity::TwitchStreamer);
            assert_eq!(message, "access denied");
        }
        _ => panic!("expected an acquisition error"),
    }
}

#[test]
fn first_refusal_is_reported() {
    let c = config(true, false, true, false);
    let results = vec![
        Ok(Credential::new("a".to_string())),
        Ok(Credential::new("b".to_string())),
        Err("bot refused".to_string()),
    ];
    match construct(&c, results) {
        Err(BootError::Acquisition { index, identity, .. }) => {
            assert_eq!(index, 2);
            assert_eq!(identity, Identity::TwitchBot);
        }
        _ => panic!("expected an acquisition error"),
    }
}

#[test]
fn wrong_number_of_results() {
    let c = config(true, false, true, false);
    match construct(&c, grants(2)) {
        Err(BootError::ResultCount { expected, got }) => {
            assert_eq!(expected, 3);
            assert_eq!(got, 2);
        }
        _ => panic!("expected a result count error"),
    }
}

#[test]
fn renewed_credential_is_read_whole() {
    let mut c = Credential::new("old-token".to_string());
    assert_eq!(c.read(), "old-token");
    c.renew("a-much-longer-new-token".to_string());
    assert_eq!(c.read(), "a-much-longer-new-token");
}

#[test]
fn feature_set_test() {
    assert!(FeatureSet { enabled: vec![Feature::Song] }.test(Feature::Song));
    assert!(!FeatureSet { enabled: vec![] }.test(Feature::Song));
}
