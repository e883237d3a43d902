use playsync::config::{
    eligible_sync_sources, select_playlists_to_sync, Config, ConfigAction, ConfigArgs, Playlist,
};

fn playlist(id: &str, title: &str, sync_from: Option<Vec<&str>>) -> Playlist {
    Playlist {
        id: id.to_string(),
        title: title.to_string(),
        sync_from: sync_from.map(|v| v.into_iter().map(|s| s.to_string()).collect()),
    }
}

#[test]
fn default_config_is_empty() {
    let cfg = Config::default();
    assert!(cfg.oauth2_json.is_none());
    assert!(cfg.playlists.is_empty());
}

#[test]
fn add_playlist_appends_in_order() {
    let mut cfg = Config::default();
    cfg.add_playlist(playlist("p1", "First", None));
    cfg.add_playlist(playlist("p2", "Second", Some(vec!["p1"])));
    assert_eq!(cfg.playlists.len(), 2);
    assert_eq!(cfg.playlists[0].id, "p1");
    assert_eq!(cfg.playlists[1].id, "p2");
    assert_eq!(cfg.playlists[1].sync_from.as_deref(), Some(&["p1".to_string()][..]));
}

#[test]
fn remove_playlist_keeps_the_rest_in_order() {
    let mut cfg = Config::default();
    cfg.add_playlist(playlist("p1", "First", None));
    cfg.add_playlist(playlist("p2", "Second", None));
    cfg.add_playlist(playlist("p1", "First again", None));
    cfg.add_playlist(playlist("p3", "Third", None));
    cfg.remove_playlist("p1");
    let left: Vec<String> = cfg.playlists.iter().map(|p| p.id.clone()).collect();
    assert_eq!(left, vec!["p2".to_string(), "p3".to_string()]);
}

#[test]
fn remove_of_unknown_id_changes_nothing() {
    let mut cfg = Config::default();
    cfg.add_playlist(playlist("p1", "First", None));
    cfg.remove_playlist("nope");
    assert_eq!(cfg.playlists.len(), 1);
    assert_eq!(cfg.playlists[0].id, "p1");
}

#[test]
fn set_oauth_path_touches_only_the_path() {
    let mut cfg = Config::default();
    cfg.add_playlist(playlist("p1", "First", None));
    cfg.set_oauth_path(Some("creds.json".to_string()));
    assert_eq!(cfg.oauth2_json.as_deref(), Some("creds.json"));
    assert_eq!(cfg.playlists.len(), 1);
    cfg.set_oauth_path(None);
    assert!(cfg.oauth2_json.is_none());
}

#[test]
fn playlist_new_stores_empty_choice_as_none() {
    let p = Playlist::new("p1".to_string(), "First".to_string(), Vec::new());
    assert!(p.sync_from.is_none());
    let q = Playlist::new(
        "p2".to_string(),
        "Second".to_string(),
        vec!["p1".to_string()],
    );
    assert_eq!(q.sync_from.as_deref(), Some(&["p1".to_string()][..]));
}

#[test]
fn eligible_sources_skip_target_and_dependants() {
    let mut cfg = Config::default();
    cfg.add_playlist(playlist("target", "Target", None));
    cfg.add_playlist(playlist("free", "Free", None));
    cfg.add_playlist(playlist("dependant", "Dependant", Some(vec!["target"])));
    cfg.add_playlist(playlist("other", "Other", Some(vec!["free"])));
    let choices = eligible_sync_sources(&cfg, "target");
    let ids: Vec<String> = choices.iter().map(|c| c.0.clone()).collect();
    assert_eq!(ids, vec!["free".to_string(), "other".to_string()]);
    assert_eq!(choices[0].1, "Free");
}

#[test]
fn eligible_sources_of_empty_config() {
    let cfg = Config::default();
    assert!(eligible_sync_sources(&cfg, "anything").is_empty());
}

#[test]
fn selecting_no_id_syncs_all() {
    let playlists = vec![
        playlist("p1", "First", None),
        playlist("p2", "Second", None),
    ];
    let selected = select_playlists_to_sync(playlists, &None);
    assert_eq!(selected.len(), 2);
    assert_eq!(selected[0].id, "p1");
    assert_eq!(selected[1].id, "p2");
}

#[test]
fn selecting_an_id_narrows_to_it() {
    let playlists = vec![
        playlist("p1", "First", None),
        playlist("p2", "Second", None),
        playlist("p1", "First again", None),
    ];
    let selected = select_playlists_to_sync(playlists, &Some("p1".to_string()));
    assert_eq!(selected.len(), 2);
    assert_eq!(selected[0].title, "First");
    assert_eq!(selected[1].title, "First again");

    let playlists = vec![playlist("p1", "First", None)];
    let selected = select_playlists_to_sync(playlists, &Some("missing".to_string()));
    assert!(selected.is_empty());
}

#[test]
fn reset_stands_alone() {
    let args = ConfigArgs {
        add: "p9".to_string(),
        remove: "p8".to_string(),
        list: true,
        reset: true,
        oauth2_json: Some("creds.json".to_string()),
    };
    let actions = args.requested_actions();
    assert_eq!(actions.len(), 1);
    assert!(matches!(actions[0], ConfigAction::Reset));
}

#[test]
fn actions_follow_the_fixed_order() {
    let args = ConfigArgs {
        add: "pa".to_string(),
        remove: "pr".to_string(),
        list: true,
        reset: false,
        oauth2_json: Some("creds.json".to_string()),
    };
    let actions = args.requested_actions();
    assert_eq!(actions.len(), 4);
    match &actions[0] {
        ConfigAction::SetOauthPath { path } => assert_eq!(path, "creds.json"),
        _ => panic!("expected the credential path to be set first"),
    }
    match &actions[1] {
        ConfigAction::AddPlaylist { id } => assert_eq!(id, "pa"),
        _ => panic!("expected the addition second"),
    }
    match &actions[2] {
        ConfigAction::RemovePlaylist { id } => assert_eq!(id, "pr"),
        _ => panic!("expected the removal third"),
    }
    assert!(matches!(actions[3], ConfigAction::List));
}

#[test]
fn empty_arguments_request_nothing() {
    let args = ConfigArgs {
        add: String::new(),
        remove: String::new(),
        list: false,
        reset: false,
        oauth2_json: None,
    };
    assert!(args.requested_actions().is_empty());
}
