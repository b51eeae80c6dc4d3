use firemusic::firecore::config::{
    config_dir, config_dir_from, default_music_dir, music_dir_from, playlists_dir,
    playlists_dir_from, presets_dir, presets_dir_from,
    music_dir_verdict, resolve_music_dir,
};
use firemusic::firecore::paths::DiskFinding;
use firemusic::firecore::error::Error;

#[test]
fn config_dir_ends_with_firemusic() {
    let dir = config_dir();
    assert!(dir.ends_with("firemusic"));
    assert!(dir.ends_with(".config/firemusic") || dir.ends_with(".config\\firemusic"));
}

#[test]
fn presets_and_playlists_dirs_are_under_config() {
    let base = config_dir();
    assert_eq!(presets_dir(), format!("{}/presets", base));
    assert_eq!(playlists_dir(), format!("{}/playlists", base));
}

#[test]
fn resolve_music_dir_rejects_parent_components() {
    assert!(resolve_music_dir("../Music").is_err());
    assert!(resolve_music_dir("/tmp/../etc").is_err());
}

#[test]
fn resolve_music_dir_empty_returns_default() {
    let resolved = resolve_music_dir("").unwrap();
    assert_eq!(resolved, default_music_dir());
}

#[test]
fn directories_under_a_given_home() {
    assert_eq!(config_dir_from(Some("/home/u".to_string())), "/home/u/.config/firemusic");
    assert_eq!(config_dir_from(None), "./.config/firemusic");
    assert_eq!(music_dir_from(Some("/home/u/".to_string())), "/home/u/Music");
}

#[test]
fn parent_component_message() {
    match resolve_music_dir("a/../b") {
        Err(Error::ConfigPath(m)) => {
            assert_eq!(m, "music directory must not contain '..' components")
        }
        _ => panic!("expected refusal"),
    }
}

#[test]
fn missing_relative_and_absolute_dirs_are_refused() {
    match resolve_music_dir("no-such-dir-for-firemusic") {
        Err(Error::ConfigPath(m)) => assert_eq!(
            m,
            "music directory must be an existing absolute path: no-such-dir-for-firemusic"
        ),
        _ => panic!("expected refusal"),
    }
    match resolve_music_dir("/no/such/dir/for/firemusic") {
        Err(Error::ConfigPath(m)) => {
            assert_eq!(m, "music directory does not exist: /no/such/dir/for/firemusic")
        }
        _ => panic!("expected refusal"),
    }
}

#[test]
fn existing_dir_is_made_canonical() {
    let r = resolve_music_dir("/").unwrap();
    assert_eq!(r, "/");
}

#[test]
fn music_dir_verdicts() {
    match music_dir_verdict("Music", DiskFinding::Missing) {
        Err(Error::ConfigPath(m)) => assert_eq!(m, "music directory must be an existing absolute path: Music"),
        other => panic!("unexpected {:?}", other),
    }
    match music_dir_verdict("/srv/music", DiskFinding::Missing) {
        Err(Error::ConfigPath(m)) => assert_eq!(m, "music directory does not exist: /srv/music"),
        other => panic!("unexpected {:?}", other),
    }
    match music_dir_verdict("/srv/music", DiskFinding::Unresolved("loop".to_string())) {
        Err(Error::Io(m)) => assert_eq!(m, "loop"),
        other => panic!("unexpected {:?}", other),
    }
    match music_dir_verdict("/srv/x", DiskFinding::Resolved("/srv/x.mp3".to_string(), false)) {
        Err(Error::ConfigPath(m)) => assert_eq!(m, "music directory is not a folder: /srv/x.mp3"),
        other => panic!("unexpected {:?}", other),
    }
    assert_eq!(
        music_dir_verdict("/srv/music/", DiskFinding::Resolved("/srv/music".to_string(), true)).unwrap(),
        "/srv/music"
    );
}

#[test]
fn resolve_existing_root_folder() {
    assert_eq!(resolve_music_dir("/").unwrap(), "/");
}

#[test]
fn one_home_holds_every_folder() {
    for home in [Some("/home/ana".to_string()), None] {
        let base = config_dir_from(home.clone());
        assert_eq!(presets_dir_from(home.clone()), format!("{}/presets", base));
        assert_eq!(playlists_dir_from(home.clone()), format!("{}/playlists", base));
    }
    assert_eq!(config_dir_from(Some("/home/ana".to_string())), "/home/ana/.config/firemusic");
    assert_eq!(music_dir_from(Some("/home/ana".to_string())), "/home/ana/Music");
}
