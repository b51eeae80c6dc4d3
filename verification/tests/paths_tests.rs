use firemusic::firecore::error::Error;
use firemusic::firecore::paths::{
    classify_playback_input, local_input_verdict, look_at, validate_playback_input,
    validate_playback_inputs, validate_url, DiskFinding, InputKind,
};

#[test]
fn rejects_unsupported_url_scheme() {
    assert!(validate_url("file:///etc/passwd").is_err());
    assert!(validate_url("ftp://example.com/track.mp3").is_err());
}

#[test]
fn accepts_http_and_https() {
    assert!(validate_url("https://example.com/track").is_ok());
    assert!(validate_url("http://example.com/track").is_ok());
}

#[test]
fn empty_url_is_refused_with_its_message() {
    match validate_url("   ") {
        Err(Error::InvalidInput(m)) => assert_eq!(m, "empty URL"),
        _ => panic!("expected an invalid input error"),
    }
}

#[test]
fn unsupported_scheme_message_names_the_url() {
    match validate_url("ftp://x") {
        Err(Error::InvalidInput(m)) => {
            assert_eq!(m, "unsupported URL scheme (only http/https allowed): ftp://x")
        }
        _ => panic!("expected an invalid input error"),
    }
}

#[test]
fn scheme_is_read_case_insensitively_after_trimming() {
    assert!(validate_url("  HTTPS://Example.com/a ").is_ok());
    assert!(validate_url("example.com").is_err());
}

#[test]
fn url_input_is_trimmed() {
    assert_eq!(
        validate_playback_input("  https://example.com/a  ").unwrap(),
        "https://example.com/a"
    );
}

#[test]
fn local_input_with_parent_component_is_refused() {
    match classify_playback_input("../secret.mp3") {
        Err(Error::InvalidInput(m)) => {
            assert_eq!(m, "local paths must not contain '..' components: ../secret.mp3")
        }
        _ => panic!("expected refusal"),
    }
}

#[test]
fn blank_and_nul_inputs_are_refused() {
    assert!(matches!(classify_playback_input("  "), Err(Error::InvalidInput(m)) if m == "empty playback input"));
    assert!(matches!(classify_playback_input("a\0b"), Err(Error::InvalidInput(m)) if m == "invalid playback input"));
}

#[test]
fn local_path_is_classified_as_local() {
    match classify_playback_input(" /music/a.mp3 ") {
        Ok(InputKind::Local(p)) => assert_eq!(p, "/music/a.mp3"),
        _ => panic!("expected a local path"),
    }
}

#[test]
fn missing_local_file_is_refused() {
    let r = validate_playback_input("/no/such/file/for/firemusic.mp3");
    match r {
        Err(Error::InvalidInput(m)) => {
            assert_eq!(m, "local file does not exist: /no/such/file/for/firemusic.mp3")
        }
        _ => panic!("expected refusal"),
    }
}

#[test]
fn no_inputs_is_an_error() {
    let none: Vec<String> = Vec::new();
    match validate_playback_inputs(&none) {
        Err(Error::InvalidInput(m)) => assert_eq!(m, "at least one playback input is required"),
        _ => panic!("expected refusal"),
    }
}

#[test]
fn all_url_inputs_validate_in_order() {
    let inputs = vec![" http://a.com/x ".to_string(), "https://b.com/y".to_string()];
    assert_eq!(
        validate_playback_inputs(&inputs).unwrap(),
        vec!["http://a.com/x".to_string(), "https://b.com/y".to_string()]
    );
}

#[test]
fn one_bad_input_fails_the_whole_list() {
    let inputs = vec!["https://b.com/y".to_string(), "".to_string()];
    assert!(validate_playback_inputs(&inputs).is_err());
}

#[test]
fn error_messages_carry_their_labels() {
    assert_eq!(Error::InvalidInput("x".to_string()).message(), "invalid input: x");
    assert_eq!(Error::ConfigPath("y".to_string()).message(), "config path error: y");
    assert_eq!(Error::Io("z".to_string()).message(), "io error: z");
}

#[test]
fn local_input_verdicts() {
    match local_input_verdict("song.mp3", DiskFinding::Missing) {
        Err(Error::InvalidInput(m)) => assert_eq!(m, "local file does not exist: song.mp3"),
        other => panic!("unexpected {:?}", other),
    }
    match local_input_verdict("song.mp3", DiskFinding::Unresolved("denied".to_string())) {
        Err(Error::Io(m)) => assert_eq!(m, "denied"),
        other => panic!("unexpected {:?}", other),
    }
    match local_input_verdict("song.mp3", DiskFinding::Resolved("/m/song.mp3".to_string(), false)) {
        Err(Error::InvalidInput(m)) => assert_eq!(m, "local playback input is not a file: /m/song.mp3"),
        other => panic!("unexpected {:?}", other),
    }
    assert_eq!(
        local_input_verdict("song.mp3", DiskFinding::Resolved("/m/song.mp3".to_string(), true)).unwrap(),
        "/m/song.mp3"
    );
}

#[test]
fn looking_at_the_disk() {
    assert!(matches!(look_at("/no/such/firemusic/path", false), DiskFinding::Missing));
    match look_at("/", true) {
        DiskFinding::Resolved(c, is_dir) => {
            assert_eq!(c, "/");
            assert!(is_dir);
        }
        other => panic!("unexpected {:?}", other),
    }
    assert!(matches!(look_at("/", false), DiskFinding::Resolved(_, false)));
}

#[test]
fn a_validated_url_validates_to_itself() {
    let once = validate_playback_input("  https://example.com/a b  ").unwrap();
    assert_eq!(validate_playback_input(&once).unwrap(), once);
}

#[test]
fn one_failing_input_rejects_the_list() {
    let inputs = vec!["https://example.com/a".to_string(), "/no/such/firemusic/file.mp3".to_string()];
    match validate_playback_inputs(&inputs) {
        Err(Error::InvalidInput(m)) => assert_eq!(m, "local file does not exist: /no/such/firemusic/file.mp3"),
        other => panic!("unexpected {:?}", other),
    }
}
