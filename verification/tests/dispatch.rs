use vlc_control::allow_list::{same_text, AllowList};
use vlc_control::dispatch::{
    conclude, local_action, starts_with, DispatchError, Dispatcher, Outcome, Route,
    MAX_COMMAND_SIZE,
};
use vlc_control::local_action::LocalAction;
use vlc_control::text::{decode, trim};

fn dispatcher() -> Dispatcher {
    Dispatcher::new(AllowList::new())
}

fn chars(s: &str) -> Vec<char> {
    s.chars().collect()
}

#[test]
fn oversized_command_is_refused_for_its_size() {
    let data = vec![b'a'; 129];
    assert_eq!(dispatcher().dispatch(&data), Err(DispatchError::SizeExceeded));
}

#[test]
fn command_of_the_largest_size_is_forwarded() {
    assert_eq!(MAX_COMMAND_SIZE, 128);
    let data = vec![b'a'; 128];
    assert_eq!(dispatcher().dispatch(&data), Ok(Route::Forward(data.clone())));
}

#[test]
fn size_is_checked_before_encoding_and_authorization() {
    let mut invalid = vec![0xffu8; 200];
    assert_eq!(dispatcher().dispatch(&invalid), Err(DispatchError::SizeExceeded));
    invalid.truncate(128);
    assert_eq!(dispatcher().dispatch(&invalid), Err(DispatchError::InvalidEncoding));
    let mut privileged = b"pi_".to_vec();
    privileged.extend(vec![b'x'; 126]);
    assert_eq!(privileged.len(), 129);
    assert_eq!(dispatcher().dispatch(&privileged), Err(DispatchError::SizeExceeded));
    privileged.truncate(128);
    assert_eq!(dispatcher().dispatch(&privileged), Err(DispatchError::Unauthorized));
}

#[test]
fn size_is_measured_before_trimming() {
    let mut data = b"play".to_vec();
    data.extend(vec![b' '; 125]);
    assert_eq!(data.len(), 129);
    assert_eq!(dispatcher().dispatch(&data), Err(DispatchError::SizeExceeded));
}

#[test]
fn bytes_that_are_not_text_are_refused() {
    assert_eq!(dispatcher().dispatch(&[0xff, 0xfe]), Err(DispatchError::InvalidEncoding));
    assert_eq!(dispatcher().dispatch(&[b'p', b'l', 0xc3]), Err(DispatchError::InvalidEncoding));
    assert_eq!(dispatcher().dispatch(&[0xed, 0xa0, 0x80]), Err(DispatchError::InvalidEncoding));
}

#[test]
fn unlisted_privileged_command_is_unauthorized() {
    assert_eq!(dispatcher().dispatch(b"pi_format_disk"), Err(DispatchError::Unauthorized));
    assert_eq!(dispatcher().dispatch(b"pi_"), Err(DispatchError::Unauthorized));
    assert_eq!(dispatcher().dispatch(b"pi_reboot now"), Err(DispatchError::Unauthorized));
    assert_eq!(dispatcher().dispatch(b"pi_rebootx"), Err(DispatchError::Unauthorized));
    assert_eq!(dispatcher().dispatch(b"  pi_format_disk\r\n"), Err(DispatchError::Unauthorized));
}

#[test]
fn listed_privileged_commands_run_locally() {
    let d = dispatcher();
    assert_eq!(d.dispatch(b"pi_restart_vlc"), Ok(Route::Local(LocalAction::RestartService)));
    assert_eq!(d.dispatch(b"pi_shutdown"), Ok(Route::Local(LocalAction::Shutdown)));
    assert_eq!(d.dispatch(b"pi_reboot"), Ok(Route::Local(LocalAction::Reboot)));
}

#[test]
fn privileged_command_is_classified_by_its_trimmed_text() {
    let d = dispatcher();
    assert_eq!(d.dispatch(b"pi_reboot\n"), Ok(Route::Local(LocalAction::Reboot)));
    assert_eq!(d.dispatch(b" \t pi_shutdown \r\n"), Ok(Route::Local(LocalAction::Shutdown)));
    let wide = "\u{2003}pi_restart_vlc\u{a0}\u{3000}";
    assert_eq!(d.dispatch(wide.as_bytes()), Ok(Route::Local(LocalAction::RestartService)));
}

#[test]
fn prefix_is_case_sensitive_and_must_lead() {
    let d = dispatcher();
    assert_eq!(d.dispatch(b"PI_reboot"), Ok(Route::Forward(b"PI_reboot".to_vec())));
    assert_eq!(d.dispatch(b"xpi_reboot"), Ok(Route::Forward(b"xpi_reboot".to_vec())));
    assert_eq!(d.dispatch(b"pi"), Ok(Route::Forward(b"pi".to_vec())));
}

#[test]
fn play_is_forwarded_with_its_bytes_unchanged() {
    let d = dispatcher();
    assert_eq!(d.dispatch(b"play"), Ok(Route::Forward(b"play".to_vec())));
    assert_eq!(d.dispatch(b"play\n"), Ok(Route::Forward(b"play\n".to_vec())));
    assert_eq!(d.dispatch(b"  play \r\n"), Ok(Route::Forward(b"  play \r\n".to_vec())));
}

#[test]
fn commands_off_the_list_are_forwarded_all_the_same() {
    let d = dispatcher();
    assert_eq!(d.dispatch(b"volume 10"), Ok(Route::Forward(b"volume 10".to_vec())));
    assert_eq!(d.dispatch(b""), Ok(Route::Forward(Vec::new())));
    assert_eq!(d.dispatch(b"\n"), Ok(Route::Forward(b"\n".to_vec())));
    let text = "caf\u{e9}";
    assert_eq!(d.dispatch(text.as_bytes()), Ok(Route::Forward(text.as_bytes().to_vec())));
}

#[test]
fn classify_takes_the_text_already_trimmed() {
    let d = dispatcher();
    assert_eq!(
        d.classify(&chars("pi_reboot"), b"pi_reboot\n"),
        Ok(Route::Local(LocalAction::Reboot))
    );
    assert_eq!(d.classify(&chars("pi_nope"), b"pi_nope"), Err(DispatchError::Unauthorized));
    assert_eq!(d.classify(&chars("stop"), b"stop\n"), Ok(Route::Forward(b"stop\n".to_vec())));
    assert_eq!(
        d.classify(&chars(" pi_reboot"), b" pi_reboot"),
        Ok(Route::Forward(b" pi_reboot".to_vec()))
    );
}

#[test]
fn allow_list_holds_the_ten_names() {
    let list = AllowList::new();
    for name in [
        "play",
        "pause",
        "stop",
        "next",
        "prev",
        "playlist",
        "frame",
        "pi_restart_vlc",
        "pi_shutdown",
        "pi_reboot",
    ] {
        assert!(list.contains(&chars(name)));
    }
    for name in ["", "Play", "play ", "pla", "plays", "pi_", "pi_format_disk", "volume"] {
        assert!(!list.contains(&chars(name)));
    }
}

#[test]
fn same_text_compares_every_character() {
    assert!(same_text(&chars(""), &chars("")));
    assert!(same_text(&chars("next"), &chars("next")));
    assert!(!same_text(&chars("next"), &chars("nexT")));
    assert!(!same_text(&chars("next"), &chars("nex")));
    assert!(!same_text(&chars("ext"), &chars("next")));
}

#[test]
fn starts_with_checks_the_leading_characters() {
    assert!(starts_with(&chars("pi_reboot"), &chars("pi_")));
    assert!(starts_with(&chars("pi_"), &chars("pi_")));
    assert!(starts_with(&chars("abc"), &chars("")));
    assert!(!starts_with(&chars("pi"), &chars("pi_")));
    assert!(!starts_with(&chars("pa_x"), &chars("pi_")));
    assert!(!starts_with(&chars("xpi_"), &chars("pi_")));
}

#[test]
fn local_action_goes_by_the_exact_name() {
    assert_eq!(local_action(&chars("pi_restart_vlc")), Some(LocalAction::RestartService));
    assert_eq!(local_action(&chars("pi_shutdown")), Some(LocalAction::Shutdown));
    assert_eq!(local_action(&chars("pi_reboot")), Some(LocalAction::Reboot));
    assert_eq!(local_action(&chars("pi_reboot ")), None);
    assert_eq!(local_action(&chars("play")), None);
}

#[test]
fn decode_accepts_well_formed_text_only() {
    assert_eq!(decode(b"play"), Some(chars("play")));
    assert_eq!(decode(b""), Some(Vec::new()));
    assert_eq!(decode("\u{e9}\u{20ac}\u{1f600}".as_bytes()), Some(vec!['\u{e9}', '\u{20ac}', '\u{1f600}']));
    assert_eq!(decode(&[0x80]), None);
    assert_eq!(decode(&[0xc0, 0xaf]), None);
    assert_eq!(decode(&[0xe2, 0x82]), None);
}

#[test]
fn trim_removes_white_space_at_both_ends_only() {
    assert_eq!(trim(&chars("  a b \t\r\n")), chars("a b"));
    assert_eq!(trim(&chars("abc")), chars("abc"));
    assert_eq!(trim(&chars("")), chars(""));
    assert_eq!(trim(&chars(" \n\t ")), chars(""));
    assert_eq!(trim(&chars("\u{85}x\u{2028}y\u{1680}")), chars("x\u{2028}y"));
    assert_eq!(trim(&chars("\u{200b}x")), chars("\u{200b}x"));
}

#[test]
fn trim_agrees_with_the_standard_library() {
    for s in ["", " ", "a", " a", "a ", " a ", "\u{a0}pi_reboot\u{2009}", "x\ty", "\u{feff}z "] {
        assert_eq!(trim(&chars(s)), chars(s.trim()));
    }
}

#[test]
fn only_an_unreachable_backend_fails_a_dispatch() {
    assert_eq!(conclude(Outcome::ActionSucceeded), Ok(()));
    assert_eq!(conclude(Outcome::ActionFailed), Ok(()));
    assert_eq!(conclude(Outcome::Delivered), Ok(()));
    assert_eq!(conclude(Outcome::Unreachable), Err(DispatchError::BackendUnreachable));
}
