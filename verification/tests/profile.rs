use kime::daemon::{all_children_exited, children_to_signal, parse_pid, process_name, signals_to_forward, DaemonModule};
use kime::profile::{
    profile_for_signal, requested_profile_signal, signal_for_profile, Profile, ProfileArgError,
    ProfileSignal,
};

fn args(list: &[&str]) -> Vec<String> {
    list.iter().map(|s| s.to_string()).collect()
}

#[test]
fn profile_option_with_equals() {
    assert_eq!(requested_profile_signal(&args(&["kime", "--profile=game"])), Ok(Some(ProfileSignal::Usr1)));
    assert_eq!(requested_profile_signal(&args(&["kime", "--profile=normal"])), Ok(Some(ProfileSignal::Usr2)));
}

#[test]
fn profile_option_with_separate_value() {
    assert_eq!(requested_profile_signal(&args(&["kime", "--profile", "game"])), Ok(Some(ProfileSignal::Usr1)));
    assert_eq!(requested_profile_signal(&args(&["kime", "-D", "--profile", "normal"])), Ok(Some(ProfileSignal::Usr2)));
}

#[test]
fn no_profile_option() {
    assert_eq!(requested_profile_signal(&args(&["kime", "-D", "--kill"])), Ok(None));
    assert_eq!(requested_profile_signal(&[]), Ok(None));
}

#[test]
fn profile_option_errors() {
    assert_eq!(requested_profile_signal(&args(&["kime", "--profile"])), Err(ProfileArgError::MissingValue));
    assert_eq!(
        requested_profile_signal(&args(&["kime", "--profile=gaming"])),
        Err(ProfileArgError::UnknownProfile("gaming".to_string()))
    );
    assert_eq!(
        requested_profile_signal(&args(&["kime", "--profile="])),
        Err(ProfileArgError::UnknownProfile(String::new()))
    );
    assert_eq!(
        requested_profile_signal(&args(&["kime", "--profile", "한글"])),
        Err(ProfileArgError::UnknownProfile("한글".to_string()))
    );
}

#[test]
fn first_profile_option_decides() {
    assert_eq!(
        requested_profile_signal(&args(&["--profile=normal", "--profile=game"])),
        Ok(Some(ProfileSignal::Usr2))
    );
    assert_eq!(
        requested_profile_signal(&args(&["--profile", "--profile=game"])),
        Err(ProfileArgError::UnknownProfile("--profile=game".to_string()))
    );
}

#[test]
fn signals_and_profiles_round_trip() {
    assert_eq!(profile_for_signal(ProfileSignal::Usr1), Profile::Game);
    assert_eq!(profile_for_signal(ProfileSignal::Usr2), Profile::Normal);
    for p in [Profile::Normal, Profile::Game] {
        assert_eq!(profile_for_signal(signal_for_profile(p)), p);
    }
}

#[test]
fn process_names() {
    assert_eq!(process_name(DaemonModule::Xim), "kime-xim");
    assert_eq!(process_name(DaemonModule::Wayland), "kime-wayland");
    assert_eq!(process_name(DaemonModule::Indicator), "kime-indicator");
}

#[test]
fn pid_file_parsing() {
    assert_eq!(parse_pid("1234\n"), Some(1234));
    assert_eq!(parse_pid("  -7 \t"), Some(-7));
    assert_eq!(parse_pid("+42"), Some(42));
    assert_eq!(parse_pid("2147483647"), Some(i32::MAX));
    assert_eq!(parse_pid("2147483648"), None);
    assert_eq!(parse_pid(""), None);
    assert_eq!(parse_pid("12 34"), None);
    assert_eq!(parse_pid("pid"), None);
    assert_eq!(parse_pid("-"), None);
    assert_eq!(parse_pid("\u{3000}12\u{00a0}\u{2028}"), Some(12));
    assert_eq!(parse_pid("\u{85}\u{1680}5\u{205f}"), Some(5));
    assert_eq!(parse_pid("\u{200b}12"), None);
}

#[test]
fn forwarded_signals_keep_game_first() {
    assert_eq!(signals_to_forward(true, true), vec![ProfileSignal::Usr1, ProfileSignal::Usr2]);
    assert_eq!(signals_to_forward(false, true), vec![ProfileSignal::Usr2]);
    assert_eq!(signals_to_forward(true, false), vec![ProfileSignal::Usr1]);
    assert!(signals_to_forward(false, false).is_empty());
}

#[test]
fn exited_children_get_no_signal() {
    assert_eq!(children_to_signal(&[false, true, false, true]), vec![0, 2]);
    assert!(children_to_signal(&[true, true]).is_empty());
    assert!(children_to_signal(&[]).is_empty());
}

#[test]
fn daemon_stops_once_every_child_exited() {
    assert!(all_children_exited(&[true, true]));
    assert!(all_children_exited(&[]));
    assert!(!all_children_exited(&[true, false, true]));
}

#[test]
fn profile_error_messages() {
    assert_eq!(ProfileArgError::MissingValue.message(), "--profile requires normal or game");
    assert_eq!(
        ProfileArgError::UnknownProfile("gaming".to_string()).message(),
        "unknown profile \"gaming\"; use normal or game"
    );
    assert_eq!(
        ProfileArgError::UnknownProfile("a\"b".to_string()).message(),
        "unknown profile \"a\\\"b\"; use normal or game"
    );
}
