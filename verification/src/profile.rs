//! Runtime hotkey profiles and the signals that switch them.
//!
//! `kime --profile game` sends SIGUSR1 to the daemon, `kime --profile normal`
//! sends SIGUSR2; the daemon forwards the signal to its frontends, and the XIM
//! frontend switches to the game profile on SIGUSR1 and back to the normal
//! profile on SIGUSR2.
use vstd::prelude::*;
use vstd::string::{StrSliceExecFns, StringExecFns};

use crate::text::{str_equal, str_starts_with};

verus! {

/// Which hotkey tables are in force.
#[derive(Clone, Copy, Debug, PartialEq, Eq, Structural)]
pub enum Profile {
    /// The everyday hotkeys.
    Normal,
    /// The hotkeys used while a game runs.
    Game,
}

/// The signals that switch the profile.
#[derive(Clone, Copy, Debug, PartialEq, Eq, Structural)]
pub enum ProfileSignal {
    /// SIGUSR1: switch to the game profile.
    Usr1,
    /// SIGUSR2: switch to the normal profile.
    Usr2,
}

/// The profile that a signal selects.
pub open spec fn spec_profile_for_signal(signal: ProfileSignal) -> Profile {
    match signal {
        ProfileSignal::Usr1 => Profile::Game,
        ProfileSignal::Usr2 => Profile::Normal,
    }
}

/// The signal that selects a profile.
pub open spec fn spec_signal_for_profile(profile: Profile) -> ProfileSignal {
    match profile {
        Profile::Game => ProfileSignal::Usr1,
        Profile::Normal => ProfileSignal::Usr2,
    }
}

/// The profile that the XIM frontend switches to on a signal.
pub fn profile_for_signal(signal: ProfileSignal) -> (profile: Profile)
    ensures
        profile == spec_profile_for_signal(signal),
        signal == ProfileSignal::Usr1 ==> profile == Profile::Game,
        signal == ProfileSignal::Usr2 ==> profile == Profile::Normal,
{
    match signal {
        ProfileSignal::Usr1 => Profile::Game,
        ProfileSignal::Usr2 => Profile::Normal,
    }
}

/// The signal to send for a profile.
pub fn signal_for_profile(profile: Profile) -> (signal: ProfileSignal)
    ensures
        signal == spec_signal_for_profile(profile),
        profile == Profile::Game ==> signal == ProfileSignal::Usr1,
        profile == Profile::Normal ==> signal == ProfileSignal::Usr2,
{
    match profile {
        Profile::Game => ProfileSignal::Usr1,
        Profile::Normal => ProfileSignal::Usr2,
    }
}

/// Sending the signal of a profile selects that profile, and each signal is
/// the signal of the profile it selects.
pub proof fn lemma_profile_signal_round_trip(profile: Profile, signal: ProfileSignal)
    ensures
        spec_profile_for_signal(spec_signal_for_profile(profile)) == profile,
        spec_signal_for_profile(spec_profile_for_signal(signal)) == signal,
{
}

/// What is wrong with a `--profile` option.
#[derive(Debug, PartialEq, Eq)]
pub enum ProfileArgError {
    /// `--profile` is the last argument.
    MissingValue,
    /// The profile named is neither `normal` nor `game`.
    UnknownProfile(String),
}

/// The text that `{:?}` formatting gives for a string: the string in double
/// quotes, with the characters that need it escaped.
pub uninterp spec fn debug_quoted(s: Seq<char>) -> Seq<char>;

/// `<str as Debug>::fmt` of std, through `format!("{:?}", ..)`.
#[verifier::external_body]
fn debug_format(s: &str) -> (quoted: String)
    ensures
        quoted@ == debug_quoted(s@),
{
    format!("{:?}", s)
}

/// The message that reports a wrong `--profile` option.
pub open spec fn spec_profile_arg_message(missing: bool, name: Seq<char>) -> Seq<char> {
    if missing {
        "--profile requires normal or game"@
    } else {
        "unknown profile "@ + debug_quoted(name) + "; use normal or game"@
    }
}

impl ProfileArgError {
    /// The message to report for this error.
    pub fn message(&self) -> (text: String)
        ensures
            text@ == (match self {
                ProfileArgError::MissingValue => spec_profile_arg_message(true, Seq::empty()),
                ProfileArgError::UnknownProfile(name) => spec_profile_arg_message(false, name@),
            }),
    {
        match self {
            ProfileArgError::MissingValue => String::from_str("--profile requires normal or game"),
            ProfileArgError::UnknownProfile(name) => {
                let mut text = String::from_str("unknown profile ");
                let quoted = debug_format(name.as_str());
                text.append(quoted.as_str());
                text.append("; use normal or game");
                text
            },
        }
    }
}

/// The signal that a profile name asks for, if the name is known.
pub open spec fn spec_signal_for_name(name: Seq<char>) -> Option<ProfileSignal> {
    if name == "normal"@ {
        Some(ProfileSignal::Usr2)
    } else if name == "game"@ {
        Some(ProfileSignal::Usr1)
    } else {
        None
    }
}

/// The outcome of a profile name: its signal, or the unknown name.
pub open spec fn spec_decide_name(name: Seq<char>) -> Result<Option<ProfileSignal>, Option<Seq<char>>> {
    match spec_signal_for_name(name) {
        Some(signal) => Ok(Some(signal)),
        None => Err(Some(name)),
    }
}

/// What the command-line arguments `args`, from position `start` on, ask
/// for: the first argument that is `--profile=NAME`, or `--profile` followed
/// by `NAME`, decides; `Ok(None)` where none does; `Err(None)` where
/// `--profile` has no argument after it; `Err(Some(name))` for an unknown
/// name.
pub open spec fn spec_requested_profile_signal(args: Seq<Seq<char>>, start: int) -> Result<
    Option<ProfileSignal>,
    Option<Seq<char>>,
>
    decreases args.len() - start,
{
    if start < 0 || start >= args.len() {
        Ok(None)
    } else {
        let arg = args[start];
        let prefix = "--profile="@;
        if prefix.len() <= arg.len() && arg.subrange(0, prefix.len() as int) == prefix {
            spec_decide_name(arg.subrange(prefix.len() as int, arg.len() as int))
        } else if arg == "--profile"@ {
            if start + 1 < args.len() {
                spec_decide_name(args[start + 1])
            } else {
                Err(None)
            }
        } else {
            spec_requested_profile_signal(args, start + 1)
        }
    }
}

/// The outcome of `requested_profile_signal` as plain values.
pub open spec fn profile_request_view(res: Result<Option<ProfileSignal>, ProfileArgError>) -> Result<
    Option<ProfileSignal>,
    Option<Seq<char>>,
> {
    match res {
        Ok(signal) => Ok(signal),
        Err(ProfileArgError::MissingValue) => Err(None),
        Err(ProfileArgError::UnknownProfile(name)) => Err(Some(name@)),
    }
}

/// The arguments as character sequences.
pub open spec fn args_view(args: Seq<String>) -> Seq<Seq<char>> {
    args.map_values(|a: String| a@)
}

fn decide_name(name: &str) -> (res: Result<Option<ProfileSignal>, ProfileArgError>)
    ensures
        profile_request_view(res) == spec_decide_name(name@),
{
    if str_equal(name, "normal") {
        Ok(Some(ProfileSignal::Usr2))
    } else if str_equal(name, "game") {
        Ok(Some(ProfileSignal::Usr1))
    } else {
        Err(ProfileArgError::UnknownProfile(name.to_owned()))
    }
}

/// Reads the runtime profile that the command line asks to switch to.
pub fn requested_profile_signal(args: &[String]) -> (res: Result<Option<ProfileSignal>, ProfileArgError>)
    ensures
        profile_request_view(res) == spec_requested_profile_signal(args_view(args@), 0),
{
    let ghost view = args_view(args@);
    let mut index: usize = 0;
    while index < args.len()
        invariant
            view == args_view(args@),
            view.len() == args@.len(),
            0 <= index <= args@.len(),
            spec_requested_profile_signal(view, 0) == spec_requested_profile_signal(view, index as int),
        decreases args@.len() - index,
    {
        let arg = args[index].as_str();
        assert(arg@ == view[index as int]);
        let prefix = "--profile=";
        if str_starts_with(arg, prefix) {
            let value = arg.substring_char(prefix.unicode_len(), arg.unicode_len());
            return decide_name(value);
        } else if str_equal(arg, "--profile") {
            if index + 1 < args.len() {
                let value = args[index + 1].as_str();
                assert(value@ == view[index + 1]);
                return decide_name(value);
            } else {
                return Err(ProfileArgError::MissingValue);
            }
        }
        index = index + 1;
    }
    Ok(None)
}

/// `--profile=game` and `--profile game` switch the frontends to the game
/// profile; `--profile=normal` and `--profile normal` to the normal one.
pub proof fn lemma_named_profile_is_selected(name: Seq<char>, profile: Profile)
    requires
        (profile == Profile::Game && name == "game"@) || (profile == Profile::Normal && name == "normal"@),
    ensures
        spec_decide_name(name) matches Ok(Some(signal)) && spec_profile_for_signal(signal) == profile,
{
    reveal_strlit("game");
    reveal_strlit("normal");
    assert("game"@[0] != "normal"@[0]);
    assert("game"@ != "normal"@);
}

} // verus!

verus! {

/// Whether `arg` is an option `--profile=NAME`, for some `NAME`.
pub open spec fn is_profile_assignment(arg: Seq<char>) -> bool {
    "--profile="@.len() <= arg.len() && arg.subrange(0, "--profile="@.len() as int) == "--profile="@
}

/// Arguments before the first profile option are passed over: if none of
/// them is `--profile` or `--profile=NAME`, the request is that of the rest.
pub proof fn lemma_other_arguments_are_passed_over(args: Seq<Seq<char>>, start: int, skip: int)
    requires
        0 <= start <= skip <= args.len(),
        forall|i: int|
            start <= i < skip ==> !is_profile_assignment(#[trigger] args[i]) && args[i] != "--profile"@,
    ensures
        spec_requested_profile_signal(args, start) == spec_requested_profile_signal(args, skip),
    decreases skip - start,
{
    if start < skip {
        lemma_other_arguments_are_passed_over(args, start + 1, skip);
    }
}

/// Without any profile option, no profile is asked for.
pub proof fn lemma_no_profile_option_no_request(args: Seq<Seq<char>>)
    requires
        forall|i: int|
            0 <= i < args.len() ==> !is_profile_assignment(#[trigger] args[i]) && args[i] != "--profile"@,
    ensures
        spec_requested_profile_signal(args, 0) == Ok::<Option<ProfileSignal>, Option<Seq<char>>>(None),
{
    lemma_other_arguments_are_passed_over(args, 0, args.len() as int);
}

/// The first profile option decides: `--profile=game` and `--profile game`
/// ask for the game-profile signal (SIGUSR1), `--profile=normal` and
/// `--profile normal` for the normal-profile signal (SIGUSR2), whatever
/// arguments follow; `--profile` as the last argument lacks its value.
pub proof fn lemma_first_profile_option_decides(args: Seq<Seq<char>>, at: int)
    requires
        0 <= at < args.len(),
        forall|i: int|
            0 <= i < at ==> !is_profile_assignment(#[trigger] args[i]) && args[i] != "--profile"@,
    ensures
        args[at] == "--profile=game"@ ==> spec_requested_profile_signal(args, 0) == Ok::<
            Option<ProfileSignal>,
            Option<Seq<char>>,
        >(Some(ProfileSignal::Usr1)),
        args[at] == "--profile=normal"@ ==> spec_requested_profile_signal(args, 0) == Ok::<
            Option<ProfileSignal>,
            Option<Seq<char>>,
        >(Some(ProfileSignal::Usr2)),
        args[at] == "--profile"@ && at + 1 < args.len() && args[at + 1] == "game"@
            ==> spec_requested_profile_signal(args, 0) == Ok::<Option<ProfileSignal>, Option<Seq<char>>>(
            Some(ProfileSignal::Usr1),
        ),
        args[at] == "--profile"@ && at + 1 < args.len() && args[at + 1] == "normal"@
            ==> spec_requested_profile_signal(args, 0) == Ok::<Option<ProfileSignal>, Option<Seq<char>>>(
            Some(ProfileSignal::Usr2),
        ),
        args[at] == "--profile"@ && at + 1 == args.len() ==> spec_requested_profile_signal(args, 0) == Err::<
            Option<ProfileSignal>,
            Option<Seq<char>>,
        >(None),
{
    lemma_other_arguments_are_passed_over(args, 0, at);
    reveal_strlit("--profile=");
    reveal_strlit("--profile=game");
    reveal_strlit("--profile=normal");
    reveal_strlit("--profile");
    reveal_strlit("game");
    reveal_strlit("normal");
    assert("game"@[0] != "normal"@[0]);
    if args[at] == "--profile=game"@ {
        assert(args[at].subrange(0, 10) =~= "--profile="@);
        assert(args[at].subrange(10, args[at].len() as int) =~= "game"@);
    }
    if args[at] == "--profile=normal"@ {
        assert(args[at].subrange(0, 10) =~= "--profile="@);
        assert(args[at].subrange(10, args[at].len() as int) =~= "normal"@);
    }
    if args[at] == "--profile"@ {
        assert(args[at].len() < "--profile="@.len());
    }
}

} // verus!
