//! Decisions of the kime daemon: which frontends it runs, how it reads the
//! pid file of a running daemon, and how it hands profile switches on to the
//! frontends it started.
use vstd::prelude::*;

use crate::profile::ProfileSignal;

verus! {

/// A frontend that the daemon starts.
#[derive(Clone, Copy, Debug, PartialEq, Eq, Structural)]
pub enum DaemonModule {
    Xim,
    Wayland,
    Indicator,
}

/// The executable of each frontend.
pub open spec fn spec_process_name(module: DaemonModule) -> Seq<char> {
    match module {
        DaemonModule::Xim => "kime-xim"@,
        DaemonModule::Wayland => "kime-wayland"@,
        DaemonModule::Indicator => "kime-indicator"@,
    }
}

/// The name of the executable that runs a frontend.
pub fn process_name(module: DaemonModule) -> (name: &'static str)
    ensures
        name@ == spec_process_name(module),
{
    match module {
        DaemonModule::Xim => "kime-xim",
        DaemonModule::Wayland => "kime-wayland",
        DaemonModule::Indicator => "kime-indicator",
    }
}

/// Whether `c` is one of the ASCII digits `0` to `9`.
pub open spec fn is_ascii_digit(c: char) -> bool {
    '0' as int <= c as int <= '9' as int
}

/// The number that a string of decimal digits writes.
pub open spec fn digits_value(s: Seq<char>) -> int
    decreases s.len(),
{
    if s.len() == 0 {
        0
    } else {
        digits_value(s.drop_last()) * 10 + (s.last() as int - '0' as int)
    }
}

/// What `str::parse::<i32>` gives: an optional `+` or `-` sign followed by
/// one or more ASCII digits, whose value fits in an `i32`; `None` for
/// anything else (other characters, whitespace included, an empty string, a
/// lone sign, an overflow).
pub open spec fn spec_parse_i32(s: Seq<char>) -> Option<i32> {
    let signed = s.len() > 0 && (s[0] == '-' || s[0] == '+');
    let negative = s.len() > 0 && s[0] == '-';
    let digits = if signed { s.skip(1) } else { s };
    if digits.len() == 0 || !(forall|i: int| 0 <= i < digits.len() ==> is_ascii_digit(#[trigger] digits[i])) {
        None
    } else {
        let value = if negative { -digits_value(digits) } else { digits_value(digits) };
        if i32::MIN <= value <= i32::MAX {
            Some(value as i32)
        } else {
            None
        }
    }
}

/// Whether `c` has the Unicode White_Space property, which is what
/// `char::is_whitespace` tests: U+0009 to U+000D, U+0020, U+0085, U+00A0,
/// U+1680, U+2000 to U+200A, U+2028, U+2029, U+202F, U+205F and U+3000.
pub open spec fn is_white_space(c: char) -> bool {
    let u = c as int;
    ||| 0x09 <= u <= 0x0d
    ||| u == 0x20
    ||| u == 0x85
    ||| u == 0xa0
    ||| u == 0x1680
    ||| 0x2000 <= u <= 0x200a
    ||| u == 0x2028
    ||| u == 0x2029
    ||| u == 0x202f
    ||| u == 0x205f
    ||| u == 0x3000
}

/// The string without its leading whitespace.
pub open spec fn trim_start(s: Seq<char>) -> Seq<char>
    decreases s.len(),
{
    if s.len() > 0 && is_white_space(s[0]) {
        trim_start(s.drop_first())
    } else {
        s
    }
}

/// The string without its trailing whitespace.
pub open spec fn trim_end(s: Seq<char>) -> Seq<char>
    decreases s.len(),
{
    if s.len() > 0 && is_white_space(s.last()) {
        trim_end(s.drop_last())
    } else {
        s
    }
}

/// The string with leading and trailing whitespace removed.
pub open spec fn trimmed(s: Seq<char>) -> Seq<char> {
    trim_end(trim_start(s))
}

/// `str::trim` of std: the slice with leading and trailing characters of the
/// Unicode White_Space property removed.
#[verifier::external_body]
fn trim_whitespace(s: &str) -> (t: &str)
    ensures
        t@ == trimmed(s@),
{
    s.trim()
}

/// `str::parse::<i32>` of std, as its documentation states it: an optional
/// sign followed by decimal digits, within the range of `i32`.
#[verifier::external_body]
fn parse_i32(s: &str) -> (n: Option<i32>)
    ensures
        n == spec_parse_i32(s@),
{
    s.parse::<i32>().ok()
}

/// Reads the process id in the text of a pid file: the decimal number that
/// the text holds between leading and trailing whitespace; `None` where it
/// holds anything else.
pub fn parse_pid(text: &str) -> (pid: Option<i32>)
    ensures
        pid == spec_parse_i32(trimmed(text@)),
{
    parse_i32(trim_whitespace(text))
}

/// The signals to forward to the frontends after one wait of the daemon:
/// the game-profile signal first if it arrived, then the normal-profile
/// signal if it arrived.
pub open spec fn spec_signals_to_forward(game_requested: bool, normal_requested: bool) -> Seq<ProfileSignal> {
    (if game_requested { seq![ProfileSignal::Usr1] } else { Seq::empty() }) + (if normal_requested {
        seq![ProfileSignal::Usr2]
    } else {
        Seq::empty()
    })
}

/// Lists the profile signals to forward to the frontends.
pub fn signals_to_forward(game_requested: bool, normal_requested: bool) -> (signals: Vec<ProfileSignal>)
    ensures
        signals@ == spec_signals_to_forward(game_requested, normal_requested),
        // Each arrived signal is forwarded once, the game one first.
        game_requested && normal_requested ==> signals@ == seq![ProfileSignal::Usr1, ProfileSignal::Usr2],
        game_requested && !normal_requested ==> signals@ == seq![ProfileSignal::Usr1],
        !game_requested && normal_requested ==> signals@ == seq![ProfileSignal::Usr2],
        !game_requested && !normal_requested ==> signals@.len() == 0,
{
    let mut signals: Vec<ProfileSignal> = Vec::new();
    if game_requested {
        signals.push(ProfileSignal::Usr1);
    }
    if normal_requested {
        signals.push(ProfileSignal::Usr2);
    }
    proof {
        assert(signals@ =~= spec_signals_to_forward(game_requested, normal_requested));
    }
    signals
}

/// Whether the daemon stops: every frontend it started has exited (which
/// holds too where it started none).
pub fn all_children_exited(exited: &[bool]) -> (stop: bool)
    ensures
        stop == (forall|i: int| 0 <= i < exited@.len() ==> #[trigger] exited@[i]),
{
    let mut i: usize = 0;
    while i < exited.len()
        invariant
            0 <= i <= exited@.len(),
            forall|j: int| 0 <= j < i ==> #[trigger] exited@[j],
        decreases exited@.len() - i,
    {
        if !exited[i] {
            return false;
        }
        i = i + 1;
    }
    true
}

/// The frontends that receive a forwarded signal: the positions, in
/// increasing order, of the children that have not exited.
pub fn children_to_signal(exited: &[bool]) -> (live: Vec<usize>)
    ensures
        forall|k: int| 0 <= k < live@.len() ==> #[trigger] live@[k] < exited@.len() && !exited@[live@[k] as int],
        forall|k: int, l: int| 0 <= k < l < live@.len() ==> #[trigger] live@[k] < #[trigger] live@[l],
        forall|i: int|
            0 <= i < exited@.len() && !#[trigger] exited@[i] ==> exists|k: int|
                0 <= k < live@.len() && #[trigger] live@[k] == i,
{
    let mut live: Vec<usize> = Vec::new();
    let mut i: usize = 0;
    while i < exited.len()
        invariant
            0 <= i <= exited@.len(),
            forall|k: int| 0 <= k < live@.len() ==> #[trigger] live@[k] < i && !exited@[live@[k] as int],
            forall|k: int, l: int| 0 <= k < l < live@.len() ==> #[trigger] live@[k] < #[trigger] live@[l],
            forall|j: int|
                0 <= j < i && !#[trigger] exited@[j] ==> exists|k: int| 0 <= k < live@.len() && #[trigger] live@[k] == j,
        decreases exited@.len() - i,
    {
        if !exited[i] {
            let ghost old_live = live@;
            live.push(i);
            proof {
                assert forall|j: int|
                    0 <= j < i + 1 && !#[trigger] exited@[j] implies exists|k: int|
                        0 <= k < live@.len() && #[trigger] live@[k] == j by {
                    if j < i {
                        let k = choose|k: int| 0 <= k < old_live.len() && #[trigger] old_live[k] == j;
                        assert(live@[k] == j);
                    } else {
                        assert(live@[live@.len() - 1] == j);
                    }
                }
            }
        }
        i = i + 1;
    }
    live
}

} // verus!
