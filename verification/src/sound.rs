//! The sound bridge: the fallback notification sound.
//!
//! On Windows the host spawns one hidden shell interpreter that walks a
//! fixed, ordered list of system WAV files and plays the first one that
//! exists; the host does not wait for it. On every other platform playing
//! is a no-op. This module states the command line to spawn and the
//! first-existing selection rule; spawning itself is the caller's.

use vstd::prelude::*;

verus! {

/// A command line to spawn: a program and its arguments, in order.
pub struct SpawnCommand {
    pub program: String,
    pub args: Vec<String>,
}

/// The shell script that picks and plays the sound: it walks the candidate
/// paths in order and plays the first that exists, synchronously, in the
/// spawned process.
pub open spec fn sound_script() -> Seq<char> {
    "
            $paths = @('C:\\Windows\\Media\\Windows Notify System Generic.wav', 'C:\\Windows\\Media\\Notify.wav', 'C:\\Windows\\Media\\chimes.wav');
            foreach ($path in $paths) {
                if (Test-Path $path) {
                    (New-Object System.Media.SoundPlayer $path).PlaySync();
                    break;
                }
            }
        "@
}

/// The exact command the host spawns on Windows: a hidden, profile-less
/// shell interpreter running [`sound_script`].
pub open spec fn sound_command_is(c: SpawnCommand) -> bool {
    &&& c.program@ == "powershell"@
    &&& c.args@.len() == 5
    &&& c.args@[0]@ == "-NoProfile"@
    &&& c.args@[1]@ == "-WindowStyle"@
    &&& c.args@[2]@ == "Hidden"@
    &&& c.args@[3]@ == "-Command"@
    &&& c.args@[4]@ == sound_script()
}

/// Builds the command of [`sound_command_is`].
pub fn sound_command() -> (c: SpawnCommand)
    ensures
        sound_command_is(c),
{
    let mut args: Vec<String> = Vec::new();
    args.push("-NoProfile".to_owned());
    args.push("-WindowStyle".to_owned());
    args.push("Hidden".to_owned());
    args.push("-Command".to_owned());
    args.push(
        "
            $paths = @('C:\\Windows\\Media\\Windows Notify System Generic.wav', 'C:\\Windows\\Media\\Notify.wav', 'C:\\Windows\\Media\\chimes.wav');
            foreach ($path in $paths) {
                if (Test-Path $path) {
                    (New-Object System.Media.SoundPlayer $path).PlaySync();
                    break;
                }
            }
        ".to_owned(),
    );
    SpawnCommand { program: "powershell".to_owned(), args }
}

/// What playing the sound takes on this platform: on Windows, spawning the
/// command of [`sound_command_is`], fire-and-forget; elsewhere, nothing.
pub fn play_plan(windows: bool) -> (r: Option<SpawnCommand>)
    ensures
        windows ==> (r matches Some(c) && sound_command_is(c)),
        !windows ==> r is None,
{
    if windows {
        Some(sound_command())
    } else {
        None
    }
}

/// The candidate WAV paths the script searches, in the order it tries them.
pub fn sound_candidates() -> (r: Vec<String>)
    ensures
        r@.len() == 3,
        r@[0]@ == "C:\\Windows\\Media\\Windows Notify System Generic.wav"@,
        r@[1]@ == "C:\\Windows\\Media\\Notify.wav"@,
        r@[2]@ == "C:\\Windows\\Media\\chimes.wav"@,
{
    let mut r: Vec<String> = Vec::new();
    r.push("C:\\Windows\\Media\\Windows Notify System Generic.wav".to_owned());
    r.push("C:\\Windows\\Media\\Notify.wav".to_owned());
    r.push("C:\\Windows\\Media\\chimes.wav".to_owned());
    r
}

/// The selection rule the script follows — first existing wins: given which
/// candidates exist, returns the index of the first that does, or `None`
/// when none does.
pub fn first_existing(present: &Vec<bool>) -> (r: Option<usize>)
    ensures
        match r {
            Some(i) => i < present@.len() && present@[i as int] && forall|j: int|
                0 <= j < i ==> !present@[j],
            None => forall|j: int| 0 <= j < present@.len() ==> !present@[j],
        },
{
    let mut i: usize = 0;
    while i < present.len()
        invariant
            i <= present@.len(),
            forall|j: int| 0 <= j < i ==> !present@[j],
        decreases present@.len() - i,
    {
        if present[i] {
            return Some(i);
        }
        i = i + 1;
    }
    None
}

} // verus!
