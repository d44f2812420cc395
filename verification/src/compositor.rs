//! Decisions of the compositor's client handling: reading a client's
//! environment, telling managed clients from external ones, choosing the
//! Wayland display number, and the pointer button codes.

use vstd::prelude::*;
use crate::text::{
    chars_eq, chars_eq_str, chars_of, decimal, decimal_string, push_char, split, split_chars,
    split_once, split_once_chars, string_of,
};

verus! {

/// What a client process's environment says about the display it was
/// started for.
pub struct ProcessWayVREnv {
    pub display_auth: Option<String>,
    pub display_name: Option<String>,
}

/// The environment variables read from one `NAME=value` entry, later
/// entries replacing earlier ones: `(display auth, display name)`.
pub open spec fn env_entries(entries: Seq<Seq<char>>) -> (Option<Seq<char>>, Option<Seq<char>>)
    decreases entries.len(),
{
    if entries.len() == 0 {
        (None, None)
    } else {
        let (auth, name) = env_entries(entries.drop_last());
        match split_once(entries.last(), '=') {
            Some((key, value)) => if key == "WAYVR_DISPLAY_AUTH"@ {
                (Some(value), name)
            } else if key == "WAYVR_DISPLAY_NAME"@ {
                (auth, Some(value))
            } else {
                (auth, name)
            },
            None => (auth, name),
        }
    }
}

/// What a `/proc/<pid>/environ` text (entries separated by NUL) says;
/// empty entries hold no `=` and change nothing.
pub open spec fn wayvr_env(data: Seq<char>) -> (Option<Seq<char>>, Option<Seq<char>>) {
    env_entries(split(data, '\0'))
}

pub open spec fn opt_view(o: Option<String>) -> Option<Seq<char>> {
    match o {
        Some(s) => Some(s@),
        None => None,
    }
}

/// Reads the display auth key and display name out of a process
/// environment.
pub fn parse_wayvr_env(env_data: &str) -> (env: ProcessWayVREnv)
    ensures
        (opt_view(env.display_auth), opt_view(env.display_name)) == wayvr_env(env_data@),
{
    let data = chars_of(env_data);
    let entries = split_chars(data.as_slice(), '\0');
    let ghost all = split(data@, '\0');
    let mut env = ProcessWayVREnv { display_auth: None, display_name: None };
    let mut i: usize = 0;
    while i < entries.len()
        invariant
            entries@.len() == all.len(),
            forall|k: int| 0 <= k < entries@.len() ==> #[trigger] entries@[k]@ == all[k],
            i <= entries@.len(),
            (opt_view(env.display_auth), opt_view(env.display_name)) == env_entries(
                all.take(i as int),
            ),
        decreases entries.len() - i,
    {
        proof {
            assert(all.take(i + 1).drop_last() =~= all.take(i as int));
            assert(all.take(i + 1).last() == all[i as int]);
        }
        match split_once_chars(entries[i].as_slice(), '=') {
            Some((key, value)) => {
                if chars_eq_str(key.as_slice(), "WAYVR_DISPLAY_AUTH") {
                    env.display_auth = Some(string_of(value.as_slice()));
                } else if chars_eq_str(key.as_slice(), "WAYVR_DISPLAY_NAME") {
                    env.display_name = Some(string_of(value.as_slice()));
                }
            },
            None => {},
        }
        i = i + 1;
    }
    assert(all.take(all.len() as int) =~= all);
    env
}

/// Where a connecting client belongs.
#[derive(Clone, Copy, Debug, PartialEq, Eq, Structural)]
pub enum ClientOrigin {
    /// Started by us: the process at this position of the list.
    Managed(usize),
    /// Started by the user or another program.
    External,
}

/// `i` is the first managed process whose auth key is `auth`.
pub open spec fn is_first_auth_match(keys: Seq<Option<String>>, auth: Seq<char>, i: int) -> bool {
    &&& 0 <= i < keys.len()
    &&& opt_view(keys[i]) == Some(auth)
    &&& forall|j: int| 0 <= j < i ==> opt_view(keys[j]) != Some(auth)
}

/// Tells a connecting client apart: it belongs to the first managed process
/// (an entry of `auth_keys` that is `Some`) whose auth key is the one in the
/// client's environment; without such a process, or without a key in the
/// environment, it is external.
pub fn client_origin(auth_keys: &Vec<Option<String>>, display_auth: &Option<String>) -> (r: ClientOrigin)
    ensures
        match r {
            ClientOrigin::Managed(i) => display_auth matches Some(a) && is_first_auth_match(
                auth_keys@,
                a@,
                i as int,
            ),
            ClientOrigin::External => match display_auth {
                Some(a) => forall|j: int|
                    0 <= j < auth_keys@.len() ==> opt_view(#[trigger] auth_keys@[j]) != Some(a@),
                None => true,
            },
        },
{
    let auth = match display_auth {
        Some(a) => chars_of(a.as_str()),
        None => {
            return ClientOrigin::External;
        },
    };
    let mut i: usize = 0;
    while i < auth_keys.len()
        invariant
            display_auth matches Some(a) && auth@ == a@,
            i <= auth_keys@.len(),
            forall|j: int| 0 <= j < i ==> opt_view(#[trigger] auth_keys@[j]) != Some(auth@),
        decreases auth_keys.len() - i,
    {
        match &auth_keys[i] {
            Some(key) => {
                let k = chars_of(key.as_str());
                if chars_eq(k.as_slice(), auth.as_slice()) {
                    return ClientOrigin::Managed(i);
                }
            },
            None => {},
        }
        i = i + 1;
    }
    ClientOrigin::External
}

/// The first Wayland display number tried.
pub const STARTING_WAYLAND_ADDR_IDX: u32 = 20;

/// The display number to try after `current` failed, or `None` once twenty
/// more have been tried.
pub fn next_display_num(current: u32) -> (r: Option<u32>)
    requires
        current < u32::MAX,
    ensures
        r == (if current + 1 > STARTING_WAYLAND_ADDR_IDX + 20 {
            None
        } else {
            Some((current + 1) as u32)
        }),
{
    let next = current + 1;
    if next > STARTING_WAYLAND_ADDR_IDX + 20 {
        None
    } else {
        Some(next)
    }
}

/// What the display-number file holds: the number and a newline.
pub fn display_number_file_contents(display_num: u32) -> (r: String)
    ensures
        r@ == decimal(display_num as nat).push('\n'),
{
    let mut r = decimal_string(display_num as u64);
    push_char(&mut r, '\n');
    r
}

/// A pointer button.
#[derive(Clone, Copy, Debug, PartialEq, Eq, Structural)]
pub enum MouseIndex {
    Left,
    Center,
    Right,
}

/// The Linux input event code of a pointer button (`BTN_LEFT`,
/// `BTN_MIDDLE`, `BTN_RIGHT`).
pub fn pointer_button_code(index: MouseIndex) -> (code: u32)
    ensures
        code == match index {
            MouseIndex::Left => 0x110u32,
            MouseIndex::Center => 0x112u32,
            MouseIndex::Right => 0x111u32,
        },
{
    match index {
        MouseIndex::Left => 0x110,
        MouseIndex::Center => 0x112,
        MouseIndex::Right => 0x111,
    }
}

} // verus!
