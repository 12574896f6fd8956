//! The sentences of the status lines, put together from their parts.

use crate::present::Tone;
use crate::status::ServerStatus;
use vstd::prelude::*;
use vstd::string::StringExecFns;

verus! {

/// `count` full stops in a row.
pub open spec fn dots_of(count: nat) -> Seq<char> {
    Seq::new(count, |i: int| '.')
}

/// What follows the word that names the connectivity: where the server is
/// reached, its address; where it is not, the address that is tried and the
/// dots of the searching indicator.
pub open spec fn connection_text_of(
    connected: ServerStatus,
    address: Seq<char>,
    search_dots: Seq<char>,
) -> Seq<char> {
    match connected {
        ServerStatus::Connected => " to "@ + address + "."@,
        ServerStatus::Disconnected => ". Trying to connect to "@ + address + search_dots,
    }
}

/// The tone of the connectivity: green when connected, yellow otherwise.
pub open spec fn server_tone_of(connected: ServerStatus) -> Tone {
    match connected {
        ServerStatus::Connected => Tone::Green,
        ServerStatus::Disconnected => Tone::Yellow,
    }
}

/// The banner that announces a newer version.
pub open spec fn update_text_of(version: Seq<char>) -> Seq<char> {
    "New update found! Version: "@ + version + ". "@
}

/// The notice below the devices, with the dots of the searching indicator
/// behind its first line.
pub open spec fn searching_text_of(search_dots: Seq<char>) -> Seq<char> {
    "Searching for Joycon controllers"@ + search_dots
        + "\nPlease pair controllers in your system's bluetooth settings if they don't show up here."@
}

/// The dots of the searching indicator for a counter value.
pub fn search_dots_text(count: usize) -> (r: String)
    ensures
        r@ == dots_of(count as nat),
{
    let mut out = String::new();
    let mut i: usize = 0;
    while i < count
        invariant
            i <= count,
            out@ == dots_of(i as nat),
        decreases count - i,
    {
        proof {
            reveal_strlit(".");
            assert(dots_of(i as nat) + "."@ =~= dots_of((i + 1) as nat));
        }
        out.append(".");
        i += 1;
    }
    out
}

/// The rest of the connectivity line.
pub fn connection_text(connected: ServerStatus, address: &str, search_dots: &str) -> (r: String)
    ensures
        r@ == connection_text_of(connected, address@, search_dots@),
{
    match connected {
        ServerStatus::Connected => String::from_str(" to ").concat(address).concat("."),
        ServerStatus::Disconnected => String::from_str(". Trying to connect to ").concat(
            address,
        ).concat(search_dots),
    }
}

/// The tone in which the connectivity is written.
pub fn server_tone(connected: ServerStatus) -> (r: Tone)
    ensures
        r == server_tone_of(connected),
{
    match connected {
        ServerStatus::Connected => Tone::Green,
        ServerStatus::Disconnected => Tone::Yellow,
    }
}

/// The banner that announces a newer version.
pub fn update_text(version: &str) -> (r: String)
    ensures
        r@ == update_text_of(version@),
{
    String::from_str("New update found! Version: ").concat(version).concat(". ")
}

/// The notice below the devices.
pub fn searching_text(search_dots: &str) -> (r: String)
    ensures
        r@ == searching_text_of(search_dots@),
{
    String::from_str("Searching for Joycon controllers").concat(search_dots).concat(
        "\nPlease pair controllers in your system's bluetooth settings if they don't show up here.",
    )
}

} // verus!
