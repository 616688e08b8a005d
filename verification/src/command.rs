//! The command lines that are sent to the window manager's command tool, and
//! the reading of the name listings it prints.

use vstd::prelude::*;
use vstd::string::{StrSliceExecFns, StringExecFns};
use crate::config::Position;
use crate::text::{decimal, decimal_string};

verus! {

/// The texts of a list of arguments.
pub open spec fn texts(args: Seq<String>) -> Seq<Seq<char>> {
    args.map_values(|a: String| a@)
}

/// Asks the window manager to show desktop `desktop_id`.
pub fn focus_desktop(desktop_id: u32) -> (r: Vec<String>)
    ensures
        texts(r@) == seq!["desktop"@, "-f"@, decimal(desktop_id as nat)],
{
    let mut r: Vec<String> = Vec::new();
    r.push(String::from_str("desktop"));
    r.push(String::from_str("-f"));
    r.push(decimal_string(desktop_id as u64));
    assert(texts(r@) =~= seq!["desktop"@, "-f"@, decimal(desktop_id as nat)]);
    r
}

/// Asks the window manager to draw no border around window `window`.
pub fn remove_border(window: u32) -> (r: Vec<String>)
    ensures
        texts(r@) == seq!["config"@, "-n"@, decimal(window as nat), "border_width"@, "0"@],
{
    let mut r: Vec<String> = Vec::new();
    r.push(String::from_str("config"));
    r.push(String::from_str("-n"));
    r.push(decimal_string(window as u64));
    r.push(String::from_str("border_width"));
    r.push(String::from_str("0"));
    assert(texts(r@) =~= seq![
        "config"@,
        "-n"@,
        decimal(window as nat),
        "border_width"@,
        "0"@,
    ]);
    r
}

/// The name of the padding setting for a bar at the edge `position`.
pub open spec fn padding_setting(position: Position) -> Seq<char> {
    match position {
        Position::Top => "top_padding"@,
        Position::Bottom => "bottom_padding"@,
    }
}

/// Asks the window manager to keep `height` pixels free at the edge where the
/// bar sits.
pub fn reserve_space(position: Position, height: u16) -> (r: Vec<String>)
    ensures
        texts(r@) == seq!["config"@, padding_setting(position), decimal(height as nat)],
{
    let mut r: Vec<String> = Vec::new();
    r.push(String::from_str("config"));
    match position {
        Position::Top => r.push(String::from_str("top_padding")),
        Position::Bottom => r.push(String::from_str("bottom_padding")),
    }
    r.push(decimal_string(height as u64));
    assert(texts(r@) =~= seq!["config"@, padding_setting(position), decimal(height as nat)]);
    r
}

/// Asks the window manager for the names of its monitors.
pub fn list_monitors() -> (r: Vec<String>)
    ensures
        texts(r@) == seq!["query"@, "-M"@, "--names"@],
{
    let mut r: Vec<String> = Vec::new();
    r.push(String::from_str("query"));
    r.push(String::from_str("-M"));
    r.push(String::from_str("--names"));
    assert(texts(r@) =~= seq!["query"@, "-M"@, "--names"@]);
    r
}

/// Asks the window manager for the names of the desktops of the monitor
/// called `monitor_name`.
pub fn list_desktops(monitor_name: &str) -> (r: Vec<String>)
    ensures
        texts(r@) == seq!["query"@, "-D"@, "--monitor"@, monitor_name@, "--names"@],
{
    let mut r: Vec<String> = Vec::new();
    r.push(String::from_str("query"));
    r.push(String::from_str("-D"));
    r.push(String::from_str("--monitor"));
    r.push(String::from_str(monitor_name));
    r.push(String::from_str("--names"));
    assert(texts(r@) =~= seq!["query"@, "-D"@, "--monitor"@, monitor_name@, "--names"@]);
    r
}

/// The characters that separate names in a listing: the white space of
/// Unicode.
pub open spec fn is_space(c: char) -> bool {
    let n = c as u32;
    ||| 0x09 <= n <= 0x0d
    ||| n == 0x20
    ||| n == 0x85
    ||| n == 0xa0
    ||| n == 0x1680
    ||| 0x2000 <= n <= 0x200a
    ||| n == 0x2028
    ||| n == 0x2029
    ||| n == 0x202f
    ||| n == 0x205f
    ||| n == 0x3000
}

/// The word that ends before position `i`, having begun at `start`, if it has
/// any character.
pub open spec fn word_ending(s: Seq<char>, start: int, i: int) -> Seq<Seq<char>> {
    if start < i {
        seq![s.subrange(start, i)]
    } else {
        Seq::empty()
    }
}

/// The words of `s` from position `i` on, where a word that began at `start`
/// is under way.
pub open spec fn words_after(s: Seq<char>, start: int, i: int) -> Seq<Seq<char>>
    decreases s.len() - i,
{
    if i >= s.len() {
        word_ending(s, start, s.len() as int)
    } else if is_space(s[i]) {
        word_ending(s, start, i) + words_after(s, i + 1, i + 1)
    } else {
        words_after(s, start, i + 1)
    }
}

/// The words of `s`: its maximal runs of characters that are no white space,
/// in order.
pub open spec fn words(s: Seq<char>) -> Seq<Seq<char>> {
    words_after(s, 0, 0)
}

fn space(c: char) -> (r: bool)
    ensures
        r == is_space(c),
{
    let n: u32 = c as u32;
    (0x09 <= n && n <= 0x0d) || n == 0x20 || n == 0x85 || n == 0xa0 || n == 0x1680 || (0x2000
        <= n && n <= 0x200a) || n == 0x2028 || n == 0x2029 || n == 0x202f || n == 0x205f || n
        == 0x3000
}

/// Reads the names off a listing: they are its words.
pub fn split_names(listing: &str) -> (r: Vec<String>)
    ensures
        texts(r@) == words(listing@),
{
    let n = listing.unicode_len();
    let mut r: Vec<String> = Vec::new();
    let mut start: usize = 0;
    let mut i: usize = 0;
    assert(texts(r@) =~= Seq::<Seq<char>>::empty());
    while i < n
        invariant
            n == listing@.len(),
            start <= i <= n,
            texts(r@) + words_after(listing@, start as int, i as int) == words(listing@),
        decreases n - i,
    {
        let ghost before = texts(r@);
        if space(listing.get_char(i)) {
            if start < i {
                r.push(String::from_str(listing.substring_char(start, i)));
                assert(texts(r@) =~= before + word_ending(listing@, start as int, i as int));
            }
            assert(texts(r@) + words_after(listing@, i + 1, i + 1) =~= before + (word_ending(
                listing@,
                start as int,
                i as int,
            ) + words_after(listing@, i + 1, i + 1)));
            start = i + 1;
        }
        i += 1;
    }
    let ghost before = texts(r@);
    if start < n {
        r.push(String::from_str(listing.substring_char(start, n)));
        assert(texts(r@) =~= before + word_ending(listing@, start as int, n as int));
    }
    assert(texts(r@) =~= before + word_ending(listing@, start as int, n as int));
    r
}

} // verus!
