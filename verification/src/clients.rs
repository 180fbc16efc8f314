//! Finding a window's workspace in the compositor's list of clients.

use crate::bytes::{
    decimal_up_to, has_prefix, parse_decimal, pieces, split, split_once, split_once_spec, starts_with,
};
use vstd::prelude::*;
use vstd::slice::slice_subrange;
use vstd::utf8::encode_utf8;

verus! {

/// What a search of the list comes to.
#[derive(Debug, Clone, Copy, PartialEq, Eq, Structural)]
pub enum Search {
    /// The window is not listed, or no workspace is listed for it.
    Missing,
    /// The workspace of the window.
    Workspace(usize),
    /// A line on the way is cut short, or holds no number where one must stand.
    Malformed,
}

/// The search among `lines`, once the window has been `found` or not. A window is a line that
/// begins with `Window`, and its address stands behind the blank that follows; the first
/// workspace listed behind the one sought is its own.
pub open spec fn search(lines: Seq<Seq<u8>>, win: Seq<u8>, found: bool) -> Search
    decreases lines.len(),
{
    if lines.len() == 0 {
        Search::Missing
    } else {
        let line = lines[0];
        let rest = lines.drop_first();
        if has_prefix(line, encode_utf8("Window"@)) {
            if line.len() < 7 {
                Search::Malformed
            } else {
                search(rest, win, found || has_prefix(line.skip(7), win))
            }
        } else if found && has_prefix(line, encode_utf8("\tworkspace"@)) {
            if line.len() < 12 {
                Search::Malformed
            } else {
                match split_once_spec(line.skip(12), 0x20) {
                    Some((id, _)) => match decimal_up_to(id, usize::MAX as nat) {
                        Some(n) => Search::Workspace(n as usize),
                        None => Search::Malformed,
                    },
                    None => Search::Missing,
                }
            }
        } else {
            search(rest, win, found)
        }
    }
}

/// The search for window `win` in the list `res`.
pub open spec fn search_list(win: Seq<u8>, res: Seq<u8>) -> Search {
    search(pieces(res, 0x0a), win, false)
}

/// Searches the list `res` for window `win`.
pub fn search_clients(win: &[u8], res: &[u8]) -> (found: Search)
    ensures
        found == search_list(win@, res@),
{
    let lines = split(res, 0x0a);
    let ghost texts = lines@.map_values(|piece: &[u8]| piece@);
    let mut window_found = false;
    let mut i: usize = 0;
    assert(texts.skip(0) =~= texts);
    while i < lines.len()
        invariant
            i <= lines.len(),
            texts == lines@.map_values(|piece: &[u8]| piece@),
            search(texts.skip(i as int), win@, window_found) == search_list(win@, res@),
        decreases lines.len() - i,
    {
        let line = lines[i];
        proof {
            assert(texts.skip(i as int)[0] == line@);
            assert(texts.skip(i as int).drop_first() =~= texts.skip(i + 1));
        }
        if starts_with(line, "Window".as_bytes()) {
            if line.len() < 7 {
                return Search::Malformed;
            }
            let address = slice_subrange(line, 7, line.len());
            assert(address@ =~= line@.skip(7));
            if starts_with(address, win) {
                window_found = true;
            }
        } else if window_found && starts_with(line, "\tworkspace".as_bytes()) {
            if line.len() < 12 {
                return Search::Malformed;
            }
            let workspace = slice_subrange(line, 12, line.len());
            assert(workspace@ =~= line@.skip(12));
            return match split_once(workspace, 0x20) {
                Some((id, _)) => match parse_decimal(id, usize::MAX as u64) {
                    Some(n) => Search::Workspace(n as usize),
                    None => Search::Malformed,
                },
                None => Search::Missing,
            };
        }
        i = i + 1;
    }
    assert(texts.skip(lines.len() as int) =~= Seq::<Seq<u8>>::empty());
    Search::Missing
}

/// Finds the workspace of window `win` in a list without malformed lines.
pub fn find_workspace(win: &[u8], res: &[u8]) -> (workspace: Option<usize>)
    requires
        search_list(win@, res@) != Search::Malformed,
    ensures
        workspace == match search_list(win@, res@) {
            Search::Workspace(n) => Some(n),
            _ => None,
        },
{
    match search_clients(win, res) {
        Search::Workspace(n) => Some(n),
        _ => None,
    }
}

/// A workspace is found only for a window that is listed.
pub proof fn law_found_windows_are_listed(lines: Seq<Seq<u8>>, win: Seq<u8>)
    requires
        search(lines, win, false) is Workspace,
    ensures
        exists|i: int|
            0 <= i < lines.len() && has_prefix(#[trigger] lines[i], encode_utf8("Window"@))
                && lines[i].len() >= 7 && has_prefix(lines[i].skip(7), win),
    decreases lines.len(),
{
    if lines.len() > 0 {
        let rest = lines.drop_first();
        let line = lines[0];
        if has_prefix(line, encode_utf8("Window"@)) && line.len() >= 7 && has_prefix(line.skip(7), win) {
        } else {
            law_found_windows_are_listed(rest, win);
            let i = choose|i: int|
                0 <= i < rest.len() && has_prefix(#[trigger] rest[i], encode_utf8("Window"@))
                    && rest[i].len() >= 7 && has_prefix(rest[i].skip(7), win);
            assert(lines[i + 1] == rest[i]);
        }
    }
}

} // verus!
