//! What holds of the list of clients.

use crate::bytes::{decimal, has_prefix};
use crate::clients::{search, Search};
use crate::events::{means, AppEvent};
use crate::hyprland::{search_for, ReqTokenView};
use vstd::prelude::*;
use vstd::utf8::encode_utf8;

verus! {

/// Whether a line is that of a window.
pub open spec fn of_window(line: Seq<u8>) -> bool {
    has_prefix(line, encode_utf8("Window"@))
}

/// Whether a line is that of the window `win`.
pub open spec fn of_the_window(line: Seq<u8>, win: Seq<u8>) -> bool {
    of_window(line) && line.len() >= 7 && has_prefix(line.skip(7), win)
}

/// Whether a line names a workspace.
pub open spec fn of_workspace(line: Seq<u8>) -> bool {
    has_prefix(line, encode_utf8("\tworkspace"@))
}

proof fn lemma_literals()
    ensures
        encode_utf8("Window"@).len() == 6,
        encode_utf8("Window"@)[0] == 0x57,
        encode_utf8("\tworkspace"@).len() == 10,
        encode_utf8("\tworkspace"@)[0] == 0x09,
{
    reveal_strlit("Window");
    reveal_strlit("\tworkspace");
    vstd::utf8::is_ascii_chars_encode_utf8("Window"@);
    vstd::utf8::is_ascii_chars_encode_utf8("\tworkspace"@);
}

/// Lines that are neither the window's, nor cut short, nor a workspace once the window was found,
/// are passed over.
proof fn lemma_pass_over(head: Seq<Seq<u8>>, tail: Seq<Seq<u8>>, win: Seq<u8>, found: bool)
    requires
        forall|i: int|
            0 <= i < head.len() ==> (of_window(#[trigger] head[i]) ==> head[i].len() >= 7) && (found || !of_the_window(
                head[i],
                win,
            )) && (found ==> !of_workspace(head[i])),
    ensures
        search(head + tail, win, found) == search(tail, win, found),
    decreases head.len(),
{
    if head.len() == 0 {
        assert(head + tail =~= tail);
    } else {
        let rest = head.drop_first();
        assert((head + tail).drop_first() =~= rest + tail);
        assert((head + tail)[0] == head[0]);
        assert forall|i: int| 0 <= i < rest.len() implies (of_window(#[trigger] rest[i]) ==> rest[i].len()
            >= 7) && (found || !of_the_window(rest[i], win)) && (found ==> !of_workspace(rest[i])) by {
            assert(rest[i] == head[i + 1]);
        }
        lemma_pass_over(rest, tail, win, found);
    }
}

/// The workspace of a window is the number on the first workspace line behind the window's own,
/// from the thirteenth byte up to a blank; whatever stands before the window or behind that line
/// does not matter.
pub proof fn law_workspace_of_a_window(
    before: Seq<Seq<u8>>,
    window: Seq<u8>,
    between: Seq<Seq<u8>>,
    filler: Seq<u8>,
    id: Seq<u8>,
    note: Seq<u8>,
    behind: Seq<Seq<u8>>,
    win: Seq<u8>,
)
    requires
        forall|i: int|
            0 <= i < before.len() ==> (of_window(#[trigger] before[i]) ==> before[i].len() >= 7)
                && !of_the_window(before[i], win),
        of_the_window(window, win),
        forall|i: int|
            0 <= i < between.len() ==> (of_window(#[trigger] between[i]) ==> between[i].len() >= 7)
                && !of_workspace(between[i]),
        filler.len() == 2,
        !id.contains(0x20),
    ensures
        ({
            let line = encode_utf8("\tworkspace"@) + filler + id + seq![0x20u8] + note;
            search(before + (seq![window] + (between + (seq![line] + behind))), win, false)
                == match decimal(id) {
                Some(n) => if n <= usize::MAX {
                    Search::Workspace(n as usize)
                } else {
                    Search::Malformed
                },
                None => Search::Malformed,
            }
        }),
{
    lemma_literals();
    let line = encode_utf8("\tworkspace"@) + filler + id + seq![0x20u8] + note;
    let last = seq![line] + behind;
    let from_between = between + last;
    let from_window = seq![window] + from_between;
    lemma_pass_over(before, from_window, win, false);
    assert(from_window.drop_first() =~= from_between);
    assert(search(from_window, win, false) == search(from_between, win, true));
    lemma_pass_over(between, last, win, true);
    assert(line.take(10) =~= encode_utf8("\tworkspace"@));
    assert(line[0] == 0x09);
    assert(line.take(6)[0] == line[0]);
    assert(!of_window(line));
    assert(line.skip(12) =~= id + seq![0x20u8] + note);
    crate::laws::bytes::law_whole_comes_apart(id, note, 0x20);
    assert(last[0] == line);
}

/// A window that is not listed has no workspace, whatever workspaces are listed.
pub proof fn law_unlisted_window_is_missing(lines: Seq<Seq<u8>>, win: Seq<u8>)
    requires
        forall|i: int|
            0 <= i < lines.len() ==> (of_window(#[trigger] lines[i]) ==> lines[i].len() >= 7)
                && !of_the_window(lines[i], win),
    ensures
        search(lines, win, false) == Search::Missing,
{
    lemma_pass_over(lines, Seq::empty(), win, false);
    assert(lines + Seq::<Seq<u8>>::empty() =~= lines);
}

/// A window behind which no workspace is listed has none.
pub proof fn law_window_without_workspace(
    before: Seq<Seq<u8>>,
    window: Seq<u8>,
    behind: Seq<Seq<u8>>,
    win: Seq<u8>,
)
    requires
        forall|i: int|
            0 <= i < before.len() ==> (of_window(#[trigger] before[i]) ==> before[i].len() >= 7)
                && !of_the_window(before[i], win),
        of_the_window(window, win),
        forall|i: int|
            0 <= i < behind.len() ==> (of_window(#[trigger] behind[i]) ==> behind[i].len() >= 7)
                && !of_workspace(behind[i]),
    ensures
        search(before + (seq![window] + behind), win, false) == Search::Missing,
{
    lemma_pass_over(before, seq![window] + behind, win, false);
    assert((seq![window] + behind).drop_first() =~= behind);
    lemma_pass_over(behind, Seq::empty(), win, true);
    assert(behind + Seq::<Seq<u8>>::empty() =~= behind);
}

/// A window's line that is cut short makes the list malformed, unless the answer came before; so
/// does a workspace line without room for a number.
pub proof fn law_short_lines_are_malformed(line: Seq<u8>, behind: Seq<Seq<u8>>, win: Seq<u8>, found: bool)
    ensures
        of_window(line) && line.len() < 7 ==> search(seq![line] + behind, win, found)
            == Search::Malformed,
        of_workspace(line) && line.len() < 12 ==> search(seq![line] + behind, win, true)
            == Search::Malformed,
{
    lemma_literals();
    assert((seq![line] + behind)[0] == line);
    if of_workspace(line) {
        assert(line.take(10)[0] == line[0]);
        if of_window(line) {
            assert(line.take(6)[0] == line[0]);
        }
    }
}

/// The first workspace line behind the window's own decides: where no blank ends its number, the
/// window has no workspace, whatever stands behind it.
pub proof fn law_number_must_end(
    before: Seq<Seq<u8>>,
    window: Seq<u8>,
    between: Seq<Seq<u8>>,
    filler: Seq<u8>,
    id: Seq<u8>,
    behind: Seq<Seq<u8>>,
    win: Seq<u8>,
)
    requires
        forall|i: int|
            0 <= i < before.len() ==> (of_window(#[trigger] before[i]) ==> before[i].len() >= 7)
                && !of_the_window(before[i], win),
        of_the_window(window, win),
        forall|i: int|
            0 <= i < between.len() ==> (of_window(#[trigger] between[i]) ==> between[i].len() >= 7)
                && !of_workspace(between[i]),
        filler.len() == 2,
        !id.contains(0x20),
    ensures
        ({
            let line = encode_utf8("\tworkspace"@) + filler + id;
            search(before + (seq![window] + (between + (seq![line] + behind))), win, false)
                == Search::Missing
        }),
{
    lemma_literals();
    let line = encode_utf8("\tworkspace"@) + filler + id;
    let last = seq![line] + behind;
    let from_between = between + last;
    let from_window = seq![window] + from_between;
    lemma_pass_over(before, from_window, win, false);
    assert(from_window.drop_first() =~= from_between);
    assert(search(from_window, win, false) == search(from_between, win, true));
    lemma_pass_over(between, last, win, true);
    assert(line.take(10) =~= encode_utf8("\tworkspace"@));
    assert(line.take(6)[0] == line[0]);
    assert(!of_window(line));
    assert(line.skip(12) =~= id);
    if crate::bytes::split_once_spec(id, 0x20) is Some {
        let (a, b) = crate::bytes::split_once_spec(id, 0x20).unwrap();
        crate::laws::bytes::law_parts_are_the_whole(id, 0x20);
        assert((a + seq![0x20u8] + b)[a.len() as int] == 0x20);
        assert(id.contains(0x20));
    }
    assert(last[0] == line);
}

/// An answer on the active window is its description; one on the clients is the workspace that
/// was found there, or nothing.
pub proof fn law_answers(win: Seq<char>, answer: Seq<char>, event: Option<AppEvent>)
    ensures
        means(ReqTokenView::ActiveWindow, answer, event) <==> (event matches Some(AppEvent::WindowInfo(text))
            && text@ == answer),
        ({
            let found = search(
                crate::bytes::pieces(encode_utf8(answer), 0x0a),
                encode_utf8(win),
                false,
            );
            &&& search_for(ReqTokenView::Urgent { win }, answer) == found
            &&& means(ReqTokenView::Urgent { win }, answer, event) <==> (found matches Search::Workspace(id)
                && event == Some(AppEvent::Urgent(id))) || (found !is Workspace && event is None)
        }),
{
}

} // verus!
