//! Finding the target process among the enumerated top-level windows.
//!
//! The operating system enumerates windows through a callback; each call
//! hands over one window's handle, title and owning process.  The decision
//! logic is here: which enumerated windows are recorded, and which recorded
//! window is selected for a wanted title.  The enumeration itself (and the
//! failure that `EnumWindowsFailed` stands for) happens outside.

use vstd::prelude::*;

verus! {

/// One enumerated top-level window.
#[derive(Clone, Debug)]
pub struct WindowInfo {
    /// The window handle, as the pointer-sized integer the platform uses.
    pub window: usize,
    /// The window's title text.
    pub title: String,
    /// The identifier of the process that owns the window.
    pub process_id: u32,
}

/// The ways looking up the target window can fail.
#[derive(Clone, Copy, Debug, PartialEq, Eq, Structural)]
pub enum GetWindowError {
    /// The platform's window enumeration itself failed.
    EnumWindowsFailed,
    /// No enumerated window carries the wanted title.
    GameNotFound,
}

/// The position of the first window whose title is `title`.
pub open spec fn first_match_index(infos: Seq<WindowInfo>, title: Seq<char>) -> int
    decreases infos.len(),
{
    if infos.len() == 0 {
        0
    } else if infos[0].title@ == title {
        0
    } else {
        1 + first_match_index(infos.skip(1), title)
    }
}

/// With no match before `i` and a match at `i`, the first match is at `i`.
proof fn lemma_first_match_at(infos: Seq<WindowInfo>, title: Seq<char>, i: int)
    requires
        0 <= i < infos.len(),
        infos[i].title@ == title,
        forall|j: int| 0 <= j < i ==> infos[j].title@ != title,
    ensures
        first_match_index(infos, title) == i,
    decreases i,
{
    if i > 0 {
        lemma_first_match_at(infos.skip(1), title, i - 1);
    }
}

/// One step of the window enumeration: records the reported window, unless
/// the platform could not tell which process owns it (a zero `thread_id`
/// marks that failure, and such a window is skipped).  Always asks the
/// enumeration to continue.
pub fn enum_callback(
    windows: &mut Vec<WindowInfo>,
    window: usize,
    title: String,
    thread_id: u32,
    process_id: u32,
) -> (cont: bool)
    ensures
        cont,
        thread_id == 0 ==> final(windows)@ == old(windows)@,
        thread_id != 0 ==> final(windows)@ == old(windows)@.push(
            WindowInfo { window, title, process_id },
        ),
{
    if thread_id == 0 {
        return true;
    }
    windows.push(WindowInfo { window, title, process_id });
    true
}

/// Picks, among the enumerated windows, the first one titled `title`; fails
/// with `GameNotFound` when no window carries that title.  (The caller maps a
/// failed enumeration to `EnumWindowsFailed` before anything is selected, so
/// this selection itself never produces it.)
pub fn get_window_info(title: &str, windows: &Vec<WindowInfo>) -> (r: Result<
    WindowInfo,
    GetWindowError,
>)
    ensures
        match r {
            Ok(w) => {
                &&& exists|i: int|
                    0 <= i < windows@.len() && windows@[i].title@ == title@
                &&& w.window == windows@[first_match_index(windows@, title@)].window
                &&& w.title@ == windows@[first_match_index(windows@, title@)].title@
                &&& w.process_id == windows@[first_match_index(windows@, title@)].process_id
                &&& w.title@ == title@
            },
            Err(GetWindowError::GameNotFound) => forall|i: int|
                0 <= i < windows@.len() ==> windows@[i].title@ != title@,
            Err(GetWindowError::EnumWindowsFailed) => false,
        },
{
    let wanted: String = title.to_owned();
    let n = windows.len();
    let mut i: usize = 0;
    while i < n
        invariant
            i <= n,
            n == windows@.len(),
            wanted@ == title@,
            forall|j: int| 0 <= j < i ==> windows@[j].title@ != title@,
        decreases n - i,
    {
        if windows[i].title == wanted {
            proof {
                lemma_first_match_at(windows@, title@, i as int);
            }
            let found = &windows[i];
            return Ok(
                WindowInfo {
                    window: found.window,
                    title: found.title.clone(),
                    process_id: found.process_id,
                },
            );
        }
        i = i + 1;
    }
    Err(GetWindowError::GameNotFound)
}

} // verus!
