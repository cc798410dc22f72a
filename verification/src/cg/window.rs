//! A model of window enumeration.
//!
//! The window server keeps the session's windows in front-to-back order and
//! reports, for a given option bitmask, an information record per admitted
//! window. This module models that state as a sequence of [`WindowInfo`]
//! records and states exactly which records an enumeration reports.

use vstd::prelude::*;

verus! {

/// A window identifier, as the window server assigns them.
pub type Id = u32;

/// A bitmask of options that selects which windows an enumeration reports.
pub type ListOption = u32;

/// List every window in the session.
pub const LIST_OPTION_ALL: ListOption = 0;

/// List only windows that are currently on screen.
pub const LIST_OPTION_ON_SCREEN_ONLY: ListOption = 1 << 0;

/// List on-screen windows in front of the reference window.
pub const LIST_OPTION_ON_SCREEN_ABOVE_WINDOW: ListOption = 1 << 1;

/// List on-screen windows behind the reference window.
pub const LIST_OPTION_ON_SCREEN_BELOW_WINDOW: ListOption = 1 << 2;

/// Report the reference window itself as well.
pub const LIST_OPTION_INCLUDING_WINDOW: ListOption = 1 << 3;

/// Leave out the windows that draw the desktop itself.
pub const LIST_OPTION_EXCLUDE_DESKTOP_ELEMENTS: ListOption = 1 << 4;

/// The information record that an enumeration reports for one window,
/// holding the entries that the selection options read.
pub struct WindowInfo {
    /// The window's identifier.
    pub number: Id,
    /// The process that owns the window.
    pub owner_pid: i32,
    /// The window's layer.
    pub layer: i32,
    /// Whether the window is currently on screen.
    pub is_onscreen: bool,
    /// Whether the window is an element that draws the desktop.
    pub desktop_element: bool,
}

impl Clone for WindowInfo {
    fn clone(&self) -> (r: Self)
        ensures
            r == *self,
    {
        WindowInfo {
            number: self.number,
            owner_pid: self.owner_pid,
            layer: self.layer,
            is_onscreen: self.is_onscreen,
            desktop_element: self.desktop_element,
        }
    }
}

impl Copy for WindowInfo {

}

/// Whether the option bitmask has the given flag set.
pub open spec fn has_opt(opt: ListOption, flag: ListOption) -> bool {
    opt & flag != 0
}

/// Whether the options name a reference window.
pub open spec fn spec_uses_reference(opt: ListOption) -> bool {
    ||| has_opt(opt, LIST_OPTION_ON_SCREEN_ABOVE_WINDOW)
    ||| has_opt(opt, LIST_OPTION_ON_SCREEN_BELOW_WINDOW)
    ||| has_opt(opt, LIST_OPTION_INCLUDING_WINDOW)
}

/// Whether some window in the list carries the given identifier.
pub open spec fn spec_has_window(ws: Seq<WindowInfo>, id: Id) -> bool {
    exists|i: int| 0 <= i < ws.len() && ws[i].number == id
}

/// Whether `i` is the first position in the list whose window carries `id`.
pub open spec fn spec_is_first_match(ws: Seq<WindowInfo>, id: Id, i: int) -> bool {
    &&& 0 <= i < ws.len()
    &&& ws[i].number == id
    &&& forall|j: int| 0 <= j < i ==> ws[j].number != id
}

/// The first position in the list whose window carries `id`.
/// Meaningful only when such a window exists.
pub open spec fn spec_window_index(ws: Seq<WindowInfo>, id: Id) -> int {
    choose|i: int| spec_is_first_match(ws, id, i)
}

/// Whether the window at position `i` is the reference window that the
/// including-window option asks for.
pub open spec fn spec_is_reference(opt: ListOption, rel: Option<int>, i: int) -> bool {
    has_opt(opt, LIST_OPTION_INCLUDING_WINDOW) && match rel {
        Some(r) => i == r,
        None => false,
    }
}

/// Whether the window at position `i` stands where the relative options ask:
/// in front of, behind, or at the reference window. Options without a
/// reference window admit every position.
pub open spec fn spec_position_admits(opt: ListOption, rel: Option<int>, i: int) -> bool {
    if spec_uses_reference(opt) {
        match rel {
            Some(r) => {
                ||| has_opt(opt, LIST_OPTION_ON_SCREEN_ABOVE_WINDOW) && i < r
                ||| has_opt(opt, LIST_OPTION_ON_SCREEN_BELOW_WINDOW) && i > r
                ||| has_opt(opt, LIST_OPTION_INCLUDING_WINDOW) && i == r
            },
            None => false,
        }
    } else {
        true
    }
}

/// Whether the options admit the window at position `i` only if it is on
/// screen. The on-screen-only option demands it of every window; the relative
/// options demand it of every window but the reference window itself.
pub open spec fn spec_needs_onscreen(opt: ListOption, rel: Option<int>, i: int) -> bool {
    ||| has_opt(opt, LIST_OPTION_ON_SCREEN_ONLY)
    ||| ((has_opt(opt, LIST_OPTION_ON_SCREEN_ABOVE_WINDOW) || has_opt(
        opt,
        LIST_OPTION_ON_SCREEN_BELOW_WINDOW,
    )) && !spec_is_reference(opt, rel, i))
}

/// Whether the enumeration reports the window `w` standing at position `i`,
/// given the options and the position of the reference window.
pub open spec fn spec_admits(opt: ListOption, rel: Option<int>, i: int, w: WindowInfo) -> bool {
    &&& spec_position_admits(opt, rel, i)
    &&& spec_needs_onscreen(opt, rel, i) ==> w.is_onscreen
    &&& has_opt(opt, LIST_OPTION_EXCLUDE_DESKTOP_ELEMENTS) ==> !w.desktop_element
}

/// The records that the enumeration reports from position `i` on, in order.
pub open spec fn spec_window_list_from(
    ws: Seq<WindowInfo>,
    opt: ListOption,
    rel: Option<int>,
    i: int,
) -> Seq<WindowInfo>
    decreases ws.len() - i,
{
    if i < 0 || i >= ws.len() {
        Seq::empty()
    } else if spec_admits(opt, rel, i, ws[i]) {
        seq![ws[i]] + spec_window_list_from(ws, opt, rel, i + 1)
    } else {
        spec_window_list_from(ws, opt, rel, i + 1)
    }
}

/// The records that the enumeration reports, in front-to-back order.
pub open spec fn spec_window_list(ws: Seq<WindowInfo>, opt: ListOption, rel: Option<int>) -> Seq<
    WindowInfo,
> {
    spec_window_list_from(ws, opt, rel, 0)
}

/// The position, as the specification sees it, of an optional reference index.
pub open spec fn rel_view(rel: Option<usize>) -> Option<int> {
    match rel {
        Some(r) => Some(r as int),
        None => None,
    }
}

/// Whether position `j` witnesses that element `k` of the reported list is an
/// admitted window of the input list.
pub open spec fn spec_list_element_witness(
    ws: Seq<WindowInfo>,
    opt: ListOption,
    rel: Option<int>,
    i: int,
    k: int,
    j: int,
) -> bool {
    &&& i <= j < ws.len()
    &&& spec_admits(opt, rel, j, ws[j])
    &&& spec_window_list_from(ws, opt, rel, i)[k] == ws[j]
}

/// Every record that the enumeration reports is a window of the input list
/// that the options admit at its position.
pub proof fn lemma_window_list_reports_only_admitted(
    ws: Seq<WindowInfo>,
    opt: ListOption,
    rel: Option<int>,
    i: int,
    k: int,
)
    requires
        0 <= k < spec_window_list_from(ws, opt, rel, i).len(),
    ensures
        exists|j: int| spec_list_element_witness(ws, opt, rel, i, k, j),
    decreases ws.len() - i,
{
    if i < 0 || i >= ws.len() {
        assert(false);
    } else if spec_admits(opt, rel, i, ws[i]) {
        if k == 0 {
            assert(spec_window_list_from(ws, opt, rel, i)[0] == ws[i]);
            assert(spec_list_element_witness(ws, opt, rel, i, k, i));
        } else {
            lemma_window_list_reports_only_admitted(ws, opt, rel, i + 1, k - 1);
            let i1: int = i + 1;
            let k1: int = k - 1;
            let j = choose|j: int| spec_list_element_witness(ws, opt, rel, i1, k1, j);
            assert(spec_window_list_from(ws, opt, rel, i)[k] == spec_window_list_from(
                ws,
                opt,
                rel,
                i + 1,
            )[k - 1]);
            assert(spec_list_element_witness(ws, opt, rel, i, k, j));
        }
    } else {
        lemma_window_list_reports_only_admitted(ws, opt, rel, i + 1, k);
        let i1: int = i + 1;
        let j = choose|j: int| spec_list_element_witness(ws, opt, rel, i1, k, j);
        assert(spec_list_element_witness(ws, opt, rel, i, k, j));
    }
}

/// With the on-screen-only option set, every record the enumeration reports
/// describes a window that is currently on screen.
pub proof fn lemma_on_screen_only_reports_visible(
    ws: Seq<WindowInfo>,
    opt: ListOption,
    rel: Option<int>,
    k: int,
)
    requires
        has_opt(opt, LIST_OPTION_ON_SCREEN_ONLY),
        0 <= k < spec_window_list(ws, opt, rel).len(),
    ensures
        spec_window_list(ws, opt, rel)[k].is_onscreen,
{
    lemma_window_list_reports_only_admitted(ws, opt, rel, 0, k);
    let j = choose|j: int| spec_list_element_witness(ws, opt, rel, 0, k, j);
    assert(spec_needs_onscreen(opt, rel, j));
}

/// Whether the option bitmask has the given flag set.
fn option_set(opt: ListOption, flag: ListOption) -> (r: bool)
    ensures
        r == has_opt(opt, flag),
{
    opt & flag != 0
}

/// The first position of the window carrying `id`, if any window does.
fn find_window(windows: &Vec<WindowInfo>, id: Id) -> (r: Option<usize>)
    ensures
        match r {
            Some(i) => spec_is_first_match(windows@, id, i as int),
            None => !spec_has_window(windows@, id),
        },
{
    let mut i: usize = 0;
    while i < windows.len()
        invariant
            i <= windows@.len(),
            forall|j: int| 0 <= j < i ==> windows@[j].number != id,
        decreases windows@.len() - i,
    {
        if windows[i].number == id {
            return Some(i);
        }
        i += 1;
    }
    None
}

/// Whether the options admit the window `w` standing at position `i`.
fn admits(option: ListOption, rel: Option<usize>, i: usize, w: &WindowInfo) -> (r: bool)
    ensures
        r == spec_admits(option, rel_view(rel), i as int, *w),
{
    let above = option_set(option, LIST_OPTION_ON_SCREEN_ABOVE_WINDOW);
    let below = option_set(option, LIST_OPTION_ON_SCREEN_BELOW_WINDOW);
    let including = option_set(option, LIST_OPTION_INCLUDING_WINDOW);
    let position_ok = if above || below || including {
        match rel {
            Some(r) => (above && i < r) || (below && i > r) || (including && i == r),
            None => false,
        }
    } else {
        true
    };
    let is_reference = including && (match rel {
        Some(r) => i == r,
        None => false,
    });
    let needs_onscreen = option_set(option, LIST_OPTION_ON_SCREEN_ONLY) || ((above || below)
        && !is_reference);
    let onscreen_ok = !needs_onscreen || w.is_onscreen;
    let desktop_ok = !option_set(option, LIST_OPTION_EXCLUDE_DESKTOP_ELEMENTS)
        || !w.desktop_element;
    position_ok && onscreen_ok && desktop_ok
}

/// Reports, from the session's windows given in front-to-back order, the
/// information records that the option bitmask admits, in the same order.
///
/// When the options name a reference window, `relative_to_window` must carry
/// the identifier of a listed window: otherwise nothing is reported. Options
/// without a reference window ignore `relative_to_window`.
pub fn copy_window_info(
    windows: &Vec<WindowInfo>,
    option: ListOption,
    relative_to_window: Id,
) -> (r: Option<Vec<WindowInfo>>)
    ensures
        ({
            let ws = windows@;
            if spec_uses_reference(option) && !spec_has_window(ws, relative_to_window) {
                r is None
            } else {
                let rel = if spec_uses_reference(option) {
                    Some(spec_window_index(ws, relative_to_window))
                } else {
                    None
                };
                match r {
                    Some(v) => v@ == spec_window_list(ws, option, rel),
                    None => false,
                }
            }
        }),
{
    let uses_reference = option_set(option, LIST_OPTION_ON_SCREEN_ABOVE_WINDOW) || option_set(
        option,
        LIST_OPTION_ON_SCREEN_BELOW_WINDOW,
    ) || option_set(option, LIST_OPTION_INCLUDING_WINDOW);
    let rel: Option<usize> = if uses_reference {
        match find_window(windows, relative_to_window) {
            Some(i) => Some(i),
            None => {
                return None;
            },
        }
    } else {
        None
    };
    proof {
        if uses_reference {
            let ws = windows@;
            let i = rel->Some_0 as int;
            let i0 = spec_window_index(ws, relative_to_window);
            assert(spec_is_first_match(ws, relative_to_window, i));
            assert(spec_is_first_match(ws, relative_to_window, i0)) by {
                assert(spec_is_first_match(ws, relative_to_window, i));
            }
            if i0 < i {
                assert(ws[i0].number != relative_to_window);
                assert(false);
            } else if i0 > i {
                assert(ws[i].number != relative_to_window);
                assert(false);
            }
        }
    }
    let mut out: Vec<WindowInfo> = Vec::new();
    let mut i: usize = 0;
    while i < windows.len()
        invariant
            i <= windows@.len(),
            out@ + spec_window_list_from(windows@, option, rel_view(rel), i as int)
                == spec_window_list(windows@, option, rel_view(rel)),
        decreases windows@.len() - i,
    {
        let keep = admits(option, rel, i, &windows[i]);
        proof {
            let ws = windows@;
            let grel = rel_view(rel);
            if spec_admits(option, grel, i as int, ws[i as int]) {
                assert(spec_window_list_from(ws, option, grel, i as int) == seq![ws[i as int]]
                    + spec_window_list_from(ws, option, grel, i as int + 1));
                assert(out@ + (seq![ws[i as int]] + spec_window_list_from(
                    ws,
                    option,
                    grel,
                    i as int + 1,
                )) =~= (out@ + seq![ws[i as int]]) + spec_window_list_from(
                    ws,
                    option,
                    grel,
                    i as int + 1,
                ));
            } else {
                assert(spec_window_list_from(ws, option, grel, i as int)
                    == spec_window_list_from(ws, option, grel, i as int + 1));
            }
        }
        if keep {
            out.push(windows[i]);
        }
        i += 1;
    }
    proof {
        let ws = windows@;
        let grel = rel_view(rel);
        assert(spec_window_list_from(ws, option, grel, i as int) =~= Seq::empty());
        assert(out@ + Seq::<WindowInfo>::empty() =~= out@);
    }
    Some(out)
}

} // verus!
