//! Target enumeration: turns the OS's answer to the shareable-content query
//! (its displays, and its windows with their activity flag and optional
//! title) into the uniform list of capturable [`Target`]s — displays first,
//! then the active windows, in the order the OS reported them.

use vstd::prelude::*;
use vstd::string::StringExecFns;
use crate::decimal::{dec_str, u32_to_dec};

verus! {

/// The kind of surface a [`Target`] names.
#[derive(Clone, Copy, Debug, PartialEq, Eq, Structural)]
pub enum TargetType {
    Display,
    Window,
}

/// One capturable surface. `id` is the OS-assigned numeric handle, unique
/// within its `target_type` at enumeration time only; `title` is a
/// human-readable label and is never empty.
#[derive(Debug, PartialEq, Eq)]
pub struct Target {
    pub id: u32,
    pub title: String,
    pub target_type: TargetType,
}

/// The mathematical shape of a [`Target`]: its title as a character
/// sequence.
pub struct TargetModel {
    pub id: u32,
    pub title: Seq<char>,
    pub target_type: TargetType,
}

impl View for Target {
    type V = TargetModel;

    open spec fn view(&self) -> TargetModel {
        TargetModel { id: self.id, title: self.title@, target_type: self.target_type }
    }
}

/// One display as the shareable-content service reports it: an identifier
/// and nothing else (no name comes through this path).
#[derive(Clone, Copy, Debug, PartialEq, Eq, Structural)]
pub struct DisplayInfo {
    pub id: u32,
}

/// One window as the shareable-content service reports it: identifier,
/// optional title, and whether the window is currently active on screen.
#[derive(Debug, PartialEq, Eq)]
pub struct WindowInfo {
    pub id: u32,
    pub title: Option<String>,
    pub is_active: bool,
}

/// The prefix of every synthesized display title.
pub open spec fn display_prefix() -> Seq<char> {
    "Display "@
}

/// The placeholder title for a window whose OS title is absent or empty.
pub open spec fn unknown_title() -> Seq<char> {
    "Unknown window"@
}

/// The target a display maps to: its title is `"Display "` followed by the
/// identifier in decimal.
pub open spec fn display_target_model(d: DisplayInfo) -> TargetModel {
    TargetModel {
        id: d.id,
        title: display_prefix() + dec_str(d.id as nat),
        target_type: TargetType::Display,
    }
}

/// The effective title of a window: the OS title when non-empty, else the
/// fixed placeholder.
pub open spec fn window_title_model(t: Option<String>) -> Seq<char> {
    match t {
        Some(s) => if s@.len() > 0 {
            s@
        } else {
            unknown_title()
        },
        None => unknown_title(),
    }
}

/// The target an active window maps to.
pub open spec fn window_target_model(w: WindowInfo) -> TargetModel {
    TargetModel { id: w.id, title: window_title_model(w.title), target_type: TargetType::Window }
}

/// The targets of a window list: the active windows in order, each mapped
/// by [`window_target_model`]; inactive windows leave no trace.
pub open spec fn window_targets_model(ws: Seq<WindowInfo>) -> Seq<TargetModel>
    decreases ws.len(),
{
    if ws.len() == 0 {
        Seq::empty()
    } else if ws[0].is_active {
        seq![window_target_model(ws[0])] + window_targets_model(ws.drop_first())
    } else {
        window_targets_model(ws.drop_first())
    }
}

/// The full enumeration result: every display, then the active windows.
pub open spec fn targets_model(ds: Seq<DisplayInfo>, ws: Seq<WindowInfo>) -> Seq<TargetModel> {
    ds.map_values(|d: DisplayInfo| display_target_model(d)) + window_targets_model(ws)
}

/// Appending one window to the list appends its target when it is active
/// and nothing otherwise.
proof fn lemma_window_targets_model_push(ws: Seq<WindowInfo>, w: WindowInfo)
    ensures
        window_targets_model(ws.push(w)) == window_targets_model(ws) + (if w.is_active {
            seq![window_target_model(w)]
        } else {
            Seq::<TargetModel>::empty()
        }),
    decreases ws.len(),
{
    let pushed = ws.push(w);
    if ws.len() == 0 {
        assert(pushed.len() == 1);
        assert(pushed[0] == w);
        assert(pushed.drop_first() =~= Seq::<WindowInfo>::empty());
        assert(window_targets_model(pushed.drop_first()) =~= Seq::<TargetModel>::empty());
        assert(window_targets_model(ws) =~= Seq::<TargetModel>::empty());
        if w.is_active {
            assert(window_targets_model(pushed) =~= seq![window_target_model(pushed[0])]
                + window_targets_model(pushed.drop_first()));
            assert(window_targets_model(pushed) =~= window_targets_model(ws) + seq![
                window_target_model(w),
            ]);
        } else {
            assert(window_targets_model(pushed) =~= window_targets_model(ws));
        }
    } else {
        assert(pushed[0] == ws[0]);
        assert(pushed.drop_first() =~= ws.drop_first().push(w));
        lemma_window_targets_model_push(ws.drop_first(), w);
        if w.is_active {
            assert(window_targets_model(pushed) =~= window_targets_model(ws) + seq![
                window_target_model(w),
            ]);
        } else {
            assert(window_targets_model(pushed) =~= window_targets_model(ws));
        }
    }
}

/// The effective title of a window.
fn window_title(t: &Option<String>) -> (r: String)
    ensures
        r@ == window_title_model(*t),
{
    match t {
        Some(s) => {
            if s.as_str().is_empty() {
                "Unknown window".to_owned()
            } else {
                s.clone()
            }
        },
        None => "Unknown window".to_owned(),
    }
}

/// Enumerates the capturable targets for the given OS answer: one target
/// per display (title `"Display "` + id), then one per active window (the
/// OS title when non-empty, else the placeholder), both in reported order —
/// no sorting, no deduplication.
#[verifier::loop_isolation(false)]
pub fn get_targets(displays: &Vec<DisplayInfo>, windows: &Vec<WindowInfo>) -> (r: Vec<Target>)
    ensures
        r@.map_values(|t: Target| t@) == targets_model(displays@, windows@),
{
    let ghost vf = |t: Target| t@;
    let ghost dmodel = |d: DisplayInfo| display_target_model(d);
    let mut targets: Vec<Target> = Vec::new();

    let mut i: usize = 0;
    while i < displays.len()
        invariant
            i <= displays@.len(),
            targets@.len() == i,
            targets@.map_values(vf) == displays@.take(i as int).map_values(dmodel),
        decreases displays@.len() - i,
    {
        let d = displays[i];
        let mut title = "Display ".to_owned();
        let num = u32_to_dec(d.id);
        title.append(num.as_str());
        let target = Target { id: d.id, title, target_type: TargetType::Display };
        proof {
            assert(target@ == display_target_model(d));
        }
        let ghost pre = targets@;
        targets.push(target);
        proof {
            pre.lemma_push_map_commute(vf, target);
            displays@.lemma_map_take_succ(dmodel, i as int);
            assert(targets@.map_values(vf) == displays@.take(i + 1).map_values(dmodel));
        }
        i = i + 1;
    }
    proof {
        assert(displays@.take(displays@.len() as int) =~= displays@);
    }

    let ghost dfull = displays@.map_values(dmodel);
    let mut j: usize = 0;
    while j < windows.len()
        invariant
            j <= windows@.len(),
            targets@.map_values(vf) == dfull + window_targets_model(windows@.take(j as int)),
        decreases windows@.len() - j,
    {
        let w = &windows[j];
        proof {
            assert(windows@.take(j + 1) =~= windows@.take(j as int).push(windows@[j as int]));
            lemma_window_targets_model_push(windows@.take(j as int), windows@[j as int]);
        }
        if w.is_active {
            let title = window_title(&w.title);
            let target = Target { id: w.id, title, target_type: TargetType::Window };
            proof {
                assert(target@ == window_target_model(windows@[j as int]));
            }
            let ghost pre = targets@;
            targets.push(target);
            proof {
                pre.lemma_push_map_commute(vf, target);
                assert(targets@.map_values(vf) =~= dfull + window_targets_model(
                    windows@.take(j + 1),
                ));
            }
        } else {
            proof {
                assert(targets@.map_values(vf) =~= dfull + window_targets_model(
                    windows@.take(j + 1),
                ));
            }
        }
        j = j + 1;
    }
    proof {
        assert(windows@.take(windows@.len() as int) =~= windows@);
    }
    targets
}

/// Every window target in an enumeration comes from a window the OS marked
/// active: no inactive window ever appears in the result.
pub proof fn lemma_window_targets_from_active(ws: Seq<WindowInfo>, k: int)
    requires
        0 <= k < window_targets_model(ws).len(),
    ensures
        exists|j: int|
            0 <= j < ws.len() && ws[j].is_active && window_targets_model(ws)[k]
                == window_target_model(ws[j]),
    decreases ws.len(),
{
    if ws[0].is_active {
        if k == 0 {
            assert(ws[0].is_active && window_targets_model(ws)[0] == window_target_model(ws[0]));
        } else {
            lemma_window_targets_from_active(ws.drop_first(), k - 1);
            let j0 = choose|j0: int|
                0 <= j0 < ws.drop_first().len() && ws.drop_first()[j0].is_active
                    && window_targets_model(ws.drop_first())[k - 1] == window_target_model(
                    ws.drop_first()[j0],
                );
            assert(ws[j0 + 1].is_active && window_targets_model(ws)[k] == window_target_model(
                ws[j0 + 1],
            ));
        }
    } else {
        lemma_window_targets_from_active(ws.drop_first(), k);
        let j0 = choose|j0: int|
            0 <= j0 < ws.drop_first().len() && ws.drop_first()[j0].is_active
                && window_targets_model(ws.drop_first())[k] == window_target_model(
                ws.drop_first()[j0],
            );
        assert(ws[j0 + 1].is_active && window_targets_model(ws)[k] == window_target_model(
            ws[j0 + 1],
        ));
    }
}

/// Every entry of the enumeration is either a display target of the display
/// list or the target of an active window of the window list; in
/// particular, a window target never stems from an inactive window.
pub proof fn lemma_targets_accounted_for(ds: Seq<DisplayInfo>, ws: Seq<WindowInfo>, k: int)
    requires
        0 <= k < targets_model(ds, ws).len(),
    ensures
        targets_model(ds, ws)[k].target_type == TargetType::Window ==> exists|j: int|
            0 <= j < ws.len() && ws[j].is_active && targets_model(ds, ws)[k]
                == window_target_model(ws[j]),
        targets_model(ds, ws)[k].target_type == TargetType::Display ==> 0 <= k < ds.len()
            && targets_model(ds, ws)[k] == display_target_model(ds[k]),
{
    if k < ds.len() {
        assert(targets_model(ds, ws)[k] == display_target_model(ds[k]));
    } else {
        lemma_window_targets_from_active(ws, k - ds.len());
        let j = choose|j: int|
            0 <= j < ws.len() && ws[j].is_active && window_targets_model(ws)[k - ds.len()]
                == window_target_model(ws[j]);
        assert(targets_model(ds, ws)[k] == window_target_model(ws[j]));
    }
}

/// A window whose OS title is absent or empty gets exactly the fixed
/// placeholder as its title, and that placeholder is not the empty string.
pub proof fn lemma_missing_title_gets_placeholder(w: WindowInfo)
    requires
        w.title matches Some(t) ==> t@.len() == 0,
    ensures
        window_target_model(w).title == unknown_title(),
        window_target_model(w).title.len() > 0,
{
    reveal_strlit("Unknown window");
}

/// No window target ever carries an empty title: it is either the OS's own
/// non-empty title or the non-empty placeholder.
pub proof fn lemma_window_title_nonempty(w: WindowInfo)
    ensures
        window_target_model(w).title.len() > 0,
{
    reveal_strlit("Unknown window");
}

/// Every display target's title is exactly `"Display "` followed by the
/// decimal rendering of its identifier.
pub proof fn lemma_display_title_exact(ds: Seq<DisplayInfo>, ws: Seq<WindowInfo>, k: int)
    requires
        0 <= k < ds.len(),
    ensures
        targets_model(ds, ws)[k] == display_target_model(ds[k]),
        targets_model(ds, ws)[k].title == display_prefix() + dec_str(ds[k].id as nat),
        targets_model(ds, ws)[k].target_type == TargetType::Display,
        targets_model(ds, ws)[k].id == ds[k].id,
{
    assert(targets_model(ds, ws)[k] == display_target_model(ds[k]));
}

} // verus!
