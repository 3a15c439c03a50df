//! Display resolution: finding the OS-designated main display in the
//! current enumeration, and computing a display's pixel-to-logical scale
//! factor.

use vstd::prelude::*;
use crate::error::EnvError;
use crate::targets::{
    display_target_model, targets_model, DisplayInfo, TargetModel, WindowInfo,
};

verus! {

/// The first display of the list with the given identifier, if any.
pub open spec fn find_display(ds: Seq<DisplayInfo>, id: u32) -> Option<DisplayInfo>
    decreases ds.len(),
{
    if ds.len() == 0 {
        None
    } else if ds[0].id == id {
        Some(ds[0])
    } else {
        find_display(ds.drop_first(), id)
    }
}

/// Resolves the OS-designated main display in the display enumeration taken
/// at the same moment: the first entry whose identifier matches. A missing
/// main display is an environment fault — the enumeration and the
/// designation come from the same OS, so a mismatch means the host is
/// inconsistent, and capture must not proceed.
#[verifier::loop_isolation(false)]
pub fn get_main_display(main_display_id: u32, displays: &Vec<DisplayInfo>) -> (r: Result<
    DisplayInfo,
    EnvError,
>)
    ensures
        r matches Ok(d) ==> {
            &&& find_display(displays@, main_display_id) == Some(d)
            &&& d.id == main_display_id
            &&& displays@.contains(d)
        },
        r matches Err(e) ==> {
            &&& e == EnvError::MainDisplayMissing
            &&& find_display(displays@, main_display_id) is None
            &&& forall|k: int| 0 <= k < displays@.len() ==> displays@[k].id != main_display_id
        },
{
    let mut i: usize = 0;
    proof {
        assert(displays@.skip(0) =~= displays@);
    }
    while i < displays.len()
        invariant
            i <= displays@.len(),
            find_display(displays@, main_display_id) == find_display(
                displays@.skip(i as int),
                main_display_id,
            ),
            forall|k: int| 0 <= k < i ==> displays@[k].id != main_display_id,
        decreases displays@.len() - i,
    {
        let d = displays[i];
        if d.id == main_display_id {
            proof {
                assert(displays@.skip(i as int)[0] == d);
                assert(find_display(displays@.skip(i as int), main_display_id) == Some(d));
                assert(displays@[i as int] == d);
            }
            return Ok(d);
        }
        proof {
            assert(displays@.skip(i as int)[0] == displays@[i as int]);
            assert(displays@.skip(i as int).drop_first() =~= displays@.skip(i + 1));
        }
        i = i + 1;
    }
    proof {
        assert(displays@.skip(displays@.len() as int) =~= Seq::<DisplayInfo>::empty());
    }
    Err(EnvError::MainDisplayMissing)
}

/// A display found by [`get_main_display`] is present in the enumeration
/// that [`crate::targets::get_targets`] would build from the same display
/// list: the target list contains its display target.
pub proof fn lemma_found_display_in_targets(ds: Seq<DisplayInfo>, ws: Seq<WindowInfo>, d: DisplayInfo)
    requires
        ds.contains(d),
    ensures
        targets_model(ds, ws).contains(display_target_model(d)),
{
    let i = choose|i: int| 0 <= i < ds.len() && ds[i] == d;
    assert(targets_model(ds, ws)[i] == display_target_model(d));
    assert(targets_model(ds, ws).contains(display_target_model(d)));
}

/// The scale factor of a display: the integer quotient of its physical
/// pixel width by its logical (point) width. The truncation is deliberate —
/// a fractional true ratio comes out as its floor, and downstream pixel
/// math depends on the result being integral.
pub fn get_scale_factor(pixel_width: u64, logical_width: u64) -> (r: u64)
    requires
        logical_width > 0,
    ensures
        r == pixel_width / logical_width,
{
    pixel_width / logical_width
}

} // verus!
