// The pull run's verified decisions: which fetched items are actually new.
// A metadata sidecar on disk is the sole marker that an item was completed
// by an earlier run; the ids read from those sidecars form a skip set, and
// everything in it is filtered out before any download starts.  The driver
// outside this crate lists the sidecar files and downloads what remains.

use crate::vodbot_api::{Clip, Vod};
use vstd::prelude::*;

verus! {

/// Whether the skip set holds this id.
pub open spec fn saved_contains(saved: Seq<Seq<char>>, id: Seq<char>) -> bool {
    exists|i: int| 0 <= i < saved.len() && (#[trigger] saved[i]) == id
}

fn contains_string(saved: &Vec<String>, s: &String) -> (r: bool)
    ensures
        r == saved_contains(saved@.map_values(|x: String| x@), s@),
{
    let ghost views = saved@.map_values(|x: String| x@);
    let mut i: usize = 0;
    while i < saved.len()
        invariant
            i <= saved@.len(),
            views == saved@.map_values(|x: String| x@),
            forall|j: int| 0 <= j < i ==> (#[trigger] views[j]) != s@,
        decreases saved@.len() - i,
    {
        if saved[i].eq(s) {
            proof {
                assert(views[i as int] == s@);
            }
            return true;
        }
        i = i + 1;
    }
    false
}

/// The videos that are new: those whose id is not in the skip set, in their
/// original order.
pub open spec fn unsaved_vods(s: Seq<Vod>, saved: Seq<Seq<char>>) -> Seq<Vod>
    decreases s.len(),
{
    if s.len() == 0 {
        Seq::empty()
    } else {
        unsaved_vods(s.drop_last(), saved) + (if saved_contains(saved, s.last().id@) {
            Seq::empty()
        } else {
            seq![s.last()]
        })
    }
}

/// Filters already-downloaded videos out by their sidecar ids.
pub fn keep_unsaved_vods(vods: Vec<Vod>, saved: &Vec<String>) -> (r: Vec<Vod>)
    ensures
        r@ == unsaved_vods(vods@, saved@.map_values(|x: String| x@)),
{
    let ghost all = vods@;
    let ghost views = saved@.map_values(|x: String| x@);
    let mut vods = vods;
    let mut r: Vec<Vod> = Vec::new();
    let ghost i: int = 0;
    while vods.len() > 0
        invariant
            0 <= i,
            i + vods@.len() == all.len(),
            vods@ =~= all.skip(i),
            views == saved@.map_values(|x: String| x@),
            r@ == unsaved_vods(all.take(i), views),
        decreases vods@.len(),
    {
        let ghost pre = vods@;
        let v = vods.remove(0);
        if !contains_string(saved, &v.id) {
            r.push(v);
        }
        proof {
            assert(pre[0] == all[i]);
            assert(vods@ =~= all.skip(i + 1));
            assert(all.take(i + 1).drop_last() =~= all.take(i));
            assert(all.take(i + 1).last() == all[i]);
            assert(r@ =~= unsaved_vods(all.take(i + 1), views));
            i = i + 1;
        }
    }
    proof {
        assert(all.take(all.len() as int) =~= all);
        assert(all.skip(i).len() == all.len() - i);
    }
    r
}

/// The clips that are new: those whose slug is not in the skip set, in
/// their original order.
pub open spec fn unsaved_clips(s: Seq<Clip>, saved: Seq<Seq<char>>) -> Seq<Clip>
    decreases s.len(),
{
    if s.len() == 0 {
        Seq::empty()
    } else {
        unsaved_clips(s.drop_last(), saved) + (if saved_contains(saved, s.last().slug@) {
            Seq::empty()
        } else {
            seq![s.last()]
        })
    }
}

/// Filters already-downloaded clips out by their sidecar slugs.
pub fn keep_unsaved_clips(clips: Vec<Clip>, saved: &Vec<String>) -> (r: Vec<Clip>)
    ensures
        r@ == unsaved_clips(clips@, saved@.map_values(|x: String| x@)),
{
    let ghost all = clips@;
    let ghost views = saved@.map_values(|x: String| x@);
    let mut clips = clips;
    let mut r: Vec<Clip> = Vec::new();
    let ghost i: int = 0;
    while clips.len() > 0
        invariant
            0 <= i,
            i + clips@.len() == all.len(),
            clips@ =~= all.skip(i),
            views == saved@.map_values(|x: String| x@),
            r@ == unsaved_clips(all.take(i), views),
        decreases clips@.len(),
    {
        let ghost pre = clips@;
        let c = clips.remove(0);
        if !contains_string(saved, &c.slug) {
            r.push(c);
        }
        proof {
            assert(pre[0] == all[i]);
            assert(clips@ =~= all.skip(i + 1));
            assert(all.take(i + 1).drop_last() =~= all.take(i));
            assert(all.take(i + 1).last() == all[i]);
            assert(r@ =~= unsaved_clips(all.take(i + 1), views));
            i = i + 1;
        }
    }
    proof {
        assert(all.take(all.len() as int) =~= all);
        assert(all.skip(i).len() == all.len() - i);
    }
    r
}

/// The ids that are new: those not in the skip set, in their original order.
pub open spec fn unsaved_ids(s: Seq<String>, saved: Seq<Seq<char>>) -> Seq<String>
    decreases s.len(),
{
    if s.len() == 0 {
        Seq::empty()
    } else {
        unsaved_ids(s.drop_last(), saved) + (if saved_contains(saved, s.last()@) {
            Seq::empty()
        } else {
            seq![s.last()]
        })
    }
}

/// Filters already-exported chat-log video ids out by their sidecar ids.
pub fn keep_unsaved_ids(ids: Vec<String>, saved: &Vec<String>) -> (r: Vec<String>)
    ensures
        r@ == unsaved_ids(ids@, saved@.map_values(|x: String| x@)),
{
    let ghost all = ids@;
    let ghost views = saved@.map_values(|x: String| x@);
    let mut ids = ids;
    let mut r: Vec<String> = Vec::new();
    let ghost i: int = 0;
    while ids.len() > 0
        invariant
            0 <= i,
            i + ids@.len() == all.len(),
            ids@ =~= all.skip(i),
            views == saved@.map_values(|x: String| x@),
            r@ == unsaved_ids(all.take(i), views),
        decreases ids@.len(),
    {
        let ghost pre = ids@;
        let id = ids.remove(0);
        if !contains_string(saved, &id) {
            r.push(id);
        }
        proof {
            assert(pre[0] == all[i]);
            assert(ids@ =~= all.skip(i + 1));
            assert(all.take(i + 1).drop_last() =~= all.take(i));
            assert(all.take(i + 1).last() == all[i]);
            assert(r@ =~= unsaved_ids(all.take(i + 1), views));
            i = i + 1;
        }
    }
    proof {
        assert(all.take(all.len() as int) =~= all);
        assert(all.skip(i).len() == all.len() - i);
    }
    r
}

/// Idempotent re-run: when every fetched video's id already has a sidecar —
/// as after a successful run that wrote one per item and deleted none —
/// the filter keeps nothing, so a second run downloads nothing.
pub proof fn lemma_rerun_pulls_no_vods(s: Seq<Vod>, saved: Seq<Seq<char>>)
    requires
        forall|i: int| 0 <= i < s.len() ==> saved_contains(saved, (#[trigger] s[i]).id@),
    ensures
        unsaved_vods(s, saved).len() == 0,
    decreases s.len(),
{
    if s.len() > 0 {
        lemma_rerun_pulls_no_vods(s.drop_last(), saved);
        assert(saved_contains(saved, s[s.len() - 1].id@));
    }
}

/// Idempotent re-run, for clips: with every slug already marked, nothing is
/// downloaded again.
pub proof fn lemma_rerun_pulls_no_clips(s: Seq<Clip>, saved: Seq<Seq<char>>)
    requires
        forall|i: int| 0 <= i < s.len() ==> saved_contains(saved, (#[trigger] s[i]).slug@),
    ensures
        unsaved_clips(s, saved).len() == 0,
    decreases s.len(),
{
    if s.len() > 0 {
        lemma_rerun_pulls_no_clips(s.drop_last(), saved);
        assert(saved_contains(saved, s[s.len() - 1].slug@));
    }
}

} // verus!
