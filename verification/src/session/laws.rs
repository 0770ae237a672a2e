//! What holds of every store and of every look-up in it.

use crate::session::{
    after_action, owner_only, scan_expired, scan_outcome, scan_stop, spec_init_session_dir,
    spent_before, DirAction, PathState, SessionError, SessionFileView, SessionView, StoragePlan,
    MODE_MASK, STORE_MODE,
};
use vstd::prelude::*;

verus! {

/// Wherever the store can be made ready at all, carrying out the plan leaves
/// both its root and the user's subdirectory open to their owner alone; and
/// where neither exists yet, both are created. The plan sets the permission
/// bits itself, so the result does not depend on a file-creation mask.
pub proof fn law_storage_ends_owner_only(root: PathState, user_dir: PathState)
    ensures
        spec_init_session_dir(root, user_dir) matches Ok(plan) ==> owner_only(
            after_action(root, plan.root),
        ) && owner_only(after_action(user_dir, plan.user_dir)),
        spec_init_session_dir(root, user_dir) is Err <==> root == PathState::NotDirectory
            || user_dir == PathState::NotDirectory,
        root == PathState::Missing && user_dir == PathState::Missing ==> spec_init_session_dir(
            root,
            user_dir,
        ) == Ok::<StoragePlan, SessionError>(
            StoragePlan { root: DirAction::Create, user_dir: DirAction::Create },
        ),
{
    assert(STORE_MODE & MODE_MASK == STORE_MODE) by (bit_vector);
    assert forall|mode: u32| #[trigger] (((mode & !MODE_MASK) | STORE_MODE) & MODE_MASK) == STORE_MODE by {
        assert((((mode & !0o7777u32) | 0o700u32) & 0o7777u32) == 0o700u32) by (bit_vector);
    }
}

/// Where the look-up halts: at the first file that it cannot read or whose
/// session vouches for the user, and at none before it.
pub proof fn lemma_scan_stop(files: Seq<SessionFileView>, ttyname: Seq<char>, now: int, from: int)
    requires
        0 <= from <= files.len(),
    ensures
        from <= scan_stop(files, ttyname, now, from) <= files.len(),
        scan_stop(files, ttyname, now, from) < files.len() ==> files[scan_stop(
            files,
            ttyname,
            now,
            from,
        )].halts(ttyname, now),
        forall|i: int|
            from <= i < scan_stop(files, ttyname, now, from) ==> !(#[trigger] files[i]).halts(
                ttyname,
                now,
            ),
    decreases files.len() - from,
{
    if from < files.len() && !files[from].halts(ttyname, now) {
        lemma_scan_stop(files, ttyname, now, from + 1);
    }
}

/// Which files are listed as spent: those below `upto` whose session has ended.
pub proof fn lemma_spent_before(files: Seq<SessionFileView>, now: int, upto: int, index: usize)
    requires
        0 <= upto <= files.len() <= usize::MAX,
    ensures
        spent_before(files, now, upto).contains(index) <==> index < upto && files[index as int].spent(
            now,
        ),
    decreases upto,
{
    if upto > 0 {
        let rest = spent_before(files, now, upto - 1);
        lemma_spent_before(files, now, upto - 1, index);
        if files[upto - 1].spent(now) {
            let last = (upto - 1) as usize;
            assert(rest.push(last).last() == last);
            assert forall|i: int| 0 <= i < rest.len() implies rest.push(last)[i] == rest[i] by {}
            if rest.contains(index) {
                let i = choose|i: int| 0 <= i < rest.len() && rest[i] == index;
                assert(rest.push(last)[i] == index);
            }
        }
    }
}

/// A look-up says yes only where some file holds a session that was granted
/// on this terminal and has not ended.
pub proof fn law_valid_needs_live_session(files: Seq<SessionFileView>, ttyname: Seq<char>, now: int)
    requires
        scan_outcome(files, ttyname, now) == Ok::<bool, SessionError>(true),
    ensures
        exists|i: int|
            {
                &&& 0 <= i < files.len()
                &&& (#[trigger] files[i]).record matches Some(session)
                &&& session.ttyname == ttyname
                &&& now < session.end_timestamp
            },
{
    lemma_scan_stop(files, ttyname, now, 0);
    let stop = scan_stop(files, ttyname, now, 0);
    assert(files[stop].halts(ttyname, now));
}

/// A session that was created on a terminal at `created`, to last `time`
/// seconds, is found by every look-up from that terminal before it ends,
/// wherever its file stands among the others. From the moment it ends, its
/// file is listed for deletion by every look-up that comes as far, and a
/// look-up that finds no other session for the terminal says no. This holds
/// of a store in which every file can be read.
pub proof fn law_session_round_trip(
    files: Seq<SessionFileView>,
    at: int,
    ttyname: Seq<char>,
    created: int,
    time: int,
    now: int,
)
    requires
        files.len() <= usize::MAX,
        0 <= at < files.len(),
        files[at].record == Some(
            SessionView { ttyname, start_timestamp: created, end_timestamp: created + time },
        ),
        forall|i: int| 0 <= i < files.len() ==> (#[trigger] files[i]).record is Some,
    ensures
        now < created + time ==> scan_outcome(files, ttyname, now) == Ok::<bool, SessionError>(true),
        now >= created + time && (forall|i: int|
            0 <= i < at ==> !(#[trigger] files[i]).halts(ttyname, now)) ==> scan_expired(
            files,
            ttyname,
            now,
        ).contains(at as usize),
        now >= created + time && (forall|i: int|
            0 <= i < files.len() && i != at ==> !(#[trigger] files[i]).halts(ttyname, now))
            ==> scan_outcome(files, ttyname, now) == Ok::<bool, SessionError>(false),
{
    lemma_scan_stop(files, ttyname, now, 0);
    let stop = scan_stop(files, ttyname, now, 0);
    if now < created + time {
        assert(files[at].halts(ttyname, now));
    } else {
        assert(!files[at].halts(ttyname, now));
        assert(files[at].spent(now));
        if forall|i: int| 0 <= i < at ==> !(#[trigger] files[i]).halts(ttyname, now) {
            assert(stop > at) by {
                if stop <= at {
                    assert(files[stop].halts(ttyname, now));
                }
            }
            lemma_spent_before(files, now, stop, at as usize);
        }
    }
}

/// A look-up from one terminal is not answered by sessions that were granted
/// on others: where every session in the store belongs to another terminal,
/// the look-up says no.
pub proof fn law_tty_isolation(files: Seq<SessionFileView>, ttyname: Seq<char>, now: int)
    requires
        forall|i: int|
            0 <= i < files.len() ==> ((#[trigger] files[i]).record matches Some(session)
                && session.ttyname != ttyname),
    ensures
        scan_outcome(files, ttyname, now) == Ok::<bool, SessionError>(false),
{
    lemma_scan_stop(files, ttyname, now, 0);
}

} // verus!
