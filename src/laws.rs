use vstd::prelude::*;

use crate::app::{
    may_select, step, AppState, AppView, Command, Message, Progress, SaveOp,
};
use crate::catalog::{find_from, index_of_id, panels_of};
use crate::panel::{course_with_vote, upvote_of, Course2Response, SmmdbCoursePanel};

verus! {

/// The view after the events, handled in order.
pub open spec fn run(v: AppView, ms: Seq<Message>) -> AppView
    decreases ms.len(),
{
    if ms.len() == 0 {
        v
    } else {
        run(step(v, ms[0]).0, ms.drop_first())
    }
}

pub open spec fn is_initiation(m: Message) -> bool {
    m is InitSwapCourse || m is InitDownloadCourse || m is InitDeleteCourse
}

/// Any number of swap, download or delete initiations followed by a cancel,
/// starting at rest or in a selection, ends at rest with nothing else changed:
/// in particular the save is untouched.
pub proof fn lemma_cancel_after_initiations(v: AppView, ms: Seq<Message>)
    requires
        may_select(v.state),
        forall|i: int| 0 <= i < ms.len() ==> is_initiation(#[trigger] ms[i]),
    ensures
        run(v, ms.push(Message::CancelSelection)) == (AppView { state: AppState::Default, ..v }),
    decreases ms.len(),
{
    let all = ms.push(Message::CancelSelection);
    if ms.len() == 0 {
        assert(all.drop_first() =~= Seq::<Message>::empty());
        let v1 = step(v, Message::CancelSelection).0;
        assert(v1 == (AppView { state: AppState::Default, ..v }));
        assert(run(v1, all.drop_first()) == v1);
        assert(all[0] == Message::CancelSelection);
    } else {
        assert(is_initiation(ms[0]));
        let v1 = step(v, ms[0]).0;
        assert(all.drop_first() =~= ms.drop_first().push(Message::CancelSelection));
        assert forall|i: int| 0 <= i < ms.drop_first().len() implies is_initiation(
            #[trigger] ms.drop_first()[i],
        ) by {
            assert(ms.drop_first()[i] == ms[i + 1]);
        }
        lemma_cancel_after_initiations(v1, ms.drop_first());
        assert(all[0] == ms[0]);
    }
}

/// A swap confirmation outside the swap selection changes nothing and asks
/// for nothing.
pub proof fn lemma_swap_only_from_selection(v: AppView, a: usize, b: usize)
    requires
        !(v.state is SwapSelect),
    ensures
        step(v, Message::SwapCourse(a, b)) == (v, Seq::<Command>::empty()),
{
    assert(seq![] =~= Seq::<Command>::empty());
}

/// Confirming a swap in the swap selection of `anchor`, with a save open,
/// blocks and asks to swap the anchor with the target, whatever slot the
/// event names first.
pub proof fn lemma_swap_from_selection(v: AppView, anchor: usize, first: usize, target: usize)
    requires
        v.state == AppState::SwapSelect(anchor),
        v.save is Some,
    ensures
        ({
            let (v1, cmds) = step(v, Message::SwapCourse(first, target));
            &&& v1 == (AppView { state: AppState::Loading, save_in_flight: true, ..v })
            &&& cmds == seq![Command::ModifySave(SaveOp::Swap(anchor, target))]
        }),
{
}

proof fn lemma_first_index(ps: Seq<SmmdbCoursePanel>, id: Seq<char>, k: int, i: int)
    requires
        0 <= i <= k < ps.len(),
        ps[k].course.id@ == id,
        forall|j: int| 0 <= j < k ==> #[trigger] ps[j].course.id@ != id,
    ensures
        find_from(ps, id, i) == k,
    decreases k - i,
{
    if i < k {
        lemma_first_index(ps, id, k, i + 1);
    }
}

/// A fetched list replaces the catalog exactly, each course with the own vote
/// that came with it and no thumbnail; then a thumbnail for one of the
/// courses (their ids distinct) changes that course's entry alone. Unless a
/// save operation or a download is under way, the controller ends at rest,
/// with no error.
pub proof fn lemma_fetch_then_thumbnail(
    v: AppView,
    cs: Vec<Course2Response>,
    k: int,
    t: Vec<u8>,
)
    requires
        0 <= k < cs@.len(),
        forall|i: int, j: int|
            0 <= i < cs@.len() && 0 <= j < cs@.len() && i != j ==> #[trigger] cs@[i].id@
                != #[trigger] cs@[j].id@,
    ensures
        ({
            let v1 = step(v, Message::SetSmmdbCourses(cs)).0;
            let v2 = step(v1, Message::SetSmmdbCourseThumbnail(t, cs@[k].id)).0;
            &&& (!v.save_in_flight && !(v.state is Downloading)) ==> v1.state is Default
            &&& v1.error is None
            &&& v1.panels.len() == cs@.len()
            &&& forall|i: int|
                0 <= i < cs@.len() ==> #[trigger] v1.panels[i] == (SmmdbCoursePanel {
                    course: cs@[i],
                    thumbnail: None,
                })
            &&& v2.panels.len() == cs@.len()
            &&& v2.panels[k] == (SmmdbCoursePanel { course: cs@[k], thumbnail: Some(t) })
            &&& forall|j: int|
                0 <= j < cs@.len() && j != k ==> #[trigger] v2.panels[j] == v1.panels[j]
            &&& v2.state == v1.state
            &&& v2.error == v1.error
        }),
{
    let ps = panels_of(cs@);
    assert forall|j: int| 0 <= j < k implies #[trigger] ps[j].course.id@ != cs@[k].id@ by {
        assert(ps[j].course == cs@[j]);
    }
    lemma_first_index(ps, cs@[k].id@, k, 0);
    assert(index_of_id(ps, cs@[k].id@) == k);
}

/// Changing the title filter sends the query back to the first page and
/// fetches with it, whatever page was shown.
pub proof fn lemma_filter_resets_page(v: AppView, title: String)
    ensures
        ({
            let (v1, cmds) = step(v, Message::TitleChanged(title));
            &&& v1.query.page == 0
            &&& v1.query.title == title
            &&& cmds.len() == 1
            &&& cmds[0] == Command::FetchCourses { params: v1.query, apikey: v.settings.apikey }
        }),
{
}

/// Within one download the progress is reset by `Started` and then follows
/// the `Advanced` events, so it never falls between non-decreasing ones; the
/// finished payload is added to the chosen slot, and once that is done the
/// controller is back at rest with no error.
pub proof fn lemma_download_progress(
    v: AppView,
    slot: usize,
    id: String,
    p: u32,
    a: u32,
    b: u32,
    data: Vec<u8>,
)
    requires
        v.state == (AppState::Downloading { save_index: slot, smmdb_id: id, progress: p }),
        v.save is Some,
        !v.save_in_flight,
        a <= b,
    ensures
        ({
            let v1 = step(v, Message::DownloadProgressed(Progress::Started)).0;
            let v2 = step(v1, Message::DownloadProgressed(Progress::Advanced(a))).0;
            let v3 = step(v2, Message::DownloadProgressed(Progress::Advanced(b))).0;
            let (v4, cmds) = step(v3, Message::DownloadProgressed(Progress::Finished(data)));
            let v5 = step(v4, Message::SaveModified(SaveOp::Add(slot, data))).0;
            &&& v1.state == (AppState::Downloading { save_index: slot, smmdb_id: id, progress: 0 })
            &&& v2.state == (AppState::Downloading { save_index: slot, smmdb_id: id, progress: a })
            &&& v3.state == (AppState::Downloading { save_index: slot, smmdb_id: id, progress: b })
            &&& v2.state->progress <= v3.state->progress
            &&& v4.state is Loading
            &&& cmds == seq![Command::ModifySave(SaveOp::Add(slot, data))]
            &&& v5.state is Default
            &&& v5.error is None
        }),
{
}

/// A vote with a credential changes nothing at once and asks for the vote;
/// the confirmation then records the vote on the course, after which the up
/// arrow of that course asks to take the vote back rather than vote again.
pub proof fn lemma_vote_round_trip(v: AppView, id: String)
    requires
        v.settings.apikey is Some,
        index_of_id(v.panels, id@) >= 0,
    ensures
        ({
            let (v1, cmds) = step(v, Message::UpvoteCourse(id));
            let v2 = step(v1, Message::SetVoteCourse(id, 1)).0;
            let k = index_of_id(v.panels, id@);
            &&& v1 == v
            &&& cmds == seq![
                Command::Vote { course_id: id, value: 1, apikey: v.settings.apikey->Some_0 },
            ]
            &&& v2.panels == v.panels.update(
                k,
                SmmdbCoursePanel {
                    course: course_with_vote(v.panels[k].course, 1),
                    thumbnail: v.panels[k].thumbnail,
                },
            )
            &&& v2.panels[k].course.own_vote == 1
            &&& upvote_of(v2.panels[k]) == Message::ResetCourseVote(v.panels[k].course.id)
        }),
{
    crate::catalog::lemma_find_from_range(v.panels, id@, 0);
}

/// The controller's invariant: while an open or a change of the save is
/// outstanding the controller is blocked, and a download always has a save
/// to land in.
pub open spec fn wf(v: AppView) -> bool {
    &&& v.save_in_flight ==> v.state is Loading
    &&& v.state is Downloading ==> v.save is Some
}

/// Every event keeps the invariant.
pub proof fn lemma_step_keeps_wf(v: AppView, m: Message)
    requires
        wf(v),
    ensures
        wf(step(v, m).0),
{
}

/// Operations on the save exclude each other: while one is outstanding no
/// event starts another change of the save or another folder pick, and only
/// the picker's own answer may lead on to opening a save.
pub proof fn lemma_save_work_exclusive(v: AppView, m: Message)
    requires
        wf(v),
        v.save_in_flight,
    ensures
        forall|i: int|
            0 <= i < step(v, m).1.len() ==> !(#[trigger] step(v, m).1[i] is ModifySave) && !(
            step(v, m).1[i] is PickSaveFolder),
        !(m is FolderPicked) ==> forall|i: int|
            0 <= i < step(v, m).1.len() ==> !(#[trigger] step(v, m).1[i] is OpenSave),
{
}

} // verus!
