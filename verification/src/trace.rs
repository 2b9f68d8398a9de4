//! Whole launches: what the machine does over any sequence of replies, and
//! what holds of every such run.

use crate::preference::fullscreen_preference;
use crate::startup::{Failure, Phase, Reply, Request};
use serde_json::Value;
use vstd::prelude::*;

verus! {

/// The phase reached from `start` once the replies have come in, in order.
pub open spec fn phase_from(start: Phase, replies: Seq<Reply>) -> Phase
    decreases replies.len(),
{
    if replies.len() == 0 {
        start
    } else {
        phase_from(start.after(replies[0]), replies.drop_first())
    }
}

/// The requests that the replies set off from `start`, in the order in which
/// the machine issued them.
pub open spec fn issued_from(start: Phase, replies: Seq<Reply>) -> Seq<Request>
    decreases replies.len(),
{
    if replies.len() == 0 {
        Seq::empty()
    } else {
        let rest = issued_from(start.after(replies[0]), replies.drop_first());
        match start.issues(replies[0]) {
            Some(request) => seq![request] + rest,
            None => rest,
        }
    }
}

/// The phase of a launch that has received `replies` since it began.
pub open spec fn phase_of(replies: Seq<Reply>) -> Phase {
    phase_from(Phase::OpeningStore, replies)
}

/// Every request of a launch that has received `replies`: the opening of the
/// store, with which each launch begins, and what the replies set off.
pub open spec fn requests_of(replies: Seq<Reply>) -> Seq<Request> {
    seq![Request::OpenStore] + issued_from(Phase::OpeningStore, replies)
}

/// The place of a request in the one order in which a launch makes its
/// calls.
pub open spec fn position(request: Request) -> int {
    match request {
        Request::OpenStore => 0,
        Request::ReadSettings => 1,
        Request::FindWindow => 2,
        Request::SetFullscreen(_) => 3,
        Request::ShowWindow => 4,
    }
}

/// Whether a request changes the window.
pub open spec fn touches_window(request: Request) -> bool {
    request is SetFullscreen || request is ShowWindow
}

/// The place of a phase: that of its outstanding request, and one past the
/// last request for a launch that has ended.
pub open spec fn stage(phase: Phase) -> int {
    match phase.pending() {
        Some(request) => position(request),
        None => 5,
    }
}

/// Replies that come one after the other act like their concatenation.
pub proof fn lemma_replies_compose(start: Phase, first: Seq<Reply>, second: Seq<Reply>)
    ensures
        phase_from(start, first + second) == phase_from(phase_from(start, first), second),
        issued_from(start, first + second) == issued_from(start, first) + issued_from(
            phase_from(start, first),
            second,
        ),
    decreases first.len(),
{
    if first.len() == 0 {
        assert(first + second =~= second);
        assert(issued_from(start, first) + issued_from(start, second) =~= issued_from(
            start,
            second,
        ));
    } else {
        let all = first + second;
        assert(all[0] == first[0]);
        assert(all.drop_first() =~= first.drop_first() + second);
        let next = start.after(first[0]);
        lemma_replies_compose(next, first.drop_first(), second);
        let head = issued_from(next, first.drop_first());
        let tail = issued_from(phase_from(next, first.drop_first()), second);
        match start.issues(first[0]) {
            Some(request) => {
                assert(seq![request] + (head + tail) =~= (seq![request] + head) + tail);
            },
            None => {},
        }
    }
}

/// From any phase, the requests come out in consecutive places, one for each
/// stage that the launch moves on; a launch that has ended issues nothing
/// more and stays where it is.
pub proof fn lemma_stages_advance(start: Phase, replies: Seq<Reply>)
    ensures
        forall|i: int|
            0 <= i < issued_from(start, replies).len() ==> position(
                #[trigger] issued_from(start, replies)[i],
            ) == stage(start) + 1 + i,
        start.pending() is None ==> phase_from(start, replies) == start && issued_from(
            start,
            replies,
        ).len() == 0,
        phase_from(start, replies).pending() is Some ==> issued_from(start, replies).len()
            == stage(phase_from(start, replies)) - stage(start),
    decreases replies.len(),
{
    if replies.len() > 0 {
        let next = start.after(replies[0]);
        let rest = issued_from(next, replies.drop_first());
        lemma_stages_advance(next, replies.drop_first());
        match start.issues(replies[0]) {
            Some(request) => {
                let out = seq![request] + rest;
                assert forall|i: int| 0 <= i < out.len() implies position(#[trigger] out[i])
                    == stage(start) + 1 + i by {
                    if i > 0 {
                        assert(out[i] == rest[i - 1]);
                    }
                }
            },
            None => {},
        }
    }
}

/// The requests of a launch stand in the one fixed order, whatever replies
/// come in: the store is opened, the settings are read, the window is looked
/// up, its display mode is set, it is shown. The launch may end before the
/// last of them, but it never skips, repeats or reorders one.
pub proof fn law_requests_in_order(replies: Seq<Reply>)
    ensures
        1 <= requests_of(replies).len() <= 5,
        forall|i: int|
            0 <= i < requests_of(replies).len() ==> position(#[trigger] requests_of(replies)[i])
                == i,
{
    let issued = issued_from(Phase::OpeningStore, replies);
    lemma_stages_advance(Phase::OpeningStore, replies);
    let all = requests_of(replies);
    assert forall|i: int| 0 <= i < all.len() implies position(#[trigger] all[i]) == i by {
        if i > 0 {
            assert(all[i] == issued[i - 1]);
        }
    }
    if all.len() > 5 {
        assert(position(all[5]) == 5);
    }
}

/// The window is shown only after its display mode was set: the request that
/// comes directly before showing the window is the one that sets the mode,
/// and the window is shown at most once.
pub proof fn law_fullscreen_precedes_show(replies: Seq<Reply>, i: int)
    requires
        0 <= i < requests_of(replies).len(),
        requests_of(replies)[i] is ShowWindow,
    ensures
        i >= 1,
        requests_of(replies)[i - 1] is SetFullscreen,
        forall|j: int|
            0 <= j < requests_of(replies).len() && j != i ==> !(
            #[trigger] requests_of(replies)[j] is ShowWindow),
        forall|j: int|
            0 <= j < requests_of(replies).len() && j != i - 1 ==> !(
            #[trigger] requests_of(replies)[j] is SetFullscreen),
{
    law_requests_in_order(replies);
    let all = requests_of(replies);
    assert(position(all[i]) == i);
    assert(position(all[i - 1]) == i - 1);
    assert forall|j: int| 0 <= j < all.len() && j != i implies !(#[trigger] all[j]
        is ShowWindow) by {
        assert(position(all[j]) == j);
    }
    assert forall|j: int| 0 <= j < all.len() && j != i - 1 implies !(#[trigger] all[j]
        is SetFullscreen) by {
        assert(position(all[j]) == j);
    }
}

/// Whenever the window is found, the resolved preference is applied to it,
/// and only once that went through is it shown. Nothing had touched the
/// window before.
pub proof fn law_found_window_is_configured_then_shown(before: Seq<Reply>)
    requires
        phase_of(before) is FindingWindow,
    ensures
        forall|i: int|
            0 <= i < requests_of(before).len() ==> !touches_window(
                #[trigger] requests_of(before)[i],
            ),
        requests_of(before.push(Reply::WindowFound)) == requests_of(before).push(
            Request::SetFullscreen(phase_of(before)->FindingWindow_fullscreen),
        ),
        requests_of(before.push(Reply::WindowFound).push(Reply::Succeeded)) == requests_of(
            before,
        ).push(Request::SetFullscreen(phase_of(before)->FindingWindow_fullscreen)).push(
            Request::ShowWindow,
        ),
        phase_of(before.push(Reply::WindowFound).push(Reply::Succeeded).push(Reply::Succeeded))
            == Phase::Running,
{
    let start = Phase::OpeningStore;
    let found = phase_of(before);
    let fullscreen = found->FindingWindow_fullscreen;
    law_requests_in_order(before);
    lemma_stages_advance(start, before);
    assert forall|i: int| 0 <= i < requests_of(before).len() implies !touches_window(
        #[trigger] requests_of(before)[i],
    ) by {
        assert(position(requests_of(before)[i]) == i);
    }
    let one = seq![Reply::WindowFound];
    let two = seq![Reply::WindowFound, Reply::Succeeded];
    let three = seq![Reply::WindowFound, Reply::Succeeded, Reply::Succeeded];
    assert(before.push(Reply::WindowFound) =~= before + one);
    assert(before.push(Reply::WindowFound).push(Reply::Succeeded) =~= before + two);
    assert(before.push(Reply::WindowFound).push(Reply::Succeeded).push(Reply::Succeeded)
        =~= before + three);
    lemma_replies_compose(start, before, one);
    lemma_replies_compose(start, before, two);
    lemma_replies_compose(start, before, three);
    lemma_found_window_run(fullscreen);
    assert(requests_of(before + one) =~= requests_of(before).push(
        Request::SetFullscreen(fullscreen),
    ));
    assert(requests_of(before + two) =~= requests_of(before).push(
        Request::SetFullscreen(fullscreen),
    ).push(Request::ShowWindow));
}

/// What the machine does from the moment the window is found.
proof fn lemma_found_window_run(fullscreen: bool)
    ensures
        issued_from(Phase::FindingWindow { fullscreen }, seq![Reply::WindowFound]) == seq![
            Request::SetFullscreen(fullscreen),
        ],
        issued_from(
            Phase::FindingWindow { fullscreen },
            seq![Reply::WindowFound, Reply::Succeeded],
        ) == seq![Request::SetFullscreen(fullscreen), Request::ShowWindow],
        phase_from(
            Phase::FindingWindow { fullscreen },
            seq![Reply::WindowFound, Reply::Succeeded, Reply::Succeeded],
        ) == Phase::Running,
{
    let finding = Phase::FindingWindow { fullscreen };
    let applying = Phase::ApplyingFullscreen { fullscreen };
    let none = Seq::<Reply>::empty();
    let last = seq![Reply::Succeeded];
    let last_two = seq![Reply::Succeeded, Reply::Succeeded];
    assert(seq![Reply::WindowFound].drop_first() =~= none);
    assert(seq![Reply::WindowFound, Reply::Succeeded].drop_first() =~= last);
    assert(seq![Reply::WindowFound, Reply::Succeeded, Reply::Succeeded].drop_first()
        =~= last_two);
    assert(last.drop_first() =~= none);
    assert(last_two.drop_first() =~= last);
    assert(issued_from(applying, none) =~= Seq::<Request>::empty());
    assert(issued_from(Phase::ShowingWindow, none) =~= Seq::<Request>::empty());
    assert(issued_from(applying, last) =~= seq![Request::ShowWindow]);
    assert(phase_from(Phase::Running, none) == Phase::Running);
    assert(phase_from(Phase::ShowingWindow, last) == Phase::Running);
    assert(phase_from(applying, last_two) == Phase::Running);
    assert(issued_from(finding, seq![Reply::WindowFound]) =~= seq![
        Request::SetFullscreen(fullscreen),
    ]);
    assert(issued_from(finding, seq![Reply::WindowFound, Reply::Succeeded]) =~= seq![
        Request::SetFullscreen(fullscreen),
        Request::ShowWindow,
    ]);
}

/// Where the store cannot be opened, the launch is abandoned for that reason
/// and stays abandoned: whatever comes in later, the opening of the store
/// remains its only request, so the window is neither looked up nor changed.
pub proof fn law_store_failure_leaves_window_alone(before: Seq<Reply>, later: Seq<Reply>)
    requires
        phase_of(before) == Phase::OpeningStore,
    ensures
        phase_of(before.push(Reply::StoreFailed) + later) == (Phase::Aborted {
            failure: Failure::StoreUnavailable,
        }),
        requests_of(before.push(Reply::StoreFailed) + later) == seq![Request::OpenStore],
{
    let start = Phase::OpeningStore;
    let aborted = Phase::Aborted { failure: Failure::StoreUnavailable };
    let failed = seq![Reply::StoreFailed];
    assert(before.push(Reply::StoreFailed) =~= before + failed);
    lemma_stages_advance(start, before);
    lemma_replies_compose(start, before, failed);
    lemma_replies_compose(start, before + failed, later);
    assert(failed.drop_first() =~= Seq::<Reply>::empty());
    assert(phase_from(aborted, Seq::<Reply>::empty()) == aborted);
    assert(phase_from(start, failed) == aborted);
    assert(issued_from(aborted, Seq::<Reply>::empty()) =~= Seq::<Request>::empty());
    assert(issued_from(start, failed) =~= Seq::<Request>::empty());
    lemma_stages_advance(aborted, later);
    assert(requests_of(before.push(Reply::StoreFailed) + later) =~= seq![Request::OpenStore]);
}

/// Where the window does not exist, the launch is complete without an error
/// and stays complete: whatever comes in later, no request of the launch
/// ever touches the window.
pub proof fn law_missing_window_is_no_error(before: Seq<Reply>, later: Seq<Reply>)
    requires
        phase_of(before) is FindingWindow,
    ensures
        phase_of(before.push(Reply::WindowMissing) + later) == Phase::Running,
        phase_of(before.push(Reply::WindowMissing) + later).ended() == Some(
            Ok::<(), Failure>(()),
        ),
        requests_of(before.push(Reply::WindowMissing) + later) == requests_of(before),
        forall|i: int|
            0 <= i < requests_of(before.push(Reply::WindowMissing) + later).len()
                ==> !touches_window(
                #[trigger] requests_of(before.push(Reply::WindowMissing) + later)[i],
            ),
{
    let start = Phase::OpeningStore;
    let finding = phase_of(before);
    let missing = seq![Reply::WindowMissing];
    let whole = before.push(Reply::WindowMissing) + later;
    assert(before.push(Reply::WindowMissing) =~= before + missing);
    lemma_replies_compose(start, before, missing);
    lemma_replies_compose(start, before + missing, later);
    assert(missing.drop_first() =~= Seq::<Reply>::empty());
    assert(phase_from(Phase::Running, Seq::<Reply>::empty()) == Phase::Running);
    assert(phase_from(finding, missing) == Phase::Running);
    assert(issued_from(Phase::Running, Seq::<Reply>::empty()) =~= Seq::<Request>::empty());
    assert(issued_from(finding, missing) =~= Seq::<Request>::empty());
    lemma_stages_advance(Phase::Running, later);
    assert(requests_of(whole) =~= requests_of(before));
    law_requests_in_order(before);
    lemma_stages_advance(start, before);
    assert forall|i: int| 0 <= i < requests_of(whole).len() implies !touches_window(
        #[trigger] requests_of(whole)[i],
    ) by {
        assert(position(requests_of(before)[i]) == i);
    }
}

/// A launch in which every call goes through: the window is put into the
/// mode that the settings document resolves to, then shown, and the launch is
/// complete.
pub proof fn law_complete_launch(document: Option<Value>)
    ensures
        requests_of(
            seq![
                Reply::StoreOpened,
                Reply::Settings(document),
                Reply::WindowFound,
                Reply::Succeeded,
                Reply::Succeeded,
            ],
        ) == seq![
            Request::OpenStore,
            Request::ReadSettings,
            Request::FindWindow,
            Request::SetFullscreen(fullscreen_preference(document)),
            Request::ShowWindow,
        ],
        phase_of(
            seq![
                Reply::StoreOpened,
                Reply::Settings(document),
                Reply::WindowFound,
                Reply::Succeeded,
                Reply::Succeeded,
            ],
        ) == Phase::Running,
{
    let fullscreen = fullscreen_preference(document);
    let start = Phase::OpeningStore;
    let finding = Phase::FindingWindow { fullscreen };
    let none = Seq::<Reply>::empty();
    let opening = seq![Reply::StoreOpened, Reply::Settings(document)];
    let reading = seq![Reply::Settings(document)];
    let window = seq![Reply::WindowFound, Reply::Succeeded, Reply::Succeeded];
    let window_two = seq![Reply::WindowFound, Reply::Succeeded];
    let last = seq![Reply::Succeeded];
    let whole = seq![
        Reply::StoreOpened,
        Reply::Settings(document),
        Reply::WindowFound,
        Reply::Succeeded,
        Reply::Succeeded,
    ];
    assert(whole =~= opening + window);
    assert(window =~= window_two + last);
    assert(opening.drop_first() =~= reading);
    assert(reading.drop_first() =~= none);
    assert(phase_from(finding, none) == finding);
    assert(issued_from(finding, none) =~= Seq::<Request>::empty());
    assert(phase_from(Phase::ReadingSettings, reading) == finding);
    assert(issued_from(Phase::ReadingSettings, reading) =~= seq![Request::FindWindow]);
    assert(phase_from(start, opening) == finding);
    assert(issued_from(start, opening) =~= seq![Request::ReadSettings, Request::FindWindow]);
    lemma_found_window_run(fullscreen);
    lemma_replies_compose(start, opening, window);
    lemma_replies_compose(finding, window_two, last);
    lemma_stages_advance(finding, window);
    lemma_stages_advance(finding, window_two);
    assert(phase_from(finding, window_two) == Phase::ShowingWindow) by {
        let applying = Phase::ApplyingFullscreen { fullscreen };
        assert(window_two.drop_first() =~= last);
        assert(last.drop_first() =~= none);
        assert(phase_from(Phase::ShowingWindow, none) == Phase::ShowingWindow);
        assert(phase_from(applying, last) == Phase::ShowingWindow);
    }
    assert(last.drop_first() =~= none);
    assert(issued_from(Phase::Running, none) =~= Seq::<Request>::empty());
    assert(issued_from(Phase::ShowingWindow, last) =~= Seq::<Request>::empty());
    assert(issued_from(finding, window) =~= seq![
        Request::SetFullscreen(fullscreen),
        Request::ShowWindow,
    ]);
    assert(requests_of(whole) =~= seq![
        Request::OpenStore,
        Request::ReadSettings,
        Request::FindWindow,
        Request::SetFullscreen(fullscreen),
        Request::ShowWindow,
    ]);
}

} // verus!
