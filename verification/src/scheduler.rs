//! The bounded fan-out: which identifier may be fetched next, how many
//! fetches are under way, and which outcome belongs to which identifier.
//!
//! The scheduler does no fetching of its own. It is asked what to do next,
//! told what came back, and keeps the books: never more than the limit under
//! way, every identifier started once, every outcome stored once and in the
//! place of its identifier, whatever the order in which fetches end.

use vstd::prelude::*;
use vstd::string::StringExecFns;
use crate::error::AppError;
use crate::fetch::FetchOutcome;
use crate::fetch::OutcomeView;
use crate::text::texts;

verus! {

/// Where one identifier stands.
#[derive(Debug)]
pub enum Slot {
    /// Not started yet.
    Queued,
    /// Started, and no outcome yet.
    InFlight,
    /// Ended with this outcome.
    Done(FetchOutcome),
}

/// A slot as plain values.
pub enum SlotView {
    Queued,
    InFlight,
    Done(OutcomeView),
}

impl View for Slot {
    type V = SlotView;

    open spec fn view(&self) -> SlotView {
        match self {
            Slot::Queued => SlotView::Queued,
            Slot::InFlight => SlotView::InFlight,
            Slot::Done(outcome) => SlotView::Done(outcome@),
        }
    }
}

/// What the driver of the fan-out is to do next.
#[derive(Debug, PartialEq, Eq, Clone, Copy)]
pub enum Step {
    /// Start the fetch of the identifier at this position.
    Start(usize),
    /// Start nothing; wait for a fetch that is under way to end.
    Wait,
    /// Nothing is left to start or to wait for.
    Finished,
}

/// The books of one fan-out as plain values.
pub struct SchedulerView {
    /// The identifiers, in the order of the listing.
    pub ids: Seq<Seq<char>>,
    /// How many fetches may be under way at once.
    pub limit: nat,
    /// Where each identifier stands, position by position.
    pub slots: Seq<SlotView>,
}

/// The books of one fan-out.
#[derive(Debug)]
pub struct Scheduler {
    ids: Vec<String>,
    limit: usize,
    slots: Vec<Slot>,
    next: usize,
    in_flight: usize,
}

/// How many of the slots are under way.
pub open spec fn in_flight_count(slots: Seq<SlotView>) -> nat
    decreases slots.len(),
{
    if slots.len() == 0 {
        0
    } else {
        in_flight_count(slots.drop_last()) + if slots.last() is InFlight {
            1nat
        } else {
            0nat
        }
    }
}

/// The position of the first slot that is still queued, or the number of
/// slots where none is.
pub open spec fn first_queued(slots: Seq<SlotView>) -> nat
    decreases slots.len(),
{
    if slots.len() == 0 {
        0
    } else if slots[0] is Queued {
        0
    } else {
        1 + first_queued(slots.drop_first())
    }
}

/// Whether every slot holds an outcome.
pub open spec fn all_done(slots: Seq<SlotView>) -> bool {
    forall|i: int| 0 <= i < slots.len() ==> (#[trigger] slots[i]) is Done
}

/// Whether the slots are those of a fan-out that starts its identifiers in
/// order: behind the first queued slot every slot is queued.
pub open spec fn in_order(slots: Seq<SlotView>) -> bool {
    forall|i: int| first_queued(slots) <= i < slots.len() ==> (#[trigger] slots[i]) is Queued
}

impl SchedulerView {
    /// What holds of the books at every moment of a fan-out.
    pub open spec fn valid(self) -> bool {
        &&& self.limit > 0
        &&& self.slots.len() == self.ids.len()
        &&& in_order(self.slots)
        &&& in_flight_count(self.slots) <= self.limit
    }

    /// Whether a fetch can be started now: one is queued and the limit is not
    /// reached.
    pub open spec fn can_start(self) -> bool {
        first_queued(self.slots) < self.slots.len() && in_flight_count(self.slots) < self.limit
    }

    /// The books after the first queued identifier is started.
    pub open spec fn started(self) -> SchedulerView {
        SchedulerView {
            slots: self.slots.update(first_queued(self.slots) as int, SlotView::InFlight),
            ..self
        }
    }

    /// Whether an outcome for position `index` can be taken: its fetch is
    /// under way.
    pub open spec fn awaits(self, index: int) -> bool {
        0 <= index < self.slots.len() && self.slots[index] is InFlight
    }

    /// The books after the fetch at `index` ended with `outcome`.
    pub open spec fn completed(self, index: int, outcome: OutcomeView) -> SchedulerView {
        SchedulerView { slots: self.slots.update(index, SlotView::Done(outcome)), ..self }
    }

    /// What the driver is told to do.
    pub open spec fn next_step(self) -> Step {
        if self.can_start() {
            Step::Start(first_queued(self.slots) as usize)
        } else if in_flight_count(self.slots) > 0 {
            Step::Wait
        } else {
            Step::Finished
        }
    }

    /// The outcomes, position by position, once every slot holds one.
    pub open spec fn outcomes(self) -> Seq<OutcomeView> {
        Seq::new(self.slots.len(), |i: int| self.slots[i]->Done_0)
    }
}

/// The message that refuses a limit of zero.
pub open spec fn zero_limit_message() -> Seq<char> {
    "Concurrency limit must be greater than zero"@
}

/// The message that refuses an outcome for a fetch that is not under way.
pub open spec fn not_in_flight_message() -> Seq<char> {
    "no fetch is under way for this identifier"@
}

/// The count of slots under way is at most the number of slots, and it is
/// zero exactly when no slot is under way.
pub proof fn lemma_count_bounds(slots: Seq<SlotView>)
    ensures
        in_flight_count(slots) <= slots.len(),
        in_flight_count(slots) == 0 <==> forall|i: int|
            0 <= i < slots.len() ==> !((#[trigger] slots[i]) is InFlight),
    decreases slots.len(),
{
    if slots.len() > 0 {
        let front = slots.drop_last();
        lemma_count_bounds(front);
        if in_flight_count(slots) == 0 {
            assert forall|i: int| 0 <= i < slots.len() implies !((#[trigger] slots[i]) is InFlight) by {
                if i < front.len() {
                    assert(front[i] == slots[i]);
                }
            }
        } else if !(slots.last() is InFlight) {
            let k = choose|k: int| 0 <= k < front.len() && (#[trigger] front[k]) is InFlight;
            assert(slots[k] is InFlight);
        }
    }
}

/// Putting `slot` at `index` changes the count by what leaves and what comes.
pub proof fn lemma_count_update(slots: Seq<SlotView>, index: int, slot: SlotView)
    requires
        0 <= index < slots.len(),
    ensures
        in_flight_count(slots.update(index, slot)) + (if slots[index] is InFlight {
            1nat
        } else {
            0nat
        }) == in_flight_count(slots) + (if slot is InFlight {
            1nat
        } else {
            0nat
        }),
    decreases slots.len(),
{
    let after = slots.update(index, slot);
    if index == slots.len() - 1 {
        assert(after.drop_last() =~= slots.drop_last());
    } else {
        assert(after.drop_last() =~= slots.drop_last().update(index, slot));
        lemma_count_update(slots.drop_last(), index, slot);
    }
}

/// `first_queued` is the one position with no queued slot before it that is
/// queued itself or the end.
pub proof fn lemma_first_queued(slots: Seq<SlotView>, k: int)
    requires
        0 <= k <= slots.len(),
        forall|i: int| 0 <= i < k ==> !((#[trigger] slots[i]) is Queued),
        k < slots.len() ==> slots[k] is Queued,
    ensures
        first_queued(slots) == k,
    decreases slots.len(),
{
    if slots.len() > 0 && k > 0 {
        let rest = slots.drop_first();
        assert(!(slots[0] is Queued));
        assert forall|i: int| 0 <= i < k - 1 implies !((#[trigger] rest[i]) is Queued) by {
            assert(rest[i] == slots[i + 1]);
        }
        lemma_first_queued(rest, k - 1);
    }
}

/// No slot before `first_queued` is queued, and the slot there is.
pub proof fn lemma_first_queued_bounds(slots: Seq<SlotView>)
    ensures
        first_queued(slots) <= slots.len(),
        forall|i: int| 0 <= i < first_queued(slots) ==> !((#[trigger] slots[i]) is Queued),
        first_queued(slots) < slots.len() ==> slots[first_queued(slots) as int] is Queued,
    decreases slots.len(),
{
    if slots.len() > 0 && !(slots[0] is Queued) {
        let rest = slots.drop_first();
        lemma_first_queued_bounds(rest);
        assert forall|i: int| 0 <= i < first_queued(slots) implies !((#[trigger] slots[i]) is Queued) by {
            if i > 0 {
                assert(rest[i - 1] == slots[i]);
            }
        }
        if first_queued(slots) < slots.len() {
            assert(rest[first_queued(rest) as int] == slots[first_queued(slots) as int]);
        }
    }
}

/// Starting the first queued identifier keeps the books valid, puts one more
/// fetch under way, and moves the queue on by one.
pub proof fn lemma_started(books: SchedulerView)
    requires
        books.valid(),
        books.can_start(),
    ensures
        books.started().valid(),
        in_flight_count(books.started().slots) == in_flight_count(books.slots) + 1,
        first_queued(books.started().slots) == first_queued(books.slots) + 1,
{
    let k = first_queued(books.slots) as int;
    let after = books.started().slots;
    lemma_first_queued_bounds(books.slots);
    lemma_count_update(books.slots, k, SlotView::InFlight);
    assert forall|i: int| 0 <= i < k + 1 implies !((#[trigger] after[i]) is Queued) by {
        if i < k {
            assert(after[i] == books.slots[i]);
        }
    }
    if k + 1 < after.len() {
        assert(books.slots[k + 1] is Queued);
    }
    lemma_first_queued(after, k + 1);
    assert forall|i: int| k + 1 <= i < after.len() implies (#[trigger] after[i]) is Queued by {
        assert(books.slots[i] is Queued);
    }
}

/// Storing the outcome of a fetch that is under way keeps the books valid,
/// takes one fetch from those under way, and leaves the queue where it is.
pub proof fn lemma_completed(books: SchedulerView, index: int, outcome: OutcomeView)
    requires
        books.valid(),
        books.awaits(index),
    ensures
        books.completed(index, outcome).valid(),
        in_flight_count(books.completed(index, outcome).slots) + 1 == in_flight_count(books.slots),
        first_queued(books.completed(index, outcome).slots) == first_queued(books.slots),
{
    let k = first_queued(books.slots) as int;
    let after = books.completed(index, outcome).slots;
    lemma_first_queued_bounds(books.slots);
    lemma_count_update(books.slots, index, SlotView::Done(outcome));
    if index >= k {
        assert(books.slots[index] is Queued);
    }
    assert forall|i: int| 0 <= i < k implies !((#[trigger] after[i]) is Queued) by {
        if i != index {
            assert(after[i] == books.slots[i]);
        }
    }
    lemma_first_queued(after, k);
    assert forall|i: int| k <= i < after.len() implies (#[trigger] after[i]) is Queued by {
        assert(books.slots[i] is Queued);
    }
}

/// The limit holds: in valid books no more fetches are under way than the
/// limit allows, and a fetch is started only while fewer are.
pub proof fn lemma_limit_is_kept(books: SchedulerView)
    requires
        books.valid(),
    ensures
        in_flight_count(books.slots) <= books.limit,
        books.next_step() is Start ==> in_flight_count(books.started().slots) <= books.limit,
        books.next_step() is Start ==> books.started().valid(),
{
    if books.can_start() {
        lemma_started(books);
    }
}

/// The driver is told that nothing is left exactly when every identifier has
/// its outcome; until then it is told to start a fetch or to wait for one that
/// is under way, so a fan-out never stands still.
pub proof fn lemma_finished_means_all_done(books: SchedulerView)
    requires
        books.valid(),
    ensures
        books.next_step() is Finished <==> all_done(books.slots),
        books.next_step() is Wait ==> in_flight_count(books.slots) > 0,
{
    let k = first_queued(books.slots) as int;
    lemma_first_queued_bounds(books.slots);
    lemma_count_bounds(books.slots);
    if all_done(books.slots) {
        if k < books.slots.len() {
            assert(books.slots[k] is Done);
        }
        assert forall|i: int| 0 <= i < books.slots.len() implies !((#[trigger] books.slots[i]) is InFlight) by {
            assert(books.slots[i] is Done);
        }
    }
    if books.next_step() is Finished {
        assert forall|i: int| 0 <= i < books.slots.len() implies (#[trigger] books.slots[i]) is Done by {
            assert(!(books.slots[i] is InFlight));
            assert(!(books.slots[i] is Queued));
        }
    }
}

/// The order in which two fetches end makes no difference to the books.
pub proof fn lemma_completions_commute(
    books: SchedulerView,
    first: int,
    first_outcome: OutcomeView,
    second: int,
    second_outcome: OutcomeView,
)
    requires
        books.awaits(first),
        books.awaits(second),
        first != second,
    ensures
        books.completed(first, first_outcome).awaits(second),
        books.completed(second, second_outcome).awaits(first),
        books.completed(first, first_outcome).completed(second, second_outcome) == books.completed(
            second,
            second_outcome,
        ).completed(first, first_outcome),
{
    assert(books.slots.update(first, SlotView::Done(first_outcome)).update(
        second,
        SlotView::Done(second_outcome),
    ) =~= books.slots.update(second, SlotView::Done(second_outcome)).update(
        first,
        SlotView::Done(first_outcome),
    ));
}

/// Whether every outcome in the books is the one that `fetched` gives for its
/// position.
pub open spec fn agrees(books: SchedulerView, fetched: spec_fn(int) -> OutcomeView) -> bool {
    forall|i: int|
        0 <= i < books.slots.len() && (#[trigger] books.slots[i]) is Done ==> books.slots[i]
            == SlotView::Done(fetched(i))
}

/// Books that hold, for each position, the outcome of that position keep
/// doing so through every start and every end of a fetch.
pub proof fn lemma_agreement_is_kept(
    books: SchedulerView,
    fetched: spec_fn(int) -> OutcomeView,
    index: int,
)
    requires
        books.valid(),
        agrees(books, fetched),
    ensures
        books.can_start() ==> agrees(books.started(), fetched),
        books.awaits(index) ==> agrees(books.completed(index, fetched(index)), fetched),
{
    if books.can_start() {
        let after = books.started();
        lemma_first_queued_bounds(books.slots);
        assert forall|i: int| 0 <= i < after.slots.len() && (#[trigger] after.slots[i]) is Done implies after.slots[i]
            == SlotView::Done(fetched(i)) by {
            assert(after.slots[i] == books.slots[i]);
        }
    }
    if books.awaits(index) {
        let after = books.completed(index, fetched(index));
        assert forall|i: int| 0 <= i < after.slots.len() && (#[trigger] after.slots[i]) is Done implies after.slots[i]
            == SlotView::Done(fetched(i)) by {
            if i != index {
                assert(after.slots[i] == books.slots[i]);
            }
        }
    }
}

/// The outcomes of a finished fan-out do not depend on the order in which
/// its fetches ended: they are the outcome of each identifier, in the order
/// of the identifiers.
pub proof fn lemma_outcomes_follow_the_identifiers(
    books: SchedulerView,
    fetched: spec_fn(int) -> OutcomeView,
)
    requires
        agrees(books, fetched),
        all_done(books.slots),
    ensures
        books.outcomes() == Seq::new(books.slots.len(), |i: int| fetched(i)),
{
    assert(books.outcomes() =~= Seq::new(books.slots.len(), |i: int| fetched(i))) by {
        assert forall|i: int| 0 <= i < books.slots.len() implies books.outcomes()[i] == fetched(i) by {
            assert(books.slots[i] is Done);
        }
    }
}

/// A fetch that fails touches its own slot only: every other slot stays as it
/// is, the place under way is free again, and the books stay valid, so the
/// fan-out goes on as after any other outcome.
pub proof fn lemma_failure_is_isolated(books: SchedulerView, index: int, reason: Seq<char>)
    requires
        books.valid(),
        books.awaits(index),
    ensures
        books.completed(index, OutcomeView::Failed(reason)).valid(),
        in_flight_count(books.completed(index, OutcomeView::Failed(reason)).slots) < books.limit,
        forall|other: int|
            0 <= other < books.slots.len() && other != index ==> books.completed(
                index,
                OutcomeView::Failed(reason),
            ).slots[other] == #[trigger] books.slots[other],
        !(books.completed(index, OutcomeView::Failed(reason)).next_step() is Finished)
            ==> exists|other: int|
            0 <= other < books.slots.len() && other != index && !((#[trigger] books.slots[other]) is Done),
{
    let after = books.completed(index, OutcomeView::Failed(reason));
    lemma_completed(books, index, OutcomeView::Failed(reason));
    lemma_finished_means_all_done(after);
    if !(after.next_step() is Finished) {
        let other = choose|other: int| 0 <= other < after.slots.len() && !((#[trigger] after.slots[other]) is Done);
        assert(other != index);
        assert(books.slots[other] == after.slots[other]);
    }
}

impl View for Scheduler {
    type V = SchedulerView;

    closed spec fn view(&self) -> SchedulerView {
        SchedulerView {
            ids: texts(self.ids@),
            limit: self.limit as nat,
            slots: self.slots@.map_values(|slot: Slot| slot@),
        }
    }
}

impl Scheduler {
    /// What holds of a scheduler from `new` on: its books are valid, and its
    /// counters say what the slots say.
    pub closed spec fn wf(&self) -> bool {
        &&& self@.valid()
        &&& self.slots.len() == self.ids.len()
        &&& self.next == first_queued(self@.slots)
        &&& self.in_flight == in_flight_count(self@.slots)
    }

    /// A scheduler always has valid books.
    pub proof fn lemma_wf_is_valid(&self)
        requires
            self.wf(),
        ensures
            self@.valid(),
            in_flight_count(self@.slots) <= self@.limit,
    {
    }

    /// Books for `ids` with everything queued. A limit of zero is refused
    /// with the error `Config`.
    pub fn new(ids: Vec<String>, limit: usize) -> (r: Result<Scheduler, AppError>)
        ensures
            r is Ok <==> limit > 0,
            r is Ok ==> r.unwrap().wf() && r.unwrap()@ == (SchedulerView {
                ids: texts(ids@),
                limit: limit as nat,
                slots: Seq::new(ids@.len(), |i: int| SlotView::Queued),
            }),
            r is Err ==> r.unwrap_err() is Config && r.unwrap_err().detail() == zero_limit_message(),
    {
        if limit == 0 {
            return Err(
                AppError::Config(String::from_str("Concurrency limit must be greater than zero")),
            );
        }
        let mut slots: Vec<Slot> = Vec::new();
        let mut i: usize = 0;
        while i < ids.len()
            invariant
                i <= ids.len(),
                slots@.len() == i,
                forall|k: int| 0 <= k < i ==> (#[trigger] slots@[k]) is Queued,
            decreases ids.len() - i,
        {
            slots.push(Slot::Queued);
            i += 1;
        }
        let scheduler = Scheduler { ids, limit, slots, next: 0, in_flight: 0 };
        proof {
            let views = scheduler@.slots;
            assert(views =~= Seq::new(scheduler.ids@.len(), |i: int| SlotView::Queued));
            lemma_first_queued(views, 0);
            lemma_count_bounds(views);
        }
        Ok(scheduler)
    }

    /// How many identifiers there are.
    pub fn len(&self) -> (n: usize)
        requires
            self.wf(),
        ensures
            n == self@.ids.len(),
            n == self@.slots.len(),
    {
        self.ids.len()
    }

    /// The limit on fetches under way.
    pub fn limit(&self) -> (n: usize)
        requires
            self.wf(),
        ensures
            n == self@.limit,
            n > 0,
    {
        self.limit
    }

    /// How many fetches are under way; never more than the limit.
    pub fn in_flight(&self) -> (n: usize)
        requires
            self.wf(),
        ensures
            n == in_flight_count(self@.slots),
            n <= self@.limit,
    {
        self.in_flight
    }

    /// The identifier at `index`, or `None` behind the last.
    pub fn id(&self, index: usize) -> (id: Option<&str>)
        requires
            self.wf(),
        ensures
            id is Some <==> index < self@.ids.len(),
            id is Some ==> id.unwrap()@ == self@.ids[index as int],
    {
        if index < self.ids.len() {
            Some(self.ids[index].as_str())
        } else {
            None
        }
    }

    /// Says what to do next, and books the start where it says `Start`: the
    /// first queued identifier is then under way. It says `Start` while an
    /// identifier is queued and fewer fetches than the limit are under way,
    /// `Wait` while it can start nothing and fetches are under way, and
    /// `Finished` when every identifier has its outcome.
    pub fn step(&mut self) -> (step: Step)
        requires
            old(self).wf(),
        ensures
            final(self).wf(),
            step == old(self)@.next_step(),
            final(self)@ == if old(self)@.can_start() {
                old(self)@.started()
            } else {
                old(self)@
            },
            step is Finished <==> all_done(old(self)@.slots),
    {
        proof {
            lemma_finished_means_all_done(self@);
        }
        if self.next < self.slots.len() && self.in_flight < self.limit {
            let index = self.next;
            proof {
                lemma_started(self@);
            }
            let ghost before = self.slots@;
            self.slots.set(index, Slot::InFlight);
            self.next = index + 1;
            self.in_flight = self.in_flight + 1;
            proof {
                assert(self.slots@.map_values(|slot: Slot| slot@) =~= before.map_values(
                    |slot: Slot| slot@,
                ).update(index as int, SlotView::InFlight));
            }
            Step::Start(index)
        } else if self.in_flight > 0 {
            Step::Wait
        } else {
            Step::Finished
        }
    }

    /// Stores the outcome of the fetch at `index`. It is taken only while that
    /// fetch is under way: an outcome for an identifier that was not started,
    /// or that has one already, or for no identifier at all, is refused and
    /// changes nothing.
    pub fn complete(&mut self, index: usize, outcome: FetchOutcome) -> (r: Result<(), AppError>)
        requires
            old(self).wf(),
        ensures
            final(self).wf(),
            r is Ok <==> old(self)@.awaits(index as int),
            r is Ok ==> final(self)@ == old(self)@.completed(index as int, outcome@),
            r is Err ==> final(self)@ == old(self)@ && r.unwrap_err() is Other
                && r.unwrap_err().detail() == not_in_flight_message(),
    {
        let under_way = index < self.slots.len() && match &self.slots[index] {
            Slot::InFlight => true,
            _ => false,
        };
        if !under_way {
            return Err(AppError::Other(String::from_str("no fetch is under way for this identifier")));
        }
        proof {
            lemma_completed(self@, index as int, outcome@);
            lemma_count_bounds(self@.slots);
        }
        let ghost before = self.slots@;
        self.slots.set(index, Slot::Done(outcome));
        self.in_flight = self.in_flight - 1;
        proof {
            assert(self.slots@.map_values(|slot: Slot| slot@) =~= before.map_values(
                |slot: Slot| slot@,
            ).update(index as int, SlotView::Done(outcome@)));
        }
        Ok(())
    }

    /// Whether every identifier has its outcome.
    pub fn is_finished(&self) -> (b: bool)
        requires
            self.wf(),
        ensures
            b == all_done(self@.slots),
    {
        proof {
            lemma_finished_means_all_done(self@);
            lemma_first_queued_bounds(self@.slots);
        }
        self.next == self.slots.len() && self.in_flight == 0
    }

    /// The outcomes, in the order of the identifiers, once every identifier
    /// has one; `None` before that.
    pub fn into_outcomes(self) -> (r: Option<Vec<FetchOutcome>>)
        requires
            self.wf(),
        ensures
            r is Some <==> all_done(self@.slots),
            r is Some ==> r.unwrap()@.map_values(|o: FetchOutcome| o@) == self@.outcomes(),
    {
        if !self.is_finished() {
            return None;
        }
        let ghost views = self@.slots;
        let mut outcomes: Vec<FetchOutcome> = Vec::new();
        for slot in it: self.slots
            invariant
                it.seq().len() == views.len(),
                forall|i: int| 0 <= i < views.len() ==> (#[trigger] it.seq()[i])@ == views[i],
                all_done(views),
                outcomes@.len() == it.index(),
                forall|i: int|
                    0 <= i < outcomes@.len() ==> SlotView::Done((#[trigger] outcomes@[i])@) == views[i],
        {
            match slot {
                Slot::Done(outcome) => {
                    outcomes.push(outcome);
                },
                _ => {
                    assert(views[it.index() as int] is Done);
                    return None;
                },
            }
        }
        proof {
            assert(outcomes@.map_values(|o: FetchOutcome| o@) =~= self@.outcomes());
        }
        Some(outcomes)
    }
}

} // verus!
