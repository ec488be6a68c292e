//! The download orchestrator.
//!
//! A batch is an ordered list of download items processed strictly in
//! order. The producer side ([`BatchRun`]) records one completion at a
//! time and hands out the progress events — `Started` first, one
//! `Advanced` per completed item with percentage completed-items over
//! total-items, then one terminal `Finished` or `Errored`; a failure halts
//! the batch. The consumer side ([`Download`]) is the state machine a user
//! interface drives with those events.

use vstd::prelude::*;
use vstd::arithmetic::div_mod::{lemma_div_plus_one, lemma_div_is_ordered, lemma_multiply_divide_le};
use vstd::arithmetic::mul::lemma_mul_inequality;

verus! {

/// One item of a download batch: where to fetch, where to put it, the
/// expected digest and its algorithm tag if any, and whether the fetched
/// file is an archive to unpack.
#[derive(Debug)]
pub struct DownloadItem {
    pub url: String,
    pub path: String,
    pub hash: Option<String>,
    pub hash_function: Option<String>,
    pub extract: bool,
}

impl Clone for DownloadItem {
    fn clone(&self) -> (r: Self)
        ensures
            r == *self,
    {
        DownloadItem {
            url: self.url.clone(),
            path: self.path.clone(),
            hash: match &self.hash {
                Option::None => Option::None,
                Option::Some(h) => Option::Some(h.clone()),
            },
            hash_function: match &self.hash_function {
                Option::None => Option::None,
                Option::Some(f) => Option::Some(f.clone()),
            },
            extract: self.extract,
        }
    }
}

/// A progress event of one batch, with percentages as whole numbers
/// from 0 to 100.
#[derive(Clone, Copy, Debug, PartialEq, Eq, Structural)]
pub enum Progress {
    Started,
    Advanced(u8),
    Finished,
    Errored,
}

/// The per-item percentage after `done` of `total` items.
pub open spec fn spec_percent(done: int, total: int) -> int {
    done * 100 / total
}

/// The percentage is never above one hundred.
pub proof fn lemma_percent_bounded(done: int, total: int)
    requires
        0 < total,
        0 <= done <= total,
    ensures
        0 <= spec_percent(done, total) <= 100,
{
    lemma_mul_inequality(done, total, 100);
    lemma_multiply_divide_le(done * 100, total, 100);
    assert(done * 100 >= 0) by (nonlinear_arith)
        requires
            done >= 0,
    ;
    assert(done * 100 / total >= 0) by {
        lemma_div_is_ordered(0, done * 100, total);
    }
}

/// With at most one hundred items, each completion strictly raises the
/// percentage.
pub proof fn lemma_percent_strictly_monotone(a: int, b: int, total: int)
    requires
        0 < total <= 100,
        0 <= a < b <= total,
    ensures
        spec_percent(a, total) < spec_percent(b, total),
{
    assert((a + 1) * 100 == a * 100 + 100) by (nonlinear_arith);
    lemma_div_plus_one(a * 100, total);
    assert(1 + (a * 100) / total == (total + a * 100) / total);
    lemma_div_is_ordered(total + a * 100, (a + 1) * 100, total);
    lemma_mul_inequality(a + 1, b, 100);
    lemma_div_is_ordered((a + 1) * 100, b * 100, total);
}

/// The per-item percentage after `done` of `total` items.
pub fn percent_of(done: usize, total: usize) -> (r: u8)
    requires
        0 < total,
        done <= total,
    ensures
        r as int == spec_percent(done as int, total as int),
{
    proof {
        lemma_percent_bounded(done as int, total as int);
    }
    let wide: u128 = (done as u128) * 100 / (total as u128);
    wide as u8
}

/// The `Advanced` events of a batch of `total` items that all complete:
/// the `i`-th reports `i + 1` completions.
pub open spec fn spec_advanced_events(total: nat) -> Seq<Progress> {
    Seq::new(total, |i: int| Progress::Advanced(spec_percent(i + 1, total as int) as u8))
}

/// The full event stream of a batch of `total` items that all complete.
pub open spec fn spec_success_events(total: nat) -> Seq<Progress> {
    seq![Progress::Started] + spec_advanced_events(total) + seq![Progress::Finished]
}

/// Progress ordering: a batch of `total` items that all complete emits
/// `Started`, then exactly one `Advanced` per item — the `i`-th reporting
/// `i + 1` completions, so completion counts strictly increase — and one
/// final `Finished`. With at most one hundred items the reported
/// percentages strictly increase as well.
pub proof fn lemma_progress_ordering(total: nat)
    requires
        0 < total,
    ensures
        spec_success_events(total).len() == total + 2,
        spec_success_events(total).first() == Progress::Started,
        spec_success_events(total).last() == Progress::Finished,
        forall|i: int|
            0 <= i < total ==> #[trigger] spec_success_events(total)[i + 1] == Progress::Advanced(
                spec_percent(i + 1, total as int) as u8,
            ),
        total <= 100 ==> forall|i: int, j: int|
            #![trigger spec_success_events(total)[i + 1], spec_success_events(total)[j + 1]]
            0 <= i < j < total ==> spec_success_events(total)[i + 1]->Advanced_0
                < spec_success_events(total)[j + 1]->Advanced_0,
{
    let events = spec_success_events(total);
    assert forall|i: int| 0 <= i < total implies #[trigger] events[i + 1] == Progress::Advanced(
        spec_percent(i + 1, total as int) as u8,
    ) by {
        assert(events[i + 1] == spec_advanced_events(total)[i]);
    }
    if total <= 100 {
        assert forall|i: int, j: int|
            #![trigger events[i + 1], events[j + 1]]
            0 <= i < j < total implies events[i + 1]->Advanced_0 < events[j + 1]->Advanced_0 by {
            lemma_percent_strictly_monotone(i + 1, j + 1, total as int);
            lemma_percent_bounded(i + 1, total as int);
            lemma_percent_bounded(j + 1, total as int);
            assert(events[i + 1] == spec_advanced_events(total)[i]);
            assert(events[j + 1] == spec_advanced_events(total)[j]);
        }
    }
}

/// The producer side of one batch: how many items are done, whether the
/// batch has failed or finished, and (in ghost state) every event handed
/// out so far, in order.
pub struct BatchRun {
    pub total: usize,
    pub completed: usize,
    pub errored: bool,
    pub finished: bool,
    pub events: Ghost<Seq<Progress>>,
}

impl BatchRun {
    /// Well-formedness: completions never exceed the total, terminal flags
    /// exclude each other, a finished batch completed everything, and the
    /// event history is exactly `Started`, one `Advanced` per completion,
    /// then the terminal event if any.
    pub open spec fn inv(self) -> bool {
        &&& self.completed <= self.total
        &&& 0 < self.total
        &&& !(self.errored && self.finished)
        &&& self.finished ==> self.completed == self.total
        &&& self.events@ == seq![Progress::Started] + Seq::new(
            self.completed as nat,
            |i: int| Progress::Advanced(spec_percent(i + 1, self.total as int) as u8),
        ) + if self.errored {
            seq![Progress::Errored]
        } else if self.finished {
            seq![Progress::Finished]
        } else {
            Seq::<Progress>::empty()
        }
    }

    /// Is the batch still running (neither failed nor finished)?
    pub open spec fn running(self) -> bool {
        !self.errored && !self.finished
    }

    /// Start a batch of `total` items; the `Started` event is emitted.
    pub fn begin(total: usize) -> (r: (Self, Progress))
        requires
            0 < total,
        ensures
            r.0.inv(),
            r.0.running(),
            r.0.total == total,
            r.0.completed == 0,
            r.0.events@ == seq![Progress::Started],
            r.1 == Progress::Started,
    {
        let ghost initial_events: Seq<Progress> = seq![Progress::Started];
        let run = BatchRun {
            total,
            completed: 0,
            errored: false,
            finished: false,
            events: Ghost(initial_events),
        };
        proof {
            assert(run.events@ =~= seq![Progress::Started] + Seq::new(
                0,
                |i: int| Progress::Advanced(spec_percent(i + 1, total as int) as u8),
            ) + Seq::<Progress>::empty());
        }
        (run, Progress::Started)
    }

    /// Record one more completed item, in list order; the returned
    /// `Advanced` event reports the new completion percentage.
    pub fn item_done(&mut self) -> (ev: Progress)
        requires
            old(self).inv(),
            old(self).running(),
            old(self).completed < old(self).total,
        ensures
            final(self).inv(),
            final(self).running(),
            final(self).total == old(self).total,
            final(self).completed == old(self).completed + 1,
            ev == Progress::Advanced(
                spec_percent(old(self).completed + 1, old(self).total as int) as u8,
            ),
            final(self).events@ == old(self).events@.push(ev),
    {
        self.completed = self.completed + 1;
        let pct = percent_of(self.completed, self.total);
        let ev = Progress::Advanced(pct);
        proof {
            self.events@ = self.events@.push(ev);
            assert(self.events@ =~= seq![Progress::Started] + Seq::new(
                self.completed as nat,
                |i: int| Progress::Advanced(spec_percent(i + 1, self.total as int) as u8),
            ) + Seq::<Progress>::empty());
        }
        ev
    }

    /// Record that the current item failed: the batch halts and the
    /// terminal `Errored` event is emitted; remaining items are not
    /// processed.
    pub fn item_failed(&mut self) -> (ev: Progress)
        requires
            old(self).inv(),
            old(self).running(),
        ensures
            final(self).inv(),
            final(self).errored,
            !final(self).running(),
            final(self).total == old(self).total,
            final(self).completed == old(self).completed,
            ev == Progress::Errored,
            final(self).events@ == old(self).events@.push(Progress::Errored),
    {
        self.errored = true;
        proof {
            self.events@ = self.events@.push(Progress::Errored);
            assert(self.events@ =~= seq![Progress::Started] + Seq::new(
                self.completed as nat,
                |i: int| Progress::Advanced(spec_percent(i + 1, self.total as int) as u8),
            ) + seq![Progress::Errored]);
        }
        Progress::Errored
    }

    /// Close a batch whose every item completed: the terminal `Finished`
    /// event is emitted, and the whole history is exactly the success
    /// stream of the batch.
    pub fn finish(&mut self) -> (ev: Progress)
        requires
            old(self).inv(),
            old(self).running(),
            old(self).completed == old(self).total,
        ensures
            final(self).inv(),
            final(self).finished,
            !final(self).running(),
            ev == Progress::Finished,
            final(self).events@ == old(self).events@.push(Progress::Finished),
            final(self).events@ == spec_success_events(old(self).total as nat),
    {
        self.finished = true;
        proof {
            self.events@ = self.events@.push(Progress::Finished);
            assert(self.events@ =~= seq![Progress::Started] + Seq::new(
                self.completed as nat,
                |i: int| Progress::Advanced(spec_percent(i + 1, self.total as int) as u8),
            ) + seq![Progress::Finished]);
            assert(Seq::new(
                self.completed as nat,
                |i: int| Progress::Advanced(spec_percent(i + 1, self.total as int) as u8),
            ) =~= spec_advanced_events(self.total as nat));
            assert(self.events@ =~= spec_success_events(self.total as nat));
        }
        Progress::Finished
    }
}

/// Where the consumer-side download page stands.
#[derive(Debug)]
pub enum DownloadState {
    Idle,
    Downloading { progress: u8, items: Vec<DownloadItem> },
    Finished,
    Errored,
}

/// The consumer side of a batch: the state machine a user interface
/// drives with the progress events of the one batch it watches.
#[derive(Debug)]
pub struct Download {
    pub state: DownloadState,
}

impl Download {
    /// A fresh, idle download page.
    pub fn new() -> (r: Self)
        ensures
            r.state is Idle,
    {
        Download { state: DownloadState::Idle }
    }

    /// Start downloading a batch. Starting is a no-op while a batch is
    /// already downloading; from any other state the batch is accepted
    /// with progress zero.
    pub fn start(&mut self, items: Vec<DownloadItem>)
        ensures
            old(self).state is Downloading ==> final(self).state == old(self).state,
            !(old(self).state is Downloading) ==> final(self).state == (DownloadState::Downloading {
                progress: 0,
                items,
            }),
    {
        match &self.state {
            DownloadState::Idle | DownloadState::Finished | DownloadState::Errored => {
                self.state = DownloadState::Downloading { progress: 0, items };
            },
            _ => {},
        }
    }

    /// Consume one progress event. Events only matter while downloading:
    /// `Advanced` updates the percentage, the terminal events move to the
    /// terminal states.
    pub fn update(&mut self, event: Progress)
        ensures
            !(old(self).state is Downloading) ==> final(self).state == old(self).state,
            old(self).state matches DownloadState::Downloading { progress, items } ==> match event {
                Progress::Started => final(self).state == (DownloadState::Downloading {
                    progress: 0,
                    items,
                }),
                Progress::Advanced(pct) => final(self).state == (DownloadState::Downloading {
                    progress: pct,
                    items,
                }),
                Progress::Finished => final(self).state is Finished,
                Progress::Errored => final(self).state is Errored,
            },
    {
        let downloading = match &self.state {
            DownloadState::Downloading { progress: _, items: _ } => true,
            _ => false,
        };
        if downloading {
            match event {
                Progress::Started => {
                    match &mut self.state {
                        DownloadState::Downloading { progress, items: _ } => {
                            *progress = 0;
                        },
                        _ => {},
                    }
                },
                Progress::Advanced(pct) => {
                    match &mut self.state {
                        DownloadState::Downloading { progress, items: _ } => {
                            *progress = pct;
                        },
                        _ => {},
                    }
                },
                Progress::Finished => {
                    self.state = DownloadState::Finished;
                },
                Progress::Errored => {
                    self.state = DownloadState::Errored;
                },
            }
        }
    }

    /// The percentage the page shows: zero when idle or errored, the
    /// current progress while downloading, one hundred when finished.
    pub fn current_progress(&self) -> (r: u8)
        ensures
            self.state is Idle ==> r == 0,
            self.state is Errored ==> r == 0,
            self.state is Finished ==> r == 100,
            self.state matches DownloadState::Downloading { progress, items } ==> r == progress,
    {
        match &self.state {
            DownloadState::Idle => 0,
            DownloadState::Errored => 0,
            DownloadState::Finished => 100,
            DownloadState::Downloading { progress, items: _ } => *progress,
        }
    }
}

} // verus!
