//! The data behind the live chart: a sliding window over the latest
//! samples of the activity signal. Drawing it is left to the caller.

use vstd::prelude::*;
use crate::activity::Activity;

verus! {

/// The number of samples that the chart shows at most.
pub const WINDOW_CAPACITY: usize = 200;

/// The last `capacity` items of `samples`; all of them where there are fewer.
pub open spec fn latest<T>(samples: Seq<T>, capacity: nat) -> Seq<T> {
    if samples.len() <= capacity {
        samples
    } else {
        samples.subrange(samples.len() - capacity, samples.len() as int)
    }
}

/// The window that holds `samples` after it has taken `sample`: where it
/// was full, its oldest sample has left.
pub open spec fn recorded(samples: Seq<Activity>, sample: Activity) -> Seq<Activity> {
    if samples.len() >= WINDOW_CAPACITY {
        samples.drop_first().push(sample)
    } else {
        samples.push(sample)
    }
}

/// A window within its capacity stays within it when it takes a sample,
/// and then holds the latest samples, as many as the capacity allows.
pub proof fn lemma_recorded_is_latest(samples: Seq<Activity>, sample: Activity)
    requires
        samples.len() <= WINDOW_CAPACITY,
    ensures
        recorded(samples, sample).len() <= WINDOW_CAPACITY,
        recorded(samples, sample) == latest(samples.push(sample), WINDOW_CAPACITY as nat),
{
}

/// The latest samples of the activity signal, oldest first. A sample is
/// drawn at the horizontal position that is its index in the window.
pub struct SampleWindow {
    samples: Vec<Activity>,
}

impl View for SampleWindow {
    type V = Seq<Activity>;

    closed spec fn view(&self) -> Seq<Activity> {
        self.samples@
    }
}

impl SampleWindow {
    /// The window never holds more than its capacity.
    pub open spec fn well_formed(&self) -> bool {
        self@.len() <= WINDOW_CAPACITY
    }

    /// An empty window.
    pub fn new() -> (window: SampleWindow)
        ensures
            window.well_formed(),
            window@ == Seq::<Activity>::empty(),
    {
        SampleWindow { samples: Vec::new() }
    }

    /// Takes one more sample. Where the window is full the oldest sample
    /// leaves, and the others move one position to the left.
    pub fn record(&mut self, sample: Activity)
        ensures
            final(self)@ == recorded(old(self)@, sample),
            old(self).well_formed() ==> final(self).well_formed(),
    {
        if self.samples.len() >= WINDOW_CAPACITY {
            self.samples.remove(0);
        }
        self.samples.push(sample);
    }

    /// The number of samples in the window.
    pub fn len(&self) -> (count: usize)
        ensures
            count == self@.len(),
    {
        self.samples.len()
    }

    /// The sample at position `index`.
    pub fn sample(&self, index: usize) -> (sample: Option<Activity>)
        ensures
            sample == if index < self@.len() {
                Some(self@[index as int])
            } else {
                None
            },
    {
        if index < self.samples.len() {
            Some(self.samples[index])
        } else {
            None
        }
    }

    /// The points to draw, oldest first: each sample's position and height.
    pub fn points(&self) -> (points: Vec<(usize, i8)>)
        ensures
            points@.len() == self@.len(),
            forall|i: int|
                0 <= i < self@.len() ==> (#[trigger] points@[i]).0 == i && points@[i].1
                    == self@[i].level_of(),
    {
        let mut points: Vec<(usize, i8)> = Vec::new();
        let mut i: usize = 0;
        while i < self.samples.len()
            invariant
                i <= self.samples.len(),
                points@.len() == i,
                forall|j: int|
                    0 <= j < i ==> (#[trigger] points@[j]).0 == j && points@[j].1
                        == self.samples@[j].level_of(),
            decreases self.samples.len() - i,
        {
            points.push((i, self.samples[i].level()));
            i = i + 1;
        }
        points
    }

    /// The marks along the horizontal axis: its start, its middle and its end.
    pub fn axis_marks(&self) -> (marks: (usize, usize, usize))
        ensures
            marks.0 == 0,
            marks.1 == self@.len() / 2,
            marks.2 == self@.len(),
    {
        (0, self.samples.len() / 2, self.samples.len())
    }
}

/// The time from one frame of the chart to the next, in milliseconds.
pub const FRAME_MS: u64 = 80;

/// Half a frame: how long the chart waits for the signal, and then for a
/// key, in each round.
pub const HALF_FRAME_MS: u64 = FRAME_MS / 2;

/// What a wait of half a frame on the signal came to.
#[derive(Copy, Clone, Debug, PartialEq, Eq, Structural)]
pub enum Feed {
    /// The classification changed to this.
    Changed(Activity),
    /// Nothing arrived: the classification is what it was.
    Unchanged,
    /// The sender is gone.
    Closed,
}

/// The state of the chart: the classification last heard of, and the
/// window of samples drawn.
pub struct ChartState {
    latest: Activity,
    window: SampleWindow,
}

/// What the chart shows, as contracts see it.
pub struct ChartView {
    pub latest: Activity,
    pub samples: Seq<Activity>,
}

impl View for ChartState {
    type V = ChartView;

    closed spec fn view(&self) -> ChartView {
        ChartView { latest: self.latest, samples: self.window@ }
    }
}

impl ChartState {
    /// The classification that a frame samples after `feed`.
    pub open spec fn heard(latest: Activity, feed: Feed) -> Activity {
        match feed {
            Feed::Changed(activity) => activity,
            _ => latest,
        }
    }

    /// The window of samples is within its capacity.
    pub open spec fn well_formed(&self) -> bool {
        self@.samples.len() <= WINDOW_CAPACITY
    }

    /// A chart that has heard of nothing yet: inactive, with no samples.
    pub fn new() -> (chart: ChartState)
        ensures
            chart.well_formed(),
            chart@ == (ChartView { latest: Activity::Inactive, samples: Seq::empty() }),
    {
        ChartState { latest: Activity::Inactive, window: SampleWindow::new() }
    }

    /// Takes the outcome of one wait on the signal. While the sender is
    /// there, the classification last heard of is sampled once, and the
    /// chart is to be drawn (`true`); once the sender is gone nothing
    /// changes, and the chart is to end (`false`).
    pub fn on_feed(&mut self, feed: Feed) -> (draw: bool)
        ensures
            old(self).well_formed() ==> final(self).well_formed(),
            draw == (feed != Feed::Closed),
            !draw ==> final(self)@ == old(self)@,
            draw ==> final(self)@.latest == Self::heard(old(self)@.latest, feed),
            draw ==> final(self)@.samples == recorded(old(self)@.samples, final(self)@.latest),
    {
        match feed {
            Feed::Changed(activity) => {
                self.latest = activity;
            },
            Feed::Unchanged => {},
            Feed::Closed => {
                return false;
            },
        }
        self.window.record(self.latest);
        true
    }

    /// The window of samples to draw.
    pub fn window(&self) -> (window: &SampleWindow)
        ensures
            window@ == self@.samples,
            self.well_formed() ==> window.well_formed(),
    {
        &self.window
    }

    /// The classification last heard of.
    pub fn latest(&self) -> (latest: Activity)
        ensures
            latest == self@.latest,
    {
        self.latest
    }
}

/// Whether a key press ends the chart: `q` does, held with whatever; `c`
/// does, in either case, where control and nothing else is held with it.
pub fn is_exit_key(key: char, control_alone: bool) -> (exit: bool)
    ensures
        exit == (key == 'q' || ((key == 'c' || key == 'C') && control_alone)),
{
    key == 'q' || ((key == 'c' || key == 'C') && control_alone)
}

} // verus!
