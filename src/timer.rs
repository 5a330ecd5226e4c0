use vstd::prelude::*;

verus! {

#[verifier::external_type_specification]
#[verifier::external_body]
pub struct ExHistogramOpts(prometheus::HistogramOpts);

#[verifier::external_type_specification]
#[verifier::external_body]
pub struct ExRegistry(prometheus::Registry);

#[verifier::external_type_specification]
#[verifier::external_body]
pub struct ExHistogram(prometheus::Histogram);

#[verifier::external_type_specification]
#[verifier::external_body]
pub struct ExPrometheusError(prometheus::Error);

#[verifier::external_type_specification]
#[verifier::external_body]
pub struct ExInstant(std::time::Instant);

/// A family of Prometheus histograms that share a name and a schema of label
/// names, one histogram for each list of label values. It is a shared handle:
/// a handle made by `share` observes into the same histograms.
#[verifier::external_body]
pub struct Histograms {
    family: prometheus::HistogramVec,
}

/// The number of label names in the schema of the family of `h`.
pub uninterp spec fn label_count(h: Histograms) -> nat;

/// Whether the family of `h` has, or can create, a histogram under the label
/// values `tags`: their number matches the schema, and the family's options
/// make a valid histogram.
pub uninterp spec fn accepts(h: Histograms, tags: Seq<Seq<char>>) -> bool;

/// The label values of `tags` as strings.
pub open spec fn label_values(tags: Seq<&str>) -> Seq<Seq<char>> {
    tags.map_values(|t: &str| t@)
}

/// `after` is a handle on a family with the same schema as that of `before`.
pub open spec fn same_family(before: Histograms, after: Histograms) -> bool {
    &&& label_count(after) == label_count(before)
    &&& forall|t: Seq<Seq<char>>| accepts(after, t) == accepts(before, t)
}

/// Whether the family of `h` accepts every list of label values of the
/// schema's length, or none: which values they are does not matter.
pub open spec fn accepts_uniformly(h: Histograms) -> bool {
    forall|t: Seq<Seq<char>>, u: Seq<Seq<char>>|
        t.len() == label_count(h) && u.len() == label_count(h) ==> #[trigger] accepts(h, t)
            == #[trigger] accepts(h, u)
}

impl Histograms {
    /// Relies on `prometheus::HistogramVec::new`: a family with the label
    /// names `labels`, or an error where `opts` or the names are invalid. The
    /// family then finds or builds a histogram for label values of the right
    /// number whatever they are, or for none of them.
    #[verifier::external_body]
    pub fn new(opts: prometheus::HistogramOpts, labels: &[&str]) -> (r: Result<
        Histograms,
        prometheus::Error,
    >)
        ensures
            r matches Ok(h) ==> label_count(h) == labels@.len() && accepts_uniformly(h),
    {
        prometheus::HistogramVec::new(opts, labels).map(|family| Histograms { family })
    }

    /// Relies on `prometheus::HistogramVec::clone`: a second handle on the
    /// same family.
    #[verifier::external_body]
    pub fn share(&self) -> (r: Histograms)
        ensures
            same_family(*self, r),
    {
        Histograms { family: self.family.clone() }
    }

    /// Relies on `prometheus::core::Collector::desc`, which gives a family the
    /// one descriptor that holds its label names: their number.
    #[verifier::external_body]
    pub fn label_count(&self) -> (r: usize)
        ensures
            r == label_count(*self),
    {
        prometheus::core::Collector::desc(&self.family)[0].variable_labels.len()
    }

    /// Whether the family accepts the label values `tags`. Where it does, the
    /// histogram under them now exists, with the observations it had.
    pub fn accepts(&self, tags: &[&str]) -> (r: bool)
        ensures
            r == accepts(*self, label_values(tags@)),
    {
        labelled_histogram(self, tags).is_ok()
    }

    /// Relies on `prometheus::Registry::register`: registers the family with
    /// `registry` so that it is gathered from there.
    #[verifier::external_body]
    pub fn register(&self, registry: &prometheus::Registry) -> (r: Result<(), prometheus::Error>) {
        registry.register(Box::new(self.family.clone()))
    }
}

/// Relies on `std::time::Instant::now`: a reading of the monotonic clock.
#[verifier::external_body]
fn clock_now() -> (r: std::time::Instant)
    opens_invariants none
    no_unwind
{
    std::time::Instant::now()
}

/// Relies on `std::time::Instant::elapsed`: the time since `start`, zero
/// rather than a panic where the clock reads earlier.
#[verifier::external_body]
fn clock_elapsed(start: &std::time::Instant) -> (r: std::time::Duration)
    opens_invariants none
    no_unwind
{
    start.elapsed()
}

/// Relies on `prometheus::HistogramVec::get_metric_with_label_values`: the
/// histogram of the family under the label values `tags`, found or built, or
/// an error where the family does not accept them (a count that differs from
/// the schema's among them).
#[verifier::external_body]
fn labelled_histogram(histograms: &Histograms, tags: &[&str]) -> (r: Result<
    prometheus::Histogram,
    prometheus::Error,
>)
    ensures
        r is Ok == accepts(*histograms, label_values(tags@)),
        tags@.len() != label_count(*histograms) ==> r is Err,
    opens_invariants none
    no_unwind
{
    histograms.family.get_metric_with_label_values(tags)
}

/// Relies on `prometheus::Histogram::observe`: adds `elapsed`, in seconds, as
/// one observation.
#[verifier::external_body]
fn observe_duration(metric: &prometheus::Histogram, elapsed: std::time::Duration)
    opens_invariants none
    no_unwind
{
    metric.observe(elapsed.as_secs_f64())
}

/// One observation handed to the family: the label values it was made under
/// and the duration observed.
pub type Observation = (Seq<Seq<char>>, std::time::Duration);

/// A timer bound to one histogram and one set of label values. It observes
/// the time elapsed since its creation into that histogram once: at the
/// first call of `record`, or when it is dropped, whichever comes first.
pub struct Timer {
    histogram: Histograms,
    start: std::time::Instant,
    tags: &'static [&'static str],
    recorded: bool,
    observations: Ghost<Seq<Observation>>,
}

impl Timer {
    /// The handle the timer observes through.
    pub closed spec fn histogram(self) -> Histograms {
        self.histogram
    }

    /// The label values the timer observes under.
    pub closed spec fn tags(self) -> Seq<&'static str> {
        self.tags@
    }

    /// Whether the timer has been finalized.
    pub closed spec fn recorded(self) -> bool {
        self.recorded
    }

    /// The observations the timer has handed to the family, in order.
    pub closed spec fn observations(self) -> Seq<Observation> {
        self.observations@
    }

    /// Starts a timer on `histogram` under the label values `tags`, which
    /// match the histogram's label schema in number and order.
    pub fn new(histogram: Histograms, tags: &'static [&'static str]) -> (r: Self)
        requires
            tags@.len() == label_count(histogram),
        ensures
            r.histogram() == histogram,
            r.tags() == tags@,
            !r.recorded(),
            r.observations() == Seq::<Observation>::empty(),
    {
        Timer { histogram, start: clock_now(), tags, recorded: false, observations: Ghost(Seq::empty()) }
    }

    /// Whether the timer has been finalized.
    pub fn is_recorded(&self) -> (r: bool)
        ensures
            r == self.recorded(),
    {
        self.recorded
    }

    /// Finalizes the timer with `elapsed` as the time it measured, unless it
    /// is already finalized: observes `elapsed` under the timer's label values
    /// where the family accepts them, and nothing otherwise, since a failing
    /// metric sink never fails the timed scope. Returns whether this call
    /// finalized the timer.
    pub fn record_elapsed(&mut self, elapsed: std::time::Duration) -> (fired: bool)
        ensures
            finalized(*old(self), *final(self)),
            fired == !old(self).recorded(),
            fired && accepts(old(self).histogram(), label_values(old(self).tags()))
                ==> final(self).observations() == old(self).observations().push(
                (label_values(old(self).tags()), elapsed),
            ),
        opens_invariants none
        no_unwind
    {
        if self.recorded {
            return false;
        }
        match labelled_histogram(&self.histogram, self.tags) {
            Ok(metric) => {
                observe_duration(&metric, elapsed);
                let ghost before = self.observations@;
                self.observations = Ghost(before.push((label_values(self.tags@), elapsed)));
                assert(self.observations@.drop_last() =~= before);
            },
            Err(_) => {},
        }
        self.recorded = true;
        true
    }

    /// Finalizes the timer with the time elapsed since its start, as
    /// `record_elapsed` does. Returns whether this call finalized it.
    pub fn record(&mut self) -> (fired: bool)
        ensures
            finalized(*old(self), *final(self)),
            fired == !old(self).recorded(),
        opens_invariants none
        no_unwind
    {
        if self.recorded {
            return false;
        }
        let elapsed = clock_elapsed(&self.start);
        self.record_elapsed(elapsed)
    }
}

/// `after` is the timer `before` once finalized: it is finalized, bound to
/// the same label values and family, and where `before` was not yet
/// finalized and the family accepts those label values it has handed one
/// more observation, under them, to the family. Otherwise it has handed
/// nothing more.
pub open spec fn finalized(before: Timer, after: Timer) -> bool {
    let tags = label_values(before.tags());
    &&& after.recorded()
    &&& after.tags() == before.tags()
    &&& after.histogram() == before.histogram()
    &&& if !before.recorded() && accepts(before.histogram(), tags) {
        &&& after.observations().len() == before.observations().len() + 1
        &&& after.observations().drop_last() == before.observations()
        &&& after.observations().last().0 == tags
    } else {
        after.observations() == before.observations()
    }
}

/// A started timer finalized twice, as one that `record` finalized and that
/// is then dropped, has handed exactly one observation to the family, under
/// its own label values.
pub proof fn lemma_finalize_twice(t0: Timer, t1: Timer, t2: Timer)
    requires
        !t0.recorded(),
        t0.observations().len() == 0,
        accepts(t0.histogram(), label_values(t0.tags())),
        finalized(t0, t1),
        finalized(t1, t2),
    ensures
        t2.observations().len() == 1,
        t2.observations()[0].0 == label_values(t0.tags()),
{
}

/// A finalized timer stays as it was through every later finalization.
pub proof fn lemma_recorded_is_final(t0: Timer, t1: Timer)
    requires
        t0.recorded(),
        finalized(t0, t1),
    ensures
        t1.observations() == t0.observations(),
{
}

/// The observations that the timers `ts` handed to their families, timer by
/// timer.
pub open spec fn all_observations(ts: Seq<Timer>) -> Seq<Observation>
    decreases ts.len(),
{
    if ts.len() == 0 {
        Seq::empty()
    } else {
        all_observations(ts.drop_last()) + ts.last().observations()
    }
}

/// How many of the observations `os` were made under the label values `tags`.
pub open spec fn count_under(os: Seq<Observation>, tags: Seq<Seq<char>>) -> nat {
    os.filter(|o: Observation| o.0 == tags).len()
}

/// Calls of instrumented functions, each with a timer of its own started
/// fresh on a family that accepts its label values, and each finalized, in
/// whatever order and by whatever exit: all together they hand the families
/// exactly one observation per call, and under each list of label values
/// exactly as many as there were calls with that list.
pub proof fn lemma_calls_add_up(started: Seq<Timer>, done: Seq<Timer>, tags: Seq<Seq<char>>)
    requires
        done.len() == started.len(),
        forall|i: int|
            0 <= i < started.len() ==> {
                &&& !(#[trigger] started[i]).recorded()
                &&& started[i].observations().len() == 0
                &&& accepts(started[i].histogram(), label_values(started[i].tags()))
                &&& finalized(started[i], done[i])
            },
    ensures
        all_observations(done).len() == done.len(),
        count_under(all_observations(done), tags) == started.filter(
            |t: Timer| label_values(t.tags()) == tags,
        ).len(),
    decreases started.len(),
{
    if started.len() > 0 {
        let s = started.drop_last();
        let d = done.drop_last();
        assert forall|i: int| 0 <= i < s.len() implies {
            &&& !(#[trigger] s[i]).recorded()
            &&& s[i].observations().len() == 0
            &&& accepts(s[i].histogram(), label_values(s[i].tags()))
            &&& finalized(s[i], d[i])
        } by {
            assert(s[i] == started[i]);
            assert(d[i] == done[i]);
        }
        lemma_calls_add_up(s, d, tags);
        let last = started.last();
        let obs = done.last().observations();
        assert(obs =~= seq![(label_values(last.tags()), obs[0].1)]);
        let f = |o: Observation| o.0 == tags;
        Seq::filter_distributes_over_add(all_observations(d), obs, f);
        let g = |t: Timer| label_values(t.tags()) == tags;
        Seq::filter_distributes_over_add(s, seq![last], g);
        assert(started =~= s + seq![last]);
        reveal_with_fuel(Seq::filter, 2);
    }
}

/// Runs `body` inside the scope of `timer`, a timer started just before, and
/// finalizes the timer once `body` is done. What `body` returned, an early
/// return or an error value included, is handed back unchanged. Where `body`
/// unwinds instead, dropping the timer finalizes it.
pub fn timed<R, F: FnOnce() -> R>(timer: &mut Timer, body: F) -> (r: R)
    requires
        !old(timer).recorded(),
        body.requires(()),
    ensures
        body.ensures((), r),
        finalized(*old(timer), *final(timer)),
{
    let r = body();
    timer.record();
    r
}

impl Drop for Timer {
    fn drop(&mut self)
        opens_invariants none
        no_unwind
    {
        self.record();
    }
}

} // verus!
