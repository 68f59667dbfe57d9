//! The collector: a state machine that a driver steps through.

use vstd::prelude::*;
use crate::parser::{config_views, WWConfig, WWConfigView};

verus! {

/// What the collector waits for.
#[derive(Debug, Copy, Clone, PartialEq, Eq, Structural)]
pub enum Stage {
    /// The mesh of the tally in hand.
    Reading,
    /// The weights of the tally in hand.
    Generating,
    /// The plot of the weights last collected.
    Exporting,
    /// Nothing: every tally has been dealt with.
    Done,
}

/// What became of one tally.
#[derive(Debug, Copy, Clone, PartialEq, Eq, Structural)]
pub enum Outcome {
    /// Its weights were collected.
    Collected { particle: u8 },
    /// Weights for its particle type had been collected before.
    Duplicate { particle: u8 },
    /// Its mesh could not be read.
    ReadFailed,
    /// Its weights could not be generated.
    GenerationFailed { particle: u8 },
}

/// What the driver is to do next.
#[derive(Debug, Copy, Clone, PartialEq, Eq, Structural)]
pub enum Action {
    /// Read the mesh of the request at `tally`.
    ReadMesh { tally: usize },
    /// Generate the weights of the request at `tally`, in the mode that the
    /// request asks for, and scale them if it asks for that.
    Generate { tally: usize },
    /// Write the plot of the collected weights at `slot`.
    Export { slot: usize },
    /// Stop: every tally has been dealt with.
    Finish,
}

/// What the driver reports.
#[derive(Debug)]
pub enum Event<W> {
    /// The mesh was read; it is of this particle type.
    MeshLoaded { particle: u8 },
    /// The mesh could not be read.
    MeshFailed,
    /// The weights were generated and scaled.
    Generated(W),
    /// The weights could not be generated.
    GenerationFailed,
    /// The plot was written.
    Exported,
    /// The plot could not be written.
    ExportFailed,
}

/// Why a run yields nothing.
#[derive(Debug, Copy, Clone, PartialEq, Eq, Structural)]
pub enum BatchError {
    /// No tally gave a weight window.
    NoValidTallies,
}

/// The collected weight windows, in the order of their tallies.
#[derive(Debug)]
pub struct Batch<W> {
    /// The weight windows.
    pub weights: Vec<W>,
    /// The particle type of each weight window.
    pub particles: Vec<u8>,
    /// Whether a plot that was asked for could not be written.
    pub export_failed: bool,
}

/// The particle types of the tallies whose weights were collected, in order.
pub open spec fn collected(outcomes: Seq<Outcome>) -> Seq<u8>
    decreases outcomes.len(),
{
    if outcomes.len() == 0 {
        Seq::empty()
    } else {
        match outcomes.last() {
            Outcome::Collected { particle } => collected(outcomes.drop_last()).push(particle),
            _ => collected(outcomes.drop_last()),
        }
    }
}

/// Every tally set aside as a duplicate comes behind the tally whose weights
/// were collected for its particle type.
pub open spec fn duplicates_follow(outcomes: Seq<Outcome>) -> bool {
    forall|b: int|
        0 <= b < outcomes.len() && (#[trigger] outcomes[b]) is Duplicate ==> exists|a: int|
            0 <= a < b && #[trigger] outcomes[a] == (Outcome::Collected {
                particle: outcomes[b]->Duplicate_particle,
            })
}

/// The model of a [`Collector`].
pub struct CollectorView<W> {
    /// The requests, in the order of their argument sets.
    pub configs: Seq<WWConfigView>,
    /// Whether plots are asked for.
    pub plot: bool,
    /// What the collector waits for.
    pub stage: Stage,
    /// The particle type of the mesh in hand.
    pub current: u8,
    /// The particle type of each collected weight window.
    pub particles: Seq<u8>,
    /// The collected weight windows.
    pub weights: Seq<W>,
    /// What became of each tally dealt with so far.
    pub outcomes: Seq<Outcome>,
    /// Whether a plot could not be written.
    pub export_failed: bool,
}

impl<W> CollectorView<W> {
    /// The collector before anything was done.
    pub open spec fn start(configs: Seq<WWConfigView>, plot: bool) -> Self {
        CollectorView {
            configs,
            plot,
            stage: if configs.len() == 0 {
                Stage::Done
            } else {
                Stage::Reading
            },
            current: 0,
            particles: Seq::empty(),
            weights: Seq::empty(),
            outcomes: Seq::empty(),
            export_failed: false,
        }
    }

    /// What holds of every collector: no particle type was collected twice,
    /// the collected weights are those of the tallies recorded as collected
    /// (and of the tally whose plot is awaited), and a duplicate follows the
    /// tally that it repeats.
    pub open spec fn wf(self) -> bool {
        &&& self.particles.len() == self.weights.len()
        &&& self.particles.no_duplicates()
        &&& self.outcomes.len() <= self.configs.len()
        &&& (self.stage == Stage::Done) == (self.outcomes.len() == self.configs.len())
        &&& self.stage == Stage::Generating ==> !self.particles.contains(self.current)
        &&& self.stage == Stage::Exporting ==> self.plot
        &&& self.particles == if self.stage == Stage::Exporting {
            collected(self.outcomes).push(self.current)
        } else {
            collected(self.outcomes)
        }
        &&& duplicates_follow(self.outcomes)
    }

    /// What the driver is to do next.
    pub open spec fn pending(self) -> Action {
        match self.stage {
            Stage::Reading => Action::ReadMesh { tally: self.outcomes.len() as usize },
            Stage::Generating => Action::Generate { tally: self.outcomes.len() as usize },
            Stage::Exporting => Action::Export {
                slot: if self.weights.len() == 0 {
                    0
                } else {
                    (self.weights.len() - 1) as usize
                },
            },
            Stage::Done => Action::Finish,
        }
    }

    /// The collector once the tally in hand has been dealt with.
    pub open spec fn close(self, outcome: Outcome) -> Self {
        CollectorView {
            stage: if self.outcomes.len() + 1 >= self.configs.len() {
                Stage::Done
            } else {
                Stage::Reading
            },
            outcomes: self.outcomes.push(outcome),
            ..self
        }
    }

    /// The collector after an event. An event that is not awaited changes
    /// nothing.
    pub open spec fn after(self, event: Event<W>) -> Self {
        match (self.stage, event) {
            (Stage::Reading, Event::MeshLoaded { particle }) => {
                if self.particles.contains(particle) {
                    self.close(Outcome::Duplicate { particle })
                } else {
                    CollectorView { stage: Stage::Generating, current: particle, ..self }
                }
            },
            (Stage::Reading, Event::MeshFailed) => self.close(Outcome::ReadFailed),
            (Stage::Generating, Event::Generated(w)) => {
                let kept = CollectorView {
                    particles: self.particles.push(self.current),
                    weights: self.weights.push(w),
                    ..self
                };
                if self.plot {
                    CollectorView { stage: Stage::Exporting, ..kept }
                } else {
                    kept.close(Outcome::Collected { particle: self.current })
                }
            },
            (Stage::Generating, Event::GenerationFailed) => self.close(
                Outcome::GenerationFailed { particle: self.current },
            ),
            (Stage::Exporting, Event::Exported) => self.close(
                Outcome::Collected { particle: self.current },
            ),
            (Stage::Exporting, Event::ExportFailed) => (CollectorView {
                export_failed: true,
                ..self
            }).close(Outcome::Collected { particle: self.current }),
            _ => self,
        }
    }

    /// What a finished run hands out: the collected weights, unless there are
    /// none.
    pub open spec fn result(self) -> Result<(Seq<W>, Seq<u8>, bool), BatchError> {
        if self.weights.len() == 0 {
            Err(BatchError::NoValidTallies)
        } else {
            Ok((self.weights, self.particles, self.export_failed))
        }
    }
}

/// Collects at most one weight window per particle type, the first seen of
/// each, in the order of the tallies.
pub struct Collector<W> {
    configs: Vec<WWConfig>,
    plot: bool,
    stage: Stage,
    current: u8,
    particles: Vec<u8>,
    weights: Vec<W>,
    outcomes: Vec<Outcome>,
    export_failed: bool,
}

impl<W> View for Collector<W> {
    type V = CollectorView<W>;

    closed spec fn view(&self) -> CollectorView<W> {
        CollectorView {
            configs: config_views(self.configs@),
            plot: self.plot,
            stage: self.stage,
            current: self.current,
            particles: self.particles@,
            weights: self.weights@,
            outcomes: self.outcomes@,
            export_failed: self.export_failed,
        }
    }
}

fn holds(particles: &Vec<u8>, particle: u8) -> (r: bool)
    ensures
        r == particles@.contains(particle),
{
    let mut i: usize = 0;
    while i < particles.len()
        invariant
            i <= particles.len(),
            forall|k: int| 0 <= k < i ==> particles@[k] != particle,
        decreases particles.len() - i,
    {
        if particles[i] == particle {
            return true;
        }
        i += 1;
    }
    false
}

impl<W> Collector<W> {
    /// A collector for the given requests. `plot` tells whether a plot is
    /// written for each collected weight window.
    pub fn new(configs: Vec<WWConfig>, plot: bool) -> (r: Self)
        ensures
            r@ == CollectorView::<W>::start(config_views(configs@), plot),
            r@.wf(),
    {
        let stage = if configs.len() == 0 {
            Stage::Done
        } else {
            Stage::Reading
        };
        Collector {
            configs,
            plot,
            stage,
            current: 0,
            particles: Vec::new(),
            weights: Vec::new(),
            outcomes: Vec::new(),
            export_failed: false,
        }
    }

    /// What the driver is to do next. The request or the weight window that
    /// the action names is there.
    pub fn pending(&self) -> (r: Action)
        ensures
            r == self@.pending(),
            self@.wf() ==> (r matches Action::ReadMesh { tally } ==> tally < self@.configs.len()),
            self@.wf() ==> (r matches Action::Generate { tally } ==> tally < self@.configs.len()),
            self@.wf() ==> (r matches Action::Export { slot } ==> slot < self@.weights.len()),
    {
        match self.stage {
            Stage::Reading => Action::ReadMesh { tally: self.outcomes.len() },
            Stage::Generating => Action::Generate { tally: self.outcomes.len() },
            Stage::Exporting => Action::Export {
                slot: if self.weights.len() == 0 {
                    0
                } else {
                    self.weights.len() - 1
                },
            },
            Stage::Done => Action::Finish,
        }
    }

    /// The request at `tally`, if there is one.
    pub fn config(&self, tally: usize) -> (r: Option<&WWConfig>)
        ensures
            match r {
                Some(c) => tally < self@.configs.len() && c@ == self@.configs[tally as int],
                None => tally >= self@.configs.len(),
            },
    {
        if tally < self.configs.len() {
            Some(&self.configs[tally])
        } else {
            None
        }
    }

    /// The collected weight windows, in the order of their tallies.
    pub fn weights(&self) -> (r: &Vec<W>)
        ensures
            r@ == self@.weights,
    {
        &self.weights
    }

    /// The particle type of each collected weight window.
    pub fn particles(&self) -> (r: &Vec<u8>)
        ensures
            r@ == self@.particles,
    {
        &self.particles
    }

    /// What became of each tally dealt with so far.
    pub fn outcomes(&self) -> (r: &Vec<Outcome>)
        ensures
            r@ == self@.outcomes,
    {
        &self.outcomes
    }

    fn close(&mut self, outcome: Outcome)
        ensures
            final(self)@ == old(self)@.close(outcome),
    {
        self.outcomes.push(outcome);
        self.stage = if self.outcomes.len() >= self.configs.len() {
            Stage::Done
        } else {
            Stage::Reading
        };
    }

    /// Takes in what the driver reports.
    pub fn step(&mut self, event: Event<W>)
        ensures
            final(self)@ == old(self)@.after(event),
            old(self)@.wf() ==> final(self)@.wf(),
    {
        proof {
            if self@.wf() {
                lemma_after_keeps_wf(self@, event);
            }
        }
        match (self.stage, event) {
            (Stage::Reading, Event::MeshLoaded { particle }) => {
                if holds(&self.particles, particle) {
                    self.close(Outcome::Duplicate { particle });
                } else {
                    self.stage = Stage::Generating;
                    self.current = particle;
                }
            },
            (Stage::Reading, Event::MeshFailed) => {
                self.close(Outcome::ReadFailed);
            },
            (Stage::Generating, Event::Generated(w)) => {
                self.particles.push(self.current);
                self.weights.push(w);
                if self.plot {
                    self.stage = Stage::Exporting;
                } else {
                    self.close(Outcome::Collected { particle: self.current });
                }
            },
            (Stage::Generating, Event::GenerationFailed) => {
                self.close(Outcome::GenerationFailed { particle: self.current });
            },
            (Stage::Exporting, Event::Exported) => {
                self.close(Outcome::Collected { particle: self.current });
            },
            (Stage::Exporting, Event::ExportFailed) => {
                self.export_failed = true;
                self.close(Outcome::Collected { particle: self.current });
            },
            _ => {},
        }
    }

    /// Hands out the collected weight windows, or fails where there are none.
    pub fn finish(self) -> (r: Result<Batch<W>, BatchError>)
        ensures
            match self@.result() {
                Ok((weights, particles, export_failed)) => r is Ok && r->Ok_0.weights@ == weights
                    && r->Ok_0.particles@ == particles && r->Ok_0.export_failed == export_failed,
                Err(e) => r == Err::<Batch<W>, BatchError>(e),
            },
    {
        if self.weights.len() == 0 {
            Err(BatchError::NoValidTallies)
        } else {
            Ok(
                Batch {
                    weights: self.weights,
                    particles: self.particles,
                    export_failed: self.export_failed,
                },
            )
        }
    }
}

/// Recording one more outcome that is no collection leaves the collected
/// particle types as they are, and recording a collection adds its particle
/// type at the end.
pub proof fn lemma_collected_push(outcomes: Seq<Outcome>, outcome: Outcome)
    ensures
        collected(outcomes.push(outcome)) == match outcome {
            Outcome::Collected { particle } => collected(outcomes).push(particle),
            _ => collected(outcomes),
        },
{
    assert(outcomes.push(outcome).drop_last() =~= outcomes);
}

/// Every collected particle type belongs to a tally recorded as collected.
pub proof fn lemma_collected_has_tally(outcomes: Seq<Outcome>, particle: u8)
    requires
        collected(outcomes).contains(particle),
    ensures
        exists|a: int|
            0 <= a < outcomes.len() && #[trigger] outcomes[a] == (Outcome::Collected { particle }),
    decreases outcomes.len(),
{
    if outcomes.len() > 0 {
        let rest = outcomes.drop_last();
        if outcomes.last() == (Outcome::Collected { particle }) {
            assert(outcomes[outcomes.len() - 1] == (Outcome::Collected { particle }));
        } else {
            match outcomes.last() {
                Outcome::Collected { particle: other } => {
                    let k = choose|k: int|
                        0 <= k < collected(outcomes).len() && collected(outcomes)[k] == particle;
                    assert(collected(rest).push(other)[k] == particle);
                    assert(k < collected(rest).len());
                    assert(collected(rest)[k] == particle);
                },
                _ => {},
            }
            assert(collected(rest).contains(particle));
            lemma_collected_has_tally(rest, particle);
            let a = choose|a: int|
                0 <= a < rest.len() && #[trigger] rest[a] == (Outcome::Collected { particle });
            assert(outcomes[a] == (Outcome::Collected { particle }));
        }
    }
}

/// No event breaks what holds of every collector.
pub proof fn lemma_after_keeps_wf<W>(c: CollectorView<W>, event: Event<W>)
    requires
        c.wf(),
    ensures
        c.after(event).wf(),
{
    let next = c.after(event);
    match (c.stage, event) {
        (Stage::Reading, Event::MeshLoaded { particle }) => {
            if c.particles.contains(particle) {
                let o = Outcome::Duplicate { particle };
                lemma_collected_push(c.outcomes, o);
                lemma_collected_has_tally(c.outcomes, particle);
                let a = choose|a: int|
                    0 <= a < c.outcomes.len() && #[trigger] c.outcomes[a] == (Outcome::Collected {
                        particle,
                    });
                assert forall|b: int|
                    0 <= b < next.outcomes.len() && (#[trigger] next.outcomes[b]) is Duplicate implies exists|
                    a: int,
                |
                    0 <= a < b && #[trigger] next.outcomes[a] == (Outcome::Collected {
                        particle: next.outcomes[b]->Duplicate_particle,
                    }) by {
                    if b < c.outcomes.len() {
                        assert(c.outcomes[b] is Duplicate);
                        let a0 = choose|a0: int|
                            0 <= a0 < b && #[trigger] c.outcomes[a0] == (Outcome::Collected {
                                particle: c.outcomes[b]->Duplicate_particle,
                            });
                        assert(next.outcomes[a0] == c.outcomes[a0]);
                    } else {
                        assert(next.outcomes[a] == c.outcomes[a]);
                    }
                }
            }
        },
        (Stage::Reading, Event::MeshFailed) => {
            lemma_collected_push(c.outcomes, Outcome::ReadFailed);
            lemma_duplicates_follow_push(c.outcomes, Outcome::ReadFailed);
        },
        (Stage::Generating, Event::Generated(w)) => {
            let o = Outcome::Collected { particle: c.current };
            lemma_collected_push(c.outcomes, o);
            lemma_duplicates_follow_push(c.outcomes, o);
            lemma_push_keeps_distinct(c.particles, c.current);
        },
        (Stage::Generating, Event::GenerationFailed) => {
            let o = Outcome::GenerationFailed { particle: c.current };
            lemma_collected_push(c.outcomes, o);
            lemma_duplicates_follow_push(c.outcomes, o);
        },
        (Stage::Exporting, Event::Exported) => {
            let o = Outcome::Collected { particle: c.current };
            lemma_collected_push(c.outcomes, o);
            lemma_duplicates_follow_push(c.outcomes, o);
        },
        (Stage::Exporting, Event::ExportFailed) => {
            let o = Outcome::Collected { particle: c.current };
            lemma_collected_push(c.outcomes, o);
            lemma_duplicates_follow_push(c.outcomes, o);
        },
        _ => {},
    }
}

/// Recording an outcome that is no duplicate keeps every duplicate behind the
/// tally that it repeats.
pub proof fn lemma_duplicates_follow_push(outcomes: Seq<Outcome>, outcome: Outcome)
    requires
        duplicates_follow(outcomes),
        !(outcome is Duplicate),
    ensures
        duplicates_follow(outcomes.push(outcome)),
{
    let next = outcomes.push(outcome);
    assert forall|b: int| 0 <= b < next.len() && (#[trigger] next[b]) is Duplicate implies exists|
        a: int,
    |
        0 <= a < b && #[trigger] next[a] == (Outcome::Collected {
            particle: next[b]->Duplicate_particle,
        }) by {
        assert(outcomes[b] is Duplicate);
        let a0 = choose|a0: int|
            0 <= a0 < b && #[trigger] outcomes[a0] == (Outcome::Collected {
                particle: outcomes[b]->Duplicate_particle,
            });
        assert(next[a0] == outcomes[a0]);
    }
}

/// Adding an item that a list does not hold keeps its items distinct.
pub proof fn lemma_push_keeps_distinct(s: Seq<u8>, x: u8)
    requires
        s.no_duplicates(),
        !s.contains(x),
    ensures
        s.push(x).no_duplicates(),
{
    assert forall|i: int, j: int|
        0 <= i < s.push(x).len() && 0 <= j < s.push(x).len() && i != j implies s.push(x)[i]
        != s.push(x)[j] by {
        if i < s.len() && j < s.len() {
        } else if i < s.len() {
            assert(s.contains(s[i]));
        } else {
            assert(s.contains(s[j]));
        }
    }
}

} // verus!
