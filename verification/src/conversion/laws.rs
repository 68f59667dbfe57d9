//! What holds of every run of the collector.

use vstd::prelude::*;
use crate::conversion::collector::{
    collected, duplicates_follow, lemma_after_keeps_wf, lemma_collected_push,
    lemma_push_keeps_distinct, CollectorView, Event, Outcome, Stage,
};
use crate::parser::WWConfigView;

verus! {

/// The collector after a run of events, taken in order.
pub open spec fn run<W>(c: CollectorView<W>, events: Seq<Event<W>>) -> CollectorView<W>
    decreases events.len(),
{
    if events.len() == 0 {
        c
    } else {
        run(c, events.drop_last()).after(events.last())
    }
}

/// Whatever the driver reports, in whatever order, the collector stays well
/// formed: no particle type is ever collected twice.
pub proof fn lemma_run_keeps_wf<W>(configs: Seq<WWConfigView>, plot: bool, events: Seq<Event<W>>)
    ensures
        run(CollectorView::start(configs, plot), events).wf(),
        run(CollectorView::start(configs, plot), events).particles.no_duplicates(),
    decreases events.len(),
{
    if events.len() > 0 {
        lemma_run_keeps_wf(configs, plot, events.drop_last());
        lemma_after_keeps_wf(
            run(CollectorView::start(configs, plot), events.drop_last()),
            events.last(),
        );
    }
}

/// A mesh whose particle type has been collected is set aside: its tally is
/// recorded as a duplicate, and the collected weights stay as they are.
pub proof fn lemma_duplicate_is_skipped<W>(c: CollectorView<W>, particle: u8)
    requires
        c.stage == Stage::Reading,
        c.particles.contains(particle),
    ensures
        c.after(Event::MeshLoaded { particle }).weights == c.weights,
        c.after(Event::MeshLoaded { particle }).particles == c.particles,
        c.after(Event::MeshLoaded { particle }).outcomes == c.outcomes.push(
            Outcome::Duplicate { particle },
        ),
        !(c.after(Event::MeshLoaded { particle }).pending() is Generate),
{
}

/// What has been collected stays: no event takes a weight window away, puts
/// another in its place or moves it.
pub proof fn lemma_collected_is_kept<W>(c: CollectorView<W>, event: Event<W>, slot: int)
    requires
        c.particles.len() == c.weights.len(),
        0 <= slot < c.weights.len(),
    ensures
        slot < c.after(event).weights.len(),
        c.after(event).weights[slot] == c.weights[slot],
        c.after(event).particles[slot] == c.particles[slot],
        c.after(event).particles.len() == c.after(event).weights.len(),
{
}

/// The same holds of a whole run: what was collected before it is still
/// there after it, in its place.
pub proof fn lemma_run_keeps_collected<W>(c: CollectorView<W>, events: Seq<Event<W>>, slot: int)
    requires
        c.particles.len() == c.weights.len(),
        0 <= slot < c.weights.len(),
    ensures
        slot < run(c, events).weights.len(),
        run(c, events).weights[slot] == c.weights[slot],
        run(c, events).particles[slot] == c.particles[slot],
        run(c, events).particles.len() == run(c, events).weights.len(),
    decreases events.len(),
{
    if events.len() > 0 {
        lemma_run_keeps_collected(c, events.drop_last(), slot);
        lemma_collected_is_kept(run(c, events.drop_last()), events.last(), slot);
    }
}

/// The collected particle types stand among the outcomes in their order: each
/// of them belongs to a tally recorded as collected, and a later one to a
/// later tally.
pub proof fn lemma_collected_in_order(outcomes: Seq<Outcome>, a: int, b: int)
    requires
        0 <= a < b < outcomes.len(),
        outcomes[a] is Collected,
        outcomes[b] is Collected,
    ensures
        exists|i: int, j: int|
            0 <= i < j < collected(outcomes).len() && collected(outcomes)[i]
                == outcomes[a]->Collected_particle && collected(outcomes)[j]
                == outcomes[b]->Collected_particle,
    decreases outcomes.len(),
{
    let head = outcomes.drop_last();
    if b == outcomes.len() - 1 {
        lemma_collected_holds(head, a);
        let i = choose|i: int|
            0 <= i < collected(head).len() && collected(head)[i] == head[a]->Collected_particle;
        let j = collected(head).len() as int;
        assert(collected(outcomes) == collected(head).push(outcomes[b]->Collected_particle));
        assert(collected(outcomes)[i] == outcomes[a]->Collected_particle);
        assert(collected(outcomes)[j] == outcomes[b]->Collected_particle);
    } else {
        lemma_collected_in_order(head, a, b);
        let (i, j) = choose|i: int, j: int|
            0 <= i < j < collected(head).len() && collected(head)[i]
                == head[a]->Collected_particle && collected(head)[j]
                == head[b]->Collected_particle;
        lemma_collected_push(head, outcomes.last());
        assert(outcomes.push(outcomes.last()).drop_last() =~= outcomes);
        assert(head.push(outcomes.last()) =~= outcomes);
        assert(collected(outcomes)[i] == outcomes[a]->Collected_particle);
        assert(collected(outcomes)[j] == outcomes[b]->Collected_particle);
    }
}

/// The particle type of a tally recorded as collected is among the collected
/// particle types.
pub proof fn lemma_collected_holds(outcomes: Seq<Outcome>, a: int)
    requires
        0 <= a < outcomes.len(),
        outcomes[a] is Collected,
    ensures
        exists|i: int|
            0 <= i < collected(outcomes).len() && collected(outcomes)[i]
                == outcomes[a]->Collected_particle,
    decreases outcomes.len(),
{
    let head = outcomes.drop_last();
    assert(head.push(outcomes.last()) =~= outcomes);
    lemma_collected_push(head, outcomes.last());
    if a == outcomes.len() - 1 {
        let i = collected(head).len() as int;
        assert(collected(outcomes)[i] == outcomes[a]->Collected_particle);
    } else {
        lemma_collected_holds(head, a);
        let i = choose|i: int|
            0 <= i < collected(head).len() && collected(head)[i] == head[a]->Collected_particle;
        assert(collected(outcomes)[i] == outcomes[a]->Collected_particle);
    }
}

/// In a well-formed collector no two tallies were collected for one particle
/// type, and every tally set aside as a duplicate follows the one tally that
/// was collected for its particle type.
pub proof fn lemma_one_tally_per_particle<W>(c: CollectorView<W>)
    requires
        c.wf(),
    ensures
        forall|a: int, b: int|
            0 <= a < b < c.outcomes.len() && (#[trigger] c.outcomes[a]) is Collected && (
            #[trigger] c.outcomes[b]) is Collected ==> c.outcomes[a]->Collected_particle
                != c.outcomes[b]->Collected_particle,
        duplicates_follow(c.outcomes),
{
    assert forall|a: int, b: int|
        0 <= a < b < c.outcomes.len() && (#[trigger] c.outcomes[a]) is Collected && (
        #[trigger] c.outcomes[b]) is Collected implies c.outcomes[a]->Collected_particle
        != c.outcomes[b]->Collected_particle by {
        lemma_collected_in_order(c.outcomes, a, b);
        let (i, j) = choose|i: int, j: int|
            0 <= i < j < collected(c.outcomes).len() && collected(c.outcomes)[i]
                == c.outcomes[a]->Collected_particle && collected(c.outcomes)[j]
                == c.outcomes[b]->Collected_particle;
        assert(c.particles[i] == collected(c.outcomes)[i]);
        assert(c.particles[j] == collected(c.outcomes)[j]);
    }
}

/// What the driver finds for one tally, once it is asked.
pub enum Answer<W> {
    /// The mesh cannot be read.
    Unreadable,
    /// The mesh is of this particle type. `weights` is what generating gives,
    /// if it gives anything; `plotted` tells whether the plot can be written.
    Loaded { particle: u8, weights: Option<W>, plotted: bool },
}

/// What a driver reports for one tally, in order. `held` tells whether the
/// particle type of the tally's mesh has been collected before.
pub open spec fn reports<W>(answer: Answer<W>, held: bool, plot: bool) -> Seq<Event<W>> {
    match answer {
        Answer::Unreadable => seq![Event::MeshFailed],
        Answer::Loaded { particle, weights, plotted } => {
            if held {
                seq![Event::MeshLoaded { particle }]
            } else {
                match weights {
                    None => seq![Event::MeshLoaded { particle }, Event::GenerationFailed],
                    Some(w) => if !plot {
                        seq![Event::MeshLoaded { particle }, Event::Generated(w)]
                    } else if plotted {
                        seq![Event::MeshLoaded { particle }, Event::Generated(w), Event::Exported]
                    } else {
                        seq![
                            Event::MeshLoaded { particle },
                            Event::Generated(w),
                            Event::ExportFailed,
                        ]
                    },
                }
            }
        },
    }
}

/// Whether the particle type of a tally's mesh is among those collected.
pub open spec fn is_held<W>(answer: Answer<W>, particles: Seq<u8>) -> bool {
    match answer {
        Answer::Unreadable => false,
        Answer::Loaded { particle, .. } => particles.contains(particle),
    }
}

/// The collector after a driver has dealt with the tallies whose answers are
/// given, one after the other.
pub open spec fn served<W>(c: CollectorView<W>, answers: Seq<Answer<W>>) -> CollectorView<W>
    decreases answers.len(),
{
    if answers.len() == 0 {
        c
    } else {
        let before = served(c, answers.drop_last());
        run(before, reports(answers.last(), is_held(answers.last(), before.particles), before.plot))
    }
}

/// What ought to be collected from the tallies whose answers are given: for
/// each particle type the weights of the first tally that gives any, in the
/// order of the tallies; and whether a plot that was asked for could not be
/// written.
pub open spec fn gathered<W>(answers: Seq<Answer<W>>, plot: bool) -> (Seq<u8>, Seq<W>, bool)
    decreases answers.len(),
{
    if answers.len() == 0 {
        (Seq::empty(), Seq::empty(), false)
    } else {
        let (particles, weights, failed) = gathered(answers.drop_last(), plot);
        match answers.last() {
            Answer::Loaded { particle, weights: Some(w), plotted } => {
                if particles.contains(particle) {
                    (particles, weights, failed)
                } else {
                    (particles.push(particle), weights.push(w), failed || (plot && !plotted))
                }
            },
            _ => (particles, weights, failed),
        }
    }
}

proof fn lemma_run_unfolds<W>(c: CollectorView<W>, a: Event<W>, b: Event<W>, d: Event<W>)
    ensures
        run(c, seq![a]) == c.after(a),
        run(c, seq![a, b]) == c.after(a).after(b),
        run(c, seq![a, b, d]) == c.after(a).after(b).after(d),
{
    reveal_with_fuel(run, 4);
    assert(seq![a].drop_last() =~= Seq::<Event<W>>::empty());
    assert(seq![a, b].drop_last() =~= seq![a]);
    assert(seq![a, b, d].drop_last() =~= seq![a, b]);
}

/// A driver that deals with every tally leaves the collector with exactly
/// what ought to be collected: one weight window per particle type, that of
/// the first tally which gave one, in the order of the tallies.
pub proof fn lemma_served_gathers<W>(
    configs: Seq<WWConfigView>,
    plot: bool,
    answers: Seq<Answer<W>>,
)
    requires
        answers.len() <= configs.len(),
    ensures
        served(CollectorView::start(configs, plot), answers).wf(),
        served(CollectorView::start(configs, plot), answers).configs == configs,
        served(CollectorView::start(configs, plot), answers).plot == plot,
        served(CollectorView::start(configs, plot), answers).outcomes.len() == answers.len(),
        served(CollectorView::start(configs, plot), answers).stage == if answers.len()
            == configs.len() {
            Stage::Done
        } else {
            Stage::Reading
        },
        served(CollectorView::start(configs, plot), answers).particles == gathered(
            answers,
            plot,
        ).0,
        served(CollectorView::start(configs, plot), answers).weights == gathered(answers, plot).1,
        served(CollectorView::start(configs, plot), answers).export_failed == gathered(
            answers,
            plot,
        ).2,
    decreases answers.len(),
{
    let start = CollectorView::<W>::start(configs, plot);
    if answers.len() > 0 {
        let head = answers.drop_last();
        lemma_served_gathers(configs, plot, head);
        let before = served(start, head);
        let held = is_held(answers.last(), before.particles);
        let events = reports(answers.last(), held, plot);
        assert(before.stage == Stage::Reading);
        match answers.last() {
            Answer::Unreadable => {
                lemma_run_unfolds(before, Event::MeshFailed, Event::MeshFailed, Event::MeshFailed);
                lemma_after_keeps_wf(before, Event::MeshFailed);
            },
            Answer::Loaded { particle, weights, plotted } => {
                let loaded = Event::MeshLoaded { particle };
                lemma_after_keeps_wf(before, loaded);
                if held {
                    lemma_run_unfolds(before, loaded, loaded, loaded);
                } else {
                    match weights {
                        None => {
                            lemma_run_unfolds(before, loaded, Event::GenerationFailed, loaded);
                            lemma_after_keeps_wf(before.after(loaded), Event::GenerationFailed);
                        },
                        Some(w) => {
                            let generated = Event::Generated(w);
                            lemma_after_keeps_wf(before.after(loaded), generated);
                            if !plot {
                                lemma_run_unfolds(before, loaded, generated, loaded);
                            } else {
                                let last = if plotted {
                                    Event::Exported
                                } else {
                                    Event::ExportFailed
                                };
                                lemma_run_unfolds(before, loaded, generated, last);
                                lemma_after_keeps_wf(before.after(loaded).after(generated), last);
                            }
                        },
                    }
                }
            },
        }
    }
}

/// Whether a tally gives weights for a particle type.
pub open spec fn gives<W>(answer: Answer<W>, particle: u8) -> bool {
    answer matches Answer::Loaded { particle: p, weights: Some(_), .. } && p == particle
}

/// What ought to be collected holds each particle type once, as many weight
/// windows as particle types, and no more of them than there are tallies.
pub proof fn lemma_gathered_distinct<W>(answers: Seq<Answer<W>>, plot: bool)
    ensures
        gathered(answers, plot).0.no_duplicates(),
        gathered(answers, plot).0.len() == gathered(answers, plot).1.len(),
        gathered(answers, plot).1.len() <= answers.len(),
    decreases answers.len(),
{
    if answers.len() > 0 {
        lemma_gathered_distinct(answers.drop_last(), plot);
        let before = gathered(answers.drop_last(), plot);
        match answers.last() {
            Answer::Loaded { particle, weights: Some(w), plotted } => {
                if !before.0.contains(particle) {
                    lemma_push_keeps_distinct(before.0, particle);
                }
            },
            _ => {},
        }
    }
}

/// Of two tallies with meshes of one particle type the first counts: where
/// tally `first` gives weights for a particle type and none before it does,
/// those weights are what is collected for that type, whatever the tallies
/// behind it give.
pub proof fn lemma_first_tally_wins<W>(answers: Seq<Answer<W>>, plot: bool, first: int)
    requires
        0 <= first < answers.len(),
        answers[first] is Loaded,
        answers[first]->weights is Some,
        forall|j: int| 0 <= j < first ==> !gives(#[trigger] answers[j], answers[first]->particle),
    ensures
        exists|slot: int|
            0 <= slot < gathered(answers, plot).0.len() && slot < gathered(answers, plot).1.len()
                && #[trigger] gathered(answers, plot).0[slot] == answers[first]->particle
                && gathered(answers, plot).1[slot] == answers[first]->weights->0,
    decreases answers.len(),
{
    let head = answers.drop_last();
    let before = gathered(head, plot);
    let particle = answers[first]->particle;
    lemma_gathered_distinct(head, plot);
    if first == answers.len() - 1 {
        if before.0.contains(particle) {
            lemma_gathered_from(head, plot, particle);
            let j = choose|j: int| 0 <= j < head.len() && gives(#[trigger] head[j], particle);
            assert(answers[j] == head[j]);
        }
        let slot = before.0.len() as int;
        assert(gathered(answers, plot).0[slot] == particle);
    } else {
        assert forall|j: int| 0 <= j < first implies !gives(#[trigger] head[j], particle) by {
            assert(head[j] == answers[j]);
        }
        assert(head[first] == answers[first]);
        lemma_first_tally_wins(head, plot, first);
        let slot = choose|slot: int|
            0 <= slot < before.0.len() && slot < before.1.len() && #[trigger] before.0[slot]
                == particle && before.1[slot] == answers[first]->weights->0;
        assert(before.0.contains(particle));
        assert(gathered(answers, plot).0[slot] == particle);
    }
}

/// Every collected particle type comes from a tally that gives weights for it.
pub proof fn lemma_gathered_from<W>(answers: Seq<Answer<W>>, plot: bool, particle: u8)
    requires
        gathered(answers, plot).0.contains(particle),
    ensures
        exists|j: int| 0 <= j < answers.len() && gives(#[trigger] answers[j], particle),
    decreases answers.len(),
{
    if answers.len() > 0 {
        let head = answers.drop_last();
        let before = gathered(head, plot);
        if before.0.contains(particle) {
            lemma_gathered_from(head, plot, particle);
            let j = choose|j: int| 0 <= j < head.len() && gives(#[trigger] head[j], particle);
            assert(answers[j] == head[j]);
        } else {
            let k = choose|k: int|
                0 <= k < gathered(answers, plot).0.len() && gathered(answers, plot).0[k]
                    == particle;
            match answers.last() {
                Answer::Loaded { particle: p, weights: Some(w), plotted } => {
                    if k < before.0.len() {
                        assert(before.0[k] == particle);
                    }
                    assert(p == particle);
                    assert(gives(answers[answers.len() - 1], particle));
                },
                _ => {
                    assert(before.0[k] == particle);
                },
            }
        }
    }
}

} // verus!
