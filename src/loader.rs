use vstd::prelude::*;

verus! {

/// Next step of a lookup of one symbol through an ordered chain of loaders.
#[derive(Clone, Copy, Debug, PartialEq, Eq, Structural)]
pub enum LookupStep {
    /// Ask the loader at this position of the chain
    Probe(usize),
    /// The symbol resolved to this address
    Resolved(usize),
    /// No loader of the chain knows the symbol
    Unresolved,
}

/// The step after the loaders at positions `i` onwards of `answers` were
/// asked, in a chain of `loaders` loaders.
pub open spec fn step_from(answers: Seq<Option<usize>>, i: int, loaders: int) -> LookupStep
    decreases answers.len() - i,
{
    if 0 <= i < answers.len() {
        match answers[i] {
            Some(a) => LookupStep::Resolved(a),
            None => step_from(answers, i + 1, loaders),
        }
    } else if answers.len() <= i < loaders {
        LookupStep::Probe(i as usize)
    } else {
        LookupStep::Unresolved
    }
}

/// The step that follows the answers of the first `answers.len()` loaders
/// of a chain of `loaders`: the first address that a loader gave, else the
/// next loader to ask, else no address.
pub open spec fn spec_lookup_step(answers: Seq<Option<usize>>, loaders: int) -> LookupStep {
    step_from(answers, 0, loaders)
}

/// Decides the next step of a lookup, given what the loaders asked so far
/// answered, in chain order. The first loader that knows the symbol wins;
/// none after it is asked.
pub fn lookup_step(answers: &Vec<Option<usize>>, loaders: usize) -> (r: LookupStep)
    ensures
        r == spec_lookup_step(answers@, loaders as int),
{
    let mut i: usize = 0;
    while i < answers.len()
        invariant
            0 <= i <= answers.len(),
            step_from(answers@, 0, loaders as int) == step_from(answers@, i as int, loaders as int),
        decreases answers.len() - i,
    {
        match answers[i] {
            Some(a) => {
                return LookupStep::Resolved(a);
            },
            None => {
                i = i + 1;
            },
        }
    }
    if i < loaders {
        LookupStep::Probe(i)
    } else {
        LookupStep::Unresolved
    }
}

proof fn lemma_step_skips_misses(answers: Seq<Option<usize>>, i: int, j: int, loaders: int)
    requires
        0 <= i <= j <= answers.len(),
        forall|m: int| i <= m < j ==> answers[m] is None,
    ensures
        step_from(answers, i, loaders) == step_from(answers, j, loaders),
    decreases j - i,
{
    if i < j {
        lemma_step_skips_misses(answers, i + 1, j, loaders);
    }
}

/// Driving a chain whose loaders would answer `present`, the loaders are
/// asked left to right up to the first that knows the symbol, which
/// resolves it: no loader after it is asked.
pub proof fn lemma_first_hit_short_circuits(present: Seq<Option<usize>>, k: int)
    requires
        0 <= k < present.len(),
        present[k] is Some,
        forall|m: int| 0 <= m < k ==> present[m] is None,
    ensures
        forall|j: int|
            0 <= j <= k ==> spec_lookup_step(#[trigger] present.take(j), present.len() as int)
                == LookupStep::Probe(j as usize),
        spec_lookup_step(present.take(k + 1), present.len() as int) == LookupStep::Resolved(
            present[k]->Some_0,
        ),
{
    assert forall|j: int| 0 <= j <= k implies spec_lookup_step(
        #[trigger] present.take(j),
        present.len() as int,
    ) == LookupStep::Probe(j as usize) by {
        let a = present.take(j);
        lemma_step_skips_misses(a, 0, j, present.len() as int);
    }
    let a = present.take(k + 1);
    lemma_step_skips_misses(a, 0, k, present.len() as int);
}

/// Driving a chain in which no loader knows the symbol, every loader is
/// asked once, in order, and the lookup ends without an address.
pub proof fn lemma_absent_symbol_unresolved(present: Seq<Option<usize>>)
    requires
        forall|m: int| 0 <= m < present.len() ==> present[m] is None,
    ensures
        forall|j: int|
            0 <= j < present.len() ==> spec_lookup_step(#[trigger] present.take(j), present.len() as int)
                == LookupStep::Probe(j as usize),
        spec_lookup_step(present, present.len() as int) == LookupStep::Unresolved,
{
    assert forall|j: int| 0 <= j < present.len() implies spec_lookup_step(
        #[trigger] present.take(j),
        present.len() as int,
    ) == LookupStep::Probe(j as usize) by {
        lemma_step_skips_misses(present.take(j), 0, j, present.len() as int);
    }
    lemma_step_skips_misses(present, 0, present.len() as int, present.len() as int);
}

} // verus!
