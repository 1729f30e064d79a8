//! Iteration controller: repeatedly threads a stream through a caller-built
//! loop-body sub-dataflow for a bounded number of rounds, feeding each
//! round's complete output as the next round's input.

use vstd::prelude::*;

verus! {

/// Whether `states` is a possible run of the loop body `f`: the first state
/// is the loop's input, and every later state is an output the body may
/// produce from the state before it.
pub open spec fn iter_chain<E, F: Fn(Vec<u64>) -> Result<Vec<u64>, E>>(
    f: F,
    source: Seq<u64>,
    states: Seq<Vec<u64>>,
) -> bool {
    &&& states.len() >= 1
    &&& states[0]@ == source
    &&& (forall|i: int|
        0 <= i < states.len() - 1 ==> #[trigger] call_ensures(
            f,
            (states[i],),
            Ok::<Vec<u64>, E>(states[i + 1]),
        ))
}

/// Runs the loop body over the source stream for exactly `max_rounds`
/// rounds: round one consumes the source, every later round consumes the
/// full output of the round before it, and the final round's output is the
/// result. An error inside any round's body aborts the whole iteration and
/// surfaces as its failure.
pub fn iterate<E, F: Fn(Vec<u64>) -> Result<Vec<u64>, E>>(
    source: Vec<u64>,
    max_rounds: u32,
    body: &F,
) -> (r: Result<Vec<u64>, E>)
    requires
        forall|v: Vec<u64>| #[trigger] call_requires(*body, (v,)),
    ensures
        match r {
            Ok(out) => exists|states: Seq<Vec<u64>>|
                {
                    &&& #[trigger] iter_chain(*body, source@, states)
                    &&& states.len() == max_rounds + 1
                    &&& out == states.last()
                },
            Err(e) => exists|states: Seq<Vec<u64>>|
                {
                    &&& #[trigger] iter_chain(*body, source@, states)
                    &&& states.len() <= max_rounds
                    &&& call_ensures(*body, (states.last(),), Err::<Vec<u64>, E>(e))
                },
        },
{
    let mut cur = source;
    let ghost mut states: Seq<Vec<u64>> = seq![cur];
    let mut round: u32 = 0;
    while round < max_rounds
        invariant
            round <= max_rounds,
            states.len() == round + 1,
            states.last() == cur,
            iter_chain(*body, states[0]@, states),
            states[0]@ == source@,
            forall|v: Vec<u64>| #[trigger] call_requires(*body, (v,)),
        decreases max_rounds - round,
    {
        let ghost prev_states = states;
        match body(cur) {
            Ok(next) => {
                proof {
                    states = states.push(next);
                    assert(forall|i: int|
                        0 <= i < states.len() - 1 ==> #[trigger] call_ensures(
                            *body,
                            (states[i],),
                            Ok::<Vec<u64>, E>(states[i + 1]),
                        )) by {
                        assert(forall|i: int|
                            0 <= i < prev_states.len() - 1 ==> #[trigger] states[i]
                                == prev_states[i] && states[i + 1] == prev_states[i + 1]);
                    }
                }
                cur = next;
            },
            Err(e) => {
                proof {
                    assert(iter_chain(*body, source@, states) && states.len() <= max_rounds
                        && call_ensures(*body, (states.last(),), Err::<Vec<u64>, E>(e)));
                }
                return Err(e);
            },
        }
        round += 1;
    }
    proof {
        assert(iter_chain(*body, source@, states) && states.len() == max_rounds + 1 && cur
            == states.last());
    }
    Ok(cur)
}

} // verus!
