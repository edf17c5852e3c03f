//! Decisions of the audio worker about the commands it is sent: which play
//! request wins, which mixer settings get applied, and when a new request
//! interrupts the track being played.

use vstd::prelude::*;

use std::collections::VecDeque;

verus! {

/// A request to the audio worker, tagged by the caller with a generation number.
#[derive(Debug, Clone, Copy, PartialEq, Eq)]
pub enum WorkerCommand<P, M> {
    /// Play a track.
    Play(P),
    /// Use new mixer settings from now on.
    SetMixerConfig(M),
}

/// The mixer settings carried by the commands, in order.
pub open spec fn mixer_configs<P, M>(q: Seq<(u64, WorkerCommand<P, M>)>) -> Seq<M>
    decreases q.len(),
{
    if q.len() == 0 {
        Seq::empty()
    } else {
        let rest = mixer_configs(q.drop_last());
        match q.last().1 {
            WorkerCommand::SetMixerConfig(m) => rest.push(m),
            WorkerCommand::Play(_) => rest,
        }
    }
}

/// Some command of `q` is a play request.
pub open spec fn has_play<P, M>(q: Seq<(u64, WorkerCommand<P, M>)>) -> bool {
    exists|i: int| 0 <= i < q.len() && q[i].1 is Play
}

/// `k` is the place of the last play request of `q`.
pub open spec fn last_play<P, M>(q: Seq<(u64, WorkerCommand<P, M>)>, k: int) -> bool {
    &&& 0 <= k < q.len()
    &&& q[k].1 is Play
    &&& forall|j: int| k < j < q.len() ==> !(#[trigger] q[j].1 is Play)
}

/// `k` is the place of the first play request of `q`.
pub open spec fn first_play<P, M>(q: Seq<(u64, WorkerCommand<P, M>)>, k: int) -> bool {
    &&& 0 <= k < q.len()
    &&& q[k].1 is Play
    &&& forall|j: int| 0 <= j < k ==> !(#[trigger] q[j].1 is Play)
}

/// What the worker does with the commands that wait when it picks one up:
/// the latest play request replaces the command in hand, and the mixer
/// settings are applied as they come; the command in hand is returned, to
/// be run (a mixer setting then applies after the ones queued behind it).
pub fn coalesce_commands<P, M>(first: (u64, WorkerCommand<P, M>), queued: &mut VecDeque<
    (u64, WorkerCommand<P, M>),
>) -> (r: ((u64, WorkerCommand<P, M>), Vec<M>))
    ensures
        final(queued)@.len() == 0,
        r.1@ == mixer_configs(old(queued)@),
        !has_play(old(queued)@) ==> r.0 == first,
        has_play(old(queued)@) ==> exists|k: int| last_play(old(queued)@, k) && r.0 == old(queued)@[k],
{
    let ghost q0 = queued@;
    let mut command = first;
    let mut applied: Vec<M> = Vec::new();
    let ghost mut taken: int = 0;
    loop
        invariant
            q0 == old(queued)@,
            0 <= taken <= q0.len(),
            queued@ == q0.subrange(taken, q0.len() as int),
            applied@ == mixer_configs(q0.take(taken)),
            !has_play(q0.take(taken)) ==> command == first,
            has_play(q0.take(taken)) ==> exists|k: int|
                last_play(q0.take(taken), k) && command == q0[k],
        decreases q0.len() - taken,
    {
        let next = queued.pop_front();
        match next {
            None => {
                assert(q0.take(taken) =~= q0);
                return (command, applied);
            },
            Some(item) => {
                let ghost before = q0.take(taken);
                proof {
                    assert(item == q0[taken]);
                    assert(q0.take(taken + 1).drop_last() =~= before);
                    assert(q0.take(taken + 1).last() == item);
                }
                let (g, c) = item;
                match c {
                    WorkerCommand::Play(p) => {
                        command = (g, WorkerCommand::Play(p));
                        proof {
                            assert(last_play(q0.take(taken + 1), taken));
                        }
                    },
                    WorkerCommand::SetMixerConfig(m) => {
                        applied.push(m);
                        proof {
                            let now = q0.take(taken + 1);
                            if has_play(now) {
                                let i = choose|i: int| 0 <= i < now.len() && now[i].1 is Play;
                                assert(i < taken);
                                assert(before[i] == now[i]);
                                let k = choose|k: int| last_play(before, k) && command == q0[k];
                                assert(last_play(now, k));
                            } else {
                                assert forall|i: int| 0 <= i < before.len() implies !(before[i].1 is Play) by {
                                    assert(now[i] == before[i]);
                                }
                            }
                        }
                    },
                }
                proof {
                    taken = taken + 1;
                }
            },
        }
    }
}

/// What the worker does with the commands that arrive while a track plays:
/// mixer settings are applied as they come until a play request, which
/// interrupts the track and is kept to be run next; the commands behind it
/// stay queued.
pub fn take_until_play<P, M>(queued: &mut VecDeque<(u64, WorkerCommand<P, M>)>) -> (r: (
    Option<(u64, WorkerCommand<P, M>)>,
    Vec<M>,
))
    ensures
        !has_play(old(queued)@) ==> r.0 is None && final(queued)@.len() == 0 && r.1@
            == mixer_configs(old(queued)@),
        has_play(old(queued)@) ==> exists|k: int|
            first_play(old(queued)@, k) && r.0 == Some(old(queued)@[k]) && r.1@ == mixer_configs(
                old(queued)@.take(k),
            ) && final(queued)@ == old(queued)@.subrange(k + 1, old(queued)@.len() as int),
{
    let ghost q0 = queued@;
    let mut applied: Vec<M> = Vec::new();
    let ghost mut taken: int = 0;
    loop
        invariant
            q0 == old(queued)@,
            0 <= taken <= q0.len(),
            queued@ == q0.subrange(taken, q0.len() as int),
            applied@ == mixer_configs(q0.take(taken)),
            !has_play(q0.take(taken)),
        decreases q0.len() - taken,
    {
        let next = queued.pop_front();
        match next {
            None => {
                assert(q0.take(taken) =~= q0);
                return (None, applied);
            },
            Some(item) => {
                let ghost before = q0.take(taken);
                proof {
                    assert(item == q0[taken]);
                    assert(q0.take(taken + 1).drop_last() =~= before);
                    assert(q0.take(taken + 1).last() == item);
                }
                match item {
                    (g, WorkerCommand::Play(p)) => {
                        proof {
                            assert forall|j: int| 0 <= j < taken implies !(#[trigger] q0[j].1 is Play) by {
                                assert(before[j] == q0[j]);
                            }
                            assert(first_play(q0, taken));
                            assert(has_play(q0));
                            assert(queued@ =~= q0.subrange(taken + 1, q0.len() as int));
                        }
                        return (Some((g, WorkerCommand::Play(p))), applied);
                    },
                    (g, WorkerCommand::SetMixerConfig(m)) => {
                        applied.push(m);
                        proof {
                            let now = q0.take(taken + 1);
                            assert forall|i: int| 0 <= i < now.len() implies !(#[trigger] now[i].1 is Play) by {
                                if i < taken {
                                    assert(now[i] == before[i]);
                                }
                            }
                            taken = taken + 1;
                        }
                    },
                }
            },
        }
    }
}

} // verus!
