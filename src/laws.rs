use vstd::prelude::*;
use vstd::string::StringSliceAdditionalSpecFns;
use crate::session::{
    ended, finish, next_directive, next_session, rank, well_formed, Address, CommandView, Event,
    Session, SessionError, Stage, SANITY_OBJECTS,
};
use crate::wire::{
    challenge_line, has_module_magic, solution_payload_spec, token_line,
    token_unavailable_notice,
};

verus! {

/// Whether `e` is the outcome that lets stage `s` hand over to its successor.
pub open spec fn succeeds(s: Stage, e: Event) -> bool {
    match s {
        Stage::Initializing => e is Ready,
        Stage::PreflightCheck => e is Found,
        Stage::DeployingChallenge => e is Deployed,
        Stage::AwaitingSolution => match e {
            Event::Received { data } => has_module_magic(solution_payload_spec(data@)),
            _ => false,
        },
        Stage::DeployingSolution => e is Deployed,
        Stage::Provisioning => e is Called,
        Stage::StateSanityCheck => e is Found,
        Stage::Solving => e is Called,
        Stage::Verifying => e is Called,
        Stage::Done => false,
    }
}

/// The session after feeding it the events of `es`, in order.
pub open spec fn run(s: Session, es: Seq<Event>) -> Session
    decreases es.len(),
{
    if es.len() == 0 {
        s
    } else {
        run(next_session(s, es[0]), es.drop_first())
    }
}

/// Stages follow one another in protocol order: a step either stays in its stage (only
/// while the objects after provisioning are inspected one by one), moves to the very next
/// stage, and then only when the current stage succeeded, or ends the session. An ended
/// session stays ended.
pub proof fn lemma_stage_order(s: Session, e: Event)
    requires
        well_formed(s),
    ensures
        ({
            let t = next_session(s, e);
            &&& t.stage == s.stage ==> (s.stage == Stage::Done || (s.stage
                == Stage::StateSanityCheck && e is Found && t.checked == s.checked + 1))
            &&& t.stage != Stage::Done && rank(t.stage) == rank(s.stage) + 1 ==> succeeds(s.stage, e)
            &&& t.stage == s.stage || rank(t.stage) == rank(s.stage) + 1 || t.stage == Stage::Done
            &&& !succeeds(s.stage, e) ==> t.stage == Stage::Done
            &&& well_formed(t)
            &&& (s.stage != Stage::Done && next_directive(s, e).command == finish(Ok(())))
                ==> (s.stage == Stage::Verifying && e is Called)
        }),
{
}

/// Over any run of events no stage is skipped: after `n` events a session is at most
/// `n` stages further on, until it ends.
pub proof fn lemma_no_stage_skipped(s: Session, es: Seq<Event>)
    requires
        well_formed(s),
    ensures
        well_formed(run(s, es)),
        run(s, es).stage == Stage::Done || rank(run(s, es).stage) <= rank(s.stage) + es.len(),
    decreases es.len(),
{
    if es.len() > 0 {
        lemma_stage_order(s, es[0]);
        let t = next_session(s, es[0]);
        lemma_no_stage_skipped(t, es.drop_first());
        if t.stage == Stage::Done {
            lemma_done_stays_done(t, es.drop_first());
        }
    }
}

proof fn lemma_done_stays_done(s: Session, es: Seq<Event>)
    requires
        s.stage == Stage::Done,
    ensures
        run(s, es) == s,
    decreases es.len(),
{
    if es.len() > 0 {
        lemma_done_stays_done(next_session(s, es[0]), es.drop_first());
    }
}

/// When the challenge cannot be deployed the session ends there: whatever happens next,
/// it never asks to read the client's solution and sends nothing more.
pub proof fn lemma_failed_challenge_deploy_never_reads(s: Session, e: Event, later: Seq<Event>)
    requires
        well_formed(s),
        s.stage == Stage::DeployingChallenge,
        !(e is Deployed),
    ensures
        next_directive(s, e).command is Finish,
        next_session(s, e).stage == Stage::Done,
        forall|k: int|
            0 <= k < later.len() ==> {
                let d = #[trigger] next_directive(run(next_session(s, e), later.take(k)), later[k]);
                &&& !(d.command is ReadSolution)
                &&& d.message is None
            },
{
    assert forall|k: int| 0 <= k < later.len() implies {
        let d = #[trigger] next_directive(run(next_session(s, e), later.take(k)), later[k]);
        &&& !(d.command is ReadSolution)
        &&& d.message is None
    } by {
        lemma_done_stays_done(next_session(s, e), later.take(k));
    }
}

/// A submission that cannot be a module ends the session at once: the client gets the
/// challenge's address, no deployment is attempted, no other message follows.
pub proof fn lemma_unloadable_solution_ends_session(s: Session, data: Vec<u8>, later: Seq<Event>)
    requires
        well_formed(s),
        s.stage == Stage::AwaitingSolution,
        !has_module_magic(solution_payload_spec(data@)),
    ensures
        next_directive(s, Event::Received { data }).message == Some(
            challenge_line(s.challenge.unwrap().bytes@),
        ),
        next_directive(s, Event::Received { data }).command == finish(
            Err(SessionError::SolutionDeployFailed),
        ),
        next_session(s, Event::Received { data }) == ended(s),
        forall|k: int|
            0 <= k < later.len() ==> (#[trigger] next_directive(
                run(ended(s), later.take(k)),
                later[k],
            )).message is None,
{
    assert forall|k: int| 0 <= k < later.len() implies (#[trigger] next_directive(
        run(ended(s), later.take(k)),
        later[k],
    )).message is None by {
        lemma_done_stays_done(ended(s), later.take(k));
    }
}

/// An empty submission never reaches deployment: padded with zero bytes it lacks the
/// module magic, so the session fails with a solution deployment error, the same way
/// every time.
pub proof fn lemma_empty_solution_fails(s: Session, data: Vec<u8>)
    requires
        well_formed(s),
        s.stage == Stage::AwaitingSolution,
        data@.len() == 0,
    ensures
        next_directive(s, Event::Received { data }).command == finish(
            Err(SessionError::SolutionDeployFailed),
        ),
        next_session(s, Event::Received { data }).stage == Stage::Done,
{
    let payload = solution_payload_spec(data@);
    assert(payload[0] == 0u8);
    assert(payload.subrange(0, 4)[0] == 0u8);
}

/// A solved session ends with the configured token, exactly, after a fixed prefix; with no
/// token configured it ends with the unavailable notice, which is not empty.
pub proof fn lemma_token_revealed(s: Session)
    requires
        well_formed(s),
        s.stage == Stage::Verifying,
    ensures
        next_directive(s, Event::Called).command == finish(Ok(())),
        next_directive(s, Event::Called).message is Some,
        ({
            let m = next_directive(s, Event::Called).message.unwrap();
            match s.token {
                Some(t) => m == token_line(t@) && m.subrange(m.len() - t@.len(), m.len() as int) == t@,
                None => m == token_unavailable_notice() && m.len() > 0,
            }
        }),
{
    reveal_strlit("[SERVER] Flag not found, please contact admin");
    broadcast use vstd::string::is_ascii_spec_bytes;
    assert(vstd::string::is_ascii("[SERVER] Flag not found, please contact admin"));
    match s.token {
        Some(t) => {
            let m = token_line(t@);
            assert(m.subrange(m.len() - t@.len(), m.len() as int) =~= t@);
        },
        None => {},
    }
}

/// Sessions do not see each other: two sessions whose challenges are deployed both go on,
/// each holding the address its own deployment reported and naming that address alone
/// to its client, whatever the other session holds.
pub proof fn lemma_sessions_isolated(s1: Session, s2: Session, a1: Address, a2: Address, data: Vec<u8>)
    requires
        well_formed(s1),
        well_formed(s2),
        s1.stage == Stage::DeployingChallenge,
        s2.stage == Stage::DeployingChallenge,
    ensures
        ({
            let t1 = next_session(s1, Event::Deployed { address: a1 });
            let t2 = next_session(s2, Event::Deployed { address: a2 });
            &&& t1.stage == Stage::AwaitingSolution
            &&& t2.stage == Stage::AwaitingSolution
            &&& t1.challenge == Some(a1)
            &&& t2.challenge == Some(a2)
            &&& next_directive(t1, Event::Received { data }).message == Some(challenge_line(a1.bytes@))
            &&& next_directive(t2, Event::Received { data }).message == Some(challenge_line(a2.bytes@))
        }),
{
}

} // verus!
