//! Waiting for a Kubernetes namespace.
//!
//! The Helm controller creates the namespace some time after the kubeconfig is
//! ready, so its existence is polled, with a growing pause between the polls.

use vstd::prelude::*;
use vstd::string::*;
use vstd::arithmetic::power2::{lemma_pow2_unfold, pow2};
use crate::text::{contains, contains_text, law_contained_is_between};

verus! {

/// How often the namespace is looked for.
pub const POLL_ATTEMPTS: u32 = 60;

/// The pause after the first poll, in milliseconds.
pub const FIRST_PAUSE_MS: u64 = 200;

/// The longest pause between two polls, in milliseconds.
pub const LONGEST_PAUSE_MS: u64 = 2000;

/// The pause after poll `poll` (counted from 0), in milliseconds: twice the pause
/// before it, up to the longest.
pub open spec fn pause_after(poll: nat) -> nat
    decreases poll,
{
    if poll == 0 {
        FIRST_PAUSE_MS as nat
    } else if 2 * pause_after((poll - 1) as nat) <= LONGEST_PAUSE_MS {
        2 * pause_after((poll - 1) as nat)
    } else {
        LONGEST_PAUSE_MS as nat
    }
}

/// How one poll ended.
#[derive(Debug)]
pub enum Poll {
    /// The command ran.
    Ran { output: String, exit_code: i64 },
    /// The command could not be run; afterwards the container was looked at.
    NotRun { container_running: bool },
}

/// What is done after a poll.
#[derive(Debug, Clone, Copy, PartialEq, Eq, Structural)]
pub enum Verdict {
    /// The namespace exists.
    Ready,
    /// Poll again after a pause.
    Retry { pause_ms: u64 },
    /// Give up: the container is not running.
    ContainerDown,
    /// Give up: the command could still not be run at the last poll.
    NotRun,
    /// Give up: the namespace did not exist at the last poll.
    TimedOut,
}

/// The namespace is there: the command succeeded and named it.
pub open spec fn finds_namespace(poll: Poll, namespace: Seq<char>) -> bool {
    poll matches Poll::Ran { output, exit_code } && exit_code == 0 && contains_text(
        output@,
        namespace,
    )
}

/// What is done after poll `attempt` (counted from 0) ended as `poll`.
pub open spec fn verdict_of(attempt: nat, namespace: Seq<char>, poll: Poll) -> Verdict {
    let last = attempt + 1 == POLL_ATTEMPTS;
    let retry = Verdict::Retry { pause_ms: pause_after(attempt) as u64 };
    match poll {
        Poll::Ran { .. } => if finds_namespace(poll, namespace) {
            Verdict::Ready
        } else if last {
            Verdict::TimedOut
        } else {
            retry
        },
        Poll::NotRun { container_running } => if !container_running {
            Verdict::ContainerDown
        } else if last {
            Verdict::NotRun
        } else {
            retry
        },
    }
}

/// The pauses lie between the first and the longest.
pub proof fn law_pause_bounds(poll: nat)
    ensures
        FIRST_PAUSE_MS <= pause_after(poll) <= LONGEST_PAUSE_MS,
    decreases poll,
{
    if poll > 0 {
        law_pause_bounds((poll - 1) as nat);
    }
}

/// A wait for a namespace: how many polls ended without a verdict.
#[derive(Debug)]
pub struct NamespaceWait {
    attempt: u32,
    pause_ms: u64,
}

impl NamespaceWait {
    /// The polls so far.
    pub closed spec fn attempt(&self) -> nat {
        self.attempt as nat
    }

    #[verifier::type_invariant]
    closed spec fn wf(&self) -> bool {
        &&& self.attempt < POLL_ATTEMPTS
        &&& self.pause_ms == pause_after(self.attempt as nat)
    }

    /// A wait before its first poll.
    pub fn new() -> (wait: Self)
        ensures
            wait.attempt() == 0,
    {
        NamespaceWait { attempt: 0, pause_ms: FIRST_PAUSE_MS }
    }

    /// What to do after a poll for `namespace` ended as `poll`. The wait goes on to
    /// its next poll exactly where the verdict is to retry.
    pub fn judge(&mut self, namespace: &str, poll: &Poll) -> (verdict: Verdict)
        ensures
            old(self).attempt() < POLL_ATTEMPTS,
            verdict == verdict_of(old(self).attempt(), namespace@, *poll),
            final(self).attempt() == (if verdict is Retry {
                old(self).attempt() + 1
            } else {
                old(self).attempt()
            }),
    {
        proof {
            use_type_invariant(&*self);
            law_pause_bounds(self.attempt as nat);
        }
        let last = self.attempt + 1 == POLL_ATTEMPTS;
        match poll {
            Poll::Ran { output, exit_code } => {
                if *exit_code == 0 && contains(output.as_str(), namespace) {
                    return Verdict::Ready;
                }
                if last {
                    return Verdict::TimedOut;
                }
            },
            Poll::NotRun { container_running } => {
                if !*container_running {
                    return Verdict::ContainerDown;
                }
                if last {
                    return Verdict::NotRun;
                }
            },
        }
        let pause_ms: u64 = self.pause_ms;
        let doubled: u64 = pause_ms * 2;
        let next: u64 = if doubled <= LONGEST_PAUSE_MS {
            doubled
        } else {
            LONGEST_PAUSE_MS
        };
        *self = NamespaceWait { attempt: self.attempt + 1, pause_ms: next };
        Verdict::Retry { pause_ms }
    }
}

/// What every failure to find the namespace is reported under.
pub fn namespace_context() -> (text: &'static str)
    ensures
        text@ == "K8s namespace not ready"@,
{
    "K8s namespace not ready"
}

/// The error after the last poll did not find `namespace`.
pub fn timed_out_message(namespace: &str, output: &str) -> (text: String)
    ensures
        text@ == "timed out waiting for namespace '"@ + namespace@ + "' to exist: "@ + output@,
{
    let mut text = "timed out waiting for namespace '".to_owned();
    text.append(namespace);
    text.append("' to exist: ");
    text.append(output);
    text
}

/// The error where the container stopped during the wait: its status and its
/// recent log.
pub fn container_down_message(namespace: &str, status: &str, logs: &str) -> (text: String)
    ensures
        text@ == "cluster container is not running while waiting for namespace '"@ + namespace@
            + "': "@ + status@ + "\n"@ + logs@,
{
    let mut text = "cluster container is not running while waiting for namespace '".to_owned();
    text.append(namespace);
    text.append("': ");
    text.append(status);
    text.append("\n");
    text.append(logs);
    text
}

/// The pauses double from the first until they reach the longest.
pub proof fn law_pauses_double(poll: nat)
    ensures
        pause_after(poll) == (if FIRST_PAUSE_MS * pow2(poll) <= LONGEST_PAUSE_MS {
            FIRST_PAUSE_MS * pow2(poll)
        } else {
            LONGEST_PAUSE_MS as int
        }),
    decreases poll,
{
    if poll == 0 {
        vstd::arithmetic::power2::lemma2_to64();
    } else {
        law_pauses_double((poll - 1) as nat);
        lemma_pow2_unfold(poll);
    }
}

/// How long the pauses after the first `polls` polls take together.
pub open spec fn total_pause(polls: nat) -> nat
    decreases polls,
{
    if polls == 0 {
        0
    } else {
        total_pause((polls - 1) as nat) + pause_after((polls - 1) as nat)
    }
}

/// From the fifth on every pause is the longest.
proof fn lemma_total_pause(polls: nat)
    requires
        polls >= 4,
    ensures
        pause_after(polls) == LONGEST_PAUSE_MS,
        total_pause(polls) == 3000 + (polls - 4) * 2000,
    decreases polls,
{
    if polls == 4 {
        reveal_with_fuel(pause_after, 6);
        reveal_with_fuel(total_pause, 6);
    } else {
        lemma_total_pause((polls - 1) as nat);
    }
}

/// A wait pauses for 113 seconds in all at most: that is what the pauses between
/// all its polls take.
pub proof fn law_total_pause(polls: nat)
    requires
        polls < POLL_ATTEMPTS,
    ensures
        total_pause(polls) <= 113_000,
        total_pause((POLL_ATTEMPTS - 1) as nat) == 113_000,
{
    lemma_total_pause((POLL_ATTEMPTS - 1) as nat);
    if polls >= 4 {
        lemma_total_pause(polls);
    } else {
        reveal_with_fuel(pause_after, 6);
        reveal_with_fuel(total_pause, 6);
    }
}

/// The verdict of a wait that is at poll `attempt` and whose further polls end as
/// `polls`; None where it is still to retry after all of them.
pub open spec fn outcome(attempt: nat, namespace: Seq<char>, polls: Seq<Poll>) -> Option<Verdict>
    decreases polls.len(),
{
    if polls.len() == 0 {
        None
    } else {
        let verdict = verdict_of(attempt, namespace, polls.first());
        if verdict is Retry {
            outcome(attempt + 1, namespace, polls.drop_first())
        } else {
            Some(verdict)
        }
    }
}

/// A wait that is at poll `attempt` ends with a verdict as soon as its polls are
/// used up.
pub proof fn law_wait_ends(attempt: nat, namespace: Seq<char>, polls: Seq<Poll>)
    requires
        attempt < POLL_ATTEMPTS,
        attempt + polls.len() >= POLL_ATTEMPTS,
    ensures
        outcome(attempt, namespace, polls) is Some,
        !(outcome(attempt, namespace, polls)->Some_0 is Retry),
    decreases polls.len(),
{
    let verdict = verdict_of(attempt, namespace, polls.first());
    if verdict is Retry {
        law_wait_ends(attempt + 1, namespace, polls.drop_first());
    }
}

/// Poll `i` of `polls`, which start at poll `attempt` of the wait, finds the
/// namespace, and every poll before it ran or left a running container.
pub open spec fn found_at(attempt: nat, namespace: Seq<char>, polls: Seq<Poll>, i: int) -> bool {
    &&& 0 <= i < polls.len()
    &&& attempt + i < POLL_ATTEMPTS
    &&& finds_namespace(polls[i], namespace)
    &&& forall|j: int|
        0 <= j < i ==> !(#[trigger] polls[j] matches Poll::NotRun { container_running: false })
}

/// A wait finds the namespace if and only if one of its polls does, and every poll
/// before that ran or left a running container.
pub proof fn law_ready_iff_found(attempt: nat, namespace: Seq<char>, polls: Seq<Poll>)
    requires
        attempt < POLL_ATTEMPTS,
    ensures
        outcome(attempt, namespace, polls) == Some(Verdict::Ready) <==> exists|i: int|
            found_at(attempt, namespace, polls, i),
    decreases polls.len(),
{
    if polls.len() > 0 {
        let rest = polls.drop_first();
        let verdict = verdict_of(attempt, namespace, polls.first());
        if verdict is Retry {
            let next: nat = attempt + 1;
            law_ready_iff_found(next, namespace, rest);
            if outcome(next, namespace, rest) == Some(Verdict::Ready) {
                let i = choose|i: int| found_at(next, namespace, rest, i);
                assert forall|j: int| 0 <= j < i + 1 implies !(
                #[trigger] polls[j] matches Poll::NotRun { container_running: false }) by {
                    if j > 0 {
                        assert(rest[j - 1] == polls[j]);
                    }
                }
                assert(found_at(attempt, namespace, polls, i + 1));
            }
            if exists|i: int| found_at(attempt, namespace, polls, i) {
                let i = choose|i: int| found_at(attempt, namespace, polls, i);
                assert forall|j: int| 0 <= j < i - 1 implies !(
                #[trigger] rest[j] matches Poll::NotRun { container_running: false }) by {
                    assert(rest[j] == polls[j + 1]);
                }
                assert(found_at(next, namespace, rest, i - 1));
            }
        } else if verdict == Verdict::Ready {
            assert(found_at(attempt, namespace, polls, 0));
        }
    }
}

/// What is done after a poll, case by case. A command that succeeded and printed the
/// namespace, whatever around it, ends the wait at any poll. A stopped container
/// ends it at any poll. Everything else is tried again until the sixtieth poll, after
/// a pause that starts at 200 ms, doubles, and stops growing at two seconds.
pub proof fn law_verdict_case_by_case(attempt: nat, namespace: Seq<char>, poll: Poll)
    requires
        attempt < 60,
    ensures
        ({
            let verdict = verdict_of(attempt, namespace, poll);
            let found = poll matches Poll::Ran { output, exit_code } && exit_code == 0 && (
            exists|before: Seq<char>, after: Seq<char>|
                output@ == #[trigger] (before + namespace + after));
            let down = poll matches Poll::NotRun { container_running } && !container_running;
            let pause = if 200 * pow2(attempt) <= 2000 {
                200 * pow2(attempt)
            } else {
                2000nat
            };
            &&& verdict is Ready <==> found
            &&& verdict is ContainerDown <==> down
            &&& !found && !down && attempt < 59 ==> verdict == (Verdict::Retry {
                pause_ms: pause as u64,
            })
            &&& !found && !down && attempt == 59 ==> if poll is Ran {
                verdict is TimedOut
            } else {
                verdict is NotRun
            }
        }),
{
    law_pauses_double(attempt);
    if let Poll::Ran { output, exit_code } = poll {
        law_contained_is_between(output@, namespace);
    }
}

/// A wait takes sixty polls at most: after as many that all ask for another one
/// there is a verdict.
pub proof fn law_sixty_polls_end_a_wait(namespace: Seq<char>, polls: Seq<Poll>)
    requires
        polls.len() >= 60,
    ensures
        outcome(0, namespace, polls) is Some,
{
    law_wait_ends(0, namespace, polls);
}

} // verus!
