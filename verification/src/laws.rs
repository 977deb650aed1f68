//! What holds of the library as a whole, proved from the definitions that
//! its contracts use.
use crate::command::{ActionView, Event, ListingView, QuestionView, StepView};
use crate::failure::FailureView;
use crate::invoker::{start, Attempt, InvocationView, LockingView, RETRIES, WAIT_FLAG};
use crate::iptables::IPTables;
use crate::operations::rule_args;
use crate::outcome::OutcomeView;
use crate::text::{contains, join, lemma_trim_keeps_the_middle, utf8_lossy};
use crate::tokenizer::{is_quote, quotes, tokens_of};
use crate::version::{supports_check, supports_wait, version_after, Triple};
use vstd::prelude::*;

verus! {

/// What a run that waits for the lock needs after `n` more tries have each
/// found the lock held by another.
pub open spec fn after_contention(at: InvocationView, n: nat) -> InvocationView
    decreases n,
{
    if n == 0 {
        at
    } else {
        match after_contention(at, (n - 1) as nat) {
            InvocationView::Lock(l) => l.after(Attempt::Contended),
            other => other,
        }
    }
}

/// The lock is tried at most eleven times. Under a tool that cannot wait,
/// a run whose first `n` tries all find the lock held asks for another try
/// as long as `n` is at most ten, and ends with a lock timeout at the
/// eleventh.
pub proof fn law_lock_tries_are_bounded(args: Seq<Seq<char>>, n: nat)
    ensures
        n <= RETRIES ==> after_contention(start(false, args), n) == InvocationView::Lock(
            LockingView { args, retries: (RETRIES - n) as nat },
        ),
        n > RETRIES ==> after_contention(start(false, args), n) == InvocationView::Fail(
            FailureView::LockTimeout,
        ),
    decreases n,
{
    if n > 0 {
        law_lock_tries_are_bounded(args, (n - 1) as nat);
    }
}

/// The tool is started only under mutual exclusion: straight away only if
/// it can wait for other instances itself, and then with its wait flag;
/// otherwise only after a try at the lock that acquired it, and then with
/// the lock held, which the end of the run releases.
pub proof fn law_spawn_is_exclusive(
    has_wait: bool,
    args: Seq<Seq<char>>,
    waiting: LockingView,
    attempt: Attempt,
)
    ensures
        start(has_wait, args) is Spawn <==> has_wait,
        start(has_wait, args) matches InvocationView::Spawn(r) ==> (r.args.last()
            == WAIT_FLAG@ && r.args.drop_last() == args),
        waiting.after(attempt) is Spawn <==> attempt == Attempt::Acquired,
        waiting.after(attempt) matches InvocationView::Spawn(r) ==> (r.locked && r.args
            == waiting.args),
{
    assert(args.push(WAIT_FLAG@).drop_last() =~= args);
}

/// A run that ends without success is reported with the tool's exit code,
/// or -1 without one, and with what the tool wrote to standard error. This
/// holds of every action that is a single run, such as a delete from a
/// chain that does not exist.
pub proof fn law_failure_carries_code_and_message(args: Seq<Seq<char>>, outcome: OutcomeView)
    requires
        !outcome.succeeded(),
    ensures
        (ActionView::Run { args }).next(Ok(outcome)) == StepView::Done(
            Err(
                FailureView::NonZeroExit {
                    code: match outcome.code {
                        Some(c) => c,
                        None => -1,
                    },
                    msg: utf8_lossy(outcome.stderr),
                },
            ),
        ),
{
}

/// A listing is no question: a listing run that ends without success is
/// reported as a failure with the tool's exit code, or -1 without one, and
/// its standard error, and nothing is read from its standard output. Only
/// questions take an exit code other than 0 for an answer.
pub proof fn law_listing_surfaces_failure(
    listing: ListingView,
    question: QuestionView,
    outcome: OutcomeView,
)
    requires
        !outcome.succeeded(),
    ensures
        listing.read(Ok(outcome)) == Err::<Seq<Seq<char>>, FailureView>(
            FailureView::NonZeroExit {
                code: match outcome.code {
                    Some(c) => c,
                    None => -1,
                },
                msg: utf8_lossy(outcome.stderr),
            },
        ),
        question.answer(Ok(outcome)) is Ok,
{
}

/// Appending a rule that is there already ends with `DuplicateRule` at
/// once: the action is over after the question, so the append is never run.
/// If the rule is not there, the append is what is run next.
pub proof fn law_append_unique_never_appends_twice(
    probe: QuestionView,
    append: Seq<Seq<char>>,
    outcome: OutcomeView,
)
    ensures
        ({
            let asked = ActionView::AppendUnique { probe, append, probing: true };
            &&& asked.command() == probe.args
            &&& probe.holds(outcome) ==> asked.next(Ok(outcome)) == StepView::Done(
                Err(FailureView::DuplicateRule),
            )
            &&& !probe.holds(outcome) ==> (asked.next(Ok(outcome)) matches StepView::More(then)
                && then.command() == append)
        }),
{
}

/// Deleting a rule that is not there does nothing and succeeds. So does
/// deleting again after a delete-if-exists that succeeded: whatever state
/// the first call ended in, a fresh call that is given the same answer ends
/// with success at once, without running a delete.
pub proof fn law_delete_if_exists_is_idempotent(first: ActionView, event: Event)
    requires
        first is DeleteIfExists,
        first.next(event) == StepView::Done(Ok(())),
    ensures
        ({
            let again = ActionView::DeleteIfExists {
                probe: first->DeleteIfExists_probe,
                delete: first->DeleteIfExists_delete,
                probing: true,
            };
            &&& (event matches Ok(outcome) && !again->DeleteIfExists_probe.holds(outcome))
            &&& again.next(event) == StepView::Done(Ok(()))
        }),
{
}

/// Where the tool has no check of its own, a rule is found exactly when the
/// listing shows the arguments that append it, from `-A` on, with single
/// blanks between them. So a rule that the tool lists as it was appended is
/// found, and one that it lists no more is not.
pub proof fn law_appended_rule_is_what_is_looked_for(
    ipt: IPTables,
    table: Seq<char>,
    chain: Seq<char>,
    tokens: Seq<Seq<char>>,
    outcome: OutcomeView,
)
    requires
        !ipt.has_check,
    ensures
        ipt.existence(table, chain, tokens).holds(outcome) == contains(
            utf8_lossy(outcome.stdout),
            join(rule_args(table, "-A"@, chain, tokens).skip(2), ' '),
        ),
{
    assert(rule_args(table, "-A"@, chain, tokens).skip(2) =~= seq!["-A"@, chain] + tokens);
}

/// Whether `token` is the part of `found` from `from` to `to`, with nothing
/// but quote characters before and after it and no quote character at
/// either of its own ends.
pub open spec fn is_unquoted_part(found: Seq<char>, token: Seq<char>, from: int, to: int) -> bool {
    &&& 0 <= from <= to <= found.len()
    &&& token == found.subrange(from, to)
    &&& forall|k: int| 0 <= k < from ==> is_quote(#[trigger] found[k])
    &&& forall|k: int| to <= k < found.len() ==> is_quote(#[trigger] found[k])
    &&& token.len() > 0 ==> !is_quote(token.first()) && !is_quote(token.last())
}

/// There is one token for each match, in the same order, and a token is
/// its match without the quote characters at the two ends: a contiguous part
/// of the match that neither starts nor ends with a quote character, with
/// nothing but quote characters left out before and after it. Quote
/// characters inside a token stay.
pub proof fn law_token_is_match_without_outer_quotes(matches: Seq<Seq<char>>, i: int)
    requires
        0 <= i < matches.len(),
    ensures
        tokens_of(matches).len() == matches.len(),
        exists|from: int, to: int| #[trigger]
            is_unquoted_part(matches[i], tokens_of(matches)[i], from, to),
{
    let m = matches[i];
    let bounds = lemma_trim_keeps_the_middle(m, quotes());
    let t = tokens_of(matches)[i];
    assert(t == m.subrange(bounds.0, bounds.1));
    assert forall|k: int| 0 <= k < bounds.0 implies is_quote(#[trigger] m[k]) by {
        assert(quotes().contains(m[k]));
    }
    assert forall|k: int| bounds.1 <= k < m.len() implies is_quote(#[trigger] m[k]) by {
        assert(quotes().contains(m[k]));
    }
    if t.len() > 0 {
        assert(t.first() == m[bounds.0]);
        assert(t.last() == m[bounds.1 - 1]);
        assert(!quotes().contains(m[bounds.0]));
        assert(!quotes().contains(m[bounds.1 - 1]));
    }
    assert(is_unquoted_part(m, t, bounds.0, bounds.1));
}

/// A delete-if-exists asks again after every delete that succeeded, and
/// ends with the failure of the first delete that did not.
pub proof fn law_delete_if_exists_asks_after_each_delete(
    probe: QuestionView,
    delete: Seq<Seq<char>>,
    outcome: OutcomeView,
)
    ensures
        ({
            let deleting = ActionView::DeleteIfExists { probe, delete, probing: false };
            let asking = ActionView::DeleteIfExists { probe, delete, probing: true };
            &&& deleting.command() == delete
            &&& asking.command() == probe.args
            &&& outcome.succeeded() ==> deleting.next(Ok(outcome)) == StepView::More(asking)
            &&& !outcome.succeeded() ==> deleting.next(Ok(outcome)) == StepView::Done(
                Err(outcome.failure()),
            )
            &&& probe.holds(outcome) ==> asking.next(Ok(outcome)) == StepView::More(deleting)
        }),
{
}

/// The abilities follow the version: the tool's own check from the version
/// after 1.4.10, its own waiting from the version after 1.4.19. So a tool
/// that can wait can also check.
pub proof fn law_abilities_follow_version(v: Triple)
    ensures
        supports_check(v) == version_after(v, (1, 4, 10)),
        supports_wait(v) == version_after(v, (1, 4, 19)),
        supports_wait(v) ==> supports_check(v),
{
}

} // verus!
