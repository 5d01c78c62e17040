//! What holds of a whole cleanup run against a store that lists a bucket's
//! keys faithfully, and of a deletion task whatever its outcomes.
use vstd::prelude::*;
use vstd::arithmetic::div_mod::lemma_fundamental_div_mod;
use vstd::arithmetic::mul::lemma_mul_inequality;
use crate::cleanup::{after_failure, after_page, fresh, CleanupView};
use crate::deletion::{after_outcome, after_request, requested, task_wf, DeletionTaskView};
use crate::store::PageView;

verus! {

/// The number of pages in which a store lists `n` keys, at most `p` to a page:
/// the ceiling of `n / p`, and one page for an empty bucket.
pub open spec fn page_count(n: nat, p: nat) -> nat {
    if n == 0 {
        1
    } else {
        ((n + p - 1) / (p as int)) as nat
    }
}

/// The keys on page `i` when `keys` are listed `p` to a page.
pub open spec fn page_keys(keys: Seq<String>, p: nat, i: nat) -> Seq<String> {
    let lo = if i * p < keys.len() { i * p } else { keys.len() };
    let hi = if (i + 1) * p < keys.len() { (i + 1) * p } else { keys.len() };
    keys.subrange(lo as int, hi as int)
}

/// The store's answer to the `i`-th listing request over a bucket holding
/// `keys`: the `i`-th page, with a cursor (`tokens(i)`) as long as keys remain.
pub open spec fn store_answer(
    keys: Seq<String>,
    p: nat,
    tokens: spec_fn(nat) -> String,
    i: nat,
) -> PageView {
    PageView {
        keys: page_keys(keys, p, i),
        next: if (i + 1) * p < keys.len() {
            Some(tokens(i))
        } else {
            None
        },
    }
}

/// The cleanup's state after `k` listing requests were answered by the store.
pub open spec fn drive(
    bucket: String,
    page_size: i32,
    keys: Seq<String>,
    tokens: spec_fn(nat) -> String,
    k: nat,
) -> CleanupView
    decreases k,
{
    if k == 0 {
        fresh(bucket, page_size)
    } else {
        after_page(
            drive(bucket, page_size, keys, tokens, (k - 1) as nat),
            store_answer(keys, page_size as nat, tokens, (k - 1) as nat),
        )
    }
}

proof fn lemma_page_count_bounds(n: nat, p: nat)
    requires
        p >= 1,
    ensures
        page_count(n, p) >= 1,
        n > 0 ==> (page_count(n, p) - 1) * p < n,
        n <= page_count(n, p) * p,
{
    if n > 0 {
        let c = page_count(n, p) as int;
        lemma_fundamental_div_mod((n + p - 1) as int, p as int);
        assert(n + p - 1 == p * c + (n + p - 1) % (p as int));
        assert((c - 1) * p == c * p - p) by (nonlinear_arith);
        assert(c * p == p * c) by (nonlinear_arith);
        assert(c >= 1) by (nonlinear_arith)
            requires
                c * p >= n,
                n > 0,
                p >= 1,
        ;
    }
}

proof fn lemma_drive(bucket: String, page_size: i32, keys: Seq<String>, tokens: spec_fn(nat) -> String, k: nat)
    requires
        page_size >= 1,
        k <= page_count(keys.len(), page_size as nat),
    ensures
        ({
            let s = drive(bucket, page_size, keys, tokens, k);
            let p = page_size as nat;
            let c = page_count(keys.len(), p);
            let n = keys.len();
            &&& s.bucket == bucket
            &&& s.page_size == page_size
            &&& s.listings == k
            &&& s.finished == (k == c)
            &&& s.token == (if k == 0 || k == c { None } else { Some(tokens((k - 1) as nat)) })
            &&& s.batches.len() == (if n == 0 { 0 } else { k })
            &&& s.batches.flatten() == keys.take(if k * p < n { (k * p) as int } else { n as int })
        }),
    decreases k,
{
    let p = page_size as nat;
    let n = keys.len();
    let c = page_count(n, p);
    lemma_page_count_bounds(n, p);
    if k == 0 {
        assert(keys.take(0) =~= Seq::<String>::empty());
        assert(Seq::<Seq<String>>::empty().flatten() =~= Seq::<String>::empty());
    } else {
        let j = (k - 1) as nat;
        lemma_drive(bucket, page_size, keys, tokens, j);
        let prev = drive(bucket, page_size, keys, tokens, j);
        let page = store_answer(keys, p, tokens, j);
        assert(j * p + p == (j + 1) * p) by (nonlinear_arith);
        if n > 0 {
            lemma_mul_inequality(j as int, c - 1, p as int);
            assert(j * p < n);
            if k < c {
                lemma_mul_inequality(k as int, c - 1, p as int);
                assert(page.next == Some(tokens(j)));
            } else {
                assert(page.next is None);
            }
            assert(page.keys.len() > 0);
            prev.batches.lemma_flatten_push(page.keys);
            let hi = if k * p < n { (k * p) as int } else { n as int };
            assert(keys.take((j * p) as int) + keys.subrange((j * p) as int, hi) =~= keys.take(hi));
        } else {
            assert(k == 1);
            assert((j + 1) * p >= 1) by (nonlinear_arith)
                requires
                    j == 0,
                    p >= 1,
            ;
            assert(page.next is None);
            assert(page.keys =~= Seq::<String>::empty());
        }
    }
}

/// A cleanup against a store that lists `keys` faithfully, `page_size` to a
/// page, issues exactly `ceil(n / page_size)` listing requests (one for an
/// empty bucket) and then stops: it is unfinished after every earlier answer
/// and finished after the last. Each request after the first carries the
/// cursor of the page before, and every page with keys yields one deletion task.
pub proof fn lemma_listing_terminates(
    bucket: String,
    page_size: i32,
    keys: Seq<String>,
    tokens: spec_fn(nat) -> String,
)
    requires
        page_size >= 1,
    ensures
        ({
            let c = page_count(keys.len(), page_size as nat);
            &&& forall|k: nat|
                k < c ==> !(#[trigger] drive(bucket, page_size, keys, tokens, k)).finished
                    && drive(bucket, page_size, keys, tokens, k).token == (if k == 0 {
                        None
                    } else {
                        Some(tokens((k - 1) as nat))
                    })
            &&& drive(bucket, page_size, keys, tokens, c).finished
            &&& drive(bucket, page_size, keys, tokens, c).listings == c
            &&& drive(bucket, page_size, keys, tokens, c).batches.len() == (if keys.len() == 0 {
                0
            } else {
                c
            })
        }),
{
    let c = page_count(keys.len(), page_size as nat);
    assert forall|k: nat| k < c implies !(#[trigger] drive(
        bucket,
        page_size,
        keys,
        tokens,
        k,
    )).finished && drive(bucket, page_size, keys, tokens, k).token == (if k == 0 {
        None
    } else {
        Some(tokens((k - 1) as nat))
    }) by {
        lemma_drive(bucket, page_size, keys, tokens, k);
    }
    lemma_drive(bucket, page_size, keys, tokens, c);
}

/// The batches handed to deletion tasks over a whole cleanup, put end to end,
/// are exactly the bucket's keys in listing order: none is left out, none is
/// handed out twice.
pub proof fn lemma_listing_covers_keys(
    bucket: String,
    page_size: i32,
    keys: Seq<String>,
    tokens: spec_fn(nat) -> String,
)
    requires
        page_size >= 1,
    ensures
        drive(bucket, page_size, keys, tokens, page_count(keys.len(), page_size as nat)).batches.flatten()
            == keys,
{
    let c = page_count(keys.len(), page_size as nat);
    lemma_page_count_bounds(keys.len(), page_size as nat);
    lemma_drive(bucket, page_size, keys, tokens, c);
    assert(keys.take(keys.len() as int) =~= keys);
}

/// The next listing request is owed as soon as a page with a cursor arrives:
/// the cleanup stays unfinished and takes that cursor, whatever the deletion
/// tasks are doing (nothing of them enters its state).
pub proof fn lemma_next_request_needs_only_cursor(s: CleanupView, page: PageView)
    requires
        !s.finished,
        page.next is Some,
    ensures
        !after_page(s, page).finished,
        after_page(s, page).token == page.next,
        after_page(s, page).listings == s.listings + 1,
{
}

/// When the very first listing request fails, the cleanup ends with no
/// deletion task handed out.
pub proof fn lemma_first_listing_failure(bucket: String, page_size: i32)
    ensures
        after_failure(fresh(bucket, page_size)).finished,
        after_failure(fresh(bucket, page_size)).batches.len() == 0,
        after_failure(fresh(bucket, page_size)).listings == 1,
{
}

/// A deletion task after it issued one request per outcome in `outcomes`,
/// each followed by that outcome (`true` for success).
pub open spec fn deletion_run(t: DeletionTaskView, outcomes: Seq<bool>) -> DeletionTaskView
    decreases outcomes.len(),
{
    if outcomes.len() == 0 {
        t
    } else {
        after_outcome(after_request(deletion_run(t, outcomes.drop_last())), outcomes.last())
    }
}

/// The number of failures in a sequence of outcomes.
pub open spec fn failures_in(outcomes: Seq<bool>) -> nat
    decreases outcomes.len(),
{
    if outcomes.len() == 0 {
        0
    } else {
        failures_in(outcomes.drop_last()) + if outcomes.last() {
            0nat
        } else {
            1nat
        }
    }
}

/// Failed deletions never hold the batch back: whichever outcomes come in,
/// a fresh task requests the deletion of its keys one after another in
/// listing order, and after as many outcomes as keys every key was requested.
pub proof fn lemma_deletion_survives_failures(t: DeletionTaskView, outcomes: Seq<bool>)
    requires
        t.attempted == 0,
        t.settled == 0,
        t.failed == 0,
        outcomes.len() <= t.keys.len(),
    ensures
        task_wf(deletion_run(t, outcomes)),
        deletion_run(t, outcomes).bucket == t.bucket,
        deletion_run(t, outcomes).keys == t.keys,
        deletion_run(t, outcomes).attempted == outcomes.len(),
        deletion_run(t, outcomes).settled == outcomes.len(),
        deletion_run(t, outcomes).failed == failures_in(outcomes),
        requested(deletion_run(t, outcomes)) == t.keys.take(outcomes.len() as int),
        outcomes.len() == t.keys.len() ==> requested(deletion_run(t, outcomes)) == t.keys,
    decreases outcomes.len(),
{
    if outcomes.len() > 0 {
        lemma_deletion_survives_failures(t, outcomes.drop_last());
    }
    assert(requested(deletion_run(t, outcomes)) =~= t.keys.take(outcomes.len() as int));
    if outcomes.len() == t.keys.len() {
        assert(t.keys.take(outcomes.len() as int) =~= t.keys);
    }
}

} // verus!
