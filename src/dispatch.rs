//! The job queue protocol: what the dispatcher puts on the shared queue, and
//! what a worker does with each item it takes from it.
use vstd::prelude::*;

verus! {

/// An item of the job queue.
pub enum Message {
    /// Check this URL.
    Job(String),
    /// Stop; one is sent to each worker.
    Shutdown,
}

/// What a worker does with the item it took from the queue.
pub enum WorkerAction {
    /// Run the check protocol on this URL.
    Check(String),
    /// Leave the loop.
    Stop,
}

/// The number of shutdown signals in `s`.
pub open spec fn shutdown_count(s: Seq<Message>) -> nat
    decreases s.len(),
{
    if s.len() == 0 {
        0
    } else {
        shutdown_count(s.drop_last()) + if s.last() is Shutdown {
            1nat
        } else {
            0nat
        }
    }
}

/// The URLs of the jobs in `s`, in queue order.
pub open spec fn job_urls(s: Seq<Message>) -> Seq<Seq<char>>
    decreases s.len(),
{
    if s.len() == 0 {
        Seq::empty()
    } else {
        job_urls(s.drop_last()) + match s.last() {
            Message::Job(u) => seq![u@],
            Message::Shutdown => Seq::empty(),
        }
    }
}

/// `plan` is one job per URL, in order, followed by `workers` shutdowns.
pub open spec fn is_plan(plan: Seq<Message>, urls: Seq<String>, workers: nat) -> bool {
    &&& plan.len() == urls.len() + workers
    &&& forall|i: int| 0 <= i < urls.len() ==> #[trigger] plan[i] == Message::Job(urls[i])
    &&& forall|i: int| urls.len() <= i < plan.len() ==> #[trigger] plan[i] is Shutdown
}

/// The items the dispatcher submits, in order: a job for each URL, then one
/// shutdown signal for each worker.
pub fn dispatch_plan(urls: &Vec<String>, workers: usize) -> (plan: Vec<Message>)
    requires
        urls@.len() + workers <= usize::MAX,
    ensures
        is_plan(plan@, urls@, workers as nat),
{
    let mut plan: Vec<Message> = Vec::new();
    let mut i: usize = 0;
    while i < urls.len()
        invariant
            i <= urls@.len(),
            plan@.len() == i,
            forall|j: int| 0 <= j < i ==> #[trigger] plan@[j] == Message::Job(urls@[j]),
        decreases urls@.len() - i,
    {
        plan.push(Message::Job(urls[i].clone()));
        i = i + 1;
    }
    let mut k: usize = 0;
    while k < workers
        invariant
            i == urls@.len(),
            k <= workers,
            urls@.len() + workers <= usize::MAX,
            plan@.len() == i + k,
            forall|j: int| 0 <= j < i ==> #[trigger] plan@[j] == Message::Job(urls@[j]),
            forall|j: int| i <= j < i + k ==> #[trigger] plan@[j] is Shutdown,
        decreases workers - k,
    {
        plan.push(Message::Shutdown);
        k = k + 1;
    }
    plan
}

/// A worker's decision on what it took from the queue: a job is checked; a
/// shutdown signal, or a queue that was closed (`None`), ends the worker.
pub fn worker_action(taken: Option<Message>) -> (a: WorkerAction)
    ensures
        match taken {
            Some(Message::Job(u)) => a == WorkerAction::Check(u),
            _ => a is Stop,
        },
{
    match taken {
        Some(Message::Job(u)) => WorkerAction::Check(u),
        _ => WorkerAction::Stop,
    }
}

proof fn lemma_plan_prefix(plan: Seq<Message>, urls: Seq<String>, workers: nat, k: int)
    requires
        is_plan(plan, urls, workers),
        0 <= k <= plan.len(),
    ensures
        k <= urls.len() ==> shutdown_count(plan.take(k)) == 0,
        k >= urls.len() ==> shutdown_count(plan.take(k)) == k - urls.len(),
        job_urls(plan.take(k)) == urls.take(if k <= urls.len() { k } else { urls.len() as int }).map_values(|u: String| u@),
    decreases k,
{
    if k > 0 {
        lemma_plan_prefix(plan, urls, workers, k - 1);
        assert(plan.take(k).drop_last() == plan.take(k - 1));
        assert(plan.take(k).last() == plan[k - 1]);
        if k <= urls.len() {
            assert(plan[k - 1] == Message::Job(urls[k - 1]));
            assert(urls.take(k).map_values(|u: String| u@) =~= urls.take(k - 1).map_values(|u: String| u@) + seq![urls[k - 1]@]);
        } else {
            assert(plan[k - 1] is Shutdown);
        }
    }
}

/// No job is lost or duplicated, whatever the number of workers: the queue
/// hands out its items in order, and a worker stops at the first shutdown it
/// takes, so once every worker has stopped (as many shutdowns taken as there
/// are workers) the whole plan has been taken, and the jobs taken are one per
/// URL, each URL once, in order.
pub proof fn lemma_every_job_taken_once(plan: Seq<Message>, urls: Seq<String>, workers: nat, k: int)
    requires
        workers > 0,
        is_plan(plan, urls, workers),
        0 <= k <= plan.len(),
        shutdown_count(plan.take(k)) == workers,
    ensures
        k == plan.len(),
        job_urls(plan.take(k)) == urls.map_values(|u: String| u@),
{
    lemma_plan_prefix(plan, urls, workers, k);
    assert(urls.take(urls.len() as int) == urls);
}

} // verus!
