//! The boundary to the outside crates and to the parts of the standard library that carry no
//! specification of their own. Everything stated here is taken on trust.
use crate::action::Queued;
use atm0s_sdn::{NodeAddr, TimePivot};
use sans_io_runtime::collections::DynamicDeque;
use sans_io_runtime::TaskSwitcher;
use std::time::Instant;
use vstd::prelude::*;

verus! {

/// [`std::time::Instant`], carried unread.
#[verifier::external_type_specification]
#[verifier::external_body]
pub struct ExInstant(std::time::Instant);

/// [`std::io::Error`], carried unread.
#[verifier::external_type_specification]
#[verifier::external_body]
pub struct ExIoError(std::io::Error);

/// [`sans_io_runtime::Buffer`], the bytes of a packet, carried unread.
#[verifier::external_type_specification]
#[verifier::external_body]
pub struct ExBuffer(sans_io_runtime::Buffer);

/// [`atm0s_sdn::features::FeaturesControl`], carried unread.
#[verifier::external_type_specification]
#[verifier::external_body]
pub struct ExFeaturesControl(atm0s_sdn::features::FeaturesControl);

/// [`atm0s_sdn::features::FeaturesEvent`], carried unread.
#[verifier::external_type_specification]
#[verifier::external_body]
pub struct ExFeaturesEvent(atm0s_sdn::features::FeaturesEvent);

/// [`atm0s_sdn::NodeAddr`], the address of a node in the network.
#[verifier::external_type_specification]
#[verifier::external_body]
pub struct ExNodeAddr(atm0s_sdn::NodeAddr);

/// The text form of a node's address.
pub uninterp spec fn node_addr_text(addr: NodeAddr) -> Seq<char>;

/// `to_string` of [`NodeAddr`], through its `Display`. The text depends on the address alone.
/// What it looks like is left unsaid.
#[verifier::external_body]
pub(crate) fn node_addr_to_string(addr: &NodeAddr) -> (text: String)
    ensures
        text@ == node_addr_text(*addr),
{
    addr.to_string()
}

/// `clone` of [`NodeAddr`]: the same address again.
#[verifier::external_body]
pub(crate) fn node_addr_clone(addr: &NodeAddr) -> (copy: NodeAddr)
    ensures
        copy == *addr,
{
    addr.clone()
}

/// [`atm0s_sdn::TimePivot`], which ties the monotonic clock to the time of day.
#[verifier::external_type_specification]
#[verifier::external_body]
pub struct ExTimePivot(atm0s_sdn::TimePivot);

/// The milliseconds of the time of day that a pivot gives to an instant.
pub uninterp spec fn timestamp_of(timer: TimePivot, now: Instant) -> u64;

/// `TimePivot::build`, which reads both clocks. Nothing is said of the pivot it makes.
#[verifier::external_body]
pub(crate) fn timer_build() -> TimePivot {
    TimePivot::build()
}

/// `TimePivot::timestamp_ms`: the time of day at the pivot, plus what has passed since then; an
/// instant before the pivot counts as the pivot. The result depends on the two arguments alone.
///
/// What the sum is, is left unsaid, for neither part of it can be read here. It fits 64 bits
/// for every instant within five hundred million years of the pivot.
#[verifier::external_body]
pub(crate) fn timer_timestamp_ms(timer: &TimePivot, now: Instant) -> (ms: u64)
    ensures
        ms == timestamp_of(*timer, now),
{
    timer.timestamp_ms(now)
}

/// [`sans_io_runtime::TaskSwitcher`], one bit for each of a fixed number of tasks.
#[verifier::external_type_specification]
#[verifier::external_body]
pub struct ExTaskSwitcher(sans_io_runtime::TaskSwitcher);

/// The tasks whose bit is set.
pub uninterp spec fn flagged_tasks(switcher: TaskSwitcher) -> Set<usize>;

/// The number of tasks that the switcher was made for.
pub uninterp spec fn task_count(switcher: TaskSwitcher) -> usize;

/// `TaskSwitcher::new`: no bit is set. It sets memory aside for the bits, so the number of tasks is
/// kept to the sixteen that its documentation speaks of.
#[verifier::external_body]
pub(crate) fn switcher_new(tasks: usize) -> (switcher: TaskSwitcher)
    requires
        tasks <= 16,
    ensures
        task_count(switcher) == tasks,
        flagged_tasks(switcher) == Set::<usize>::empty(),
{
    TaskSwitcher::new(tasks)
}

/// `TaskSwitcher::flag_task`: sets one bit. It panics on a task it was not made for.
#[verifier::external_body]
pub(crate) fn switcher_flag_task(switcher: &mut TaskSwitcher, task: usize)
    requires
        task < task_count(*old(switcher)),
    ensures
        task_count(*final(switcher)) == task_count(*old(switcher)),
        flagged_tasks(*final(switcher)) == flagged_tasks(*old(switcher)).insert(task),
{
    switcher.flag_task(task)
}

/// `TaskSwitcher::finished`: clears one bit. It panics on a task it was not made for.
#[verifier::external_body]
pub(crate) fn switcher_finished(switcher: &mut TaskSwitcher, task: usize)
    requires
        task < task_count(*old(switcher)),
    ensures
        task_count(*final(switcher)) == task_count(*old(switcher)),
        flagged_tasks(*final(switcher)) == flagged_tasks(*old(switcher)).remove(task),
{
    switcher.finished(task)
}

/// `TaskSwitcher::current`: the least task whose bit is set. It changes nothing.
#[verifier::external_body]
pub(crate) fn switcher_current(switcher: &mut TaskSwitcher) -> (task: Option<usize>)
    ensures
        *final(switcher) == *old(switcher),
        match task {
            Some(index) => {
                &&& index < task_count(*old(switcher))
                &&& flagged_tasks(*old(switcher)).contains(index)
                &&& forall|other: usize| #[trigger]
                    flagged_tasks(*old(switcher)).contains(other) ==> index <= other
            },
            None => forall|other: usize| !#[trigger] flagged_tasks(*old(switcher)).contains(other),
        },
{
    switcher.current()
}

/// [`sans_io_runtime::collections::DynamicDeque`], a queue whose first items stand in place.
#[verifier::external_type_specification]
#[verifier::external_body]
#[verifier::reject_recursive_types(T)]
pub struct ExDynamicDeque<T, const STACK_SIZE: usize>(
    sans_io_runtime::collections::DynamicDeque<T, STACK_SIZE>,
);

/// The items of the queue, the oldest first.
pub uninterp spec fn queue_items(queue: DynamicDeque<Queued, 16>) -> Seq<Queued>;

/// `DynamicDeque::from`, on one item.
#[verifier::external_body]
pub(crate) fn queue_from(item: Queued) -> (queue: DynamicDeque<Queued, 16>)
    ensures
        queue_items(queue) == seq![item],
{
    DynamicDeque::from([item])
}

/// `DynamicDeque::push_back`: the item becomes the youngest.
#[verifier::external_body]
pub(crate) fn queue_push_back(queue: &mut DynamicDeque<Queued, 16>, item: Queued)
    ensures
        queue_items(*final(queue)) == queue_items(*old(queue)).push(item),
{
    queue.push_back(item)
}

/// `DynamicDeque::pop_front`: the oldest item, which leaves the queue.
#[verifier::external_body]
pub(crate) fn queue_pop_front(queue: &mut DynamicDeque<Queued, 16>) -> (item: Option<Queued>)
    ensures
        match item {
            Some(first) => {
                &&& queue_items(*old(queue)).len() > 0
                &&& first == queue_items(*old(queue))[0]
                &&& queue_items(*final(queue)) == queue_items(*old(queue)).drop_first()
            },
            None => {
                &&& queue_items(*old(queue)).len() == 0
                &&& queue_items(*final(queue)) == queue_items(*old(queue))
            },
        },
{
    queue.pop_front()
}

/// `rand::random`. Every number may come.
#[verifier::external_body]
pub(crate) fn random_u64() -> u64 {
    rand::random::<u64>()
}

/// Whether `n` is a number that the source of random numbers gives. Only a number that was asked
/// of the source is known to be one.
pub closed spec fn drawn(n: u64) -> bool {
    call_ensures(random_u64, (), n)
}

/// Asks a source for a number.
fn ask<F: Fn() -> u64>(source: F) -> (n: u64)
    requires
        call_requires(source, ()),
    ensures
        call_ensures(source, (), n),
{
    source()
}

/// Draws a number.
pub(crate) fn draw() -> (n: u64)
    ensures
        drawn(n),
{
    ask(random_u64)
}

} // verus!
