use vstd::prelude::*;

use spin::once::Once;


verus! {

/// Why bring-up of a core cannot go on.
#[derive(Clone, Copy, PartialEq, Eq, Debug)]
pub enum BootError {
    /// The bootloader did not grant the kernel stack size asked for.
    StackSizeNotGranted,
    /// The bootloader reported no higher-half direct-map offset.
    HhdmOffsetMissing,
}

#[verifier::external_type_specification]
#[verifier::external_body]
#[verifier::reject_recursive_types(T)]
#[verifier::reject_recursive_types(R)]
pub struct ExOnce<T, R>(Once<T, R>);

/// What a once-cell holds: nothing before its first initialization, the one
/// value it was given after.
pub uninterp spec fn once_contents(cell: Once<usize>) -> Seq<usize>;

/// Relies on spin's `Once::new`: an uninitialized cell.
#[verifier::external_body]
fn once_new() -> (r: Once<usize>)
    ensures
        once_contents(r) == Seq::<usize>::empty(),
{
    Once::new()
}

/// Relies on spin's `Once::get`: the value, once the cell is initialized.
#[verifier::external_body]
fn once_get(cell: &Once<usize>) -> (r: Option<usize>)
    ensures
        r is None <==> once_contents(*cell).len() == 0,
        r matches Some(v) ==> once_contents(*cell) == seq![v],
{
    cell.get().copied()
}

/// Relies on spin's `Once::call_once`: the first call stores `value`, and every
/// call returns the stored value. Exclusive access makes the first call this one
/// when the cell is empty; the closure cannot panic, so the cell is never poisoned.
#[verifier::external_body]
fn once_call_once(cell: &mut Once<usize>, value: usize) -> (r: usize)
    ensures
        once_contents(*old(cell)).len() == 0 ==> r == value && once_contents(*final(cell)) == seq![value],
        once_contents(*old(cell)).len() != 0 ==> once_contents(*final(cell)) == once_contents(*old(cell))
            && r == once_contents(*old(cell))[0],
{
    *cell.call_once(|| value)
}

/// The offset at which all physical memory is mapped, once it is known.
pub struct HhdmOffset {
    value: Once<usize>,
}

/// The offset after a query: the one already resolved if any, otherwise the one
/// the bootloader reported.
pub open spec fn resolve_offset(cached: Option<usize>, response: Option<u64>) -> Option<usize> {
    match cached {
        Some(v) => Some(v),
        None => match response {
            Some(o) => Some(o as usize),
            None => None,
        },
    }
}

impl HhdmOffset {
    pub closed spec fn cached(&self) -> Option<usize> {
        if once_contents(self.value).len() == 0 {
            None
        } else {
            Some(once_contents(self.value)[0])
        }
    }

    /// An offset not resolved yet.
    pub fn new() -> (r: HhdmOffset)
        ensures
            r.cached() is None,
    {
        HhdmOffset { value: once_new() }
    }
}

/// The higher-half direct-map offset: resolved from the bootloader's answer on
/// the first query that has one, and the same value on every later query.
pub fn hhdm_physical_offset(hhdm: &mut HhdmOffset, response: Option<u64>) -> (r: Option<usize>)
    ensures
        r == resolve_offset(old(hhdm).cached(), response),
        final(hhdm).cached() == r,
{
    match once_get(&hhdm.value) {
        Some(v) => Some(v),
        None => match response {
            Some(o) => Some(once_call_once(&mut hhdm.value, o as usize)),
            None => None,
        },
    }
}

/// Once resolved, the offset never changes: every later query gives the value
/// of the first resolution, whatever the bootloader's record says then.
pub proof fn lemma_offset_resolved_once(cached: Option<usize>, first: Option<u64>, later: Option<u64>)
    requires
        resolve_offset(cached, first) is Some,
    ensures
        resolve_offset(resolve_offset(cached, first), later) == resolve_offset(cached, first),
{
}

/// The offset known after bring-up: resolved only once the stack check passed.
pub open spec fn bring_up_offset(stack_granted: bool, cached: Option<usize>, response: Option<u64>) -> Option<usize> {
    if stack_granted {
        resolve_offset(cached, response)
    } else {
        cached
    }
}

/// The outcome of bring-up: the first missing answer of the bootloader, or the
/// resolved offset.
pub open spec fn bring_up_result(stack_granted: bool, cached: Option<usize>, response: Option<u64>) -> Result<usize, BootError> {
    if !stack_granted {
        Err(BootError::StackSizeNotGranted)
    } else {
        match resolve_offset(cached, response) {
            Some(v) => Ok(v),
            None => Err(BootError::HhdmOffsetMissing),
        }
    }
}

} // verus!
