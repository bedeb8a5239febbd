//! Slot indices for registered kinds, and a container of lazily made items.
//!
//! Every kind owns one slot cell (an `AtomicUsize` that starts at
//! [`UNCLAIMED`]). The first claim for a kind takes the value of a shared
//! counter under its lock, stores it in the cell and bumps the counter; later
//! claims read the cell. The indices handed out are therefore unique and form
//! the range `0..count`.
use std::sync::atomic::{AtomicUsize, Ordering};
use vstd::prelude::*;
use vstd::rwlock::{RwLock, RwLockPredicate};
use vstd::set_lib::*;

verus! {

/// The value of a slot cell whose kind has not claimed an index yet.
pub const UNCLAIMED: usize = usize::MAX;

// ---------------------------------------------------------------------------
// The claim decision, over plain values
// ---------------------------------------------------------------------------

/// The index that a claim returns, given the counter and what the kind's cell
/// held when the claim decided.
pub open spec fn claimed_index(next: usize, cell: usize) -> usize {
    if cell != UNCLAIMED {
        cell
    } else {
        next
    }
}

/// The counter after a claim.
pub open spec fn next_after_claim(next: usize, cell: usize) -> usize {
    if cell == UNCLAIMED && next < UNCLAIMED {
        (next + 1) as usize
    } else {
        next
    }
}

/// The kind's cell after a claim.
pub open spec fn cell_after_claim(next: usize, cell: usize) -> usize {
    if cell == UNCLAIMED {
        next
    } else {
        cell
    }
}

/// The kinds (positions in `cells`) that hold an index.
pub open spec fn claimed_kinds(cells: Seq<usize>) -> Set<int> {
    Set::new(|k: int| 0 <= k < cells.len() && cells[k] != UNCLAIMED)
}

/// The indices held by some kind.
pub open spec fn claimed_indices(cells: Seq<usize>) -> Set<usize> {
    Set::new(|i: usize| exists|k: int| 0 <= k < cells.len() && cells[k] != UNCLAIMED && cells[k] == i)
}

/// What holds of the counter `next` and of the cells of all kinds between
/// claims: claimed indices lie below the counter, no two kinds share one,
/// every index below the counter is held, and the counter is the number of
/// kinds that have claimed.
pub open spec fn registry_consistent(next: usize, cells: Seq<usize>) -> bool {
    &&& forall|k: int| 0 <= k < cells.len() && cells[k] != UNCLAIMED ==> cells[k] < next
    &&& forall|j: int, k: int|
        0 <= j < cells.len() && 0 <= k < cells.len() && j != k && cells[j] != UNCLAIMED
            ==> cells[j] != cells[k]
    &&& forall|i: usize| i < next ==> #[trigger] claimed_indices(cells).contains(i)
    &&& next == claimed_kinds(cells).len()
}

/// The state before any kind has claimed: the counter at zero and `n` cells
/// unclaimed.
pub open spec fn initial_cells(n: nat) -> Seq<usize> {
    Seq::new(n, |k: int| UNCLAIMED)
}

proof fn lemma_claimed_kinds_finite(cells: Seq<usize>)
    ensures
        claimed_kinds(cells).finite(),
        claimed_kinds(cells).len() <= cells.len(),
{
    lemma_int_range(0, cells.len() as int);
    lemma_len_subset(claimed_kinds(cells), set_int_range(0, cells.len() as int));
}

/// No kind has claimed at the start, and that state is consistent.
pub proof fn lemma_initial_consistent(n: nat)
    ensures
        registry_consistent(0, initial_cells(n)),
        claimed_indices(initial_cells(n)) == Set::<usize>::empty(),
{
    assert(claimed_kinds(initial_cells(n)) =~= Set::<int>::empty());
    assert(claimed_indices(initial_cells(n)) =~= Set::<usize>::empty());
}

/// One claim by kind `k` keeps the registry consistent. A kind that already
/// holds an index gets it back and nothing changes; a kind that holds none
/// gets the counter's value, and the counter goes up by exactly one.
pub proof fn lemma_claim_step(next: usize, cells: Seq<usize>, k: int)
    requires
        registry_consistent(next, cells),
        0 <= k < cells.len(),
        cells.len() <= UNCLAIMED,
    ensures
        ({
            let next2 = next_after_claim(next, cells[k]);
            let cells2 = cells.update(k, cell_after_claim(next, cells[k]));
            &&& registry_consistent(next2, cells2)
            &&& cells2[k] != UNCLAIMED
            &&& claimed_index(next, cells[k]) == cells2[k]
            &&& cells[k] != UNCLAIMED ==> next2 == next && cells2 == cells
            &&& cells[k] == UNCLAIMED ==> next2 == next + 1 && cells2[k] == next
        }),
{
    let next2 = next_after_claim(next, cells[k]);
    let cells2 = cells.update(k, cell_after_claim(next, cells[k]));
    lemma_claimed_kinds_finite(cells);
    if cells[k] != UNCLAIMED {
        assert(cells2 =~= cells);
    } else {
        assert(!claimed_kinds(cells).contains(k));
        assert(claimed_kinds(cells).len() < cells.len()) by {
            assert(claimed_kinds(cells).insert(k).subset_of(set_int_range(0, cells.len() as int)));
            lemma_int_range(0, cells.len() as int);
            lemma_len_subset(claimed_kinds(cells).insert(k), set_int_range(0, cells.len() as int));
        }
        assert(next < UNCLAIMED);
        assert(claimed_kinds(cells).insert(k) =~= claimed_kinds(cells2));
        assert forall|i: usize| i < next2 implies #[trigger] claimed_indices(cells2).contains(i) by {
            if i < next {
                assert(claimed_indices(cells).contains(i));
                let j = choose|j: int| 0 <= j < cells.len() && cells[j] != UNCLAIMED && cells[j] == i;
                assert(j != k);
                assert(cells2[j] == i);
            } else {
                assert(cells2[k] == i);
            }
        }
    }
}

/// The counter and the cells after the kinds in `order` claimed one after
/// another, starting from the counter at zero and `n` unclaimed cells.
pub open spec fn after_claims(n: nat, order: Seq<int>) -> (usize, Seq<usize>)
    decreases order.len(),
{
    if order.len() == 0 {
        (0usize, initial_cells(n))
    } else {
        let (next, cells) = after_claims(n, order.drop_last());
        let k = order.last();
        if 0 <= k < cells.len() {
            (next_after_claim(next, cells[k]), cells.update(k, cell_after_claim(next, cells[k])))
        } else {
            (next, cells)
        }
    }
}

/// Whatever order kinds claim in, and however often each one claims, the
/// registry stays consistent, the kinds holding an index are exactly those
/// that claimed, and the counter is the number of distinct kinds that claimed.
pub proof fn lemma_after_claims(n: nat, order: Seq<int>)
    requires
        n <= UNCLAIMED,
        forall|i: int| 0 <= i < order.len() ==> 0 <= #[trigger] order[i] < n,
    ensures
        ({
            let (next, cells) = after_claims(n, order);
            &&& registry_consistent(next, cells)
            &&& cells.len() == n
            &&& claimed_kinds(cells) == order.to_set()
            &&& next == order.to_set().len()
        }),
    decreases order.len(),
{
    if order.len() == 0 {
        lemma_initial_consistent(n);
        assert(claimed_kinds(initial_cells(n)) =~= order.to_set());
    } else {
        let prefix = order.drop_last();
        assert forall|i: int| 0 <= i < prefix.len() implies 0 <= #[trigger] prefix[i] < n by {
            assert(prefix[i] == order[i]);
        }
        lemma_after_claims(n, prefix);
        let (next, cells) = after_claims(n, prefix);
        let k = order.last();
        assert(0 <= order[order.len() - 1] < n);
        lemma_claim_step(next, cells, k);
        let cells2 = cells.update(k, cell_after_claim(next, cells[k]));
        assert forall|j: int| #[trigger] order.to_set().contains(j) <==> prefix.to_set().contains(j) || j == k by {
            if order.to_set().contains(j) {
                let i = choose|i: int| 0 <= i < order.len() && order[i] == j;
                if i < order.len() - 1 {
                    assert(prefix[i] == j);
                }
            }
            if prefix.to_set().contains(j) {
                let i = choose|i: int| 0 <= i < prefix.len() && prefix[i] == j;
                assert(order[i] == j);
            }
            if j == k {
                assert(order[order.len() - 1] == j);
            }
        }
        assert(claimed_kinds(cells2) =~= order.to_set());
    }
}

/// No two kinds that hold an index hold the same one.
pub proof fn lemma_indices_unique(next: usize, cells: Seq<usize>, j: int, k: int)
    requires
        registry_consistent(next, cells),
        0 <= j < cells.len(),
        0 <= k < cells.len(),
        j != k,
        cells[j] != UNCLAIMED,
        cells[k] != UNCLAIMED,
    ensures
        cells[j] != cells[k],
{
}

/// The indices held are exactly `0..next`.
pub proof fn lemma_indices_dense(next: usize, cells: Seq<usize>)
    requires
        registry_consistent(next, cells),
    ensures
        claimed_indices(cells) == Set::new(|i: usize| i < next),
{
    assert forall|i: usize| #[trigger] claimed_indices(cells).contains(i) <==> i < next by {
        if claimed_indices(cells).contains(i) {
            let k = choose|k: int| 0 <= k < cells.len() && cells[k] != UNCLAIMED && cells[k] == i;
            assert(cells[k] < next);
        }
    }
    assert(claimed_indices(cells) =~= Set::new(|i: usize| i < next));
}

// ---------------------------------------------------------------------------
// The claim protocol
// ---------------------------------------------------------------------------

/// The decision a claim makes while it holds the counter's lock, once it knows
/// what the kind's cell held (`observed`). A kind that already holds an index
/// gets it back; otherwise it gets the counter's value and the counter goes up
/// by one. When every index below [`UNCLAIMED`] is taken, nothing changes and
/// [`UNCLAIMED`] comes back.
pub fn settle_claim(next_item_index: &mut usize, observed: usize) -> (index: usize)
    ensures
        index == claimed_index(*old(next_item_index), observed),
        *final(next_item_index) == next_after_claim(*old(next_item_index), observed),
{
    if observed != UNCLAIMED {
        observed
    } else {
        let candidate = *next_item_index;
        if candidate < UNCLAIMED {
            *next_item_index = candidate + 1;
        }
        candidate
    }
}

/// Relies on `AtomicUsize::compare_exchange`: it stores `new` only if the cell
/// held `current`, and returns the value it found, as `Ok` when that was
/// `current` and as `Err` when it was not.
#[verifier::external_body]
fn compare_exchange_cell(cell: &AtomicUsize, current: usize, new: usize) -> (r: Result<usize, usize>)
    ensures
        r is Ok ==> r->Ok_0 == current,
        r is Err ==> r->Err_0 != current,
{
    cell.compare_exchange(current, new, Ordering::AcqRel, Ordering::Acquire)
}

/// The slow path of a claim, for a caller that holds the counter exclusively.
/// It tries to move the cell from [`UNCLAIMED`] to the counter's value; the
/// value the cell held decides the rest, as in [`settle_claim`]. If another
/// claim filled the cell first, the counter is left alone.
pub fn claim_with_counter(next_item_index: &mut usize, plugin_index: &AtomicUsize) -> (index: usize)
    ensures
        exists|observed: usize|
            index == claimed_index(*old(next_item_index), observed)
                && *final(next_item_index) == next_after_claim(*old(next_item_index), observed),
        *final(next_item_index) == *old(next_item_index) || (*final(next_item_index) == *old(next_item_index) + 1
            && index == *old(next_item_index)),
        index == UNCLAIMED ==> *old(next_item_index) == UNCLAIMED,
{
    let observed = match compare_exchange_cell(plugin_index, UNCLAIMED, *next_item_index) {
        Ok(found) => found,
        Err(found) => found,
    };
    settle_claim(next_item_index, observed)
}

/// The lock predicate of the counter: any value may be stored.
pub struct AnyCount;

impl RwLockPredicate<usize> for AnyCount {
    open spec fn inv(self, v: usize) -> bool {
        true
    }
}

/// The process-wide counter of claimed slots, behind a lock. Its value is the
/// number of kinds that hold an index, and so the next index to hand out.
pub struct SlotCounter {
    next_item_index: RwLock<usize, AnyCount>,
}

impl SlotCounter {
    /// A counter at zero: no kind has claimed yet.
    pub fn new() -> (r: Self) {
        SlotCounter { next_item_index: RwLock::new(0, Ghost(AnyCount)) }
    }
}

/// The number of kinds that have claimed a slot so far.
pub fn get_registered_item_count(counter: &SlotCounter) -> usize {
    let handle = counter.next_item_index.acquire_read();
    let count = *handle.borrow();
    handle.release_read();
    count
}

/// Claims a slot for the kind whose cell is `plugin_index`, under the
/// counter's lock: see [`claim_with_counter`]. The counter grows by one at
/// most, and only if the returned index is its earlier value.
pub fn initialize_item_index(counter: &SlotCounter, plugin_index: &AtomicUsize) -> (index: usize) {
    let (mut next, handle) = counter.next_item_index.acquire_write();
    let index = claim_with_counter(&mut next, plugin_index);
    handle.release_write(next);
    index
}

/// A kind's permanent index: read from its cell when it has claimed already
/// (no lock taken), else claimed through [`initialize_item_index`].
pub fn claim_slot(counter: &SlotCounter, plugin_index: &AtomicUsize) -> (index: usize) {
    let seen = plugin_index.load(Ordering::Relaxed);
    if seen != UNCLAIMED {
        seen
    } else {
        initialize_item_index(counter, plugin_index)
    }
}

// ---------------------------------------------------------------------------
// Registered items and their container
// ---------------------------------------------------------------------------

/// A kind of item that can be registered. An implementor owns one slot cell
/// and answers `index` with [`claim_slot`] on it, so that each kind has one
/// permanent index. An implementor written outside verified code gives
/// `spec_index` an ordinary body that returns the same index as `index`.
pub trait RegisteredItem: Default {
    /// The index the kind holds once it has claimed.
    spec fn spec_index() -> usize;

    /// A readable name for the kind.
    fn name() -> &'static str;

    /// The kind's slot index, claimed on first use; every call returns the
    /// same index.
    fn index() -> (r: usize)
        ensures
            r == Self::spec_index(),
    ;

    /// A fresh, default item.
    fn new_boxed() -> (r: Box<Self>)
        ensures
            call_ensures(Self::default, (), *r),
    {
        Box::new(Self::default())
    }
}

/// Registers the kind `R` by claiming its index, and returns that index.
/// Registering twice returns the same index.
pub fn add_to_registry<R: RegisteredItem>() -> (r: usize)
    ensures
        r == R::spec_index(),
{
    R::index()
}

/// How a container's slot entry holds an item of kind `R`: the entry is made
/// from the item, and the item is recovered from it by a checked test of the
/// entry's kind, which fails exactly for an entry of another kind. An
/// implementor written outside verified code gives `holds_item` and `item`
/// ordinary bodies that compute what they describe.
pub trait ItemEntry<R>: Sized {
    /// Whether the entry holds an item of kind `R`.
    spec fn holds_item(&self) -> bool;

    /// The item of kind `R` the entry holds, when it holds one.
    spec fn item(&self) -> &R;

    fn from_item(item: Box<R>) -> (e: Self)
        ensures
            e.holds_item(),
            *e.item() == *item,
    ;

    fn as_item(&self) -> (r: Option<&R>)
        ensures
            r is Some == self.holds_item(),
            r is Some ==> *r->Some_0 == *self.item(),
    ;

    fn as_item_mut(&mut self) -> (r: Option<&mut R>)
        ensures
            r is Some == old(self).holds_item(),
            r is None ==> *final(self) == *old(self),
            r is Some ==> *r->Some_0 == *old(self).item() && final(self).holds_item()
                && *final(self).item() == *final(r->Some_0),
    ;
}

/// A box is the entry of a container whose slots all hold one kind.
impl<R> ItemEntry<R> for Box<R> {
    open spec fn holds_item(&self) -> bool {
        true
    }

    open spec fn item(&self) -> &R {
        &**self
    }

    fn from_item(item: Box<R>) -> (e: Self) {
        item
    }

    fn as_item(&self) -> (r: Option<&R>) {
        Some(&**self)
    }

    fn as_item_mut(&mut self) -> (r: Option<&mut R>) {
        Some(&mut **self)
    }
}

/// Why a container could not hand out an item.
#[derive(Debug, PartialEq, Eq, Clone, Copy)]
pub enum RegistryError {
    /// The kind's index is not below the number of slots: the kind claimed
    /// its index after the container was made, or bypassed the protocol.
    IndexOutOfBounds { index: usize, slots: usize },
    /// The slot holds an item of another kind: two kinds share an index.
    TypeMismatch { index: usize },
}

/// One slot per kind, each holding the kind's item once it has been asked for.
pub struct RegisteredItems<E> {
    items: Vec<Option<E>>,
}

impl<E> View for RegisteredItems<E> {
    type V = Seq<Option<E>>;

    closed spec fn view(&self) -> Seq<Option<E>> {
        self.items@
    }
}

/// What an access to slot `index` for kind `R` does to the slots: out of
/// range, nothing; an empty slot gets an entry holding a fresh default item
/// of kind `R`; an occupied slot keeps its entry.
pub open spec fn slots_after_access<R: Default, E: ItemEntry<R>>(
    index: usize,
    before: Seq<Option<E>>,
    after: Seq<Option<E>>,
) -> bool {
    &&& after.len() == before.len()
    &&& forall|j: int| 0 <= j < before.len() && j != index ==> after[j] == before[j]
    &&& index < before.len() ==> after[index as int] is Some
    &&& index < before.len() && before[index as int] is None ==> after[index as int]->Some_0.holds_item()
        && call_ensures(R::default, (), *after[index as int]->Some_0.item())
    &&& (index >= before.len() || before[index as int] is Some) ==> after == before
}

/// The whole outcome of a shared access to slot `index` for kind `R`: the
/// slots change as [`slots_after_access`] says, and the result is the item of
/// the slot's entry when it holds one of kind `R`, `TypeMismatch` when it
/// holds another kind, and `IndexOutOfBounds` past the last slot.
pub open spec fn access_outcome<R: Default, E: ItemEntry<R>>(
    index: usize,
    before: Seq<Option<E>>,
    after: Seq<Option<E>>,
    r: Result<&R, RegistryError>,
) -> bool {
    &&& slots_after_access::<R, E>(index, before, after)
    &&& if index >= before.len() {
        r == Err::<&R, RegistryError>(
            RegistryError::IndexOutOfBounds { index, slots: before.len() as usize },
        )
    } else if after[index as int]->Some_0.holds_item() {
        r is Ok && *r->Ok_0 == *after[index as int]->Some_0.item()
    } else {
        r == Err::<&R, RegistryError>(RegistryError::TypeMismatch { index })
    }
}

/// An item is made at most once: after one access to slot `index` has left
/// the slots as `after_first`, a second access changes nothing and returns
/// the very item the first one returned.
pub proof fn lemma_second_access_keeps_entry<R: Default, E: ItemEntry<R>>(
    index: usize,
    before: Seq<Option<E>>,
    after_first: Seq<Option<E>>,
    after_second: Seq<Option<E>>,
    first: Result<&R, RegistryError>,
    second: Result<&R, RegistryError>,
)
    requires
        access_outcome::<R, E>(index, before, after_first, first),
        access_outcome::<R, E>(index, after_first, after_second, second),
    ensures
        after_second == after_first,
        second == first,
{
}

impl<E> RegisteredItems<E> {
    /// A container of `total_slots` empty slots, typically the number of
    /// kinds registered so far.
    pub fn new(total_slots: usize) -> (r: Self)
        ensures
            r@ == Seq::new(total_slots as nat, |i: int| None::<E>),
    {
        let mut items: Vec<Option<E>> = Vec::with_capacity(total_slots);
        let mut i: usize = 0;
        while i < total_slots
            invariant
                i <= total_slots,
                items@ == Seq::new(i as nat, |j: int| None::<E>),
            decreases total_slots - i,
        {
            items.push(None);
            i = i + 1;
        }
        RegisteredItems { items }
    }

    /// The number of slots.
    pub fn len(&self) -> (n: usize)
        ensures
            n == self@.len(),
    {
        self.items.len()
    }

    /// Makes the entry of slot `index` if it is empty, with a default item of
    /// kind `R`. Returns whether `index` is a slot.
    fn fill_slot<R: RegisteredItem>(&mut self, index: usize) -> (in_range: bool)
        where E: ItemEntry<R>,
        ensures
            in_range == (index < old(self)@.len()),
            slots_after_access::<R, E>(index, old(self)@, final(self)@),
    {
        if index >= self.items.len() {
            return false;
        }
        if self.items[index].is_none() {
            let entry = E::from_item(R::new_boxed());
            self.items.set(index, Some(entry));
        }
        true
    }

    /// The item of kind `R` in slot `index`, made first if the slot is empty.
    /// Fails with `IndexOutOfBounds` when `index` is not a slot, and with
    /// `TypeMismatch` when the slot holds an entry of another kind.
    pub fn get_at<R: RegisteredItem>(&mut self, index: usize) -> (r: Result<&R, RegistryError>)
        where E: ItemEntry<R>,
        ensures
            access_outcome::<R, E>(index, old(self)@, final(self)@, r),
    {
        if !self.fill_slot::<R>(index) {
            return Err(RegistryError::IndexOutOfBounds { index, slots: self.items.len() });
        }
        match &self.items[index] {
            Some(entry) => match entry.as_item() {
                Some(item) => Ok(item),
                None => Err(RegistryError::TypeMismatch { index }),
            },
            None => Err(RegistryError::TypeMismatch { index }),
        }
    }

    /// Like [`RegisteredItems::get_at`], with exclusive access to the item.
    /// The slot's entry keeps what the caller writes through it.
    pub fn get_mut_at<R: RegisteredItem>(&mut self, index: usize) -> (r: Result<&mut R, RegistryError>)
        where E: ItemEntry<R>,
        ensures
            final(self)@.len() == old(self)@.len(),
            forall|j: int| 0 <= j < old(self)@.len() && j != index ==> final(self)@[j] == old(self)@[j],
            index >= old(self)@.len() ==> r == Err::<&mut R, RegistryError>(
                RegistryError::IndexOutOfBounds { index, slots: old(self)@.len() as usize },
            ) && final(self)@ == old(self)@,
            index < old(self)@.len() && old(self)@[index as int] is Some
                && !old(self)@[index as int]->Some_0.holds_item() ==> r == Err::<&mut R, RegistryError>(
                RegistryError::TypeMismatch { index },
            ) && final(self)@ == old(self)@,
            index < old(self)@.len() && (old(self)@[index as int] is None
                || old(self)@[index as int]->Some_0.holds_item()) ==> r is Ok
                && final(self)@[index as int] is Some
                && final(self)@[index as int]->Some_0.holds_item()
                && *final(self)@[index as int]->Some_0.item() == *final(r->Ok_0),
            index < old(self)@.len() && old(self)@[index as int] is None ==> r is Ok
                && call_ensures(R::default, (), *r->Ok_0),
            index < old(self)@.len() && old(self)@[index as int] is Some
                && old(self)@[index as int]->Some_0.holds_item() ==> r is Ok
                && *r->Ok_0 == *old(self)@[index as int]->Some_0.item(),
    {
        if !self.fill_slot::<R>(index) {
            return Err(RegistryError::IndexOutOfBounds { index, slots: self.items.len() });
        }
        match &mut self.items[index] {
            Some(entry) => match entry.as_item_mut() {
                Some(item) => Ok(item),
                None => Err(RegistryError::TypeMismatch { index }),
            },
            None => Err(RegistryError::TypeMismatch { index }),
        }
    }

    /// The item of kind `R`, in the slot of `R`'s index, made first if the
    /// slot is empty: [`RegisteredItems::get_at`] at `R::index()`.
    pub fn get<R: RegisteredItem>(&mut self) -> (r: Result<&R, RegistryError>)
        where E: ItemEntry<R>,
        ensures
            access_outcome::<R, E>(R::spec_index(), old(self)@, final(self)@, r),
    {
        let index = R::index();
        self.get_at::<R>(index)
    }

    /// Like [`RegisteredItems::get`], with exclusive access to the item:
    /// [`RegisteredItems::get_mut_at`] at `R::index()`.
    pub fn get_mut<R: RegisteredItem>(&mut self) -> (r: Result<&mut R, RegistryError>)
        where E: ItemEntry<R>,
        ensures
            ({
                let index = R::spec_index();
                &&& final(self)@.len() == old(self)@.len()
                &&& forall|j: int| 0 <= j < old(self)@.len() && j != index ==> final(self)@[j] == old(self)@[j]
                &&& index >= old(self)@.len() ==> r == Err::<&mut R, RegistryError>(
                    RegistryError::IndexOutOfBounds { index, slots: old(self)@.len() as usize },
                ) && final(self)@ == old(self)@
                &&& index < old(self)@.len() && old(self)@[index as int] is Some
                    && !old(self)@[index as int]->Some_0.holds_item() ==> r == Err::<&mut R, RegistryError>(
                    RegistryError::TypeMismatch { index },
                ) && final(self)@ == old(self)@
                &&& index < old(self)@.len() && (old(self)@[index as int] is None
                    || old(self)@[index as int]->Some_0.holds_item()) ==> r is Ok
                    && final(self)@[index as int] is Some
                    && final(self)@[index as int]->Some_0.holds_item()
                    && *final(self)@[index as int]->Some_0.item() == *final(r->Ok_0)
                &&& index < old(self)@.len() && old(self)@[index as int] is None ==> r is Ok
                    && call_ensures(R::default, (), *r->Ok_0)
                &&& index < old(self)@.len() && old(self)@[index as int] is Some
                    && old(self)@[index as int]->Some_0.holds_item() ==> r is Ok
                    && *r->Ok_0 == *old(self)@[index as int]->Some_0.item()
            }),
    {
        let index = R::index();
        self.get_mut_at::<R>(index)
    }
}

} // verus!
