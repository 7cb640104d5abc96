//! Which tracked wasm memory a faulting address belongs to, and whether a fault is an
//! access to tracked memory, a sign that the heap has grown, or neither.
use vstd::prelude::*;

verus! {

/// Bytes in one WebAssembly page.
pub open spec fn page_bytes() -> int {
    65536
}

/// Reads wasmtime's `Memory::DEFAULT_PAGE_SIZE`, which wasmtime-environ defines as 0x10000.
#[verifier::external_body]
fn wasm_page_size() -> (size: u32)
    ensures
        size == page_bytes(),
{
    wasmtime_environ::Memory::DEFAULT_PAGE_SIZE
}

/// Memory `x` comes before memory `y` when memories are ordered by base address, memories
/// with equal bases keeping the order in which they were given.
pub open spec fn orders_before(bases: Seq<usize>, x: int, y: int) -> bool {
    bases[x] < bases[y] || (bases[x] == bases[y] && x < y)
}

/// `order` lists every memory index exactly once, ordered by base address (stably).
pub open spec fn is_memory_order(bases: Seq<usize>, order: Seq<usize>) -> bool {
    &&& order.len() == bases.len()
    &&& forall|k: int| 0 <= k < order.len() ==> #[trigger] order[k] < bases.len()
    &&& forall|j: usize| j < bases.len() ==> #[trigger] order.contains(j)
    &&& forall|a: int, b: int|
        0 <= a < b < order.len() ==> orders_before(bases, #[trigger] order[a] as int, #[trigger] order[b] as int)
}

/// Memory `i` serves a fault at `address`: among the memories whose base is not above the
/// address it is the last one in base order; when every base lies above the address, it is
/// the first one in base order.
pub open spec fn serves(bases: Seq<usize>, address: usize, i: int) -> bool {
    &&& 0 <= i < bases.len()
    &&& if exists|j: int| 0 <= j < bases.len() && #[trigger] bases[j] <= address {
        &&& bases[i] <= address
        &&& forall|j: int|
            0 <= j < bases.len() && #[trigger] bases[j] <= address ==> (j == i || orders_before(bases, j, i))
    } else {
        forall|j: int| 0 <= j < bases.len() ==> (j == i || #[trigger] orders_before(bases, i, j))
    }
}

/// No fault address is served by two memories: the memory chosen for an address is determined
/// by the memories' bases alone.
pub proof fn lemma_serving_memory_is_unique(bases: Seq<usize>, address: usize, i: int, j: int)
    requires
        serves(bases, address, i),
        serves(bases, address, j),
    ensures
        i == j,
{
    if exists|k: int| 0 <= k < bases.len() && #[trigger] bases[k] <= address {
        assert(bases[j] <= address);
        assert(bases[i] <= address);
    } else {
        assert(j == i || orders_before(bases, i, j));
        assert(i == j || orders_before(bases, j, i));
    }
}

/// The base addresses of the tracked memories, kept in base order.
pub struct TrackedMemories {
    bases: Vec<usize>,
    order: Vec<usize>,
}

impl TrackedMemories {
    /// Base addresses of the tracked memories, in the order they were given.
    pub closed spec fn bases(&self) -> Seq<usize> {
        self.bases@
    }

    pub closed spec fn wf(&self) -> bool {
        is_memory_order(self.bases@, self.order@)
    }

    /// Records the memories' base addresses and orders them by base, stably.
    pub fn new(bases: Vec<usize>) -> (memories: TrackedMemories)
        ensures
            memories.wf(),
            memories.bases() == bases@,
    {
        let mut order: Vec<usize> = Vec::new();
        let n = bases.len();
        for i in 0..n
            invariant
                n == bases.len(),
                order.len() == i,
                forall|k: int| 0 <= k < order.len() ==> #[trigger] order[k] < i,
                forall|j: usize| j < i ==> #[trigger] order@.contains(j),
                forall|a: int, b: int|
                    0 <= a < b < order.len() ==> orders_before(
                        bases@,
                        #[trigger] order[a] as int,
                        #[trigger] order[b] as int,
                    ),
        {
            let mut p = order.len();
            while p > 0 && bases[order[p - 1]] > bases[i]
                invariant
                    n == bases.len(),
                    i < n,
                    order.len() == i,
                    p <= order.len(),
                    forall|k: int| 0 <= k < order.len() ==> #[trigger] order[k] < i,
                    forall|k: int| p <= k < order.len() ==> bases[#[trigger] order[k] as int] > bases[i as int],
                decreases p,
            {
                p = p - 1;
            }
            let ghost old_order = order@;
            proof {
                assert forall|k: int| 0 <= k < p implies orders_before(
                    bases@,
                    #[trigger] old_order[k] as int,
                    i as int,
                ) by {
                    if k < p - 1 {
                        assert(orders_before(bases@, old_order[k] as int, old_order[p - 1] as int));
                    }
                }
            }
            order.insert(p, i);
            proof {
                assert forall|j: usize| j < i + 1 implies #[trigger] order@.contains(j) by {
                    if j == i {
                        assert(order@[p as int] == j);
                    } else {
                        assert(old_order.contains(j));
                        let m = choose|m: int| 0 <= m < old_order.len() && old_order[m] == j;
                        if m < p {
                            assert(order@[m] == j);
                        } else {
                            assert(order@[m + 1] == j);
                        }
                    }
                }
                assert forall|a: int, b: int| 0 <= a < b < order.len() implies orders_before(
                    bases@,
                    #[trigger] order[a] as int,
                    #[trigger] order[b] as int,
                ) by {
                    if b < p {
                        assert(order[a] == old_order[a] && order[b] == old_order[b]);
                    } else if b == p {
                        assert(order[a] == old_order[a]);
                    } else if a < p {
                        assert(order[a] == old_order[a] && order[b] == old_order[b - 1]);
                        assert(orders_before(bases@, old_order[a] as int, old_order[b - 1] as int));
                    } else if a == p {
                        assert(order[b] == old_order[b - 1]);
                    } else {
                        assert(order[a] == old_order[a - 1] && order[b] == old_order[b - 1]);
                        assert(orders_before(bases@, old_order[a - 1] as int, old_order[b - 1] as int));
                    }
                }
            }
        }
        TrackedMemories { bases, order }
    }

    /// The memory (by its position in the list given to `new`) that serves a fault at
    /// `address`.
    pub fn memory_for_address(&self, address: usize) -> (i: usize)
        requires
            self.wf(),
            self.bases().len() > 0,
        ensures
            serves(self.bases(), address, i as int),
            i < self.bases().len(),
            (exists|j: int| 0 <= j < self.bases().len() && self.bases()[j] <= address) ==> {
                &&& self.bases()[i as int] <= address
                &&& forall|j: int| 0 <= j < self.bases().len() && self.bases()[j] <= address ==> (#[trigger] self.bases()[j]
                    < self.bases()[i as int] || (self.bases()[j] == self.bases()[i as int] && j <= i))
            },
            (forall|j: int| 0 <= j < self.bases().len() ==> self.bases()[j] > address) ==> forall|j: int|
                0 <= j < self.bases().len() ==> (self.bases()[i as int] < #[trigger] self.bases()[j] || (self.bases()[j]
                    == self.bases()[i as int] && i <= j)),
    {
        let mut k = self.order.len();
        while k > 0
            invariant
                k <= self.order.len(),
                is_memory_order(self.bases@, self.order@),
                forall|m: int| k <= m < self.order.len() ==> self.bases@[#[trigger] self.order@[m] as int] > address,
            decreases k,
        {
            let idx = self.order[k - 1];
            if self.bases[idx] <= address {
                proof {
                    assert forall|j: int| 0 <= j < self.bases@.len() && #[trigger] self.bases@[j] <= address implies (
                    j == idx || orders_before(self.bases@, j, idx as int)) by {
                        assert(self.order@.contains(j as usize));
                        let m = choose|m: int| 0 <= m < self.order@.len() && self.order@[m] == j as usize;
                        if m < k - 1 {
                            assert(orders_before(self.bases@, self.order@[m] as int, self.order@[k - 1] as int));
                        }
                    }
                }
                return idx;
            }
            k = k - 1;
        }
        let first = self.order[0];
        proof {
            assert forall|j: int| 0 <= j < self.bases@.len() implies (j == first || #[trigger] orders_before(
                self.bases@,
                first as int,
                j,
            )) by {
                assert(self.order@.contains(j as usize));
                let m = choose|m: int| 0 <= m < self.order@.len() && self.order@[m] == j as usize;
                if m > 0 {
                    assert(orders_before(self.bases@, self.order@[0] as int, self.order@[m] as int));
                }
            }
            assert forall|j: int| 0 <= j < self.bases@.len() implies !(#[trigger] self.bases@[j] <= address) by {
                assert(self.order@.contains(j as usize));
                let m = choose|m: int| 0 <= m < self.order@.len() && self.order@[m] == j as usize;
                assert(self.bases@[self.order@[m] as int] > address);
            }
            assert forall|j: int| 0 <= j < self.bases@.len() implies (self.bases@[first as int] < #[trigger] self.bases@[j]
                || (self.bases@[j] == self.bases@[first as int] && first <= j)) by {
                assert(j == first || orders_before(self.bases@, first as int, j));
            }
        }
        first
    }
}

/// What the fault handler does with a fault.
#[derive(PartialEq, Eq, Structural)]
pub enum FaultResolution {
    /// The address lies in the tracked area: the memory tracker handles the access.
    HandleAccess,
    /// The address lies past the tracked area but inside the grown heap of `heap_size` bytes:
    /// the tracked area is expanded to it.
    Expand { heap_size: usize },
    /// The fault does not concern this memory.
    Unhandled,
}

/// The heap that starts at `heap_start` and spans `page_count` pages, when `address` lies in it.
pub open spec fn spec_expanded_heap_size(heap_start: usize, address: usize, page_count: usize) -> Option<usize> {
    if heap_start <= address < heap_start + page_count * page_bytes() {
        Some((page_count * page_bytes()) as usize)
    } else {
        None
    }
}

/// The size in bytes of the heap of `page_count` pages starting at `heap_start`, if `address`
/// falls inside it.
pub fn check_if_expanded(heap_start: usize, address: usize, page_count: usize) -> (heap_size: Option<usize>)
    requires
        page_count * page_bytes() <= usize::MAX,
    ensures
        heap_size == spec_expanded_heap_size(heap_start, address, page_count),
        heap_size is Some <==> heap_start <= address < heap_start + page_count * 65536,
        heap_size is Some ==> heap_size.unwrap() == page_count * 65536,
{
    let page = wasm_page_size() as usize;
    assert(page_count * page == page_count * page_bytes());
    let heap_size = page_count * page;
    if heap_start <= address && address - heap_start < heap_size {
        Some(heap_size)
    } else {
        None
    }
}

/// The grown heap is the whole heap: whenever the address lies in the `page_count` pages of
/// 64 KiB that start at `heap_start`, the size reported is all `page_count` pages, wherever in
/// them the address lies; outside them nothing is reported.
pub proof fn lemma_expanded_heap_is_the_whole_heap(heap_start: usize, address: usize, page_count: usize)
    ensures
        heap_start <= address < heap_start + page_count * 65536 ==> spec_expanded_heap_size(heap_start, address, page_count)
            == Some((page_count * 65536) as usize),
        !(heap_start <= address < heap_start + page_count * 65536) ==> spec_expanded_heap_size(
            heap_start,
            address,
            page_count,
        ) is None,
{
}

/// Decides how a fault at `address` in a memory is handled: `within_tracked_area` tells whether
/// the address lies in the area the memory tracker covers, `heap_start` is where that area
/// starts and `page_count` the memory's current size in pages.
pub fn resolve_fault(within_tracked_area: bool, heap_start: usize, page_count: usize, address: usize) -> (r: FaultResolution)
    requires
        !within_tracked_area ==> page_count * page_bytes() <= usize::MAX,
    ensures
        r == (if within_tracked_area {
            FaultResolution::HandleAccess
        } else {
            match spec_expanded_heap_size(heap_start, address, page_count) {
                Some(heap_size) => FaultResolution::Expand { heap_size },
                None => FaultResolution::Unhandled,
            }
        }),
        !within_tracked_area && heap_start <= address < heap_start + page_count * 65536
            ==> r == (FaultResolution::Expand { heap_size: (page_count * 65536) as usize }),
        !within_tracked_area && !(heap_start <= address < heap_start + page_count * 65536)
            ==> r == FaultResolution::Unhandled,
{
    if within_tracked_area {
        FaultResolution::HandleAccess
    } else {
        match check_if_expanded(heap_start, address, page_count) {
            Some(heap_size) => FaultResolution::Expand { heap_size },
            None => FaultResolution::Unhandled,
        }
    }
}

} // verus!
