use vstd::prelude::*;

use crate::error::RioError;

verus! {

/// The state of one node of the split tree.
#[derive(Clone, Copy, Debug, PartialEq, Eq, Structural)]
pub enum Usage {
    /// Available for leasing whole or for carving.
    Free,
    /// Leased to exactly one caller or operation.
    Used,
    /// Carved into two children, given by their indices in the arena.
    Split(usize, usize),
}

/// A contiguous sub-range `[offset, offset + len)` of the registered region.
#[derive(Clone, Copy, Debug)]
pub struct BufferNode {
    pub offset: usize,
    pub len: usize,
    pub usage: Usage,
}

impl BufferNode {
    pub fn len(&self) -> (r: usize)
        ensures
            r == self.len,
    {
        self.len
    }

    pub fn offset(&self) -> (r: usize)
        ensures
            r == self.offset,
    {
        self.offset
    }
}

pub open spec fn is_leaf(n: BufferNode) -> bool {
    !(n.usage is Split)
}

pub open spec fn is_free(n: BufferNode) -> bool {
    n.usage is Free
}

/// Whether byte position `p` lies inside the node's range.
pub open spec fn holds(n: BufferNode, p: int) -> bool {
    n.offset <= p < n.offset + n.len
}

/// Some leaf holds position `p`.
pub open spec fn covered(nodes: Seq<BufferNode>, p: int) -> bool {
    exists|i: int| 0 <= i < nodes.len() && is_leaf(nodes[i]) && #[trigger] holds(nodes[i], p)
}

/// The leaves of the tree partition `[0, size)`: every leaf lies inside the
/// region, every position is held by a leaf, and by one leaf only.
pub open spec fn partitions(nodes: Seq<BufferNode>, size: nat) -> bool {
    &&& forall|i: int|
        0 <= i < nodes.len() && is_leaf(#[trigger] nodes[i]) ==> nodes[i].offset + nodes[i].len
            <= size
    &&& forall|p: int| 0 <= p < size ==> #[trigger] covered(nodes, p)
    &&& forall|i: int, j: int, p: int|
        0 <= i < nodes.len() && 0 <= j < nodes.len() && is_leaf(nodes[i]) && is_leaf(nodes[j])
            && #[trigger] holds(nodes[i], p) && #[trigger] holds(nodes[j], p) ==> i == j
}

/// Children of a split node lie in the arena and are its two halves: the
/// left one starts where it starts, the right one where the left one ends,
/// and together they are as long as it is.
pub open spec fn links_in_arena(nodes: Seq<BufferNode>) -> bool {
    forall|i: int|
        0 <= i < nodes.len() && (#[trigger] nodes[i]).usage is Split ==> {
            let l = nodes[i].usage->Split_0 as int;
            let r = nodes[i].usage->Split_1 as int;
            &&& l < nodes.len()
            &&& r < nodes.len()
            &&& nodes[l].offset == nodes[i].offset
            &&& nodes[r].offset == nodes[i].offset + nodes[l].len
            &&& nodes[l].len + nodes[r].len == nodes[i].len
        }
}

/// A free leaf that can hold `size` bytes.
pub open spec fn fits(n: BufferNode, size: nat) -> bool {
    is_free(n) && n.len >= size
}

/// Best-fit order: the smaller node first, then the lower offset.
pub open spec fn prefers(a: BufferNode, b: BufferNode) -> bool {
    a.len < b.len || (a.len == b.len && a.offset <= b.offset)
}

/// Node `i` is the best fit for `size` among all nodes.
pub open spec fn best_fit(nodes: Seq<BufferNode>, size: nat, i: int) -> bool {
    &&& 0 <= i < nodes.len()
    &&& fits(nodes[i], size)
    &&& forall|j: int| 0 <= j < nodes.len() && fits(#[trigger] nodes[j], size) ==> prefers(nodes[i], nodes[j])
}

/// Some free leaf can hold `size` bytes.
pub open spec fn can_fit(nodes: Seq<BufferNode>, size: nat) -> bool {
    exists|i: int| 0 <= i < nodes.len() && fits(#[trigger] nodes[i], size)
}

/// The largest free length among the first `k` nodes, 0 when none is free.
pub open spec fn largest_free(nodes: Seq<BufferNode>, k: int) -> nat
    decreases k,
{
    if k <= 0 {
        0
    } else {
        let rest = largest_free(nodes, k - 1);
        let here: nat = if is_free(nodes[k - 1]) { nodes[k - 1].len as nat } else { 0 };
        if here > rest { here } else { rest }
    }
}

/// The arena after carving free node `b` at `size`: `b` becomes a split node
/// whose children, appended at the end, are the used left part and the free
/// remainder.
pub open spec fn carve(nodes: Seq<BufferNode>, b: int, size: nat) -> Seq<BufferNode> {
    let n = nodes.len();
    let node = nodes[b];
    nodes.update(b, BufferNode { usage: Usage::Split(n as usize, (n + 1) as usize), ..node }).push(
        BufferNode { offset: node.offset, len: size as usize, usage: Usage::Used },
    ).push(
        BufferNode {
            offset: (node.offset + size) as usize,
            len: (node.len - size) as usize,
            usage: Usage::Free,
        },
    )
}

/// Changing a leaf's state between free and used keeps the partition.
proof fn lemma_relabel_leaf(o: Seq<BufferNode>, total: nat, b: int, x: BufferNode)
    requires
        partitions(o, total),
        links_in_arena(o),
        0 <= b < o.len(),
        is_leaf(o[b]),
        is_leaf(x),
        x.offset == o[b].offset,
        x.len == o[b].len,
    ensures
        partitions(o.update(b, x), total),
        links_in_arena(o.update(b, x)),
{
    let n = o.update(b, x);
    assert forall|i: int| 0 <= i < n.len() && is_leaf(#[trigger] n[i]) implies n[i].offset
        + n[i].len <= total by {
        assert(is_leaf(o[i]));
    }
    assert forall|p: int| 0 <= p < total implies #[trigger] covered(n, p) by {
        assert(covered(o, p));
        let k = choose|k: int| 0 <= k < o.len() && is_leaf(o[k]) && #[trigger] holds(o[k], p);
        assert(holds(n[k], p));
    }
    assert forall|i: int, j: int, p: int|
        0 <= i < n.len() && 0 <= j < n.len() && is_leaf(n[i]) && is_leaf(n[j]) && #[trigger] holds(
            n[i],
            p,
        ) && #[trigger] holds(n[j], p) implies i == j by {
        assert(holds(o[i], p) && holds(o[j], p));
        assert(is_leaf(o[i]) && is_leaf(o[j]));
    }
    assert forall|i: int| 0 <= i < n.len() && (#[trigger] n[i]).usage is Split implies {
        let l = n[i].usage->Split_0 as int;
        let r = n[i].usage->Split_1 as int;
        &&& l < n.len()
        &&& r < n.len()
        &&& n[l].offset == n[i].offset
        &&& n[r].offset == n[i].offset + n[l].len
        &&& n[l].len + n[r].len == n[i].len
    } by {
        assert(o[i] == n[i]);
        let l = o[i].usage->Split_0 as int;
        let r = o[i].usage->Split_1 as int;
        assert(n[l].offset == o[l].offset && n[l].len == o[l].len);
        assert(n[r].offset == o[r].offset && n[r].len == o[r].len);
    }
}

/// Carving a free leaf keeps the partition and the arena links.
proof fn lemma_carve(o: Seq<BufferNode>, total: nat, b: int, size: nat)
    requires
        partitions(o, total),
        links_in_arena(o),
        0 <= b < o.len(),
        is_free(o[b]),
        size < o[b].len,
        o.len() + 2 <= usize::MAX,
        total <= usize::MAX,
    ensures
        partitions(carve(o, b, size), total),
        links_in_arena(carve(o, b, size)),
{
    let n = carve(o, b, size);
    let len = o.len() as int;
    assert(n.len() == len + 2);
    assert(o[b].offset + o[b].len <= total);
    assert forall|i: int| 0 <= i < n.len() && is_leaf(#[trigger] n[i]) implies n[i].offset
        + n[i].len <= total by {
        if i < len {
            assert(n[i] == o[i]);
        }
    }
    assert forall|p: int| 0 <= p < total implies #[trigger] covered(n, p) by {
        assert(covered(o, p));
        let k = choose|k: int| 0 <= k < o.len() && is_leaf(o[k]) && #[trigger] holds(o[k], p);
        if k == b {
            if p < o[b].offset + size {
                assert(holds(n[len], p));
            } else {
                assert(holds(n[len + 1], p));
            }
        } else {
            assert(n[k] == o[k]);
            assert(holds(n[k], p));
        }
    }
    assert forall|i: int, j: int, p: int|
        0 <= i < n.len() && 0 <= j < n.len() && is_leaf(n[i]) && is_leaf(n[j]) && #[trigger] holds(
            n[i],
            p,
        ) && #[trigger] holds(n[j], p) implies i == j by {
        let oi = if i >= len { b } else { i };
        let oj = if j >= len { b } else { j };
        if i < len {
            assert(n[i] == o[i]);
        }
        if j < len {
            assert(n[j] == o[j]);
        }
        assert(holds(o[oi], p));
        assert(holds(o[oj], p));
        assert(is_leaf(o[oi]) && is_leaf(o[oj]));
    }
    assert forall|i: int| 0 <= i < n.len() && (#[trigger] n[i]).usage is Split implies {
        let l = n[i].usage->Split_0 as int;
        let r = n[i].usage->Split_1 as int;
        &&& l < n.len()
        &&& r < n.len()
        &&& n[l].offset == n[i].offset
        &&& n[r].offset == n[i].offset + n[l].len
        &&& n[l].len + n[r].len == n[i].len
    } by {
        if i < len && i != b {
            assert(o[i] == n[i]);
            let l = o[i].usage->Split_0 as int;
            let r = o[i].usage->Split_1 as int;
            assert(n[l].offset == o[l].offset && n[l].len == o[l].len);
            assert(n[r].offset == o[r].offset && n[r].len == o[r].len);
        }
    }
}

/// Partition law: in a well-formed buffer (the state every allocator
/// operation starts from and returns to) a position lies in some leaf exactly
/// when it lies in the registered region, and no position lies in two leaves.
pub proof fn lemma_leaves_partition(b: RIOBuffer)
    requires
        b.wf(),
    ensures
        forall|p: int| #[trigger] covered(b.spec_nodes(), p) <==> 0 <= p < b.size(),
        forall|i: int, j: int, p: int|
            0 <= i < b.spec_nodes().len() && 0 <= j < b.spec_nodes().len() && is_leaf(
                b.spec_nodes()[i],
            ) && is_leaf(b.spec_nodes()[j]) && #[trigger] holds(b.spec_nodes()[i], p)
                && #[trigger] holds(b.spec_nodes()[j], p) ==> i == j,
{
    let nodes = b.spec_nodes();
    assert forall|p: int| #[trigger] covered(nodes, p) implies 0 <= p < b.size() by {
        let k = choose|k: int| 0 <= k < nodes.len() && is_leaf(nodes[k]) && #[trigger] holds(nodes[k], p);
        assert(is_leaf(nodes[k]));
    }
}

/// Whole-buffer exclusivity: while the root is free it is the only node a
/// best-fit allocation can pick, so a carving allocation splits it, and a
/// lease of the whole region or of an exact fit leaves it used; either way
/// the whole region is no longer offered.
pub proof fn lemma_whole_exclusive(b: RIOBuffer, size: nat, i: int)
    requires
        b.wf(),
        b.root_free(),
        best_fit(b.spec_nodes(), size, i),
    ensures
        i == 0,
        b.spec_nodes().len() == 1,
        !is_free(b.spec_nodes().update(0, BufferNode { usage: Usage::Used, ..b.spec_nodes()[0] })[0]),
        b.spec_nodes()[0].len != size ==> !is_free(carve(b.spec_nodes(), 0, size)[0]),
{
}

/// A lease on one used node of a registered buffer.
#[derive(Debug)]
pub struct RIOBufferSlice {
    buffer_id: u64,
    node: usize,
    offset: usize,
    len: usize,
}

impl RIOBufferSlice {
    pub closed spec fn spec_buffer_id(&self) -> u64 {
        self.buffer_id
    }

    pub closed spec fn spec_node(&self) -> usize {
        self.node
    }

    pub closed spec fn spec_offset(&self) -> usize {
        self.offset
    }

    pub closed spec fn spec_len(&self) -> usize {
        self.len
    }

    /// The kernel identifier of the buffer the slice was carved from.
    pub fn buffer_id(&self) -> (r: u64)
        ensures
            r == self.spec_buffer_id(),
    {
        self.buffer_id
    }

    /// Start of the slice within the registered region.
    pub fn offset(&self) -> (r: usize)
        ensures
            r == self.spec_offset(),
    {
        self.offset
    }

    /// Length of the slice in bytes.
    pub fn len(&self) -> (r: usize)
        ensures
            r == self.spec_len(),
    {
        self.len
    }
}

/// One registered memory region and the split tree that carves it.
pub struct RIOBuffer {
    id: u64,
    buf: Vec<u8>,
    nodes: Vec<BufferNode>,
}

impl RIOBuffer {
    /// Size of a buffer made without an explicit length.
    pub const DEFAULT_SIZE: usize = 4096;

    /// The largest region the kernel registers.
    pub const MAX_SIZE: usize = 0xffff_ffff;

    pub closed spec fn spec_id(&self) -> u64 {
        self.id
    }

    pub closed spec fn size(&self) -> nat {
        self.buf@.len()
    }

    pub closed spec fn spec_nodes(&self) -> Seq<BufferNode> {
        self.nodes@
    }

    pub closed spec fn spec_bytes(&self) -> Seq<u8> {
        self.buf@
    }

    pub open spec fn root_free(&self) -> bool {
        is_free(self.spec_nodes()[0])
    }

    /// The buffer's invariant: a root spanning the region, children inside
    /// the arena, and leaves that partition the region.
    pub open spec fn wf(&self) -> bool {
        &&& self.spec_nodes().len() >= 1
        &&& self.spec_nodes()[0].offset == 0
        &&& self.spec_nodes()[0].len == self.size()
        &&& self.size() <= Self::MAX_SIZE
        &&& is_leaf(self.spec_nodes()[0]) ==> self.spec_nodes().len() == 1
        &&& links_in_arena(self.spec_nodes())
        &&& partitions(self.spec_nodes(), self.size())
    }

    /// Whether `s` is a live lease of this buffer.
    pub open spec fn owns(&self, s: &RIOBufferSlice) -> bool {
        let nodes = self.spec_nodes();
        let i = s.spec_node() as int;
        &&& s.spec_buffer_id() == self.spec_id()
        &&& 0 <= i < nodes.len()
        &&& nodes[i].usage == Usage::Used
        &&& nodes[i].offset == s.spec_offset()
        &&& nodes[i].len == s.spec_len()
    }

    /// Takes a region that the kernel registered under `id`; an identifier of
    /// 0 means the kernel refused it, as does a region beyond `MAX_SIZE`.
    pub fn from_buf(buf: Vec<u8>, id: u64) -> (r: Result<RIOBuffer, RioError>)
        ensures
            match r {
                Ok(b) => {
                    &&& id != 0 && buf@.len() <= Self::MAX_SIZE
                    &&& b.wf()
                    &&& b.spec_id() == id
                    &&& b.spec_bytes() == buf@
                    &&& b.size() == buf@.len()
                    &&& b.spec_nodes() == seq![BufferNode { offset: 0, len: buf.len(), usage: Usage::Free }]
                    &&& b.root_free()
                },
                Err(e) => e == RioError::RegistrationFailed && (id == 0 || buf@.len()
                    > Self::MAX_SIZE),
            },
    {
        if id == 0 || buf.len() > Self::MAX_SIZE {
            return Err(RioError::RegistrationFailed);
        }
        let root = BufferNode { offset: 0, len: buf.len(), usage: Usage::Free };
        let mut nodes: Vec<BufferNode> = Vec::new();
        nodes.push(root);
        let b = RIOBuffer { id, buf, nodes };
        proof {
            let nodes = b.nodes@;
            assert forall|p: int| 0 <= p < b.buf@.len() implies #[trigger] covered(nodes, p) by {
                assert(holds(nodes[0], p));
            }
        }
        Ok(b)
    }

    /// Length of the registered region.
    pub fn len(&self) -> (r: usize)
        ensures
            r == self.size(),
    {
        self.buf.len()
    }

    /// The kernel identifier of the region.
    pub fn id(&self) -> (r: u64)
        ensures
            r == self.spec_id(),
    {
        self.id
    }

    /// Number of nodes in the split tree.
    pub fn node_count(&self) -> (r: usize)
        ensures
            r == self.spec_nodes().len(),
    {
        self.nodes.len()
    }

    /// The node at `i` of the split tree.
    pub fn node(&self, i: usize) -> (r: BufferNode)
        requires
            i < self.spec_nodes().len(),
        ensures
            r == self.spec_nodes()[i as int],
    {
        self.nodes[i]
    }

    /// Leases the whole region; only possible while the root is free.
    pub fn alloc_whole(&mut self) -> (r: Option<RIOBufferSlice>)
        requires
            old(self).wf(),
        ensures
            final(self).wf(),
            final(self).spec_id() == old(self).spec_id(),
            final(self).spec_bytes() == old(self).spec_bytes(),
            !final(self).root_free(),
            r is Some <==> old(self).root_free(),
            match r {
                Some(s) => {
                    &&& final(self).spec_nodes() == old(self).spec_nodes().update(
                        0,
                        BufferNode { usage: Usage::Used, ..old(self).spec_nodes()[0] },
                    )
                    &&& s.spec_node() == 0
                    &&& s.spec_offset() == 0
                    &&& s.spec_len() == old(self).size()
                    &&& final(self).owns(&s)
                },
                None => final(self).spec_nodes() == old(self).spec_nodes(),
            },
    {
        let root = self.nodes[0];
        match root.usage {
            Usage::Free => {
                let used = BufferNode { usage: Usage::Used, ..root };
                self.nodes.set(0, used);
                proof {
                    lemma_relabel_leaf(old(self).nodes@, self.buf@.len(), 0, used);
                }
                Some(RIOBufferSlice { buffer_id: self.id, node: 0, offset: 0, len: root.len })
            },
            _ => None,
        }
    }
    /// Best-fit allocation of `size` bytes: the smallest free leaf that can
    /// hold them (the lower offset among equals) is leased whole when its
    /// length is exact, and otherwise carved into a leased left part of
    /// `size` bytes and a free remainder. When no free leaf is large enough,
    /// nothing changes and the largest free length (0 if none) is reported.
    pub fn allocate(&mut self, size: usize) -> (r: Result<RIOBufferSlice, RioError>)
        requires
            old(self).wf(),
        ensures
            final(self).wf(),
            final(self).spec_id() == old(self).spec_id(),
            final(self).spec_bytes() == old(self).spec_bytes(),
            r is Ok <==> can_fit(old(self).spec_nodes(), size as nat),
            !old(self).root_free() ==> !final(self).root_free(),
            r is Ok ==> !final(self).root_free(),
            match r {
                Ok(s) => exists|i: int|
                    #[trigger] best_fit(old(self).spec_nodes(), size as nat, i) && {
                        let o = old(self).spec_nodes();
                        &&& s.spec_offset() == o[i].offset
                        &&& s.spec_len() == size
                        &&& final(self).owns(&s)
                        &&& if o[i].len == size {
                            &&& s.spec_node() == i
                            &&& final(self).spec_nodes() == o.update(
                                i,
                                BufferNode { usage: Usage::Used, ..o[i] },
                            )
                        } else {
                            &&& s.spec_node() == o.len()
                            &&& final(self).spec_nodes() == carve(o, i, size as nat)
                        }
                    },
                Err(e) => {
                    &&& e == RioError::AllocationExhausted(
                        largest_free(old(self).spec_nodes(), old(self).spec_nodes().len() as int)
                            as usize,
                    )
                    &&& final(self).spec_nodes() == old(self).spec_nodes()
                },
            },
    {
        let ghost o = self.nodes@;
        let count = self.nodes.len();
        let mut best: Option<usize> = None;
        let mut largest: usize = 0;
        let mut k: usize = 0;
        while k < count
            invariant
                self.nodes@ == o,
                count == o.len(),
                k <= count,
                largest as nat == largest_free(o, k as int),
                match best {
                    Some(b) => {
                        &&& b < k
                        &&& fits(o[b as int], size as nat)
                        &&& forall|j: int|
                            0 <= j < k && fits(#[trigger] o[j], size as nat) ==> prefers(
                                o[b as int],
                                o[j],
                            )
                    },
                    None => forall|j: int| 0 <= j < k ==> !fits(#[trigger] o[j], size as nat),
                },
            decreases count - k,
        {
            let nd = self.nodes[k];
            if matches!(nd.usage, Usage::Free) {
                if nd.len > largest {
                    largest = nd.len;
                }
                if nd.len >= size {
                    match best {
                        None => {
                            best = Some(k);
                        },
                        Some(b) => {
                            let bn = self.nodes[b];
                            if nd.len < bn.len || (nd.len == bn.len && nd.offset < bn.offset) {
                                best = Some(k);
                            }
                        },
                    }
                }
            }
            k += 1;
        }
        match best {
            None => {
                assert(!can_fit(o, size as nat));
                Err(RioError::AllocationExhausted(largest))
            },
            Some(b) => {
                let nd = self.nodes[b];
                assert(best_fit(o, size as nat, b as int));
                proof {
                    if o[0].usage is Free {
                        assert(b == 0);
                    }
                }
                if nd.len == size {
                    let used = BufferNode { usage: Usage::Used, ..nd };
                    self.nodes.set(b, used);
                    proof {
                        lemma_relabel_leaf(o, self.buf@.len(), b as int, used);
                    }
                    Ok(RIOBufferSlice { buffer_id: self.id, node: b, offset: nd.offset, len: size })
                } else {
                    assert(nd.offset + nd.len <= self.buf@.len());
                    let left = BufferNode { offset: nd.offset, len: size, usage: Usage::Used };
                    let right = BufferNode {
                        offset: nd.offset + size,
                        len: nd.len - size,
                        usage: Usage::Free,
                    };
                    self.nodes.push(left);
                    let li = self.nodes.len() - 1;
                    self.nodes.push(right);
                    let ri = self.nodes.len() - 1;
                    self.nodes.set(b, BufferNode { usage: Usage::Split(li, ri), ..nd });
                    proof {
                        assert(self.nodes@ =~= carve(o, b as int, size as nat));
                        lemma_carve(o, self.buf@.len(), b as int, size as nat);
                    }
                    Ok(RIOBufferSlice { buffer_id: self.id, node: li, offset: nd.offset, len: size })
                }
            },
        }
    }
    /// Whether `s` is a live lease of this buffer.
    pub fn is_owner(&self, s: &RIOBufferSlice) -> (r: bool)
        ensures
            r == self.owns(s),
    {
        s.buffer_id == self.id && s.node < self.nodes.len() && matches!(
            self.nodes[s.node].usage,
            Usage::Used
        ) && self.nodes[s.node].offset == s.offset && self.nodes[s.node].len == s.len
    }

    /// Ends a lease: its node becomes free again and can be leased or carved
    /// by later allocations. A slice that is not a live lease of this buffer
    /// is handed back and nothing changes.
    pub fn release(&mut self, s: RIOBufferSlice) -> (r: Result<(), RIOBufferSlice>)
        requires
            old(self).wf(),
        ensures
            final(self).wf(),
            final(self).spec_id() == old(self).spec_id(),
            final(self).spec_bytes() == old(self).spec_bytes(),
            r is Ok <==> old(self).owns(&s),
            match r {
                Ok(_) => final(self).spec_nodes() == old(self).spec_nodes().update(
                    s.spec_node() as int,
                    BufferNode { usage: Usage::Free, ..old(self).spec_nodes()[s.spec_node() as int] },
                ),
                Err(back) => back == s && final(self).spec_nodes() == old(self).spec_nodes(),
            },
    {
        if !self.is_owner(&s) {
            return Err(s);
        }
        let nd = self.nodes[s.node];
        let free = BufferNode { usage: Usage::Free, ..nd };
        self.nodes.set(s.node, free);
        proof {
            lemma_relabel_leaf(old(self).nodes@, self.buf@.len(), s.node as int, free);
        }
        Ok(())
    }

    /// The bytes a live lease covers.
    pub fn as_slice(&self, s: &RIOBufferSlice) -> (r: &[u8])
        requires
            self.wf(),
            self.owns(s),
        ensures
            r@ == self.spec_bytes().subrange(
                s.spec_offset() as int,
                s.spec_offset() + s.spec_len(),
            ),
    {
        assert(is_leaf(self.nodes@[s.node as int]));
        vstd::slice::slice_subrange(self.buf.as_slice(), s.offset, s.offset + s.len)
    }

    /// Copies the start of `data` into a live lease, as much as fits, and
    /// returns how many bytes were copied; the rest of the region is kept.
    pub fn write(&mut self, s: &RIOBufferSlice, data: &[u8]) -> (r: usize)
        requires
            old(self).wf(),
            old(self).owns(s),
        ensures
            final(self).wf(),
            final(self).spec_id() == old(self).spec_id(),
            final(self).spec_nodes() == old(self).spec_nodes(),
            r == if data@.len() < s.spec_len() { data@.len() } else { s.spec_len() as nat },
            final(self).spec_bytes().len() == old(self).spec_bytes().len(),
            forall|p: int|
                0 <= p < old(self).spec_bytes().len() ==> #[trigger] final(self).spec_bytes()[p]
                    == if s.spec_offset() <= p < s.spec_offset() + r {
                    data@[p - s.spec_offset()]
                } else {
                    old(self).spec_bytes()[p]
                },
    {
        assert(is_leaf(self.nodes@[s.node as int]));
        let n = if data.len() < s.len { data.len() } else { s.len };
        let mut i: usize = 0;
        while i < n
            invariant
                i <= n,
                n <= data@.len(),
                n <= s.spec_len(),
                s.spec_offset() + s.spec_len() <= self.buf@.len(),
                self.buf@.len() <= Self::MAX_SIZE,
                self.id == old(self).id,
                self.nodes@ == old(self).nodes@,
                self.buf@.len() == old(self).buf@.len(),
                forall|p: int|
                    0 <= p < self.buf@.len() ==> #[trigger] self.buf@[p] == if s.spec_offset() <= p
                        < s.spec_offset() + i {
                        data@[p - s.spec_offset()]
                    } else {
                        old(self).buf@[p]
                    },
            decreases n - i,
        {
            self.buf.set(s.offset + i, data[i]);
            i += 1;
        }
        n
    }
}

} // verus!
