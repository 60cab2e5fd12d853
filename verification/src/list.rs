//! The interface list handle and its iterator.
//!
//! The kernel reports interfaces as a singly linked, null-terminated
//! list that it owns. A handle holds the records of one enumeration
//! together with their forward links, each link naming the position of
//! the next record or nothing for the last one. An iterator is a
//! non-owning cursor into the handle's list: it starts at the head and
//! follows the links until the terminating null, handing each record
//! out by value, and once exhausted it stays exhausted.

use vstd::prelude::*;

use crate::record::IfRecord;
use crate::record::IfRecordModel;

verus! {

/// One list node: a record and the forward link to the next node.
pub struct IfNode {
    pub rec: IfRecord,
    pub next: Option<usize>,
}

/// The mathematical value of a list node.
#[verifier::ext_equal]
pub ghost struct IfNodeModel {
    pub rec: IfRecordModel,
    pub next: Option<usize>,
}

impl View for IfNode {
    type V = IfNodeModel;

    open spec fn view(&self) -> IfNodeModel {
        IfNodeModel { rec: self.rec@, next: self.next }
    }
}

/// The mathematical values of a vector of nodes.
pub open spec fn nodes_view(nodes: Seq<IfNode>) -> Seq<IfNodeModel> {
    nodes.map_values(|n: IfNode| n@)
}

/// The link of the node at position `i` either terminates the list or
/// names a later position: links only move forward, so every traversal
/// reaches the terminating null.
pub open spec fn link_target_ok(nodes: Seq<IfNodeModel>, i: int) -> bool {
    match nodes[i].next {
        None => true,
        Some(j) => i < j as int && (j as int) < nodes.len(),
    }
}

/// Every node's forward link is in bounds and moves forward.
pub open spec fn links_ok(nodes: Seq<IfNodeModel>) -> bool {
    forall|i: int| 0 <= i < nodes.len() ==> #[trigger] link_target_ok(nodes, i)
}

/// A cursor either marks the traversal as exhausted or names a node.
pub open spec fn cursor_ok(nodes: Seq<IfNodeModel>, cur: Option<usize>) -> bool {
    match cur {
        None => true,
        Some(i) => (i as int) < nodes.len(),
    }
}

/// How many steps a traversal from `cur` can still take, at most.
pub open spec fn rank(nodes: Seq<IfNodeModel>, cur: Option<usize>) -> int {
    match cur {
        None => 0,
        Some(i) => nodes.len() - i,
    }
}

/// The records reachable from `cur` by following the forward links
/// until the terminating null, in traversal order.
pub open spec fn chain(nodes: Seq<IfNodeModel>, cur: Option<usize>) -> Seq<IfRecordModel>
    decreases rank(nodes, cur),
        when links_ok(nodes) && cursor_ok(nodes, cur)
{
    match cur {
        None => Seq::empty(),
        Some(i) => {
            proof {
                assert(link_target_ok(nodes, i as int));
            }
            seq![nodes[i as int].rec] + chain(nodes, nodes[i as int].next)
        },
    }
}

/// Law: a traversal yields at most as many records as nodes lie ahead
/// of its cursor — following forward links, it cannot visit a node
/// twice.
pub proof fn lemma_chain_len(nodes: Seq<IfNodeModel>, cur: Option<usize>)
    requires
        links_ok(nodes),
        cursor_ok(nodes, cur),
    ensures
        chain(nodes, cur).len() <= rank(nodes, cur),
    decreases rank(nodes, cur),
{
    match cur {
        None => {},
        Some(i) => {
            assert(link_target_ok(nodes, i as int));
            lemma_chain_len(nodes, nodes[i as int].next);
        },
    }
}

/// The handle that owns one enumeration's list: the nodes and the head
/// link, or no head when the kernel reported no interfaces at all.
pub struct IfAddrs {
    nodes: Vec<IfNode>,
    head: Option<usize>,
}

impl IfAddrs {
    /// The list is well formed: all links move forward within bounds.
    #[verifier::type_invariant]
    spec fn wf(self) -> bool {
        links_ok(nodes_view(self.nodes@)) && cursor_ok(nodes_view(self.nodes@), self.head)
    }

    /// The records of this handle's list in traversal order, from the
    /// head to the terminating null.
    pub closed spec fn records(&self) -> Seq<IfRecordModel> {
        chain(nodes_view(self.nodes@), self.head)
    }

    /// Builds a handle owning the given list.
    ///
    /// Succeeds exactly when the list is well formed — the head and
    /// every forward link stay in bounds and move forward, as the
    /// positions of a null-terminated foreign list do when they are
    /// numbered in the order the list is walked. The handle then holds
    /// exactly the given records and links.
    pub fn new(nodes: Vec<IfNode>, head: Option<usize>) -> (r: Option<IfAddrs>)
        ensures
            r is Some <==> links_ok(nodes_view(nodes@)) && cursor_ok(nodes_view(nodes@), head),
            (r matches Some(h) ==> h.records() == chain(nodes_view(nodes@), head)),
    {
        let n = nodes.len();
        match head {
            Some(h) => {
                if h >= n {
                    return None;
                }
            },
            None => {},
        }
        let mut i: usize = 0;
        while i < n
            invariant
                n == nodes@.len(),
                i <= n,
                forall|k: int| 0 <= k < i ==> #[trigger] link_target_ok(nodes_view(nodes@), k),
            decreases n - i,
        {
            match nodes[i].next {
                Some(j) => {
                    if j <= i || j >= n {
                        proof {
                            assert(nodes_view(nodes@)[i as int].next == Some(j));
                            assert(!link_target_ok(nodes_view(nodes@), i as int));
                        }
                        return None;
                    }
                },
                None => {},
            }
            proof {
                assert(link_target_ok(nodes_view(nodes@), i as int));
            }
            i += 1;
        }
        Some(IfAddrs { nodes, head })
    }

    /// A fresh traversal of this handle's list, positioned at the head.
    pub fn iter<'a>(&'a self) -> (it: IfAddrsIterator<'a>)
        ensures
            it.remaining() == self.records(),
    {
        proof {
            use_type_invariant(&*self);
        }
        IfAddrsIterator { nodes: &self.nodes, cursor: self.head }
    }

    /// Copies the whole list out in traversal order.
    pub fn collect_records(&self) -> (v: Vec<IfRecord>)
        ensures
            v@.map_values(|r: IfRecord| r@) == self.records(),
    {
        let mut it = self.iter();
        let mut v: Vec<IfRecord> = Vec::new();
        loop
            invariant
                v@.map_values(|r: IfRecord| r@) + it.remaining() == self.records(),
            decreases it.remaining().len(),
        {
            let ghost rem0 = it.remaining();
            let ghost vm0 = v@.map_values(|r: IfRecord| r@);
            match it.next() {
                None => {
                    proof {
                        assert(vm0 + rem0 =~= vm0);
                        assert(v@.map_values(|r: IfRecord| r@) =~= self.records());
                    }
                    return v;
                },
                Some(rec) => {
                    proof {
                        assert(rem0 =~= seq![rec@] + it.remaining());
                        assert(v@.push(rec).map_values(|r: IfRecord| r@) =~= vm0.push(rec@));
                        assert(vm0.push(rec@) + it.remaining() =~= vm0 + rem0);
                    }
                    v.push(rec);
                },
            }
        }
    }

    /// Counts the records of the list: how many nodes a traversal from
    /// the head reaches before the terminating null.
    pub fn count_records(&self) -> (n: usize)
        ensures
            n == self.records().len(),
    {
        let v = self.collect_records();
        v.len()
    }
}

/// A non-owning cursor over one handle's list. `cursor` names the next
/// node to yield, or nothing once the traversal is exhausted.
pub struct IfAddrsIterator<'a> {
    nodes: &'a Vec<IfNode>,
    cursor: Option<usize>,
}

impl<'a> IfAddrsIterator<'a> {
    /// The iterator's list is well formed and its cursor in bounds.
    #[verifier::type_invariant]
    spec fn wf(self) -> bool {
        links_ok(nodes_view(self.nodes@)) && cursor_ok(nodes_view(self.nodes@), self.cursor)
    }

    /// The records this iterator has yet to yield, in order.
    pub closed spec fn remaining(&self) -> Seq<IfRecordModel> {
        chain(nodes_view(self.nodes@), self.cursor)
    }

    /// Yields the record under the cursor by value and advances the
    /// cursor along the forward link; yields nothing once the traversal
    /// is exhausted, and an exhausted traversal stays exhausted.
    pub fn next(&mut self) -> (r: Option<IfRecord>)
        ensures
            (match r {
                None => old(self).remaining().len() == 0 && final(self).remaining() == old(
                    self,
                ).remaining(),
                Some(rec) => old(self).remaining().len() > 0 && rec@ == old(self).remaining()[0]
                    && final(self).remaining() == old(self).remaining().drop_first(),
            }),
    {
        proof {
            use_type_invariant(&*self);
        }
        match self.cursor {
            None => None,
            Some(i) => {
                proof {
                    assert(link_target_ok(nodes_view(self.nodes@), i as int));
                }
                let rec = self.nodes[i].rec.clone();
                self.cursor = self.nodes[i].next;
                proof {
                    assert(old(self).remaining().drop_first() =~= final(self).remaining());
                }
                Some(rec)
            },
        }
    }
}

/// Law: iteration is an idempotent read. Every fresh iterator of one
/// handle holds the same remaining sequence, so repeated full
/// traversals of the same handle yield the same records.
pub proof fn lemma_iteration_stable(
    h: &IfAddrs,
    it1: IfAddrsIterator<'_>,
    it2: IfAddrsIterator<'_>,
)
    requires
        it1.remaining() == h.records(),
        it2.remaining() == h.records(),
    ensures
        it1.remaining() == it2.remaining(),
{
}

/// Law: a list with no head — the kernel reported no interfaces — has
/// the empty record sequence: iteration ends at once, with no error.
pub proof fn lemma_empty_list(nodes: Seq<IfNodeModel>)
    requires
        links_ok(nodes),
    ensures
        chain(nodes, None).len() == 0,
{
}

} // verus!
