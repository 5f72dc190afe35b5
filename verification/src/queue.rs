//! Ordered collection of the render work that is pending for a frame.
//!
//! Render work is referred to by handle: the embedding layer keeps the
//! objects themselves and asks the queue in which order to run them.

use unsized_stack::UnsizedStack;
use vstd::prelude::*;

verus! {

/// The stack type of `unsized_stack`, whose layout stays hidden. It only
/// stores unsized items, so a handle is kept as a slice of one element.
#[verifier::external_type_specification]
#[verifier::external_body]
#[verifier::reject_recursive_types(T)]
pub struct ExUnsizedStack<T: ?Sized>(UnsizedStack<T>);

/// Handles held by a stack, oldest first.
pub uninterp spec fn stack_items(stack: UnsizedStack<[u64]>) -> Seq<u64>;

/// `UnsizedStack::new`: a stack that holds nothing.
#[verifier::external_body]
fn stack_new() -> (stack: UnsizedStack<[u64]>)
    ensures
        stack_items(stack) == Seq::<u64>::empty(),
{
    UnsizedStack::new()
}

/// `UnsizedStack::push`: the item goes behind all items already held, which
/// stay as they are.
#[verifier::external_body]
fn stack_push(stack: &mut UnsizedStack<[u64]>, node: u64)
    ensures
        stack_items(*final(stack)) == stack_items(*old(stack)).push(node),
{
    stack.push([node], <[u64; 1]>::as_slice);
}

/// `UnsizedStack::len`: the number of items held.
#[verifier::external_body]
fn stack_len(stack: &UnsizedStack<[u64]>) -> (len: usize)
    ensures
        len == stack_items(*stack).len(),
{
    stack.len()
}

/// `UnsizedStack::is_empty`: whether no item is held.
#[verifier::external_body]
fn stack_is_empty(stack: &UnsizedStack<[u64]>) -> (empty: bool)
    ensures
        empty == (stack_items(*stack).len() == 0),
{
    stack.is_empty()
}

/// `UnsizedStack::get`: the item at a position counted from the oldest, or
/// nothing past the end.
#[verifier::external_body]
fn stack_get(stack: &UnsizedStack<[u64]>, index: usize) -> (node: Option<u64>)
    ensures
        node == if index < stack_items(*stack).len() {
            Some(stack_items(*stack)[index as int])
        } else {
            None
        },
{
    stack.get(index).map(|item| item[0])
}

/// `UnsizedStack::clear`: drops every item.
#[verifier::external_body]
fn stack_clear(stack: &mut UnsizedStack<[u64]>)
    ensures
        stack_items(*final(stack)) == Seq::<u64>::empty(),
{
    stack.clear();
}

/// Which of a render node's two operations is invoked.
#[derive(Debug, Clone, Copy, PartialEq, Eq, Structural)]
pub enum RenderOperation {
    Opaque,
    Transparent,
}

/// One step of a render pass: a node and the operation to invoke on it.
#[derive(Debug, Clone, Copy, PartialEq, Eq, Structural)]
pub struct RenderCall {
    pub node: u64,
    pub operation: RenderOperation,
}

/// The step that a pass performs for a queued node. Nodes of both buckets
/// are asked for their transparent contribution.
pub open spec fn render_call(node: u64) -> RenderCall {
    RenderCall { node, operation: RenderOperation::Transparent }
}

/// The steps of a pass over the two buckets: the opaque nodes from the
/// newest to the oldest, then the transparent nodes from the oldest to the
/// newest.
pub open spec fn render_order(opaque: Seq<u64>, transparent: Seq<u64>) -> Seq<RenderCall> {
    opaque.reverse().map_values(|node: u64| render_call(node)) + transparent.map_values(
        |node: u64| render_call(node),
    )
}

/// What a queue holds: the handles of each bucket, in insertion order.
pub struct QueueView {
    pub opaque: Seq<u64>,
    pub transparent: Seq<u64>,
}

impl QueueView {
    /// The queue without nodes.
    pub open spec fn empty() -> QueueView {
        QueueView { opaque: Seq::empty(), transparent: Seq::empty() }
    }

    /// Whether both buckets hold nothing.
    pub open spec fn is_empty(self) -> bool {
        self.opaque.len() == 0 && self.transparent.len() == 0
    }

    /// Number of nodes in both buckets.
    pub open spec fn len(self) -> nat {
        self.opaque.len() + self.transparent.len()
    }

    /// The steps of a pass over the queue.
    pub open spec fn render_order(self) -> Seq<RenderCall> {
        render_order(self.opaque, self.transparent)
    }
}

/// Pending render work of a frame, in an opaque and a transparent bucket.
pub struct RenderNodeQueue {
    opaque: UnsizedStack<[u64]>,
    transparent: UnsizedStack<[u64]>,
}

impl View for RenderNodeQueue {
    type V = QueueView;

    closed spec fn view(&self) -> QueueView {
        QueueView { opaque: stack_items(self.opaque), transparent: stack_items(self.transparent) }
    }
}

impl RenderNodeQueue {
    pub fn new() -> (queue: Self)
        ensures
            queue@ == QueueView::empty(),
    {
        Self { opaque: stack_new(), transparent: stack_new() }
    }

    /// Appends a node to the opaque bucket.
    pub fn push_opaque(&mut self, node: u64)
        ensures
            final(self)@ == (QueueView { opaque: old(self)@.opaque.push(node), ..old(self)@ }),
    {
        stack_push(&mut self.opaque, node);
    }

    /// Appends a node to the transparent bucket.
    pub fn push_transparent(&mut self, node: u64)
        ensures
            final(self)@ == (QueueView {
                transparent: old(self)@.transparent.push(node),
                ..old(self)@
            }),
    {
        stack_push(&mut self.transparent, node);
    }

    /// Number of nodes in both buckets, or the largest machine integer where
    /// the number is beyond it.
    pub fn len(&self) -> (len: usize)
        ensures
            len == if self@.len() <= usize::MAX {
                self@.len()
            } else {
                usize::MAX as nat
            },
    {
        stack_len(&self.opaque).saturating_add(stack_len(&self.transparent))
    }

    pub fn opaque_len(&self) -> (len: usize)
        ensures
            len == self@.opaque.len(),
    {
        stack_len(&self.opaque)
    }

    pub fn transparent_len(&self) -> (len: usize)
        ensures
            len == self@.transparent.len(),
    {
        stack_len(&self.transparent)
    }

    pub fn is_empty(&self) -> (empty: bool)
        ensures
            empty == self@.is_empty(),
    {
        stack_is_empty(&self.opaque) && stack_is_empty(&self.transparent)
    }

    /// The steps of a render pass over the queued nodes, in the order in
    /// which they are to run. The queue keeps its nodes.
    pub fn render(&self) -> (calls: Vec<RenderCall>)
        ensures
            calls@ == self@.render_order(),
    {
        let ghost opaque = self@.opaque;
        let ghost transparent = self@.transparent;
        let mut calls: Vec<RenderCall> = Vec::new();
        let opaque_len: usize = stack_len(&self.opaque);
        let mut left: usize = opaque_len;
        while left > 0
            invariant
                opaque == stack_items(self.opaque),
                opaque_len == opaque.len(),
                left <= opaque_len,
                calls@.len() == opaque_len - left,
                forall|i: int|
                    0 <= i < calls@.len() ==> calls@[i] == render_call(
                        opaque[opaque_len - 1 - i],
                    ),
            decreases left,
        {
            left = left - 1;
            match stack_get(&self.opaque, left) {
                Some(node) => {
                    calls.push(RenderCall { node, operation: RenderOperation::Transparent });
                },
                None => {},
            }
        }
        let transparent_len: usize = stack_len(&self.transparent);
        let mut next: usize = 0;
        while next < transparent_len
            invariant
                opaque == stack_items(self.opaque),
                transparent == stack_items(self.transparent),
                opaque_len == opaque.len(),
                transparent_len == transparent.len(),
                next <= transparent_len,
                calls@.len() == opaque_len + next,
                forall|i: int|
                    0 <= i < opaque_len ==> calls@[i] == render_call(opaque[opaque_len - 1 - i]),
                forall|i: int|
                    opaque_len <= i < calls@.len() ==> calls@[i] == render_call(
                        transparent[i - opaque_len],
                    ),
            decreases transparent_len - next,
        {
            match stack_get(&self.transparent, next) {
                Some(node) => {
                    calls.push(RenderCall { node, operation: RenderOperation::Transparent });
                },
                None => {},
            }
            next = next + 1;
        }
        assert(calls@ =~= render_order(opaque, transparent));
        calls
    }

    /// Drops all queued nodes, whatever was pushed before.
    pub fn clear(&mut self)
        ensures
            final(self)@ == QueueView::empty(),
            final(self)@.is_empty(),
            final(self)@.opaque.len() == 0,
            final(self)@.transparent.len() == 0,
            final(self)@.len() == 0,
    {
        stack_clear(&mut self.opaque);
        stack_clear(&mut self.transparent);
    }
}

impl Default for RenderNodeQueue {
    fn default() -> (queue: Self)
        ensures
            queue@ == QueueView::empty(),
    {
        Self::new()
    }
}

/// A pass visits the opaque nodes in reverse insertion order and then the
/// transparent nodes in insertion order, one step for each node.
pub proof fn lemma_render_order(opaque: Seq<u64>, transparent: Seq<u64>)
    ensures
        render_order(opaque, transparent).len() == opaque.len() + transparent.len(),
        forall|i: int|
            0 <= i < opaque.len() ==> #[trigger] render_order(opaque, transparent)[i].node
                == opaque[opaque.len() - 1 - i],
        forall|i: int|
            0 <= i < transparent.len() ==> #[trigger] render_order(
                opaque,
                transparent,
            )[opaque.len() + i].node == transparent[i],
{
}

} // verus!
