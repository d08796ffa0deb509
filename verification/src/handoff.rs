//! The double-buffer protocol on plain values: which slot a selector value
//! designates, and a single-owner buffer that follows the protocol exactly.

use vstd::prelude::*;

verus! {

/// One of the two storage slots of a double buffer.
#[derive(Clone, Copy, Debug, PartialEq, Eq, Structural)]
pub enum Slot {
    First,
    Second,
}

impl Slot {
    /// The slot that is not `self`.
    pub open spec fn other(self) -> Slot {
        match self {
            Slot::First => Slot::Second,
            Slot::Second => Slot::First,
        }
    }

    /// Returns the slot that is not `self`.
    pub fn opposite(self) -> (r: Slot)
        ensures
            r == self.other(),
            r != self,
    {
        match self {
            Slot::First => Slot::Second,
            Slot::Second => Slot::First,
        }
    }
}

/// The slot that producers write while the selector holds `selector`.
pub open spec fn write_slot(selector: bool) -> Slot {
    if selector {
        Slot::Second
    } else {
        Slot::First
    }
}

/// The slot handed to a consumer whose flip found `selector_before`: the slot
/// that was the write target until the flip.
pub open spec fn read_slot(selector_before: bool) -> Slot {
    write_slot(selector_before)
}

/// Returns the write target for a selector value that was just observed.
pub fn slot_for_write(selector: bool) -> (r: Slot)
    ensures
        r == write_slot(selector),
{
    if selector {
        Slot::Second
    } else {
        Slot::First
    }
}

/// Returns the slot a consumer reads after a flip that found
/// `selector_before`. It is never the write target that the flip installed.
pub fn slot_for_read(selector_before: bool) -> (r: Slot)
    ensures
        r == read_slot(selector_before),
        r != write_slot(!selector_before),
{
    slot_for_write(selector_before)
}

/// The state of a double buffer as a mathematical value.
pub ghost struct BufferModel<T> {
    pub first: T,
    pub second: T,
    pub selector: bool,
}

/// One step of the producer or of the consumer.
pub ghost enum HandoffStep<T> {
    Publish(T),
    Consume,
}

impl<T> BufferModel<T> {
    /// What `slot` holds.
    pub open spec fn content(self, slot: Slot) -> T {
        match slot {
            Slot::First => self.first,
            Slot::Second => self.second,
        }
    }

    /// The slot eligible for producer writes.
    pub open spec fn write_target(self) -> Slot {
        write_slot(self.selector)
    }

    /// The slot that a consumer may hold: the one that is not written.
    pub open spec fn read_target(self) -> Slot {
        self.write_target().other()
    }

    /// The state after `value` overwrote the write target.
    pub open spec fn publish(self, value: T) -> Self {
        match self.write_target() {
            Slot::First => BufferModel { first: value, ..self },
            Slot::Second => BufferModel { second: value, ..self },
        }
    }

    /// The state after the selector flipped; no slot changes.
    pub open spec fn flip(self) -> Self {
        BufferModel { selector: !self.selector, ..self }
    }

    /// The value that a consume in this state yields.
    pub open spec fn consumed(self) -> T {
        self.content(self.write_target())
    }

    /// The state after one step of either role.
    pub open spec fn step(self, step: HandoffStep<T>) -> Self {
        match step {
            HandoffStep::Publish(value) => self.publish(value),
            HandoffStep::Consume => self.flip(),
        }
    }

    /// The state after `steps`, an interleaving of the two roles' steps.
    pub open spec fn run(self, steps: Seq<HandoffStep<T>>) -> Self
        decreases steps.len(),
    {
        if steps.len() == 0 {
            self
        } else {
            self.run(steps.drop_last()).step(steps.last())
        }
    }

    /// The state after each of `values` was published, in order.
    pub open spec fn publish_all(self, values: Seq<T>) -> Self
        decreases values.len(),
    {
        if values.len() == 0 {
            self
        } else {
            self.publish_all(values.drop_last()).publish(values.last())
        }
    }
}

/// A double buffer with one owner: two slots and the write selector.
pub struct DoubleBuffer<T> {
    slot_a: T,
    slot_b: T,
    write_selector: bool,
}

impl<T> View for DoubleBuffer<T> {
    type V = BufferModel<T>;

    closed spec fn view(&self) -> BufferModel<T> {
        BufferModel { first: self.slot_a, second: self.slot_b, selector: self.write_selector }
    }
}

impl<T> DoubleBuffer<T> {
    /// Builds a buffer whose slots hold the two given initial values. The
    /// selector starts set, so the second slot is the first write target.
    pub fn new(first: T, second: T) -> (r: Self)
        ensures
            r@ == (BufferModel { first, second, selector: true }),
    {
        DoubleBuffer { slot_a: first, slot_b: second, write_selector: true }
    }

    /// Observes the slot eligible for producer writes; changes nothing.
    pub fn write_target(&self) -> (r: Slot)
        ensures
            r == self@.write_target(),
    {
        slot_for_write(self.write_selector)
    }

    /// Flips the selector and returns the slot that was the write target
    /// until then. Write eligibility moves to the other slot.
    pub fn read_next(&mut self) -> (r: Slot)
        ensures
            r == old(self)@.write_target(),
            final(self)@ == old(self)@.flip(),
            r == final(self)@.read_target(),
            r != final(self)@.write_target(),
    {
        let before = self.write_selector;
        self.write_selector = !before;
        slot_for_read(before)
    }

    /// Overwrites the write target with `value`. The other slot and the
    /// selector stay as they were.
    pub fn publish(&mut self, value: T)
        ensures
            final(self)@ == old(self)@.publish(value),
            final(self)@.content(old(self)@.write_target()) == value,
            final(self)@.content(old(self)@.read_target()) == old(self)@.content(
                old(self)@.read_target(),
            ),
            final(self)@.selector == old(self)@.selector,
    {
        match slot_for_write(self.write_selector) {
            Slot::First => {
                self.slot_a = value;
            },
            Slot::Second => {
                self.slot_b = value;
            },
        }
    }

    /// Borrows what `slot` holds.
    pub fn peek(&self, slot: Slot) -> (r: &T)
        ensures
            *r == self@.content(slot),
    {
        match slot {
            Slot::First => &self.slot_a,
            Slot::Second => &self.slot_b,
        }
    }

    /// Flips the selector and hands out the slot that was written until now.
    /// The slot handed out is not the write target after the call; with no
    /// publish since construction it still holds its initial value.
    pub fn consume(&mut self) -> (r: &T)
        ensures
            *r == old(self)@.consumed(),
            final(self)@ == old(self)@.flip(),
            *r == final(self)@.content(final(self)@.read_target()),
    {
        let slot = self.read_next();
        self.peek(slot)
    }
}

/// After any non-empty run of publishes, a consume yields the value that was
/// published last.
pub proof fn lemma_consume_yields_last_publish<T>(start: BufferModel<T>, values: Seq<T>)
    requires
        values.len() > 0,
    ensures
        start.publish_all(values).consumed() == values.last(),
{
}

/// A consume that no publish preceded yields what the write target held.
pub proof fn lemma_consume_without_publish<T>(start: BufferModel<T>)
    ensures
        start.publish_all(Seq::empty()).consumed() == start.content(start.write_target()),
{
}

/// Reader and writer never share a slot: in every state the read target
/// differs from the write target, and the slot that a flip hands to the
/// consumer is not the write target that the flip installs.
pub proof fn lemma_reader_writer_disjoint<T>(state: BufferModel<T>)
    ensures
        state.read_target() != state.write_target(),
        state.flip().read_target() == state.write_target(),
        state.flip().write_target() != state.write_target(),
{
}

/// Publishes never reach the consumer's slot: however many values are
/// published, the selector and the content of the read target stay as they
/// were.
pub proof fn lemma_publishes_spare_read_target<T>(state: BufferModel<T>, values: Seq<T>)
    ensures
        state.publish_all(values).selector == state.selector,
        state.publish_all(values).content(state.read_target()) == state.content(
            state.read_target(),
        ),
    decreases values.len(),
{
    if values.len() > 0 {
        lemma_publishes_spare_read_target(state, values.drop_last());
    }
}

/// In every interleaving the two roles stay on different slots. After any
/// steps the read target is not the write target; a publish as the next step
/// leaves the consumer's slot and its content alone; a consume as the next
/// step hands the consumer the slot that was written until then, unchanged,
/// and moves the producer to the other one.
pub proof fn lemma_interleaving_keeps_roles_apart<T>(
    start: BufferModel<T>,
    steps: Seq<HandoffStep<T>>,
    next: HandoffStep<T>,
)
    ensures
        ({
            let now = start.run(steps);
            let then = now.step(next);
            &&& now.read_target() != now.write_target()
            &&& then.read_target() != then.write_target()
            &&& next is Publish ==> then.read_target() == now.read_target() && then.content(
                now.read_target(),
            ) == now.content(now.read_target())
            &&& next is Consume ==> then.read_target() == now.write_target() && then.content(
                then.read_target(),
            ) == now.consumed() && then.write_target() == now.read_target()
        }),
{
}

/// Two consumes with no publish between them hand out different slots, and
/// the second restores the selector.
pub proof fn lemma_consume_twice<T>(state: BufferModel<T>)
    ensures
        state.flip().flip() == state,
        state.flip().consumed() == state.content(state.read_target()),
{
}

} // verus!
