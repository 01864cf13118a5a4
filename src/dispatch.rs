//! Delivery of normalized events to the root of the widget tree.
use vstd::prelude::*;

use crate::event::Event;
use crate::widget::Widget;

verus! {

/// Owns the root widget and hands it every event. All routing below the root
/// is the widget tree's own business.
pub struct Dispatcher<W> {
    pub root: W,
}

impl<W: Widget> Dispatcher<W> {
    pub fn new(root: W) -> (d: Dispatcher<W>)
        ensures
            d.root == root,
    {
        Dispatcher { root }
    }

    /// Delivers `event` to the root widget, synchronously, and returns exactly
    /// the root's answer: whether the event was consumed.
    pub fn dispatch(&mut self, event: &Event) -> (consumed: bool)
        ensures
            consumed == W::consumes(old(self).root.model(), *event),
            final(self).root.model() == W::after_event(old(self).root.model(), *event),
    {
        self.root.on_event(event)
    }

    pub fn root(&self) -> (r: &W)
        ensures
            *r == self.root,
    {
        &self.root
    }
}

} // verus!
