//! A composite widget: a background with children stacked on top of it.
use vstd::prelude::*;

use crate::canvas::{Canvas, Color, DrawCmd, Rect};
use crate::event::Event;
use crate::widget::Widget;

verus! {

/// The models of a list of widgets, in order.
pub open spec fn models<W: Widget>(s: Seq<W>) -> Seq<W::Model> {
    s.map_values(|c: W| c.model())
}

/// What a panel is, as its models see it.
pub struct PanelModel<M> {
    pub rect: Rect,
    pub background: Color,
    pub hovered: bool,
    pub children: Seq<M>,
}

/// Delivers `e` to the first `k` children, from the `k`-th (topmost) down, and
/// stops at the first one that consumes it. Gives the children's new states
/// and whether one consumed the event.
pub open spec fn route<W: Widget>(children: Seq<W::Model>, e: Event, k: nat) -> (Seq<W::Model>, bool)
    decreases k,
{
    if k == 0 || k > children.len() {
        (children, false)
    } else {
        let c = children[k - 1];
        let s = children.update(k - 1, W::after_event(c, e));
        if W::consumes(c, e) {
            (s, true)
        } else {
            route::<W>(s, e, (k - 1) as nat)
        }
    }
}

/// What the first `k` children paint, in child order.
pub open spec fn paint_children<W: Widget>(children: Seq<W::Model>, k: nat) -> Seq<DrawCmd>
    decreases k,
{
    if k == 0 || k > children.len() {
        Seq::empty()
    } else {
        paint_children::<W>(children, (k - 1) as nat) + W::paint(children[k - 1])
    }
}

/// A panel fills its rectangle with its background and stacks its children on
/// it: all of them are laid out in the panel's rectangle, drawn in list order
/// (later children over earlier ones), and offered events from the last one
/// down. A panel consumes no event itself; when no child consumes a cursor
/// move, it tracks whether the cursor is over it.
pub struct Panel<W> {
    pub rect: Rect,
    pub background: Color,
    pub hovered: bool,
    pub children: Vec<W>,
}

impl<W: Widget> Panel<W> {
    /// An empty panel in `rect`.
    pub fn new(rect: Rect, background: Color) -> (p: Panel<W>)
        ensures
            p.rect == rect,
            p.background == background,
            !p.hovered,
            p.children@ == Seq::<W>::empty(),
    {
        Panel { rect, background, hovered: false, children: Vec::new() }
    }

    /// Adds a child on top of the others.
    pub fn push(&mut self, child: W)
        ensures
            final(self).rect == old(self).rect,
            final(self).background == old(self).background,
            final(self).hovered == old(self).hovered,
            final(self).children@ == old(self).children@.push(child),
    {
        self.children.push(child);
    }
}

impl<W: Widget> Widget for Panel<W> {
    type Model = PanelModel<W::Model>;

    open spec fn model(&self) -> PanelModel<W::Model> {
        PanelModel {
            rect: self.rect,
            background: self.background,
            hovered: self.hovered,
            children: models(self.children@),
        }
    }

    open spec fn paint(m: PanelModel<W::Model>) -> Seq<DrawCmd> {
        seq![DrawCmd::FillRect { rect: m.rect, color: m.background }] + paint_children::<W>(
            m.children,
            m.children.len(),
        )
    }

    open spec fn consumes(m: PanelModel<W::Model>, e: Event) -> bool {
        route::<W>(m.children, e, m.children.len()).1
    }

    open spec fn after_event(m: PanelModel<W::Model>, e: Event) -> PanelModel<W::Model> {
        let (children, consumed) = route::<W>(m.children, e, m.children.len());
        let hovered = if consumed {
            m.hovered
        } else {
            match e {
                Event::MouseMove { x, y, .. } => m.rect.holds(x as int, y as int),
                _ => m.hovered,
            }
        };
        PanelModel { children, hovered, ..m }
    }

    open spec fn laid_out(m: PanelModel<W::Model>, r: Rect) -> PanelModel<W::Model> {
        PanelModel { rect: r, children: m.children.map_values(|c: W::Model| W::laid_out(c, r)), ..m }
    }

    fn draw(&self, canvas: &mut Canvas) {
        canvas.fill_rect(self.rect, self.background);
        let ghost start = canvas@;
        let ghost ms = models(self.children@);
        let mut i: usize = 0;
        while i < self.children.len()
            invariant
                i <= self.children@.len(),
                ms == models(self.children@),
                canvas@ == start + paint_children::<W>(ms, i as nat),
            decreases self.children@.len() - i,
        {
            self.children[i].draw(canvas);
            proof {
                assert(ms[i as int] == self.children@[i as int].model());
                assert(start + paint_children::<W>(ms, (i + 1) as nat) =~= start
                    + paint_children::<W>(ms, i as nat) + W::paint(ms[i as int]));
            }
            i = i + 1;
        }
        assert(canvas@ =~= old(canvas)@ + Self::paint(self.model()));
    }

    fn on_event(&mut self, event: &Event) -> (consumed: bool) {
        let ghost m0 = self.model();
        let n = self.children.len();
        let mut i: usize = n;
        while i > 0
            invariant
                m0 == old(self).model(),
                n == self.children@.len(),
                n == m0.children.len(),
                i <= n,
                self.rect == m0.rect,
                self.background == m0.background,
                self.hovered == m0.hovered,
                route::<W>(models(self.children@), *event, i as nat) == route::<W>(
                    m0.children,
                    *event,
                    n as nat,
                ),
            decreases i,
        {
            let ghost before = models(self.children@);
            let c = self.children[i - 1].on_event(event);
            proof {
                assert(models(self.children@) =~= before.update(
                    i - 1,
                    W::after_event(before[i - 1], *event),
                ));
            }
            if c {
                assert(route::<W>(before, *event, i as nat) == (models(self.children@), true));
                return true;
            }
            i = i - 1;
        }
        match *event {
            Event::MouseMove { x, y, .. } => {
                self.hovered = self.rect.contains(x, y);
            },
            _ => {},
        }
        false
    }

    fn layout(&mut self, rect: Rect) {
        let ghost m0 = self.model();
        self.rect = rect;
        let n = self.children.len();
        let mut i: usize = 0;
        while i < n
            invariant
                n == self.children@.len(),
                n == m0.children.len(),
                i <= n,
                self.rect == rect,
                self.background == m0.background,
                self.hovered == m0.hovered,
                forall|j: int|
                    0 <= j < i ==> models(self.children@)[j] == W::laid_out(m0.children[j], rect),
                forall|j: int| i <= j < n ==> models(self.children@)[j] == m0.children[j],
            decreases n - i,
        {
            let ghost before = models(self.children@);
            self.children[i].layout(rect);
            proof {
                assert(models(self.children@) =~= before.update(
                    i as int,
                    W::laid_out(before[i as int], rect),
                ));
            }
            i = i + 1;
        }
        assert(self.model().children =~= m0.children.map_values(
            |c: W::Model| W::laid_out(c, rect),
        ));
    }

    proof fn lemma_layout_idempotent(m: PanelModel<W::Model>, r: Rect) {
        let once = Self::laid_out(m, r);
        let twice = Self::laid_out(once, r);
        assert forall|j: int| 0 <= j < m.children.len() implies twice.children[j]
            == once.children[j] by {
            W::lemma_layout_idempotent(m.children[j], r);
        }
        assert(twice.children =~= once.children);
    }
}

/// Routing stops at the highest child below `i` that consumes the event: the
/// children above it react, it reacts, and those below it are left as they were.
pub proof fn lemma_route_stops<W: Widget>(children: Seq<W::Model>, e: Event, i: nat, k: int)
    requires
        0 <= k < i <= children.len(),
        W::consumes(children[k], e),
        forall|j: int| k < j < i ==> !W::consumes(children[j], e),
    ensures
        route::<W>(children, e, i).1,
        route::<W>(children, e, i).0.len() == children.len(),
        forall|j: int| 0 <= j < k ==> route::<W>(children, e, i).0[j] == children[j],
        forall|j: int|
            k <= j < i ==> route::<W>(children, e, i).0[j] == W::after_event(children[j], e),
        forall|j: int| i <= j < children.len() ==> route::<W>(children, e, i).0[j] == children[j],
    decreases i,
{
    if i > k + 1 {
        let s = children.update(i - 1, W::after_event(children[i - 1], e));
        assert forall|j: int| k < j < i - 1 implies !W::consumes(s[j], e) by {
            assert(s[j] == children[j]);
        }
        lemma_route_stops::<W>(s, e, (i - 1) as nat, k);
        assert(route::<W>(children, e, i) == route::<W>(s, e, (i - 1) as nat));
        let r = route::<W>(children, e, i).0;
        assert forall|j: int| 0 <= j < k implies r[j] == children[j] by {
            assert(s[j] == children[j]);
        }
        assert forall|j: int| k <= j < i implies r[j] == W::after_event(children[j], e) by {
            if j < i - 1 {
                assert(s[j] == children[j]);
            } else {
                assert(r[j] == s[j]);
            }
        }
        assert forall|j: int| i <= j < children.len() implies r[j] == children[j] by {
            assert(r[j] == s[j]);
        }
    }
}

/// When a child consumes an event and no child above it does, the panel
/// consumes it too. The panel's own state, and every child below the one that
/// consumed it, are left unchanged.
pub proof fn lemma_consumption_short_circuit<W: Widget>(m: PanelModel<W::Model>, e: Event, k: int)
    requires
        0 <= k < m.children.len(),
        W::consumes(m.children[k], e),
        forall|j: int| k < j < m.children.len() ==> !W::consumes(m.children[j], e),
    ensures
        Panel::<W>::consumes(m, e),
        Panel::<W>::after_event(m, e).rect == m.rect,
        Panel::<W>::after_event(m, e).background == m.background,
        Panel::<W>::after_event(m, e).hovered == m.hovered,
        Panel::<W>::after_event(m, e).children.len() == m.children.len(),
        Panel::<W>::after_event(m, e).children[k] == W::after_event(m.children[k], e),
        forall|j: int| 0 <= j < k ==> Panel::<W>::after_event(m, e).children[j] == m.children[j],
{
    lemma_route_stops::<W>(m.children, e, m.children.len(), k);
}

} // verus!
