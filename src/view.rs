use vstd::prelude::*;

use crate::cell::Store;
use crate::composite::Composite;
use crate::context::Context;
use crate::event::{Event, EventResponse};
use crate::id::{Id, IdPath};
use crate::modified::Modified;
use crate::node::{lemma_trees_of_push, trees_of, Node, NodeTree};
use crate::overlay::Overlay;
use crate::scroll_view::ScrollView;
use crate::stack::{ForEach, Stack};
use crate::text::Text;
use crate::toggle::Toggle;

verus! {

/// A view whose concrete kind is erased: the unit of composition.
#[derive(Debug)]
pub enum AnyView {
    Empty,
    Text(Text),
    Toggle(Toggle),
    Stack(Stack),
    ForEach(ForEach),
    ScrollView(Box<ScrollView<AnyView>>),
    Modified(Box<Modified<AnyView>>),
    Overlay(Box<Overlay<AnyView, AnyView>>),
    Composite(Box<Composite>),
}

/// The ids of the children of a positional container of `n` children.
pub open spec fn index_ids(n: nat) -> Seq<Id> {
    Seq::new(n, |i: int| Id::Index(i as u64))
}

/// The ids of the children of a keyed collection.
pub open spec fn key_ids(keys: Seq<u64>) -> Seq<Id> {
    keys.map_values(|k: u64| Id::Key(k))
}

/// The position of the first occurrence of `k` in `keys`, or -1 where `k`
/// does not occur.
pub open spec fn first_index(keys: Seq<u64>, k: u64) -> int {
    if exists|i: int|
        0 <= i < keys.len() && keys[i] == k && forall|j: int| 0 <= j < i ==> keys[j] != k {
        choose|i: int|
            0 <= i < keys.len() && keys[i] == k && forall|j: int| 0 <= j < i ==> keys[j] != k
    } else {
        -1
    }
}

/// Every binding in `v` names a cell below `n`, and every keyed collection
/// has one key per child.
pub open spec fn bound_in(v: AnyView, n: nat) -> bool
    decreases v, 0nat,
{
    match v {
        AnyView::Empty => true,
        AnyView::Text(_) => true,
        AnyView::Toggle(t) => t.is_on.slot < n,
        AnyView::Stack(s) => all_bound(s.children@, n, s.children@.len()),
        AnyView::ForEach(f) => f.keys@.len() == f.children@.len() && all_bound(
            f.children@,
            n,
            f.children@.len(),
        ),
        AnyView::ScrollView(s) => bound_in(s.wrapped, n),
        AnyView::Modified(m) => bound_in(m.wrapped, n),
        AnyView::Overlay(o) => bound_in(o.wrapped, n) && bound_in(o.overlayed, n),
        AnyView::Composite(c) => bound_in(c.body, n),
    }
}

/// The first `k` of `views` are bound in `n`.
pub open spec fn all_bound(views: Seq<AnyView>, n: nat, k: nat) -> bool
    decreases views, k,
{
    if k == 0 {
        true
    } else if k > views.len() {
        false
    } else {
        all_bound(views, n, (k - 1) as nat) && bound_in(views[k - 1], n)
    }
}

pub proof fn lemma_all_bound(views: Seq<AnyView>, n: nat, k: nat)
    requires
        all_bound(views, n, k),
    ensures
        k <= views.len(),
        forall|i: int| 0 <= i < k ==> #[trigger] bound_in(views[i], n),
    decreases k,
{
    if k > 0 {
        lemma_all_bound(views, n, (k - 1) as nat);
    }
}

/// The first `n` children of a container, each rendered at `path` extended
/// by its id and tagged with that id.
pub open spec fn render_children(
    views: Seq<AnyView>,
    ids: Seq<Id>,
    path: Seq<Id>,
    cells: Seq<bool>,
    n: nat,
) -> Seq<NodeTree>
    decreases views, n,
{
    if n == 0 || n > views.len() {
        Seq::empty()
    } else {
        render_children(views, ids, path, cells, (n - 1) as nat).push(
            NodeTree::Identified {
                id: ids[n - 1],
                wrapped: Box::new(render_view(views[n - 1], path.push(ids[n - 1]), cells)),
            },
        )
    }
}

/// What rendering `v` at `path` yields while the cells hold `cells`.
pub open spec fn render_view(v: AnyView, path: Seq<Id>, cells: Seq<bool>) -> NodeTree
    decreases v, 0nat,
{
    match v {
        AnyView::Empty => NodeTree::Empty,
        AnyView::Text(t) => NodeTree::Text { content: t.content@ },
        AnyView::Toggle(t) => NodeTree::Toggle { is_on: cells[t.is_on.slot as int] },
        AnyView::Stack(s) => NodeTree::Stack {
            axis: s.axis,
            children: render_children(
                s.children@,
                index_ids(s.children@.len()),
                path,
                cells,
                s.children@.len(),
            ),
        },
        AnyView::ForEach(f) => NodeTree::Group {
            children: render_children(
                f.children@,
                key_ids(f.keys@),
                path,
                cells,
                f.children@.len(),
            ),
        },
        AnyView::ScrollView(s) => NodeTree::ScrollView {
            axes: s.axes,
            show_indicators: s.show_indicators,
            wrapped: Box::new(
                NodeTree::Identified {
                    id: Id::Index(0),
                    wrapped: Box::new(render_view(s.wrapped, path.push(Id::Index(0)), cells)),
                },
            ),
        },
        AnyView::Modified(m) => NodeTree::Modified {
            modifier: m.modifier,
            wrapped: Box::new(render_view(m.wrapped, path, cells)),
        },
        AnyView::Composite(c) => NodeTree::Identified {
            id: Id::Index(0),
            wrapped: Box::new(render_view(c.body, path.push(Id::Index(0)), cells)),
        },
        AnyView::Overlay(o) => NodeTree::Overlay {
            wrapped: Box::new(
                NodeTree::Identified {
                    id: Id::Index(0),
                    wrapped: Box::new(render_view(o.wrapped, path.push(Id::Index(0)), cells)),
                },
            ),
            overlayed: Box::new(
                NodeTree::Identified {
                    id: Id::Index(1),
                    wrapped: Box::new(render_view(o.overlayed, path.push(Id::Index(1)), cells)),
                },
            ),
        },
    }
}

/// `path` leads from `v` to a view that exists: each step names a child
/// that the view at that point has.
pub open spec fn routes(v: AnyView, path: Seq<Id>) -> bool
    decreases v,
{
    if path.len() == 0 {
        true
    } else {
        match v {
            AnyView::Modified(m) => routes(m.wrapped, path),
            AnyView::ScrollView(s) => path[0] == Id::Index(0) && routes(s.wrapped, path.drop_first()),
            AnyView::Composite(c) => path[0] == Id::Index(0) && routes(c.body, path.drop_first()),
            AnyView::Overlay(o) => if path[0] == Id::Index(0) {
                routes(o.wrapped, path.drop_first())
            } else {
                path[0] == Id::Index(1) && routes(o.overlayed, path.drop_first())
            },
            AnyView::Stack(s) => match path[0] {
                Id::Index(i) => i < s.children@.len() && routes(
                    s.children@[i as int],
                    path.drop_first(),
                ),
                Id::Key(_) => false,
            },
            AnyView::ForEach(f) => match path[0] {
                Id::Key(k) => 0 <= first_index(f.keys@, k) < f.children@.len() && routes(
                    f.children@[first_index(f.keys@, k)],
                    path.drop_first(),
                ),
                Id::Index(_) => false,
            },
            _ => false,
        }
    }
}

/// The view that `path` leads to from `v`, with modifiers looked through.
pub open spec fn target(v: AnyView, path: Seq<Id>) -> AnyView
    decreases v,
{
    match v {
        AnyView::Modified(m) => target(m.wrapped, path),
        _ => if path.len() == 0 {
            v
        } else {
            match v {
                AnyView::ScrollView(s) => target(s.wrapped, path.drop_first()),
                AnyView::Composite(c) => if path[0] == Id::Index(0) {
                    target(c.body, path.drop_first())
                } else {
                    v
                },
                AnyView::Overlay(o) => if path[0] == Id::Index(0) {
                    target(o.wrapped, path.drop_first())
                } else if path[0] == Id::Index(1) {
                    target(o.overlayed, path.drop_first())
                } else {
                    v
                },
                AnyView::Stack(s) => match path[0] {
                    Id::Index(i) => if i < s.children@.len() {
                        target(s.children@[i as int], path.drop_first())
                    } else {
                        v
                    },
                    Id::Key(_) => v,
                },
                AnyView::ForEach(f) => match path[0] {
                    Id::Key(k) => if 0 <= first_index(f.keys@, k) < f.children@.len() {
                        target(f.children@[first_index(f.keys@, k)], path.drop_first())
                    } else {
                        v
                    },
                    Id::Index(_) => v,
                },
                _ => v,
            }
        },
    }
}

/// What a view does with an event addressed to itself.
pub open spec fn handle(v: AnyView, event: Event, cells: Seq<bool>) -> Seq<bool> {
    match v {
        AnyView::Toggle(t) => if event == Event::ToggleChange {
            cells.update(t.is_on.slot as int, !cells[t.is_on.slot as int])
        } else {
            cells
        },
        _ => cells,
    }
}

/// The cells after `event` is delivered to `v` along `path`.
pub open spec fn fire_view(
    v: AnyView,
    event: Event,
    path: Seq<Id>,
    cells: Seq<bool>,
) -> Seq<bool>
    decreases v,
{
    match v {
        AnyView::Modified(m) => fire_view(m.wrapped, event, path, cells),
        _ => if path.len() == 0 {
            handle(v, event, cells)
        } else {
            match v {
                AnyView::ScrollView(s) => fire_view(s.wrapped, event, path.drop_first(), cells),
                AnyView::Composite(c) => if path[0] == Id::Index(0) {
                    fire_view(c.body, event, path.drop_first(), cells)
                } else {
                    cells
                },
                AnyView::Overlay(o) => if path[0] == Id::Index(0) {
                    fire_view(o.wrapped, event, path.drop_first(), cells)
                } else if path[0] == Id::Index(1) {
                    fire_view(o.overlayed, event, path.drop_first(), cells)
                } else {
                    cells
                },
                AnyView::Stack(s) => match path[0] {
                    Id::Index(i) => if i < s.children@.len() {
                        fire_view(s.children@[i as int], event, path.drop_first(), cells)
                    } else {
                        cells
                    },
                    Id::Key(_) => cells,
                },
                AnyView::ForEach(f) => match path[0] {
                    Id::Key(k) => if 0 <= first_index(f.keys@, k) < f.children@.len() {
                        fire_view(
                            f.children@[first_index(f.keys@, k)],
                            event,
                            path.drop_first(),
                            cells,
                        )
                    } else {
                        cells
                    },
                    Id::Index(_) => cells,
                },
                _ => cells,
            }
        },
    }
}

/// The position of the first key that equals `k`.
pub proof fn lemma_first_index(keys: Seq<u64>, k: u64, j: int)
    requires
        0 <= j < keys.len(),
        keys[j] == k,
        forall|l: int| 0 <= l < j ==> keys[l] != k,
    ensures
        first_index(keys, k) == j,
{
    let c = choose|i: int|
        0 <= i < keys.len() && keys[i] == k && forall|l: int| 0 <= l < i ==> keys[l] != k;
    assert(0 <= c < keys.len() && keys[c] == k && forall|l: int| 0 <= l < c ==> keys[l] != k);
    if c < j {
        assert(keys[c] != k);
    } else if c > j {
        assert(keys[j] != k);
    }
}

/// Renders the children of a container, each at the context of its id: its
/// position, or when `keyed` holds, its key.
pub fn render_list(
    views: &Vec<AnyView>,
    keys: &Vec<u64>,
    keyed: bool,
    ctx: &Context,
    store: &Store<bool>,
) -> (r: Vec<Node>)
    requires
        keyed ==> keys@.len() == views@.len(),
        all_bound(views@, store@.len(), views@.len()),
    ensures
        r@.len() == views@.len(),
        trees_of(r@, r@.len()) == render_children(
            views@,
            if keyed { key_ids(keys@) } else { index_ids(views@.len()) },
            ctx@,
            store@,
            views@.len(),
        ),
    decreases views,
{
    let ghost ids = if keyed { key_ids(keys@) } else { index_ids(views@.len()) };
    proof {
        lemma_all_bound(views@, store@.len(), views@.len());
    }
    let mut out: Vec<Node> = Vec::new();
    let n = views.len();
    let mut i: usize = 0;
    while i < n
        invariant
            n == views@.len(),
            i <= n,
            out@.len() == i,
            keyed ==> keys@.len() == views@.len(),
            ids == (if keyed { key_ids(keys@) } else { index_ids(views@.len()) }),
            forall|l: int| 0 <= l < views@.len() ==> #[trigger] bound_in(views@[l], store@.len()),
            trees_of(out@, i as nat) == render_children(views@, ids, ctx@, store@, i as nat),
        decreases n - i,
    {
        let id = if keyed { Id::Key(keys[i]) } else { Id::Index(i as u64) };
        assert(id == ids[i as int]);
        let child_ctx = ctx.child(id);
        assert(bound_in(views@[i as int], store@.len()));
        proof {
            assert(decreases_to!(views => views@[i as int]));
        }
        let node = views[i].render(&child_ctx, store).identify(id);
        proof {
            lemma_trees_of_push(out@, node);
        }
        out.push(node);
        i = i + 1;
    }
    out
}

impl AnyView {
    /// Renders this view at the context `ctx`.
    pub fn render(&self, ctx: &Context, store: &Store<bool>) -> (r: Node)
        requires
            bound_in(*self, store@.len()),
        ensures
            r@ == render_view(*self, ctx@, store@),
        decreases self,
    {
        match self {
            AnyView::Empty => Node::Empty {},
            AnyView::Text(t) => t.render(ctx),
            AnyView::Toggle(t) => t.render(ctx, store),
            AnyView::Stack(s) => s.render(ctx, store),
            AnyView::ForEach(f) => f.render(ctx, store),
            AnyView::ScrollView(s) => s.render(ctx, store),
            AnyView::Modified(m) => m.render(ctx, store),
            AnyView::Overlay(o) => o.render(ctx, store),
            AnyView::Composite(c) => c.render(ctx, store),
        }
    }

    /// Delivers `event` along `path` to the view that it leads to from
    /// this one, which is visited at the context `ctx`.
    pub fn fire(&self, event: &Event, path: &IdPath, ctx: &Context, store: &mut Store<bool>) -> (r:
        EventResponse)
        requires
            routes(*self, path@),
            bound_in(*self, old(store)@.len()),
        ensures
            final(store)@ == fire_view(*self, *event, path@, old(store)@),
        decreases self,
    {
        match self {
            AnyView::Toggle(t) => t.fire(event, path, ctx, store),
            AnyView::Stack(s) => s.fire(event, path, ctx, store),
            AnyView::ForEach(f) => f.fire(event, path, ctx, store),
            AnyView::ScrollView(s) => s.fire(event, path, ctx, store),
            AnyView::Modified(m) => m.fire(event, path, ctx, store),
            AnyView::Overlay(o) => o.fire(event, path, ctx, store),
            AnyView::Composite(c) => c.fire(event, path, ctx, store),
            _ => EventResponse::none(),
        }
    }
}

/// Renders a whole composition from the root.
pub fn render(root: &AnyView, store: &Store<bool>) -> (r: Node)
    requires
        bound_in(*root, store@.len()),
    ensures
        r@ == render_view(*root, Seq::empty(), store@),
{
    root.render(&Context::root(), store)
}

/// Delivers one event to a composition along a path captured from a render
/// pass of it.
pub fn dispatch(root: &AnyView, event: &Event, path: &IdPath, store: &mut Store<bool>) -> (r:
    EventResponse)
    requires
        routes(*root, path@),
        bound_in(*root, old(store)@.len()),
    ensures
        final(store)@ == fire_view(*root, *event, path@, old(store)@),
{
    root.fire(event, path, &Context::root(), store)
}

} // verus!
