use vstd::prelude::*;

use crate::cell::{aliases, Binding, State};
use crate::event::Event;
use crate::id::Id;
use crate::modified::Modified;
use crate::modifier::ModifierNode;
use crate::node::{child_at, first_tagged, node_at, tag_of, NodeTree};
use crate::view::{
    first_index, fire_view, handle, index_ids, key_ids, render_children, render_view, routes, target, AnyView,
};

verus! {

/// `v` wrapped in the modifiers of `mods`, the first innermost.
pub open spec fn wrap_all(v: AnyView, mods: Seq<ModifierNode>) -> AnyView
    decreases mods.len(),
{
    if mods.len() == 0 {
        v
    } else {
        AnyView::Modified(
            Box::new(Modified { wrapped: wrap_all(v, mods.drop_last()), modifier: mods.last() }),
        )
    }
}

/// The `i`-th of the first `n` rendered children of a container is the
/// `i`-th child, tagged with its id and rendered at the path extended by it.
pub proof fn lemma_render_children_index(
    views: Seq<AnyView>,
    ids: Seq<Id>,
    path: Seq<Id>,
    cells: Seq<bool>,
    n: nat,
)
    requires
        n <= views.len(),
    ensures
        render_children(views, ids, path, cells, n).len() == n,
        forall|i: int|
            0 <= i < n ==> #[trigger] render_children(views, ids, path, cells, n)[i]
                == (NodeTree::Identified {
                id: ids[i],
                wrapped: Box::new(render_view(views[i], path.push(ids[i]), cells)),
            }),
    decreases n,
{
    if n > 0 {
        lemma_render_children_index(views, ids, path, cells, (n - 1) as nat);
    }
}

/// Dispatch reaches its target: delivering an event along a path that
/// routes runs the handler of the view at the end of that path, and only
/// that handler.
pub proof fn lemma_dispatch_reaches_target(
    v: AnyView,
    event: Event,
    path: Seq<Id>,
    cells: Seq<bool>,
)
    requires
        routes(v, path),
    ensures
        fire_view(v, event, path, cells) == handle(target(v, path), event, cells),
    decreases v,
{
    match v {
        AnyView::Modified(m) => {
            lemma_dispatch_reaches_target(m.wrapped, event, path, cells);
        },
        _ => {
            if path.len() > 0 {
                match v {
                    AnyView::ScrollView(s) => {
                        lemma_dispatch_reaches_target(s.wrapped, event, path.drop_first(), cells);
                    },
                    AnyView::Composite(c) => {
                        lemma_dispatch_reaches_target(c.body, event, path.drop_first(), cells);
                    },
                    AnyView::Overlay(o) => {
                        if path[0] == Id::Index(0) {
                            lemma_dispatch_reaches_target(o.wrapped, event, path.drop_first(), cells);
                        } else {
                            lemma_dispatch_reaches_target(
                                o.overlayed,
                                event,
                                path.drop_first(),
                                cells,
                            );
                        }
                    },
                    AnyView::Stack(s) => {
                        if let Id::Index(i) = path[0] {
                            assert(decreases_to!(s.children => s.children@[i as int]));
                            lemma_dispatch_reaches_target(
                                s.children@[i as int],
                                event,
                                path.drop_first(),
                                cells,
                            );
                        }
                    },
                    AnyView::ForEach(f) => {
                        if let Id::Key(k) = path[0] {
                            let j = crate::view::first_index(f.keys@, k);
                            assert(decreases_to!(f.children => f.children@[j]));
                            lemma_dispatch_reaches_target(
                                f.children@[j],
                                event,
                                path.drop_first(),
                                cells,
                            );
                        }
                    },
                    _ => {},
                }
            }
        },
    }
}

/// Modifiers are transparent to events: wrapping a view in any sequence of
/// modifiers changes neither which paths route, nor the view that a path
/// leads to, nor what delivering an event does.
pub proof fn lemma_modifiers_transparent(
    v: AnyView,
    mods: Seq<ModifierNode>,
    event: Event,
    path: Seq<Id>,
    cells: Seq<bool>,
)
    ensures
        routes(wrap_all(v, mods), path) == routes(v, path),
        target(wrap_all(v, mods), path) == target(v, path),
        fire_view(wrap_all(v, mods), event, path, cells) == fire_view(v, event, path, cells),
    decreases mods.len(),
{
    if mods.len() > 0 {
        lemma_modifiers_transparent(v, mods.drop_last(), event, path, cells);
    }
}

/// Positional addresses are stable: whatever the cells hold in two render
/// passes, the `i`-th child of a positional container is tagged `Index(i)`
/// in both and is rendered at the same path in both.
pub proof fn lemma_path_stability(
    views: Seq<AnyView>,
    path: Seq<Id>,
    before: Seq<bool>,
    after: Seq<bool>,
    i: int,
)
    requires
        0 <= i < views.len(),
    ensures
        render_children(views, index_ids(views.len()), path, before, views.len())[i]
            == (NodeTree::Identified {
            id: Id::Index(i as u64),
            wrapped: Box::new(render_view(views[i], path.push(Id::Index(i as u64)), before)),
        }),
        render_children(views, index_ids(views.len()), path, after, views.len())[i]
            == (NodeTree::Identified {
            id: Id::Index(i as u64),
            wrapped: Box::new(render_view(views[i], path.push(Id::Index(i as u64)), after)),
        }),
{
    lemma_render_children_index(views, index_ids(views.len()), path, before, views.len());
    lemma_render_children_index(views, index_ids(views.len()), path, after, views.len());
}

/// Keyed addresses survive removal: after the item at `j` is taken out of a
/// keyed collection, every other item renders to the same tagged node as
/// before, at its new position.
pub proof fn lemma_keyed_stability(
    keys: Seq<u64>,
    views: Seq<AnyView>,
    path: Seq<Id>,
    cells: Seq<bool>,
    j: int,
    i: int,
)
    requires
        keys.len() == views.len(),
        0 <= j < views.len(),
        0 <= i < views.len(),
        i != j,
    ensures
        render_children(
            views.remove(j),
            key_ids(keys.remove(j)),
            path,
            cells,
            (views.len() - 1) as nat,
        )[if i < j { i } else { i - 1 }] == render_children(
            views,
            key_ids(keys),
            path,
            cells,
            views.len(),
        )[i],
        render_children(views, key_ids(keys), path, cells, views.len())[i]
            == (NodeTree::Identified {
            id: Id::Key(keys[i]),
            wrapped: Box::new(render_view(views[i], path.push(Id::Key(keys[i])), cells)),
        }),
{
    let k = if i < j { i } else { i - 1 };
    lemma_render_children_index(views, key_ids(keys), path, cells, views.len());
    lemma_render_children_index(
        views.remove(j),
        key_ids(keys.remove(j)),
        path,
        cells,
        (views.len() - 1) as nat,
    );
    assert(views.remove(j)[k] == views[i]);
    assert(keys.remove(j)[k] == keys[i]);
    assert(key_ids(keys.remove(j))[k] == key_ids(keys)[i]);
}

/// Bindings alias their state: after a write through one binding of a
/// state, every other binding of it and the state itself read the written
/// value.
pub proof fn lemma_binding_aliasing<T>(s: State<T>, b1: Binding<T>, b2: Binding<T>, cells: Seq<T>, x: T)
    requires
        aliases(b1, s),
        aliases(b2, s),
        s.slot < cells.len(),
    ensures
        cells.update(b1.slot as int, x)[b2.slot as int] == x,
        cells.update(b1.slot as int, x)[s.slot as int] == x,
{
}

/// In children tagged one by one with `ids`, the first tagged `id` is the
/// first position at which `ids` holds `id`.
pub proof fn lemma_first_tagged(children: Seq<NodeTree>, ids: Seq<Id>, id: Id, j: int)
    requires
        forall|l: int| 0 <= l < children.len() ==> tag_of(#[trigger] children[l]) == Some(ids[l]),
        0 <= j < children.len(),
        ids[j] == id,
        forall|l: int| 0 <= l < j ==> ids[l] != id,
    ensures
        first_tagged(children, id) == j,
{
    assert(tag_of(children[j]) == Some(id));
    assert(forall|l: int| 0 <= l < j ==> tag_of(#[trigger] children[l]) != Some(id));
    let c = choose|i: int|
        0 <= i < children.len() && tag_of(children[i]) == Some(id) && forall|l: int|
            0 <= l < i ==> tag_of(children[l]) != Some(id);
    if c < j {
        assert(tag_of(children[c]) != Some(id));
    } else if c > j {
        assert(tag_of(children[j]) != Some(id));
    }
}

/// Dispatch and rendering agree: a path that routes in a view leads, in
/// what the view renders, to exactly the node that the dispatch target
/// renders at the end of that path.
pub proof fn lemma_dispatch_matches_render(
    v: AnyView,
    path: Seq<Id>,
    prefix: Seq<Id>,
    cells: Seq<bool>,
)
    requires
        routes(v, path),
    ensures
        node_at(render_view(v, prefix, cells), path) == Some(
            render_view(target(v, path), prefix + path, cells),
        ),
    decreases v,
{
    match v {
        AnyView::Modified(m) => {
            lemma_dispatch_matches_render(m.wrapped, path, prefix, cells);
        },
        _ => {
            if path.len() == 0 {
                assert(prefix + path =~= prefix);
            } else {
                assert(prefix.push(path[0]) + path.drop_first() =~= prefix + path);
                match v {
                    AnyView::ScrollView(s) => {
                        lemma_dispatch_matches_render(
                            s.wrapped,
                            path.drop_first(),
                            prefix.push(path[0]),
                            cells,
                        );
                    },
                    AnyView::Composite(c) => {
                        lemma_dispatch_matches_render(
                            c.body,
                            path.drop_first(),
                            prefix.push(path[0]),
                            cells,
                        );
                    },
                    AnyView::Overlay(o) => {
                        if path[0] == Id::Index(0) {
                            lemma_dispatch_matches_render(
                                o.wrapped,
                                path.drop_first(),
                                prefix.push(path[0]),
                                cells,
                            );
                        } else {
                            lemma_dispatch_matches_render(
                                o.overlayed,
                                path.drop_first(),
                                prefix.push(path[0]),
                                cells,
                            );
                        }
                    },
                    AnyView::Stack(s) => {
                        if let Id::Index(i) = path[0] {
                            let cs = s.children@;
                            let ids = index_ids(cs.len());
                            let children = render_children(cs, ids, prefix, cells, cs.len());
                            lemma_render_children_index(cs, ids, prefix, cells, cs.len());
                            assert forall|l: int| 0 <= l < children.len() implies tag_of(
                                #[trigger] children[l],
                            ) == Some(ids[l]) by {}
                            assert forall|l: int| 0 <= l < i implies ids[l] != Id::Index(i) by {
                                assert(ids[l] == Id::Index(l as u64));
                            }
                            lemma_first_tagged(children, ids, Id::Index(i), i as int);
                            assert(decreases_to!(s.children => s.children@[i as int]));
                            lemma_dispatch_matches_render(
                                cs[i as int],
                                path.drop_first(),
                                prefix.push(path[0]),
                                cells,
                            );
                            assert(render_view(v, prefix, cells) == NodeTree::Stack {
                                axis: s.axis,
                                children,
                            });
                            assert(node_at(render_view(v, prefix, cells), path) == child_at(
                                children,
                                path,
                            ));
                            assert(children[i as int] == NodeTree::Identified {
                                id: Id::Index(i),
                                wrapped: Box::new(
                                    render_view(cs[i as int], prefix.push(path[0]), cells),
                                ),
                            });
                            assert(target(v, path) == target(cs[i as int], path.drop_first()));
                        }
                    },
                    AnyView::ForEach(f) => {
                        if let Id::Key(k) = path[0] {
                            let cs = f.children@;
                            let ids = key_ids(f.keys@);
                            let children = render_children(cs, ids, prefix, cells, cs.len());
                            let j = first_index(f.keys@, k);
                            lemma_render_children_index(cs, ids, prefix, cells, cs.len());
                            assert forall|l: int| 0 <= l < children.len() implies tag_of(
                                #[trigger] children[l],
                            ) == Some(ids[l]) by {}
                            assert(f.keys@[j] == k);
                            assert forall|l: int| 0 <= l < j implies ids[l] != Id::Key(k) by {
                                assert(f.keys@[l] != k);
                            }
                            lemma_first_tagged(children, ids, Id::Key(k), j);
                            assert(decreases_to!(f.children => f.children@[j]));
                            lemma_dispatch_matches_render(
                                cs[j],
                                path.drop_first(),
                                prefix.push(path[0]),
                                cells,
                            );
                            assert(render_view(v, prefix, cells) == NodeTree::Group { children });
                            assert(node_at(render_view(v, prefix, cells), path) == child_at(
                                children,
                                path,
                            ));
                            assert(children[j] == NodeTree::Identified {
                                id: Id::Key(k),
                                wrapped: Box::new(render_view(cs[j], prefix.push(path[0]), cells)),
                            });
                            assert(target(v, path) == target(cs[j], path.drop_first()));
                        }
                    },
                    _ => {},
                }
            }
        },
    }
}

/// Addresses do not depend on state: whatever the cells hold in two render
/// passes, every path that routes leads in both rendered trees to a node,
/// and in both to the node that the same view renders at the same path.
pub proof fn lemma_addresses_stable(
    v: AnyView,
    path: Seq<Id>,
    prefix: Seq<Id>,
    before: Seq<bool>,
    after: Seq<bool>,
)
    requires
        routes(v, path),
    ensures
        node_at(render_view(v, prefix, before), path) == Some(
            render_view(target(v, path), prefix + path, before),
        ),
        node_at(render_view(v, prefix, after), path) == Some(
            render_view(target(v, path), prefix + path, after),
        ),
{
    lemma_dispatch_matches_render(v, path, prefix, before);
    lemma_dispatch_matches_render(v, path, prefix, after);
}

} // verus!
