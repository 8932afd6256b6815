//! What holds of tuples of components, member by member.

use crate::storage::component::Component;
use crate::storage::tuples::ComponentSet;
use crate::storage::ComponentId;
use vstd::prelude::*;

verus! {

/// The layout of a type is its size and its alignment.
pub proof fn lemma_layout_of_type<T>()
    ensures
        crate::storage::component::layout_of::<T>().size == vstd::layout::size_of::<T>() as usize,
        crate::storage::component::layout_of::<T>().align == vstd::layout::align_of::<T>() as usize,
{
}

/// A set without components asks for nothing and changes nothing.
pub proof fn lemma_no_components(
    list: Seq<(ComponentId, Seq<u8>)>,
    before: Map<ComponentId, Seq<u8>>,
    after: Map<ComponentId, Seq<u8>>,
)
    ensures
        <()>::spec_columns().len() == 0,
        crate::storage::tuples::lists::<()>((), list) <==> list.len() == 0,
        crate::storage::tuples::row_holds::<()>(before, ()),
        crate::storage::tuples::inserted_into::<()>(before, after, ()) <==> after == before,
{
    assert(crate::storage::tuples::column_ids(<()>::spec_columns()).len() == 0);
    assert(crate::storage::component::ids(list).len() == list.len());
    if list.len() == 0 {
        assert(crate::storage::component::ids(list) =~= crate::storage::tuples::column_ids(
            <()>::spec_columns(),
        ));
    }
    assert(after.remove_keys(crate::storage::tuples::column_ids(<()>::spec_columns()).to_set())
        =~= after);
}

/// The columns of one component: one for each member, in order, with the identifier and the
/// layout of that member.
pub proof fn lemma_one_columns<A: Component>()
    ensures
        <(A,)>::spec_columns().len() == 1,
        <(A,)>::spec_columns()[0].0 == A::spec_id(),
        <(A,)>::spec_columns()[0].1 == crate::storage::component::layout_of::<A>(),
        crate::storage::tuples::column_ids(<(A,)>::spec_columns()).len() == 1,
        forall|id: ComponentId|
            crate::storage::tuples::column_ids(
                <(A,)>::spec_columns(),
            ).contains(id) <==> {
                ||| id == A::spec_id()
            },
{
    let ids = crate::storage::tuples::column_ids(<(A,)>::spec_columns());
    assert(ids[0] == A::spec_id());
}

/// The list of the values of one component: they come in order, each with the identifier of its
/// own member and with bytes that stand for it.
pub proof fn lemma_one_listed<A: Component>(
    values: (A,),
    list: Seq<(ComponentId, Seq<u8>)>,
)
    ensures
        crate::storage::tuples::lists::<(A,)>(values, list) <==> {
            &&& list.len() == 1
            &&& list[0].0 == A::spec_id()
            &&& values.0.encoded_by(list[0].1)
        },
{
    let ids = crate::storage::component::ids(list);
    let columns = <(A,)>::spec_columns();
    let column_ids = crate::storage::tuples::column_ids(columns);
    assert(ids.len() == list.len());
    assert(column_ids.len() == 1);
    assert(column_ids[0] == A::spec_id());
    assert(0 < list.len() ==> ids[0] == list[0].0);
    if ids.len() == column_ids.len() && (forall|i: int|
        0 <= i < ids.len() ==> ids[i] == column_ids[i]) {
        assert(ids =~= column_ids);
    }
}

/// A row holds the values of one component exactly if it has each member under its own
/// identifier.
pub proof fn lemma_one_held<A: Component>(
    values: (A,),
    row: Map<ComponentId, Seq<u8>>,
)
    ensures
        crate::storage::tuples::row_holds::<(A,)>(row, values) <==> {
            &&& row.contains_key(A::spec_id())
            &&& values.0.encoded_by(row[A::spec_id()])
        },
{
    let columns = <(A,)>::spec_columns();
    let parts = crate::storage::tuples::row_parts(columns, row);
    assert(parts.len() == 1);
    assert(columns[0].0 == A::spec_id());
    assert(parts[0] == row[A::spec_id()]);
}

/// Inserting one component: each member is there under its own identifier, taking it out again
/// gives its own value, and what was there under other identifiers is as it was.
pub proof fn lemma_one_inserted<A: Component>(
    before: Map<ComponentId, Seq<u8>>,
    after: Map<ComponentId, Seq<u8>>,
    values: (A,),
)
    requires
        crate::storage::tuples::inserted_into::<(A,)>(before, after, values),
    ensures
        !before.contains_key(A::spec_id()),
        crate::storage::tuples::row_holds::<(A,)>(after, (values.0,)),
        forall|out: (A,)| #[trigger]
            crate::storage::tuples::row_holds::<(A,)>(after, out) ==> out.0 == values.0,
        forall|id: ComponentId|
            id != A::spec_id() ==> {
                &&& #[trigger] after.contains_key(id) <==> before.contains_key(id)
                &&& after.contains_key(id) ==> after[id] == before[id]
            },
{
    let ids = crate::storage::tuples::column_ids(<(A,)>::spec_columns()).to_set();
    lemma_one_columns::<A>();
    lemma_one_held::<A>(values, after);
    lemma_one_held::<A>((values.0,), after);
    assert forall|out: (A,)| #[trigger]
        crate::storage::tuples::row_holds::<(A,)>(after, out) implies out.0 == values.0 by {
        lemma_one_held::<A>(out, after);
        A::lemma_encoded(values.0, out.0);
    }
    assert(ids.contains(A::spec_id()));
    assert(!after.remove_keys(ids).contains_key(A::spec_id()));
    assert forall|id: ComponentId|
        id != A::spec_id() implies {
        &&& #[trigger] after.contains_key(id) <==> before.contains_key(id)
        &&& after.contains_key(id) ==> after[id] == before[id]
    } by {
        assert(!ids.contains(id));
        assert(after.remove_keys(ids).contains_key(id) <==> after.contains_key(id));
    }
}

/// The columns of two components: one for each member, in order, with the identifier and the
/// layout of that member.
pub proof fn lemma_two_columns<A: Component, B: Component>()
    ensures
        <(A, B)>::spec_columns().len() == 2,
        <(A, B)>::spec_columns()[0].0 == A::spec_id(),
        <(A, B)>::spec_columns()[0].1 == crate::storage::component::layout_of::<A>(),
        <(A, B)>::spec_columns()[1].0 == B::spec_id(),
        <(A, B)>::spec_columns()[1].1 == crate::storage::component::layout_of::<B>(),
        crate::storage::tuples::column_ids(<(A, B)>::spec_columns()).len() == 2,
        forall|id: ComponentId|
            crate::storage::tuples::column_ids(
                <(A, B)>::spec_columns(),
            ).contains(id) <==> {
                ||| id == A::spec_id()
                ||| id == B::spec_id()
            },
{
    let ids = crate::storage::tuples::column_ids(<(A, B)>::spec_columns());
    assert(ids[0] == A::spec_id());
    assert(ids[1] == B::spec_id());
}

/// The list of the values of two components: they come in order, each with the identifier of its
/// own member and with bytes that stand for it.
pub proof fn lemma_two_listed<A: Component, B: Component>(
    values: (A, B),
    list: Seq<(ComponentId, Seq<u8>)>,
)
    ensures
        crate::storage::tuples::lists::<(A, B)>(values, list) <==> {
            &&& list.len() == 2
            &&& list[0].0 == A::spec_id()
            &&& values.0.encoded_by(list[0].1)
            &&& list[1].0 == B::spec_id()
            &&& values.1.encoded_by(list[1].1)
        },
{
    let ids = crate::storage::component::ids(list);
    let columns = <(A, B)>::spec_columns();
    let column_ids = crate::storage::tuples::column_ids(columns);
    assert(ids.len() == list.len());
    assert(column_ids.len() == 2);
    assert(column_ids[0] == A::spec_id());
    assert(0 < list.len() ==> ids[0] == list[0].0);
    assert(column_ids[1] == B::spec_id());
    assert(1 < list.len() ==> ids[1] == list[1].0);
    if ids.len() == column_ids.len() && (forall|i: int|
        0 <= i < ids.len() ==> ids[i] == column_ids[i]) {
        assert(ids =~= column_ids);
    }
}

/// A row holds the values of two components exactly if it has each member under its own
/// identifier.
pub proof fn lemma_two_held<A: Component, B: Component>(
    values: (A, B),
    row: Map<ComponentId, Seq<u8>>,
)
    ensures
        crate::storage::tuples::row_holds::<(A, B)>(row, values) <==> {
            &&& row.contains_key(A::spec_id())
            &&& values.0.encoded_by(row[A::spec_id()])
            &&& row.contains_key(B::spec_id())
            &&& values.1.encoded_by(row[B::spec_id()])
        },
{
    let columns = <(A, B)>::spec_columns();
    let parts = crate::storage::tuples::row_parts(columns, row);
    assert(parts.len() == 2);
    assert(columns[0].0 == A::spec_id());
    assert(parts[0] == row[A::spec_id()]);
    assert(columns[1].0 == B::spec_id());
    assert(parts[1] == row[B::spec_id()]);
}

/// Inserting two components: each member is there under its own identifier, taking it out again
/// gives its own value, and what was there under other identifiers is as it was.
pub proof fn lemma_two_inserted<A: Component, B: Component>(
    before: Map<ComponentId, Seq<u8>>,
    after: Map<ComponentId, Seq<u8>>,
    values: (A, B),
)
    requires
        crate::storage::tuples::inserted_into::<(A, B)>(before, after, values),
    ensures
        !before.contains_key(A::spec_id()),
        crate::storage::tuples::row_holds::<(A,)>(after, (values.0,)),
        forall|out: (A,)| #[trigger]
            crate::storage::tuples::row_holds::<(A,)>(after, out) ==> out.0 == values.0,
        !before.contains_key(B::spec_id()),
        crate::storage::tuples::row_holds::<(B,)>(after, (values.1,)),
        forall|out: (B,)| #[trigger]
            crate::storage::tuples::row_holds::<(B,)>(after, out) ==> out.0 == values.1,
        forall|id: ComponentId|
            id != A::spec_id()
                && id != B::spec_id() ==> {
                &&& #[trigger] after.contains_key(id) <==> before.contains_key(id)
                &&& after.contains_key(id) ==> after[id] == before[id]
            },
{
    let ids = crate::storage::tuples::column_ids(<(A, B)>::spec_columns()).to_set();
    lemma_two_columns::<A, B>();
    lemma_two_held::<A, B>(values, after);
    lemma_one_held::<A>((values.0,), after);
    assert forall|out: (A,)| #[trigger]
        crate::storage::tuples::row_holds::<(A,)>(after, out) implies out.0 == values.0 by {
        lemma_one_held::<A>(out, after);
        A::lemma_encoded(values.0, out.0);
    }
    assert(ids.contains(A::spec_id()));
    assert(!after.remove_keys(ids).contains_key(A::spec_id()));
    lemma_one_held::<B>((values.1,), after);
    assert forall|out: (B,)| #[trigger]
        crate::storage::tuples::row_holds::<(B,)>(after, out) implies out.0 == values.1 by {
        lemma_one_held::<B>(out, after);
        B::lemma_encoded(values.1, out.0);
    }
    assert(ids.contains(B::spec_id()));
    assert(!after.remove_keys(ids).contains_key(B::spec_id()));
    assert forall|id: ComponentId|
        id != A::spec_id()
            && id != B::spec_id() implies {
        &&& #[trigger] after.contains_key(id) <==> before.contains_key(id)
        &&& after.contains_key(id) ==> after[id] == before[id]
    } by {
        assert(!ids.contains(id));
        assert(after.remove_keys(ids).contains_key(id) <==> after.contains_key(id));
    }
}

/// Inserting two components is the same as inserting all but the last, and then the last.
pub proof fn lemma_two_inserted_one_by_one<A: Component, B: Component>(
    before: Map<ComponentId, Seq<u8>>,
    between: Map<ComponentId, Seq<u8>>,
    after: Map<ComponentId, Seq<u8>>,
    values: (A, B),
)
    requires
        crate::storage::tuples::inserted_into::<(A,)>(
            before,
            between,
            (values.0,),
        ),
        crate::storage::tuples::inserted_into::<(B,)>(between, after, (values.1,)),
    ensures
        crate::storage::tuples::inserted_into::<(A, B)>(before, after, values),
{
    lemma_one_inserted::<A>(
        before,
        between,
        (values.0,),
    );
    lemma_one_inserted::<B>(between, after, (values.1,));
    lemma_two_columns::<A, B>();
    lemma_two_held::<A, B>(values, after);
    let ids = crate::storage::tuples::column_ids(<(A, B)>::spec_columns()).to_set();
    assert(A::spec_id() != B::spec_id());
    assert forall|id: ComponentId| #[trigger]
        after.remove_keys(ids).contains_key(id) <==> before.contains_key(id) by {
        assert(ids.contains(id) || (between.contains_key(id) <==> before.contains_key(id)));
        assert(ids.contains(id) || (after.contains_key(id) <==> between.contains_key(id)));
    }
    assert(after.remove_keys(ids) =~= before);
}

/// The columns of three components: one for each member, in order, with the identifier and the
/// layout of that member.
pub proof fn lemma_three_columns<A: Component, B: Component, C: Component>()
    ensures
        <(A, B, C)>::spec_columns().len() == 3,
        <(A, B, C)>::spec_columns()[0].0 == A::spec_id(),
        <(A, B, C)>::spec_columns()[0].1 == crate::storage::component::layout_of::<A>(),
        <(A, B, C)>::spec_columns()[1].0 == B::spec_id(),
        <(A, B, C)>::spec_columns()[1].1 == crate::storage::component::layout_of::<B>(),
        <(A, B, C)>::spec_columns()[2].0 == C::spec_id(),
        <(A, B, C)>::spec_columns()[2].1 == crate::storage::component::layout_of::<C>(),
        crate::storage::tuples::column_ids(<(A, B, C)>::spec_columns()).len() == 3,
        forall|id: ComponentId|
            crate::storage::tuples::column_ids(
                <(A, B, C)>::spec_columns(),
            ).contains(id) <==> {
                ||| id == A::spec_id()
                ||| id == B::spec_id()
                ||| id == C::spec_id()
            },
{
    let ids = crate::storage::tuples::column_ids(<(A, B, C)>::spec_columns());
    assert(ids[0] == A::spec_id());
    assert(ids[1] == B::spec_id());
    assert(ids[2] == C::spec_id());
}

/// The list of the values of three components: they come in order, each with the identifier of its
/// own member and with bytes that stand for it.
pub proof fn lemma_three_listed<A: Component, B: Component, C: Component>(
    values: (A, B, C),
    list: Seq<(ComponentId, Seq<u8>)>,
)
    ensures
        crate::storage::tuples::lists::<(A, B, C)>(values, list) <==> {
            &&& list.len() == 3
            &&& list[0].0 == A::spec_id()
            &&& values.0.encoded_by(list[0].1)
            &&& list[1].0 == B::spec_id()
            &&& values.1.encoded_by(list[1].1)
            &&& list[2].0 == C::spec_id()
            &&& values.2.encoded_by(list[2].1)
        },
{
    let ids = crate::storage::component::ids(list);
    let columns = <(A, B, C)>::spec_columns();
    let column_ids = crate::storage::tuples::column_ids(columns);
    assert(ids.len() == list.len());
    assert(column_ids.len() == 3);
    assert(column_ids[0] == A::spec_id());
    assert(0 < list.len() ==> ids[0] == list[0].0);
    assert(column_ids[1] == B::spec_id());
    assert(1 < list.len() ==> ids[1] == list[1].0);
    assert(column_ids[2] == C::spec_id());
    assert(2 < list.len() ==> ids[2] == list[2].0);
    if ids.len() == column_ids.len() && (forall|i: int|
        0 <= i < ids.len() ==> ids[i] == column_ids[i]) {
        assert(ids =~= column_ids);
    }
}

/// A row holds the values of three components exactly if it has each member under its own
/// identifier.
pub proof fn lemma_three_held<A: Component, B: Component, C: Component>(
    values: (A, B, C),
    row: Map<ComponentId, Seq<u8>>,
)
    ensures
        crate::storage::tuples::row_holds::<(A, B, C)>(row, values) <==> {
            &&& row.contains_key(A::spec_id())
            &&& values.0.encoded_by(row[A::spec_id()])
            &&& row.contains_key(B::spec_id())
            &&& values.1.encoded_by(row[B::spec_id()])
            &&& row.contains_key(C::spec_id())
            &&& values.2.encoded_by(row[C::spec_id()])
        },
{
    let columns = <(A, B, C)>::spec_columns();
    let parts = crate::storage::tuples::row_parts(columns, row);
    assert(parts.len() == 3);
    assert(columns[0].0 == A::spec_id());
    assert(parts[0] == row[A::spec_id()]);
    assert(columns[1].0 == B::spec_id());
    assert(parts[1] == row[B::spec_id()]);
    assert(columns[2].0 == C::spec_id());
    assert(parts[2] == row[C::spec_id()]);
}

/// Inserting three components: each member is there under its own identifier, taking it out again
/// gives its own value, and what was there under other identifiers is as it was.
pub proof fn lemma_three_inserted<A: Component, B: Component, C: Component>(
    before: Map<ComponentId, Seq<u8>>,
    after: Map<ComponentId, Seq<u8>>,
    values: (A, B, C),
)
    requires
        crate::storage::tuples::inserted_into::<(A, B, C)>(before, after, values),
    ensures
        !before.contains_key(A::spec_id()),
        crate::storage::tuples::row_holds::<(A,)>(after, (values.0,)),
        forall|out: (A,)| #[trigger]
            crate::storage::tuples::row_holds::<(A,)>(after, out) ==> out.0 == values.0,
        !before.contains_key(B::spec_id()),
        crate::storage::tuples::row_holds::<(B,)>(after, (values.1,)),
        forall|out: (B,)| #[trigger]
            crate::storage::tuples::row_holds::<(B,)>(after, out) ==> out.0 == values.1,
        !before.contains_key(C::spec_id()),
        crate::storage::tuples::row_holds::<(C,)>(after, (values.2,)),
        forall|out: (C,)| #[trigger]
            crate::storage::tuples::row_holds::<(C,)>(after, out) ==> out.0 == values.2,
        forall|id: ComponentId|
            id != A::spec_id()
                && id != B::spec_id()
                && id != C::spec_id() ==> {
                &&& #[trigger] after.contains_key(id) <==> before.contains_key(id)
                &&& after.contains_key(id) ==> after[id] == before[id]
            },
{
    let ids = crate::storage::tuples::column_ids(<(A, B, C)>::spec_columns()).to_set();
    lemma_three_columns::<A, B, C>();
    lemma_three_held::<A, B, C>(values, after);
    lemma_one_held::<A>((values.0,), after);
    assert forall|out: (A,)| #[trigger]
        crate::storage::tuples::row_holds::<(A,)>(after, out) implies out.0 == values.0 by {
        lemma_one_held::<A>(out, after);
        A::lemma_encoded(values.0, out.0);
    }
    assert(ids.contains(A::spec_id()));
    assert(!after.remove_keys(ids).contains_key(A::spec_id()));
    lemma_one_held::<B>((values.1,), after);
    assert forall|out: (B,)| #[trigger]
        crate::storage::tuples::row_holds::<(B,)>(after, out) implies out.0 == values.1 by {
        lemma_one_held::<B>(out, after);
        B::lemma_encoded(values.1, out.0);
    }
    assert(ids.contains(B::spec_id()));
    assert(!after.remove_keys(ids).contains_key(B::spec_id()));
    lemma_one_held::<C>((values.2,), after);
    assert forall|out: (C,)| #[trigger]
        crate::storage::tuples::row_holds::<(C,)>(after, out) implies out.0 == values.2 by {
        lemma_one_held::<C>(out, after);
        C::lemma_encoded(values.2, out.0);
    }
    assert(ids.contains(C::spec_id()));
    assert(!after.remove_keys(ids).contains_key(C::spec_id()));
    assert forall|id: ComponentId|
        id != A::spec_id()
            && id != B::spec_id()
            && id != C::spec_id() implies {
        &&& #[trigger] after.contains_key(id) <==> before.contains_key(id)
        &&& after.contains_key(id) ==> after[id] == before[id]
    } by {
        assert(!ids.contains(id));
        assert(after.remove_keys(ids).contains_key(id) <==> after.contains_key(id));
    }
}

/// Inserting three components is the same as inserting all but the last, and then the last.
pub proof fn lemma_three_inserted_one_by_one<A: Component, B: Component, C: Component>(
    before: Map<ComponentId, Seq<u8>>,
    between: Map<ComponentId, Seq<u8>>,
    after: Map<ComponentId, Seq<u8>>,
    values: (A, B, C),
)
    requires
        crate::storage::tuples::inserted_into::<(A, B)>(
            before,
            between,
            (values.0, values.1),
        ),
        crate::storage::tuples::inserted_into::<(C,)>(between, after, (values.2,)),
    ensures
        crate::storage::tuples::inserted_into::<(A, B, C)>(before, after, values),
{
    lemma_two_inserted::<A, B>(
        before,
        between,
        (values.0, values.1),
    );
    lemma_one_inserted::<C>(between, after, (values.2,));
    lemma_three_columns::<A, B, C>();
    lemma_three_held::<A, B, C>(values, after);
    let ids = crate::storage::tuples::column_ids(<(A, B, C)>::spec_columns()).to_set();
    assert(A::spec_id() != C::spec_id());
    assert(B::spec_id() != C::spec_id());
    assert forall|id: ComponentId| #[trigger]
        after.remove_keys(ids).contains_key(id) <==> before.contains_key(id) by {
        assert(ids.contains(id) || (between.contains_key(id) <==> before.contains_key(id)));
        assert(ids.contains(id) || (after.contains_key(id) <==> between.contains_key(id)));
    }
    assert(after.remove_keys(ids) =~= before);
}

/// The columns of four components: one for each member, in order, with the identifier and the
/// layout of that member.
pub proof fn lemma_four_columns<
    A: Component,
    B: Component,
    C: Component,
    D: Component,
>()
    ensures
        <(A, B, C, D)>::spec_columns().len() == 4,
        <(A, B, C, D)>::spec_columns()[0].0 == A::spec_id(),
        <(A, B, C, D)>::spec_columns()[0].1 == crate::storage::component::layout_of::<A>(),
        <(A, B, C, D)>::spec_columns()[1].0 == B::spec_id(),
        <(A, B, C, D)>::spec_columns()[1].1 == crate::storage::component::layout_of::<B>(),
        <(A, B, C, D)>::spec_columns()[2].0 == C::spec_id(),
        <(A, B, C, D)>::spec_columns()[2].1 == crate::storage::component::layout_of::<C>(),
        <(A, B, C, D)>::spec_columns()[3].0 == D::spec_id(),
        <(A, B, C, D)>::spec_columns()[3].1 == crate::storage::component::layout_of::<D>(),
        crate::storage::tuples::column_ids(<(A, B, C, D)>::spec_columns()).len() == 4,
        forall|id: ComponentId|
            crate::storage::tuples::column_ids(
                <(A, B, C, D)>::spec_columns(),
            ).contains(id) <==> {
                ||| id == A::spec_id()
                ||| id == B::spec_id()
                ||| id == C::spec_id()
                ||| id == D::spec_id()
            },
{
    let ids = crate::storage::tuples::column_ids(<(A, B, C, D)>::spec_columns());
    assert(ids[0] == A::spec_id());
    assert(ids[1] == B::spec_id());
    assert(ids[2] == C::spec_id());
    assert(ids[3] == D::spec_id());
}

/// The list of the values of four components: they come in order, each with the identifier of its
/// own member and with bytes that stand for it.
pub proof fn lemma_four_listed<
    A: Component,
    B: Component,
    C: Component,
    D: Component,
>(
    values: (A, B, C, D),
    list: Seq<(ComponentId, Seq<u8>)>,
)
    ensures
        crate::storage::tuples::lists::<(A, B, C, D)>(values, list) <==> {
            &&& list.len() == 4
            &&& list[0].0 == A::spec_id()
            &&& values.0.encoded_by(list[0].1)
            &&& list[1].0 == B::spec_id()
            &&& values.1.encoded_by(list[1].1)
            &&& list[2].0 == C::spec_id()
            &&& values.2.encoded_by(list[2].1)
            &&& list[3].0 == D::spec_id()
            &&& values.3.encoded_by(list[3].1)
        },
{
    let ids = crate::storage::component::ids(list);
    let columns = <(A, B, C, D)>::spec_columns();
    let column_ids = crate::storage::tuples::column_ids(columns);
    assert(ids.len() == list.len());
    assert(column_ids.len() == 4);
    assert(column_ids[0] == A::spec_id());
    assert(0 < list.len() ==> ids[0] == list[0].0);
    assert(column_ids[1] == B::spec_id());
    assert(1 < list.len() ==> ids[1] == list[1].0);
    assert(column_ids[2] == C::spec_id());
    assert(2 < list.len() ==> ids[2] == list[2].0);
    assert(column_ids[3] == D::spec_id());
    assert(3 < list.len() ==> ids[3] == list[3].0);
    if ids.len() == column_ids.len() && (forall|i: int|
        0 <= i < ids.len() ==> ids[i] == column_ids[i]) {
        assert(ids =~= column_ids);
    }
}

/// A row holds the values of four components exactly if it has each member under its own
/// identifier.
pub proof fn lemma_four_held<
    A: Component,
    B: Component,
    C: Component,
    D: Component,
>(
    values: (A, B, C, D),
    row: Map<ComponentId, Seq<u8>>,
)
    ensures
        crate::storage::tuples::row_holds::<(A, B, C, D)>(row, values) <==> {
            &&& row.contains_key(A::spec_id())
            &&& values.0.encoded_by(row[A::spec_id()])
            &&& row.contains_key(B::spec_id())
            &&& values.1.encoded_by(row[B::spec_id()])
            &&& row.contains_key(C::spec_id())
            &&& values.2.encoded_by(row[C::spec_id()])
            &&& row.contains_key(D::spec_id())
            &&& values.3.encoded_by(row[D::spec_id()])
        },
{
    let columns = <(A, B, C, D)>::spec_columns();
    let parts = crate::storage::tuples::row_parts(columns, row);
    assert(parts.len() == 4);
    assert(columns[0].0 == A::spec_id());
    assert(parts[0] == row[A::spec_id()]);
    assert(columns[1].0 == B::spec_id());
    assert(parts[1] == row[B::spec_id()]);
    assert(columns[2].0 == C::spec_id());
    assert(parts[2] == row[C::spec_id()]);
    assert(columns[3].0 == D::spec_id());
    assert(parts[3] == row[D::spec_id()]);
}

/// Inserting four components: each member is there under its own identifier, taking it out again
/// gives its own value, and what was there under other identifiers is as it was.
pub proof fn lemma_four_inserted<
    A: Component,
    B: Component,
    C: Component,
    D: Component,
>(
    before: Map<ComponentId, Seq<u8>>,
    after: Map<ComponentId, Seq<u8>>,
    values: (A, B, C, D),
)
    requires
        crate::storage::tuples::inserted_into::<(A, B, C, D)>(before, after, values),
    ensures
        !before.contains_key(A::spec_id()),
        crate::storage::tuples::row_holds::<(A,)>(after, (values.0,)),
        forall|out: (A,)| #[trigger]
            crate::storage::tuples::row_holds::<(A,)>(after, out) ==> out.0 == values.0,
        !before.contains_key(B::spec_id()),
        crate::storage::tuples::row_holds::<(B,)>(after, (values.1,)),
        forall|out: (B,)| #[trigger]
            crate::storage::tuples::row_holds::<(B,)>(after, out) ==> out.0 == values.1,
        !before.contains_key(C::spec_id()),
        crate::storage::tuples::row_holds::<(C,)>(after, (values.2,)),
        forall|out: (C,)| #[trigger]
            crate::storage::tuples::row_holds::<(C,)>(after, out) ==> out.0 == values.2,
        !before.contains_key(D::spec_id()),
        crate::storage::tuples::row_holds::<(D,)>(after, (values.3,)),
        forall|out: (D,)| #[trigger]
            crate::storage::tuples::row_holds::<(D,)>(after, out) ==> out.0 == values.3,
        forall|id: ComponentId|
            id != A::spec_id()
                && id != B::spec_id()
                && id != C::spec_id()
                && id != D::spec_id() ==> {
                &&& #[trigger] after.contains_key(id) <==> before.contains_key(id)
                &&& after.contains_key(id) ==> after[id] == before[id]
            },
{
    let ids = crate::storage::tuples::column_ids(<(A, B, C, D)>::spec_columns()).to_set();
    lemma_four_columns::<A, B, C, D>();
    lemma_four_held::<A, B, C, D>(values, after);
    lemma_one_held::<A>((values.0,), after);
    assert forall|out: (A,)| #[trigger]
        crate::storage::tuples::row_holds::<(A,)>(after, out) implies out.0 == values.0 by {
        lemma_one_held::<A>(out, after);
        A::lemma_encoded(values.0, out.0);
    }
    assert(ids.contains(A::spec_id()));
    assert(!after.remove_keys(ids).contains_key(A::spec_id()));
    lemma_one_held::<B>((values.1,), after);
    assert forall|out: (B,)| #[trigger]
        crate::storage::tuples::row_holds::<(B,)>(after, out) implies out.0 == values.1 by {
        lemma_one_held::<B>(out, after);
        B::lemma_encoded(values.1, out.0);
    }
    assert(ids.contains(B::spec_id()));
    assert(!after.remove_keys(ids).contains_key(B::spec_id()));
    lemma_one_held::<C>((values.2,), after);
    assert forall|out: (C,)| #[trigger]
        crate::storage::tuples::row_holds::<(C,)>(after, out) implies out.0 == values.2 by {
        lemma_one_held::<C>(out, after);
        C::lemma_encoded(values.2, out.0);
    }
    assert(ids.contains(C::spec_id()));
    assert(!after.remove_keys(ids).contains_key(C::spec_id()));
    lemma_one_held::<D>((values.3,), after);
    assert forall|out: (D,)| #[trigger]
        crate::storage::tuples::row_holds::<(D,)>(after, out) implies out.0 == values.3 by {
        lemma_one_held::<D>(out, after);
        D::lemma_encoded(values.3, out.0);
    }
    assert(ids.contains(D::spec_id()));
    assert(!after.remove_keys(ids).contains_key(D::spec_id()));
    assert forall|id: ComponentId|
        id != A::spec_id()
            && id != B::spec_id()
            && id != C::spec_id()
            && id != D::spec_id() implies {
        &&& #[trigger] after.contains_key(id) <==> before.contains_key(id)
        &&& after.contains_key(id) ==> after[id] == before[id]
    } by {
        assert(!ids.contains(id));
        assert(after.remove_keys(ids).contains_key(id) <==> after.contains_key(id));
    }
}

/// Inserting four components is the same as inserting all but the last, and then the last.
pub proof fn lemma_four_inserted_one_by_one<
    A: Component,
    B: Component,
    C: Component,
    D: Component,
>(
    before: Map<ComponentId, Seq<u8>>,
    between: Map<ComponentId, Seq<u8>>,
    after: Map<ComponentId, Seq<u8>>,
    values: (A, B, C, D),
)
    requires
        crate::storage::tuples::inserted_into::<(A, B, C)>(
            before,
            between,
            (values.0, values.1, values.2),
        ),
        crate::storage::tuples::inserted_into::<(D,)>(between, after, (values.3,)),
    ensures
        crate::storage::tuples::inserted_into::<(A, B, C, D)>(before, after, values),
{
    lemma_three_inserted::<A, B, C>(
        before,
        between,
        (values.0, values.1, values.2),
    );
    lemma_one_inserted::<D>(between, after, (values.3,));
    lemma_four_columns::<A, B, C, D>();
    lemma_four_held::<A, B, C, D>(values, after);
    let ids = crate::storage::tuples::column_ids(<(A, B, C, D)>::spec_columns()).to_set();
    assert(A::spec_id() != D::spec_id());
    assert(B::spec_id() != D::spec_id());
    assert(C::spec_id() != D::spec_id());
    assert forall|id: ComponentId| #[trigger]
        after.remove_keys(ids).contains_key(id) <==> before.contains_key(id) by {
        assert(ids.contains(id) || (between.contains_key(id) <==> before.contains_key(id)));
        assert(ids.contains(id) || (after.contains_key(id) <==> between.contains_key(id)));
    }
    assert(after.remove_keys(ids) =~= before);
}

/// The columns of five components: one for each member, in order, with the identifier and the
/// layout of that member.
pub proof fn lemma_five_columns<
    A: Component,
    B: Component,
    C: Component,
    D: Component,
    E: Component,
>()
    ensures
        <(A, B, C, D, E)>::spec_columns().len() == 5,
        <(A, B, C, D, E)>::spec_columns()[0].0 == A::spec_id(),
        <(A, B, C, D, E)>::spec_columns()[0].1 == crate::storage::component::layout_of::<A>(),
        <(A, B, C, D, E)>::spec_columns()[1].0 == B::spec_id(),
        <(A, B, C, D, E)>::spec_columns()[1].1 == crate::storage::component::layout_of::<B>(),
        <(A, B, C, D, E)>::spec_columns()[2].0 == C::spec_id(),
        <(A, B, C, D, E)>::spec_columns()[2].1 == crate::storage::component::layout_of::<C>(),
        <(A, B, C, D, E)>::spec_columns()[3].0 == D::spec_id(),
        <(A, B, C, D, E)>::spec_columns()[3].1 == crate::storage::component::layout_of::<D>(),
        <(A, B, C, D, E)>::spec_columns()[4].0 == E::spec_id(),
        <(A, B, C, D, E)>::spec_columns()[4].1 == crate::storage::component::layout_of::<E>(),
        crate::storage::tuples::column_ids(<(A, B, C, D, E)>::spec_columns()).len() == 5,
        forall|id: ComponentId|
            crate::storage::tuples::column_ids(
                <(A, B, C, D, E)>::spec_columns(),
            ).contains(id) <==> {
                ||| id == A::spec_id()
                ||| id == B::spec_id()
                ||| id == C::spec_id()
                ||| id == D::spec_id()
                ||| id == E::spec_id()
            },
{
    let ids = crate::storage::tuples::column_ids(<(A, B, C, D, E)>::spec_columns());
    assert(ids[0] == A::spec_id());
    assert(ids[1] == B::spec_id());
    assert(ids[2] == C::spec_id());
    assert(ids[3] == D::spec_id());
    assert(ids[4] == E::spec_id());
}

/// The list of the values of five components: they come in order, each with the identifier of its
/// own member and with bytes that stand for it.
pub proof fn lemma_five_listed<
    A: Component,
    B: Component,
    C: Component,
    D: Component,
    E: Component,
>(
    values: (A, B, C, D, E),
    list: Seq<(ComponentId, Seq<u8>)>,
)
    ensures
        crate::storage::tuples::lists::<(A, B, C, D, E)>(values, list) <==> {
            &&& list.len() == 5
            &&& list[0].0 == A::spec_id()
            &&& values.0.encoded_by(list[0].1)
            &&& list[1].0 == B::spec_id()
            &&& values.1.encoded_by(list[1].1)
            &&& list[2].0 == C::spec_id()
            &&& values.2.encoded_by(list[2].1)
            &&& list[3].0 == D::spec_id()
            &&& values.3.encoded_by(list[3].1)
            &&& list[4].0 == E::spec_id()
            &&& values.4.encoded_by(list[4].1)
        },
{
    let ids = crate::storage::component::ids(list);
    let columns = <(A, B, C, D, E)>::spec_columns();
    let column_ids = crate::storage::tuples::column_ids(columns);
    assert(ids.len() == list.len());
    assert(column_ids.len() == 5);
    assert(column_ids[0] == A::spec_id());
    assert(0 < list.len() ==> ids[0] == list[0].0);
    assert(column_ids[1] == B::spec_id());
    assert(1 < list.len() ==> ids[1] == list[1].0);
    assert(column_ids[2] == C::spec_id());
    assert(2 < list.len() ==> ids[2] == list[2].0);
    assert(column_ids[3] == D::spec_id());
    assert(3 < list.len() ==> ids[3] == list[3].0);
    assert(column_ids[4] == E::spec_id());
    assert(4 < list.len() ==> ids[4] == list[4].0);
    if ids.len() == column_ids.len() && (forall|i: int|
        0 <= i < ids.len() ==> ids[i] == column_ids[i]) {
        assert(ids =~= column_ids);
    }
}

/// A row holds the values of five components exactly if it has each member under its own
/// identifier.
pub proof fn lemma_five_held<
    A: Component,
    B: Component,
    C: Component,
    D: Component,
    E: Component,
>(
    values: (A, B, C, D, E),
    row: Map<ComponentId, Seq<u8>>,
)
    ensures
        crate::storage::tuples::row_holds::<(A, B, C, D, E)>(row, values) <==> {
            &&& row.contains_key(A::spec_id())
            &&& values.0.encoded_by(row[A::spec_id()])
            &&& row.contains_key(B::spec_id())
            &&& values.1.encoded_by(row[B::spec_id()])
            &&& row.contains_key(C::spec_id())
            &&& values.2.encoded_by(row[C::spec_id()])
            &&& row.contains_key(D::spec_id())
            &&& values.3.encoded_by(row[D::spec_id()])
            &&& row.contains_key(E::spec_id())
            &&& values.4.encoded_by(row[E::spec_id()])
        },
{
    let columns = <(A, B, C, D, E)>::spec_columns();
    let parts = crate::storage::tuples::row_parts(columns, row);
    assert(parts.len() == 5);
    assert(columns[0].0 == A::spec_id());
    assert(parts[0] == row[A::spec_id()]);
    assert(columns[1].0 == B::spec_id());
    assert(parts[1] == row[B::spec_id()]);
    assert(columns[2].0 == C::spec_id());
    assert(parts[2] == row[C::spec_id()]);
    assert(columns[3].0 == D::spec_id());
    assert(parts[3] == row[D::spec_id()]);
    assert(columns[4].0 == E::spec_id());
    assert(parts[4] == row[E::spec_id()]);
}

/// Inserting five components: each member is there under its own identifier, taking it out again
/// gives its own value, and what was there under other identifiers is as it was.
pub proof fn lemma_five_inserted<
    A: Component,
    B: Component,
    C: Component,
    D: Component,
    E: Component,
>(
    before: Map<ComponentId, Seq<u8>>,
    after: Map<ComponentId, Seq<u8>>,
    values: (A, B, C, D, E),
)
    requires
        crate::storage::tuples::inserted_into::<(A, B, C, D, E)>(before, after, values),
    ensures
        !before.contains_key(A::spec_id()),
        crate::storage::tuples::row_holds::<(A,)>(after, (values.0,)),
        forall|out: (A,)| #[trigger]
            crate::storage::tuples::row_holds::<(A,)>(after, out) ==> out.0 == values.0,
        !before.contains_key(B::spec_id()),
        crate::storage::tuples::row_holds::<(B,)>(after, (values.1,)),
        forall|out: (B,)| #[trigger]
            crate::storage::tuples::row_holds::<(B,)>(after, out) ==> out.0 == values.1,
        !before.contains_key(C::spec_id()),
        crate::storage::tuples::row_holds::<(C,)>(after, (values.2,)),
        forall|out: (C,)| #[trigger]
            crate::storage::tuples::row_holds::<(C,)>(after, out) ==> out.0 == values.2,
        !before.contains_key(D::spec_id()),
        crate::storage::tuples::row_holds::<(D,)>(after, (values.3,)),
        forall|out: (D,)| #[trigger]
            crate::storage::tuples::row_holds::<(D,)>(after, out) ==> out.0 == values.3,
        !before.contains_key(E::spec_id()),
        crate::storage::tuples::row_holds::<(E,)>(after, (values.4,)),
        forall|out: (E,)| #[trigger]
            crate::storage::tuples::row_holds::<(E,)>(after, out) ==> out.0 == values.4,
        forall|id: ComponentId|
            id != A::spec_id()
                && id != B::spec_id()
                && id != C::spec_id()
                && id != D::spec_id()
                && id != E::spec_id() ==> {
                &&& #[trigger] after.contains_key(id) <==> before.contains_key(id)
                &&& after.contains_key(id) ==> after[id] == before[id]
            },
{
    let ids = crate::storage::tuples::column_ids(<(A, B, C, D, E)>::spec_columns()).to_set();
    lemma_five_columns::<A, B, C, D, E>();
    lemma_five_held::<A, B, C, D, E>(values, after);
    lemma_one_held::<A>((values.0,), after);
    assert forall|out: (A,)| #[trigger]
        crate::storage::tuples::row_holds::<(A,)>(after, out) implies out.0 == values.0 by {
        lemma_one_held::<A>(out, after);
        A::lemma_encoded(values.0, out.0);
    }
    assert(ids.contains(A::spec_id()));
    assert(!after.remove_keys(ids).contains_key(A::spec_id()));
    lemma_one_held::<B>((values.1,), after);
    assert forall|out: (B,)| #[trigger]
        crate::storage::tuples::row_holds::<(B,)>(after, out) implies out.0 == values.1 by {
        lemma_one_held::<B>(out, after);
        B::lemma_encoded(values.1, out.0);
    }
    assert(ids.contains(B::spec_id()));
    assert(!after.remove_keys(ids).contains_key(B::spec_id()));
    lemma_one_held::<C>((values.2,), after);
    assert forall|out: (C,)| #[trigger]
        crate::storage::tuples::row_holds::<(C,)>(after, out) implies out.0 == values.2 by {
        lemma_one_held::<C>(out, after);
        C::lemma_encoded(values.2, out.0);
    }
    assert(ids.contains(C::spec_id()));
    assert(!after.remove_keys(ids).contains_key(C::spec_id()));
    lemma_one_held::<D>((values.3,), after);
    assert forall|out: (D,)| #[trigger]
        crate::storage::tuples::row_holds::<(D,)>(after, out) implies out.0 == values.3 by {
        lemma_one_held::<D>(out, after);
        D::lemma_encoded(values.3, out.0);
    }
    assert(ids.contains(D::spec_id()));
    assert(!after.remove_keys(ids).contains_key(D::spec_id()));
    lemma_one_held::<E>((values.4,), after);
    assert forall|out: (E,)| #[trigger]
        crate::storage::tuples::row_holds::<(E,)>(after, out) implies out.0 == values.4 by {
        lemma_one_held::<E>(out, after);
        E::lemma_encoded(values.4, out.0);
    }
    assert(ids.contains(E::spec_id()));
    assert(!after.remove_keys(ids).contains_key(E::spec_id()));
    assert forall|id: ComponentId|
        id != A::spec_id()
            && id != B::spec_id()
            && id != C::spec_id()
            && id != D::spec_id()
            && id != E::spec_id() implies {
        &&& #[trigger] after.contains_key(id) <==> before.contains_key(id)
        &&& after.contains_key(id) ==> after[id] == before[id]
    } by {
        assert(!ids.contains(id));
        assert(after.remove_keys(ids).contains_key(id) <==> after.contains_key(id));
    }
}

/// Inserting five components is the same as inserting all but the last, and then the last.
pub proof fn lemma_five_inserted_one_by_one<
    A: Component,
    B: Component,
    C: Component,
    D: Component,
    E: Component,
>(
    before: Map<ComponentId, Seq<u8>>,
    between: Map<ComponentId, Seq<u8>>,
    after: Map<ComponentId, Seq<u8>>,
    values: (A, B, C, D, E),
)
    requires
        crate::storage::tuples::inserted_into::<(A, B, C, D)>(
            before,
            between,
            (values.0, values.1, values.2, values.3),
        ),
        crate::storage::tuples::inserted_into::<(E,)>(between, after, (values.4,)),
    ensures
        crate::storage::tuples::inserted_into::<(A, B, C, D, E)>(before, after, values),
{
    lemma_four_inserted::<A, B, C, D>(
        before,
        between,
        (values.0, values.1, values.2, values.3),
    );
    lemma_one_inserted::<E>(between, after, (values.4,));
    lemma_five_columns::<A, B, C, D, E>();
    lemma_five_held::<A, B, C, D, E>(values, after);
    let ids = crate::storage::tuples::column_ids(<(A, B, C, D, E)>::spec_columns()).to_set();
    assert(A::spec_id() != E::spec_id());
    assert(B::spec_id() != E::spec_id());
    assert(C::spec_id() != E::spec_id());
    assert(D::spec_id() != E::spec_id());
    assert forall|id: ComponentId| #[trigger]
        after.remove_keys(ids).contains_key(id) <==> before.contains_key(id) by {
        assert(ids.contains(id) || (between.contains_key(id) <==> before.contains_key(id)));
        assert(ids.contains(id) || (after.contains_key(id) <==> between.contains_key(id)));
    }
    assert(after.remove_keys(ids) =~= before);
}

/// The columns of six components: one for each member, in order, with the identifier and the
/// layout of that member.
pub proof fn lemma_six_columns<
    A: Component,
    B: Component,
    C: Component,
    D: Component,
    E: Component,
    F: Component,
>()
    ensures
        <(A, B, C, D, E, F)>::spec_columns().len() == 6,
        <(A, B, C, D, E, F)>::spec_columns()[0].0 == A::spec_id(),
        <(A, B, C, D, E, F)>::spec_columns()[0].1 == crate::storage::component::layout_of::<A>(),
        <(A, B, C, D, E, F)>::spec_columns()[1].0 == B::spec_id(),
        <(A, B, C, D, E, F)>::spec_columns()[1].1 == crate::storage::component::layout_of::<B>(),
        <(A, B, C, D, E, F)>::spec_columns()[2].0 == C::spec_id(),
        <(A, B, C, D, E, F)>::spec_columns()[2].1 == crate::storage::component::layout_of::<C>(),
        <(A, B, C, D, E, F)>::spec_columns()[3].0 == D::spec_id(),
        <(A, B, C, D, E, F)>::spec_columns()[3].1 == crate::storage::component::layout_of::<D>(),
        <(A, B, C, D, E, F)>::spec_columns()[4].0 == E::spec_id(),
        <(A, B, C, D, E, F)>::spec_columns()[4].1 == crate::storage::component::layout_of::<E>(),
        <(A, B, C, D, E, F)>::spec_columns()[5].0 == F::spec_id(),
        <(A, B, C, D, E, F)>::spec_columns()[5].1 == crate::storage::component::layout_of::<F>(),
        crate::storage::tuples::column_ids(<(A, B, C, D, E, F)>::spec_columns()).len() == 6,
        forall|id: ComponentId|
            crate::storage::tuples::column_ids(
                <(A, B, C, D, E, F)>::spec_columns(),
            ).contains(id) <==> {
                ||| id == A::spec_id()
                ||| id == B::spec_id()
                ||| id == C::spec_id()
                ||| id == D::spec_id()
                ||| id == E::spec_id()
                ||| id == F::spec_id()
            },
{
    let ids = crate::storage::tuples::column_ids(<(A, B, C, D, E, F)>::spec_columns());
    assert(ids[0] == A::spec_id());
    assert(ids[1] == B::spec_id());
    assert(ids[2] == C::spec_id());
    assert(ids[3] == D::spec_id());
    assert(ids[4] == E::spec_id());
    assert(ids[5] == F::spec_id());
}

/// The list of the values of six components: they come in order, each with the identifier of its
/// own member and with bytes that stand for it.
pub proof fn lemma_six_listed<
    A: Component,
    B: Component,
    C: Component,
    D: Component,
    E: Component,
    F: Component,
>(
    values: (A, B, C, D, E, F),
    list: Seq<(ComponentId, Seq<u8>)>,
)
    ensures
        crate::storage::tuples::lists::<(A, B, C, D, E, F)>(values, list) <==> {
            &&& list.len() == 6
            &&& list[0].0 == A::spec_id()
            &&& values.0.encoded_by(list[0].1)
            &&& list[1].0 == B::spec_id()
            &&& values.1.encoded_by(list[1].1)
            &&& list[2].0 == C::spec_id()
            &&& values.2.encoded_by(list[2].1)
            &&& list[3].0 == D::spec_id()
            &&& values.3.encoded_by(list[3].1)
            &&& list[4].0 == E::spec_id()
            &&& values.4.encoded_by(list[4].1)
            &&& list[5].0 == F::spec_id()
            &&& values.5.encoded_by(list[5].1)
        },
{
    let ids = crate::storage::component::ids(list);
    let columns = <(A, B, C, D, E, F)>::spec_columns();
    let column_ids = crate::storage::tuples::column_ids(columns);
    assert(ids.len() == list.len());
    assert(column_ids.len() == 6);
    assert(column_ids[0] == A::spec_id());
    assert(0 < list.len() ==> ids[0] == list[0].0);
    assert(column_ids[1] == B::spec_id());
    assert(1 < list.len() ==> ids[1] == list[1].0);
    assert(column_ids[2] == C::spec_id());
    assert(2 < list.len() ==> ids[2] == list[2].0);
    assert(column_ids[3] == D::spec_id());
    assert(3 < list.len() ==> ids[3] == list[3].0);
    assert(column_ids[4] == E::spec_id());
    assert(4 < list.len() ==> ids[4] == list[4].0);
    assert(column_ids[5] == F::spec_id());
    assert(5 < list.len() ==> ids[5] == list[5].0);
    if ids.len() == column_ids.len() && (forall|i: int|
        0 <= i < ids.len() ==> ids[i] == column_ids[i]) {
        assert(ids =~= column_ids);
    }
}

/// A row holds the values of six components exactly if it has each member under its own
/// identifier.
pub proof fn lemma_six_held<
    A: Component,
    B: Component,
    C: Component,
    D: Component,
    E: Component,
    F: Component,
>(
    values: (A, B, C, D, E, F),
    row: Map<ComponentId, Seq<u8>>,
)
    ensures
        crate::storage::tuples::row_holds::<(A, B, C, D, E, F)>(row, values) <==> {
            &&& row.contains_key(A::spec_id())
            &&& values.0.encoded_by(row[A::spec_id()])
            &&& row.contains_key(B::spec_id())
            &&& values.1.encoded_by(row[B::spec_id()])
            &&& row.contains_key(C::spec_id())
            &&& values.2.encoded_by(row[C::spec_id()])
            &&& row.contains_key(D::spec_id())
            &&& values.3.encoded_by(row[D::spec_id()])
            &&& row.contains_key(E::spec_id())
            &&& values.4.encoded_by(row[E::spec_id()])
            &&& row.contains_key(F::spec_id())
            &&& values.5.encoded_by(row[F::spec_id()])
        },
{
    let columns = <(A, B, C, D, E, F)>::spec_columns();
    let parts = crate::storage::tuples::row_parts(columns, row);
    assert(parts.len() == 6);
    assert(columns[0].0 == A::spec_id());
    assert(parts[0] == row[A::spec_id()]);
    assert(columns[1].0 == B::spec_id());
    assert(parts[1] == row[B::spec_id()]);
    assert(columns[2].0 == C::spec_id());
    assert(parts[2] == row[C::spec_id()]);
    assert(columns[3].0 == D::spec_id());
    assert(parts[3] == row[D::spec_id()]);
    assert(columns[4].0 == E::spec_id());
    assert(parts[4] == row[E::spec_id()]);
    assert(columns[5].0 == F::spec_id());
    assert(parts[5] == row[F::spec_id()]);
}

/// Inserting six components: each member is there under its own identifier, taking it out again
/// gives its own value, and what was there under other identifiers is as it was.
pub proof fn lemma_six_inserted<
    A: Component,
    B: Component,
    C: Component,
    D: Component,
    E: Component,
    F: Component,
>(
    before: Map<ComponentId, Seq<u8>>,
    after: Map<ComponentId, Seq<u8>>,
    values: (A, B, C, D, E, F),
)
    requires
        crate::storage::tuples::inserted_into::<(A, B, C, D, E, F)>(before, after, values),
    ensures
        !before.contains_key(A::spec_id()),
        crate::storage::tuples::row_holds::<(A,)>(after, (values.0,)),
        forall|out: (A,)| #[trigger]
            crate::storage::tuples::row_holds::<(A,)>(after, out) ==> out.0 == values.0,
        !before.contains_key(B::spec_id()),
        crate::storage::tuples::row_holds::<(B,)>(after, (values.1,)),
        forall|out: (B,)| #[trigger]
            crate::storage::tuples::row_holds::<(B,)>(after, out) ==> out.0 == values.1,
        !before.contains_key(C::spec_id()),
        crate::storage::tuples::row_holds::<(C,)>(after, (values.2,)),
        forall|out: (C,)| #[trigger]
            crate::storage::tuples::row_holds::<(C,)>(after, out) ==> out.0 == values.2,
        !before.contains_key(D::spec_id()),
        crate::storage::tuples::row_holds::<(D,)>(after, (values.3,)),
        forall|out: (D,)| #[trigger]
            crate::storage::tuples::row_holds::<(D,)>(after, out) ==> out.0 == values.3,
        !before.contains_key(E::spec_id()),
        crate::storage::tuples::row_holds::<(E,)>(after, (values.4,)),
        forall|out: (E,)| #[trigger]
            crate::storage::tuples::row_holds::<(E,)>(after, out) ==> out.0 == values.4,
        !before.contains_key(F::spec_id()),
        crate::storage::tuples::row_holds::<(F,)>(after, (values.5,)),
        forall|out: (F,)| #[trigger]
            crate::storage::tuples::row_holds::<(F,)>(after, out) ==> out.0 == values.5,
        forall|id: ComponentId|
            id != A::spec_id()
                && id != B::spec_id()
                && id != C::spec_id()
                && id != D::spec_id()
                && id != E::spec_id()
                && id != F::spec_id() ==> {
                &&& #[trigger] after.contains_key(id) <==> before.contains_key(id)
                &&& after.contains_key(id) ==> after[id] == before[id]
            },
{
    let ids = crate::storage::tuples::column_ids(<(A, B, C, D, E, F)>::spec_columns()).to_set();
    lemma_six_columns::<A, B, C, D, E, F>();
    lemma_six_held::<A, B, C, D, E, F>(values, after);
    lemma_one_held::<A>((values.0,), after);
    assert forall|out: (A,)| #[trigger]
        crate::storage::tuples::row_holds::<(A,)>(after, out) implies out.0 == values.0 by {
        lemma_one_held::<A>(out, after);
        A::lemma_encoded(values.0, out.0);
    }
    assert(ids.contains(A::spec_id()));
    assert(!after.remove_keys(ids).contains_key(A::spec_id()));
    lemma_one_held::<B>((values.1,), after);
    assert forall|out: (B,)| #[trigger]
        crate::storage::tuples::row_holds::<(B,)>(after, out) implies out.0 == values.1 by {
        lemma_one_held::<B>(out, after);
        B::lemma_encoded(values.1, out.0);
    }
    assert(ids.contains(B::spec_id()));
    assert(!after.remove_keys(ids).contains_key(B::spec_id()));
    lemma_one_held::<C>((values.2,), after);
    assert forall|out: (C,)| #[trigger]
        crate::storage::tuples::row_holds::<(C,)>(after, out) implies out.0 == values.2 by {
        lemma_one_held::<C>(out, after);
        C::lemma_encoded(values.2, out.0);
    }
    assert(ids.contains(C::spec_id()));
    assert(!after.remove_keys(ids).contains_key(C::spec_id()));
    lemma_one_held::<D>((values.3,), after);
    assert forall|out: (D,)| #[trigger]
        crate::storage::tuples::row_holds::<(D,)>(after, out) implies out.0 == values.3 by {
        lemma_one_held::<D>(out, after);
        D::lemma_encoded(values.3, out.0);
    }
    assert(ids.contains(D::spec_id()));
    assert(!after.remove_keys(ids).contains_key(D::spec_id()));
    lemma_one_held::<E>((values.4,), after);
    assert forall|out: (E,)| #[trigger]
        crate::storage::tuples::row_holds::<(E,)>(after, out) implies out.0 == values.4 by {
        lemma_one_held::<E>(out, after);
        E::lemma_encoded(values.4, out.0);
    }
    assert(ids.contains(E::spec_id()));
    assert(!after.remove_keys(ids).contains_key(E::spec_id()));
    lemma_one_held::<F>((values.5,), after);
    assert forall|out: (F,)| #[trigger]
        crate::storage::tuples::row_holds::<(F,)>(after, out) implies out.0 == values.5 by {
        lemma_one_held::<F>(out, after);
        F::lemma_encoded(values.5, out.0);
    }
    assert(ids.contains(F::spec_id()));
    assert(!after.remove_keys(ids).contains_key(F::spec_id()));
    assert forall|id: ComponentId|
        id != A::spec_id()
            && id != B::spec_id()
            && id != C::spec_id()
            && id != D::spec_id()
            && id != E::spec_id()
            && id != F::spec_id() implies {
        &&& #[trigger] after.contains_key(id) <==> before.contains_key(id)
        &&& after.contains_key(id) ==> after[id] == before[id]
    } by {
        assert(!ids.contains(id));
        assert(after.remove_keys(ids).contains_key(id) <==> after.contains_key(id));
    }
}

/// Inserting six components is the same as inserting all but the last, and then the last.
pub proof fn lemma_six_inserted_one_by_one<
    A: Component,
    B: Component,
    C: Component,
    D: Component,
    E: Component,
    F: Component,
>(
    before: Map<ComponentId, Seq<u8>>,
    between: Map<ComponentId, Seq<u8>>,
    after: Map<ComponentId, Seq<u8>>,
    values: (A, B, C, D, E, F),
)
    requires
        crate::storage::tuples::inserted_into::<(A, B, C, D, E)>(
            before,
            between,
            (values.0, values.1, values.2, values.3, values.4),
        ),
        crate::storage::tuples::inserted_into::<(F,)>(between, after, (values.5,)),
    ensures
        crate::storage::tuples::inserted_into::<(A, B, C, D, E, F)>(before, after, values),
{
    lemma_five_inserted::<A, B, C, D, E>(
        before,
        between,
        (values.0, values.1, values.2, values.3, values.4),
    );
    lemma_one_inserted::<F>(between, after, (values.5,));
    lemma_six_columns::<A, B, C, D, E, F>();
    lemma_six_held::<A, B, C, D, E, F>(values, after);
    let ids = crate::storage::tuples::column_ids(<(A, B, C, D, E, F)>::spec_columns()).to_set();
    assert(A::spec_id() != F::spec_id());
    assert(B::spec_id() != F::spec_id());
    assert(C::spec_id() != F::spec_id());
    assert(D::spec_id() != F::spec_id());
    assert(E::spec_id() != F::spec_id());
    assert forall|id: ComponentId| #[trigger]
        after.remove_keys(ids).contains_key(id) <==> before.contains_key(id) by {
        assert(ids.contains(id) || (between.contains_key(id) <==> before.contains_key(id)));
        assert(ids.contains(id) || (after.contains_key(id) <==> between.contains_key(id)));
    }
    assert(after.remove_keys(ids) =~= before);
}

/// The columns of seven components: one for each member, in order, with the identifier and the
/// layout of that member.
pub proof fn lemma_seven_columns<
    A: Component,
    B: Component,
    C: Component,
    D: Component,
    E: Component,
    F: Component,
    G: Component,
>()
    ensures
        <(A, B, C, D, E, F, G)>::spec_columns().len() == 7,
        <(A, B, C, D, E, F, G)>::spec_columns()[0].0 == A::spec_id(),
        <(A, B, C, D, E, F, G)>::spec_columns()[0].1 == crate::storage::component::layout_of::<A>(),
        <(A, B, C, D, E, F, G)>::spec_columns()[1].0 == B::spec_id(),
        <(A, B, C, D, E, F, G)>::spec_columns()[1].1 == crate::storage::component::layout_of::<B>(),
        <(A, B, C, D, E, F, G)>::spec_columns()[2].0 == C::spec_id(),
        <(A, B, C, D, E, F, G)>::spec_columns()[2].1 == crate::storage::component::layout_of::<C>(),
        <(A, B, C, D, E, F, G)>::spec_columns()[3].0 == D::spec_id(),
        <(A, B, C, D, E, F, G)>::spec_columns()[3].1 == crate::storage::component::layout_of::<D>(),
        <(A, B, C, D, E, F, G)>::spec_columns()[4].0 == E::spec_id(),
        <(A, B, C, D, E, F, G)>::spec_columns()[4].1 == crate::storage::component::layout_of::<E>(),
        <(A, B, C, D, E, F, G)>::spec_columns()[5].0 == F::spec_id(),
        <(A, B, C, D, E, F, G)>::spec_columns()[5].1 == crate::storage::component::layout_of::<F>(),
        <(A, B, C, D, E, F, G)>::spec_columns()[6].0 == G::spec_id(),
        <(A, B, C, D, E, F, G)>::spec_columns()[6].1 == crate::storage::component::layout_of::<G>(),
        crate::storage::tuples::column_ids(<(A, B, C, D, E, F, G)>::spec_columns()).len() == 7,
        forall|id: ComponentId|
            crate::storage::tuples::column_ids(
                <(A, B, C, D, E, F, G)>::spec_columns(),
            ).contains(id) <==> {
                ||| id == A::spec_id()
                ||| id == B::spec_id()
                ||| id == C::spec_id()
                ||| id == D::spec_id()
                ||| id == E::spec_id()
                ||| id == F::spec_id()
                ||| id == G::spec_id()
            },
{
    let ids = crate::storage::tuples::column_ids(<(A, B, C, D, E, F, G)>::spec_columns());
    assert(ids[0] == A::spec_id());
    assert(ids[1] == B::spec_id());
    assert(ids[2] == C::spec_id());
    assert(ids[3] == D::spec_id());
    assert(ids[4] == E::spec_id());
    assert(ids[5] == F::spec_id());
    assert(ids[6] == G::spec_id());
}

/// The list of the values of seven components: they come in order, each with the identifier of its
/// own member and with bytes that stand for it.
pub proof fn lemma_seven_listed<
    A: Component,
    B: Component,
    C: Component,
    D: Component,
    E: Component,
    F: Component,
    G: Component,
>(
    values: (A, B, C, D, E, F, G),
    list: Seq<(ComponentId, Seq<u8>)>,
)
    ensures
        crate::storage::tuples::lists::<(A, B, C, D, E, F, G)>(values, list) <==> {
            &&& list.len() == 7
            &&& list[0].0 == A::spec_id()
            &&& values.0.encoded_by(list[0].1)
            &&& list[1].0 == B::spec_id()
            &&& values.1.encoded_by(list[1].1)
            &&& list[2].0 == C::spec_id()
            &&& values.2.encoded_by(list[2].1)
            &&& list[3].0 == D::spec_id()
            &&& values.3.encoded_by(list[3].1)
            &&& list[4].0 == E::spec_id()
            &&& values.4.encoded_by(list[4].1)
            &&& list[5].0 == F::spec_id()
            &&& values.5.encoded_by(list[5].1)
            &&& list[6].0 == G::spec_id()
            &&& values.6.encoded_by(list[6].1)
        },
{
    let ids = crate::storage::component::ids(list);
    let columns = <(A, B, C, D, E, F, G)>::spec_columns();
    let column_ids = crate::storage::tuples::column_ids(columns);
    assert(ids.len() == list.len());
    assert(column_ids.len() == 7);
    assert(column_ids[0] == A::spec_id());
    assert(0 < list.len() ==> ids[0] == list[0].0);
    assert(column_ids[1] == B::spec_id());
    assert(1 < list.len() ==> ids[1] == list[1].0);
    assert(column_ids[2] == C::spec_id());
    assert(2 < list.len() ==> ids[2] == list[2].0);
    assert(column_ids[3] == D::spec_id());
    assert(3 < list.len() ==> ids[3] == list[3].0);
    assert(column_ids[4] == E::spec_id());
    assert(4 < list.len() ==> ids[4] == list[4].0);
    assert(column_ids[5] == F::spec_id());
    assert(5 < list.len() ==> ids[5] == list[5].0);
    assert(column_ids[6] == G::spec_id());
    assert(6 < list.len() ==> ids[6] == list[6].0);
    if ids.len() == column_ids.len() && (forall|i: int|
        0 <= i < ids.len() ==> ids[i] == column_ids[i]) {
        assert(ids =~= column_ids);
    }
}

/// A row holds the values of seven components exactly if it has each member under its own
/// identifier.
pub proof fn lemma_seven_held<
    A: Component,
    B: Component,
    C: Component,
    D: Component,
    E: Component,
    F: Component,
    G: Component,
>(
    values: (A, B, C, D, E, F, G),
    row: Map<ComponentId, Seq<u8>>,
)
    ensures
        crate::storage::tuples::row_holds::<(A, B, C, D, E, F, G)>(row, values) <==> {
            &&& row.contains_key(A::spec_id())
            &&& values.0.encoded_by(row[A::spec_id()])
            &&& row.contains_key(B::spec_id())
            &&& values.1.encoded_by(row[B::spec_id()])
            &&& row.contains_key(C::spec_id())
            &&& values.2.encoded_by(row[C::spec_id()])
            &&& row.contains_key(D::spec_id())
            &&& values.3.encoded_by(row[D::spec_id()])
            &&& row.contains_key(E::spec_id())
            &&& values.4.encoded_by(row[E::spec_id()])
            &&& row.contains_key(F::spec_id())
            &&& values.5.encoded_by(row[F::spec_id()])
            &&& row.contains_key(G::spec_id())
            &&& values.6.encoded_by(row[G::spec_id()])
        },
{
    let columns = <(A, B, C, D, E, F, G)>::spec_columns();
    let parts = crate::storage::tuples::row_parts(columns, row);
    assert(parts.len() == 7);
    assert(columns[0].0 == A::spec_id());
    assert(parts[0] == row[A::spec_id()]);
    assert(columns[1].0 == B::spec_id());
    assert(parts[1] == row[B::spec_id()]);
    assert(columns[2].0 == C::spec_id());
    assert(parts[2] == row[C::spec_id()]);
    assert(columns[3].0 == D::spec_id());
    assert(parts[3] == row[D::spec_id()]);
    assert(columns[4].0 == E::spec_id());
    assert(parts[4] == row[E::spec_id()]);
    assert(columns[5].0 == F::spec_id());
    assert(parts[5] == row[F::spec_id()]);
    assert(columns[6].0 == G::spec_id());
    assert(parts[6] == row[G::spec_id()]);
}

/// Inserting seven components: each member is there under its own identifier, taking it out again
/// gives its own value, and what was there under other identifiers is as it was.
pub proof fn lemma_seven_inserted<
    A: Component,
    B: Component,
    C: Component,
    D: Component,
    E: Component,
    F: Component,
    G: Component,
>(
    before: Map<ComponentId, Seq<u8>>,
    after: Map<ComponentId, Seq<u8>>,
    values: (A, B, C, D, E, F, G),
)
    requires
        crate::storage::tuples::inserted_into::<(A, B, C, D, E, F, G)>(before, after, values),
    ensures
        !before.contains_key(A::spec_id()),
        crate::storage::tuples::row_holds::<(A,)>(after, (values.0,)),
        forall|out: (A,)| #[trigger]
            crate::storage::tuples::row_holds::<(A,)>(after, out) ==> out.0 == values.0,
        !before.contains_key(B::spec_id()),
        crate::storage::tuples::row_holds::<(B,)>(after, (values.1,)),
        forall|out: (B,)| #[trigger]
            crate::storage::tuples::row_holds::<(B,)>(after, out) ==> out.0 == values.1,
        !before.contains_key(C::spec_id()),
        crate::storage::tuples::row_holds::<(C,)>(after, (values.2,)),
        forall|out: (C,)| #[trigger]
            crate::storage::tuples::row_holds::<(C,)>(after, out) ==> out.0 == values.2,
        !before.contains_key(D::spec_id()),
        crate::storage::tuples::row_holds::<(D,)>(after, (values.3,)),
        forall|out: (D,)| #[trigger]
            crate::storage::tuples::row_holds::<(D,)>(after, out) ==> out.0 == values.3,
        !before.contains_key(E::spec_id()),
        crate::storage::tuples::row_holds::<(E,)>(after, (values.4,)),
        forall|out: (E,)| #[trigger]
            crate::storage::tuples::row_holds::<(E,)>(after, out) ==> out.0 == values.4,
        !before.contains_key(F::spec_id()),
        crate::storage::tuples::row_holds::<(F,)>(after, (values.5,)),
        forall|out: (F,)| #[trigger]
            crate::storage::tuples::row_holds::<(F,)>(after, out) ==> out.0 == values.5,
        !before.contains_key(G::spec_id()),
        crate::storage::tuples::row_holds::<(G,)>(after, (values.6,)),
        forall|out: (G,)| #[trigger]
            crate::storage::tuples::row_holds::<(G,)>(after, out) ==> out.0 == values.6,
        forall|id: ComponentId|
            id != A::spec_id()
                && id != B::spec_id()
                && id != C::spec_id()
                && id != D::spec_id()
                && id != E::spec_id()
                && id != F::spec_id()
                && id != G::spec_id() ==> {
                &&& #[trigger] after.contains_key(id) <==> before.contains_key(id)
                &&& after.contains_key(id) ==> after[id] == before[id]
            },
{
    let ids = crate::storage::tuples::column_ids(<(A, B, C, D, E, F, G)>::spec_columns()).to_set();
    lemma_seven_columns::<A, B, C, D, E, F, G>();
    lemma_seven_held::<A, B, C, D, E, F, G>(values, after);
    lemma_one_held::<A>((values.0,), after);
    assert forall|out: (A,)| #[trigger]
        crate::storage::tuples::row_holds::<(A,)>(after, out) implies out.0 == values.0 by {
        lemma_one_held::<A>(out, after);
        A::lemma_encoded(values.0, out.0);
    }
    assert(ids.contains(A::spec_id()));
    assert(!after.remove_keys(ids).contains_key(A::spec_id()));
    lemma_one_held::<B>((values.1,), after);
    assert forall|out: (B,)| #[trigger]
        crate::storage::tuples::row_holds::<(B,)>(after, out) implies out.0 == values.1 by {
        lemma_one_held::<B>(out, after);
        B::lemma_encoded(values.1, out.0);
    }
    assert(ids.contains(B::spec_id()));
    assert(!after.remove_keys(ids).contains_key(B::spec_id()));
    lemma_one_held::<C>((values.2,), after);
    assert forall|out: (C,)| #[trigger]
        crate::storage::tuples::row_holds::<(C,)>(after, out) implies out.0 == values.2 by {
        lemma_one_held::<C>(out, after);
        C::lemma_encoded(values.2, out.0);
    }
    assert(ids.contains(C::spec_id()));
    assert(!after.remove_keys(ids).contains_key(C::spec_id()));
    lemma_one_held::<D>((values.3,), after);
    assert forall|out: (D,)| #[trigger]
        crate::storage::tuples::row_holds::<(D,)>(after, out) implies out.0 == values.3 by {
        lemma_one_held::<D>(out, after);
        D::lemma_encoded(values.3, out.0);
    }
    assert(ids.contains(D::spec_id()));
    assert(!after.remove_keys(ids).contains_key(D::spec_id()));
    lemma_one_held::<E>((values.4,), after);
    assert forall|out: (E,)| #[trigger]
        crate::storage::tuples::row_holds::<(E,)>(after, out) implies out.0 == values.4 by {
        lemma_one_held::<E>(out, after);
        E::lemma_encoded(values.4, out.0);
    }
    assert(ids.contains(E::spec_id()));
    assert(!after.remove_keys(ids).contains_key(E::spec_id()));
    lemma_one_held::<F>((values.5,), after);
    assert forall|out: (F,)| #[trigger]
        crate::storage::tuples::row_holds::<(F,)>(after, out) implies out.0 == values.5 by {
        lemma_one_held::<F>(out, after);
        F::lemma_encoded(values.5, out.0);
    }
    assert(ids.contains(F::spec_id()));
    assert(!after.remove_keys(ids).contains_key(F::spec_id()));
    lemma_one_held::<G>((values.6,), after);
    assert forall|out: (G,)| #[trigger]
        crate::storage::tuples::row_holds::<(G,)>(after, out) implies out.0 == values.6 by {
        lemma_one_held::<G>(out, after);
        G::lemma_encoded(values.6, out.0);
    }
    assert(ids.contains(G::spec_id()));
    assert(!after.remove_keys(ids).contains_key(G::spec_id()));
    assert forall|id: ComponentId|
        id != A::spec_id()
            && id != B::spec_id()
            && id != C::spec_id()
            && id != D::spec_id()
            && id != E::spec_id()
            && id != F::spec_id()
            && id != G::spec_id() implies {
        &&& #[trigger] after.contains_key(id) <==> before.contains_key(id)
        &&& after.contains_key(id) ==> after[id] == before[id]
    } by {
        assert(!ids.contains(id));
        assert(after.remove_keys(ids).contains_key(id) <==> after.contains_key(id));
    }
}

/// Inserting seven components is the same as inserting all but the last, and then the last.
pub proof fn lemma_seven_inserted_one_by_one<
    A: Component,
    B: Component,
    C: Component,
    D: Component,
    E: Component,
    F: Component,
    G: Component,
>(
    before: Map<ComponentId, Seq<u8>>,
    between: Map<ComponentId, Seq<u8>>,
    after: Map<ComponentId, Seq<u8>>,
    values: (A, B, C, D, E, F, G),
)
    requires
        crate::storage::tuples::inserted_into::<(A, B, C, D, E, F)>(
            before,
            between,
            (values.0, values.1, values.2, values.3, values.4, values.5),
        ),
        crate::storage::tuples::inserted_into::<(G,)>(between, after, (values.6,)),
    ensures
        crate::storage::tuples::inserted_into::<(A, B, C, D, E, F, G)>(before, after, values),
{
    lemma_six_inserted::<A, B, C, D, E, F>(
        before,
        between,
        (values.0, values.1, values.2, values.3, values.4, values.5),
    );
    lemma_one_inserted::<G>(between, after, (values.6,));
    lemma_seven_columns::<A, B, C, D, E, F, G>();
    lemma_seven_held::<A, B, C, D, E, F, G>(values, after);
    let ids = crate::storage::tuples::column_ids(<(A, B, C, D, E, F, G)>::spec_columns()).to_set();
    assert(A::spec_id() != G::spec_id());
    assert(B::spec_id() != G::spec_id());
    assert(C::spec_id() != G::spec_id());
    assert(D::spec_id() != G::spec_id());
    assert(E::spec_id() != G::spec_id());
    assert(F::spec_id() != G::spec_id());
    assert forall|id: ComponentId| #[trigger]
        after.remove_keys(ids).contains_key(id) <==> before.contains_key(id) by {
        assert(ids.contains(id) || (between.contains_key(id) <==> before.contains_key(id)));
        assert(ids.contains(id) || (after.contains_key(id) <==> between.contains_key(id)));
    }
    assert(after.remove_keys(ids) =~= before);
}

/// The columns of eight components: one for each member, in order, with the identifier and the
/// layout of that member.
pub proof fn lemma_eight_columns<
    A: Component,
    B: Component,
    C: Component,
    D: Component,
    E: Component,
    F: Component,
    G: Component,
    H: Component,
>()
    ensures
        <(A, B, C, D, E, F, G, H)>::spec_columns().len() == 8,
        <(A, B, C, D, E, F, G, H)>::spec_columns()[0].0 == A::spec_id(),
        <(A, B, C, D, E, F, G, H)>::spec_columns()[0].1
            == crate::storage::component::layout_of::<A>(),
        <(A, B, C, D, E, F, G, H)>::spec_columns()[1].0 == B::spec_id(),
        <(A, B, C, D, E, F, G, H)>::spec_columns()[1].1
            == crate::storage::component::layout_of::<B>(),
        <(A, B, C, D, E, F, G, H)>::spec_columns()[2].0 == C::spec_id(),
        <(A, B, C, D, E, F, G, H)>::spec_columns()[2].1
            == crate::storage::component::layout_of::<C>(),
        <(A, B, C, D, E, F, G, H)>::spec_columns()[3].0 == D::spec_id(),
        <(A, B, C, D, E, F, G, H)>::spec_columns()[3].1
            == crate::storage::component::layout_of::<D>(),
        <(A, B, C, D, E, F, G, H)>::spec_columns()[4].0 == E::spec_id(),
        <(A, B, C, D, E, F, G, H)>::spec_columns()[4].1
            == crate::storage::component::layout_of::<E>(),
        <(A, B, C, D, E, F, G, H)>::spec_columns()[5].0 == F::spec_id(),
        <(A, B, C, D, E, F, G, H)>::spec_columns()[5].1
            == crate::storage::component::layout_of::<F>(),
        <(A, B, C, D, E, F, G, H)>::spec_columns()[6].0 == G::spec_id(),
        <(A, B, C, D, E, F, G, H)>::spec_columns()[6].1
            == crate::storage::component::layout_of::<G>(),
        <(A, B, C, D, E, F, G, H)>::spec_columns()[7].0 == H::spec_id(),
        <(A, B, C, D, E, F, G, H)>::spec_columns()[7].1
            == crate::storage::component::layout_of::<H>(),
        crate::storage::tuples::column_ids(<(A, B, C, D, E, F, G, H)>::spec_columns()).len() == 8,
        forall|id: ComponentId|
            crate::storage::tuples::column_ids(
                <(A, B, C, D, E, F, G, H)>::spec_columns(),
            ).contains(id) <==> {
                ||| id == A::spec_id()
                ||| id == B::spec_id()
                ||| id == C::spec_id()
                ||| id == D::spec_id()
                ||| id == E::spec_id()
                ||| id == F::spec_id()
                ||| id == G::spec_id()
                ||| id == H::spec_id()
            },
{
    let ids = crate::storage::tuples::column_ids(<(A, B, C, D, E, F, G, H)>::spec_columns());
    assert(ids[0] == A::spec_id());
    assert(ids[1] == B::spec_id());
    assert(ids[2] == C::spec_id());
    assert(ids[3] == D::spec_id());
    assert(ids[4] == E::spec_id());
    assert(ids[5] == F::spec_id());
    assert(ids[6] == G::spec_id());
    assert(ids[7] == H::spec_id());
}

/// The list of the values of eight components: they come in order, each with the identifier of its
/// own member and with bytes that stand for it.
pub proof fn lemma_eight_listed<
    A: Component,
    B: Component,
    C: Component,
    D: Component,
    E: Component,
    F: Component,
    G: Component,
    H: Component,
>(
    values: (A, B, C, D, E, F, G, H),
    list: Seq<(ComponentId, Seq<u8>)>,
)
    ensures
        crate::storage::tuples::lists::<(A, B, C, D, E, F, G, H)>(values, list) <==> {
            &&& list.len() == 8
            &&& list[0].0 == A::spec_id()
            &&& values.0.encoded_by(list[0].1)
            &&& list[1].0 == B::spec_id()
            &&& values.1.encoded_by(list[1].1)
            &&& list[2].0 == C::spec_id()
            &&& values.2.encoded_by(list[2].1)
            &&& list[3].0 == D::spec_id()
            &&& values.3.encoded_by(list[3].1)
            &&& list[4].0 == E::spec_id()
            &&& values.4.encoded_by(list[4].1)
            &&& list[5].0 == F::spec_id()
            &&& values.5.encoded_by(list[5].1)
            &&& list[6].0 == G::spec_id()
            &&& values.6.encoded_by(list[6].1)
            &&& list[7].0 == H::spec_id()
            &&& values.7.encoded_by(list[7].1)
        },
{
    let ids = crate::storage::component::ids(list);
    let columns = <(A, B, C, D, E, F, G, H)>::spec_columns();
    let column_ids = crate::storage::tuples::column_ids(columns);
    assert(ids.len() == list.len());
    assert(column_ids.len() == 8);
    assert(column_ids[0] == A::spec_id());
    assert(0 < list.len() ==> ids[0] == list[0].0);
    assert(column_ids[1] == B::spec_id());
    assert(1 < list.len() ==> ids[1] == list[1].0);
    assert(column_ids[2] == C::spec_id());
    assert(2 < list.len() ==> ids[2] == list[2].0);
    assert(column_ids[3] == D::spec_id());
    assert(3 < list.len() ==> ids[3] == list[3].0);
    assert(column_ids[4] == E::spec_id());
    assert(4 < list.len() ==> ids[4] == list[4].0);
    assert(column_ids[5] == F::spec_id());
    assert(5 < list.len() ==> ids[5] == list[5].0);
    assert(column_ids[6] == G::spec_id());
    assert(6 < list.len() ==> ids[6] == list[6].0);
    assert(column_ids[7] == H::spec_id());
    assert(7 < list.len() ==> ids[7] == list[7].0);
    if ids.len() == column_ids.len() && (forall|i: int|
        0 <= i < ids.len() ==> ids[i] == column_ids[i]) {
        assert(ids =~= column_ids);
    }
}

/// A row holds the values of eight components exactly if it has each member under its own
/// identifier.
pub proof fn lemma_eight_held<
    A: Component,
    B: Component,
    C: Component,
    D: Component,
    E: Component,
    F: Component,
    G: Component,
    H: Component,
>(
    values: (A, B, C, D, E, F, G, H),
    row: Map<ComponentId, Seq<u8>>,
)
    ensures
        crate::storage::tuples::row_holds::<(A, B, C, D, E, F, G, H)>(row, values) <==> {
            &&& row.contains_key(A::spec_id())
            &&& values.0.encoded_by(row[A::spec_id()])
            &&& row.contains_key(B::spec_id())
            &&& values.1.encoded_by(row[B::spec_id()])
            &&& row.contains_key(C::spec_id())
            &&& values.2.encoded_by(row[C::spec_id()])
            &&& row.contains_key(D::spec_id())
            &&& values.3.encoded_by(row[D::spec_id()])
            &&& row.contains_key(E::spec_id())
            &&& values.4.encoded_by(row[E::spec_id()])
            &&& row.contains_key(F::spec_id())
            &&& values.5.encoded_by(row[F::spec_id()])
            &&& row.contains_key(G::spec_id())
            &&& values.6.encoded_by(row[G::spec_id()])
            &&& row.contains_key(H::spec_id())
            &&& values.7.encoded_by(row[H::spec_id()])
        },
{
    let columns = <(A, B, C, D, E, F, G, H)>::spec_columns();
    let parts = crate::storage::tuples::row_parts(columns, row);
    assert(parts.len() == 8);
    assert(columns[0].0 == A::spec_id());
    assert(parts[0] == row[A::spec_id()]);
    assert(columns[1].0 == B::spec_id());
    assert(parts[1] == row[B::spec_id()]);
    assert(columns[2].0 == C::spec_id());
    assert(parts[2] == row[C::spec_id()]);
    assert(columns[3].0 == D::spec_id());
    assert(parts[3] == row[D::spec_id()]);
    assert(columns[4].0 == E::spec_id());
    assert(parts[4] == row[E::spec_id()]);
    assert(columns[5].0 == F::spec_id());
    assert(parts[5] == row[F::spec_id()]);
    assert(columns[6].0 == G::spec_id());
    assert(parts[6] == row[G::spec_id()]);
    assert(columns[7].0 == H::spec_id());
    assert(parts[7] == row[H::spec_id()]);
}

/// Inserting eight components: each member is there under its own identifier, taking it out again
/// gives its own value, and what was there under other identifiers is as it was.
pub proof fn lemma_eight_inserted<
    A: Component,
    B: Component,
    C: Component,
    D: Component,
    E: Component,
    F: Component,
    G: Component,
    H: Component,
>(
    before: Map<ComponentId, Seq<u8>>,
    after: Map<ComponentId, Seq<u8>>,
    values: (A, B, C, D, E, F, G, H),
)
    requires
        crate::storage::tuples::inserted_into::<(A, B, C, D, E, F, G, H)>(before, after, values),
    ensures
        !before.contains_key(A::spec_id()),
        crate::storage::tuples::row_holds::<(A,)>(after, (values.0,)),
        forall|out: (A,)| #[trigger]
            crate::storage::tuples::row_holds::<(A,)>(after, out) ==> out.0 == values.0,
        !before.contains_key(B::spec_id()),
        crate::storage::tuples::row_holds::<(B,)>(after, (values.1,)),
        forall|out: (B,)| #[trigger]
            crate::storage::tuples::row_holds::<(B,)>(after, out) ==> out.0 == values.1,
        !before.contains_key(C::spec_id()),
        crate::storage::tuples::row_holds::<(C,)>(after, (values.2,)),
        forall|out: (C,)| #[trigger]
            crate::storage::tuples::row_holds::<(C,)>(after, out) ==> out.0 == values.2,
        !before.contains_key(D::spec_id()),
        crate::storage::tuples::row_holds::<(D,)>(after, (values.3,)),
        forall|out: (D,)| #[trigger]
            crate::storage::tuples::row_holds::<(D,)>(after, out) ==> out.0 == values.3,
        !before.contains_key(E::spec_id()),
        crate::storage::tuples::row_holds::<(E,)>(after, (values.4,)),
        forall|out: (E,)| #[trigger]
            crate::storage::tuples::row_holds::<(E,)>(after, out) ==> out.0 == values.4,
        !before.contains_key(F::spec_id()),
        crate::storage::tuples::row_holds::<(F,)>(after, (values.5,)),
        forall|out: (F,)| #[trigger]
            crate::storage::tuples::row_holds::<(F,)>(after, out) ==> out.0 == values.5,
        !before.contains_key(G::spec_id()),
        crate::storage::tuples::row_holds::<(G,)>(after, (values.6,)),
        forall|out: (G,)| #[trigger]
            crate::storage::tuples::row_holds::<(G,)>(after, out) ==> out.0 == values.6,
        !before.contains_key(H::spec_id()),
        crate::storage::tuples::row_holds::<(H,)>(after, (values.7,)),
        forall|out: (H,)| #[trigger]
            crate::storage::tuples::row_holds::<(H,)>(after, out) ==> out.0 == values.7,
        forall|id: ComponentId|
            id != A::spec_id()
                && id != B::spec_id()
                && id != C::spec_id()
                && id != D::spec_id()
                && id != E::spec_id()
                && id != F::spec_id()
                && id != G::spec_id()
                && id != H::spec_id() ==> {
                &&& #[trigger] after.contains_key(id) <==> before.contains_key(id)
                &&& after.contains_key(id) ==> after[id] == before[id]
            },
{
    let ids = crate::storage::tuples::column_ids(
        <(A, B, C, D, E, F, G, H)>::spec_columns(),
    ).to_set();
    lemma_eight_columns::<A, B, C, D, E, F, G, H>();
    lemma_eight_held::<A, B, C, D, E, F, G, H>(values, after);
    lemma_one_held::<A>((values.0,), after);
    assert forall|out: (A,)| #[trigger]
        crate::storage::tuples::row_holds::<(A,)>(after, out) implies out.0 == values.0 by {
        lemma_one_held::<A>(out, after);
        A::lemma_encoded(values.0, out.0);
    }
    assert(ids.contains(A::spec_id()));
    assert(!after.remove_keys(ids).contains_key(A::spec_id()));
    lemma_one_held::<B>((values.1,), after);
    assert forall|out: (B,)| #[trigger]
        crate::storage::tuples::row_holds::<(B,)>(after, out) implies out.0 == values.1 by {
        lemma_one_held::<B>(out, after);
        B::lemma_encoded(values.1, out.0);
    }
    assert(ids.contains(B::spec_id()));
    assert(!after.remove_keys(ids).contains_key(B::spec_id()));
    lemma_one_held::<C>((values.2,), after);
    assert forall|out: (C,)| #[trigger]
        crate::storage::tuples::row_holds::<(C,)>(after, out) implies out.0 == values.2 by {
        lemma_one_held::<C>(out, after);
        C::lemma_encoded(values.2, out.0);
    }
    assert(ids.contains(C::spec_id()));
    assert(!after.remove_keys(ids).contains_key(C::spec_id()));
    lemma_one_held::<D>((values.3,), after);
    assert forall|out: (D,)| #[trigger]
        crate::storage::tuples::row_holds::<(D,)>(after, out) implies out.0 == values.3 by {
        lemma_one_held::<D>(out, after);
        D::lemma_encoded(values.3, out.0);
    }
    assert(ids.contains(D::spec_id()));
    assert(!after.remove_keys(ids).contains_key(D::spec_id()));
    lemma_one_held::<E>((values.4,), after);
    assert forall|out: (E,)| #[trigger]
        crate::storage::tuples::row_holds::<(E,)>(after, out) implies out.0 == values.4 by {
        lemma_one_held::<E>(out, after);
        E::lemma_encoded(values.4, out.0);
    }
    assert(ids.contains(E::spec_id()));
    assert(!after.remove_keys(ids).contains_key(E::spec_id()));
    lemma_one_held::<F>((values.5,), after);
    assert forall|out: (F,)| #[trigger]
        crate::storage::tuples::row_holds::<(F,)>(after, out) implies out.0 == values.5 by {
        lemma_one_held::<F>(out, after);
        F::lemma_encoded(values.5, out.0);
    }
    assert(ids.contains(F::spec_id()));
    assert(!after.remove_keys(ids).contains_key(F::spec_id()));
    lemma_one_held::<G>((values.6,), after);
    assert forall|out: (G,)| #[trigger]
        crate::storage::tuples::row_holds::<(G,)>(after, out) implies out.0 == values.6 by {
        lemma_one_held::<G>(out, after);
        G::lemma_encoded(values.6, out.0);
    }
    assert(ids.contains(G::spec_id()));
    assert(!after.remove_keys(ids).contains_key(G::spec_id()));
    lemma_one_held::<H>((values.7,), after);
    assert forall|out: (H,)| #[trigger]
        crate::storage::tuples::row_holds::<(H,)>(after, out) implies out.0 == values.7 by {
        lemma_one_held::<H>(out, after);
        H::lemma_encoded(values.7, out.0);
    }
    assert(ids.contains(H::spec_id()));
    assert(!after.remove_keys(ids).contains_key(H::spec_id()));
    assert forall|id: ComponentId|
        id != A::spec_id()
            && id != B::spec_id()
            && id != C::spec_id()
            && id != D::spec_id()
            && id != E::spec_id()
            && id != F::spec_id()
            && id != G::spec_id()
            && id != H::spec_id() implies {
        &&& #[trigger] after.contains_key(id) <==> before.contains_key(id)
        &&& after.contains_key(id) ==> after[id] == before[id]
    } by {
        assert(!ids.contains(id));
        assert(after.remove_keys(ids).contains_key(id) <==> after.contains_key(id));
    }
}

/// Inserting eight components is the same as inserting all but the last, and then the last.
pub proof fn lemma_eight_inserted_one_by_one<
    A: Component,
    B: Component,
    C: Component,
    D: Component,
    E: Component,
    F: Component,
    G: Component,
    H: Component,
>(
    before: Map<ComponentId, Seq<u8>>,
    between: Map<ComponentId, Seq<u8>>,
    after: Map<ComponentId, Seq<u8>>,
    values: (A, B, C, D, E, F, G, H),
)
    requires
        crate::storage::tuples::inserted_into::<(A, B, C, D, E, F, G)>(
            before,
            between,
            (values.0, values.1, values.2, values.3, values.4, values.5, values.6),
        ),
        crate::storage::tuples::inserted_into::<(H,)>(between, after, (values.7,)),
    ensures
        crate::storage::tuples::inserted_into::<(A, B, C, D, E, F, G, H)>(before, after, values),
{
    lemma_seven_inserted::<A, B, C, D, E, F, G>(
        before,
        between,
        (values.0, values.1, values.2, values.3, values.4, values.5, values.6),
    );
    lemma_one_inserted::<H>(between, after, (values.7,));
    lemma_eight_columns::<A, B, C, D, E, F, G, H>();
    lemma_eight_held::<A, B, C, D, E, F, G, H>(values, after);
    let ids = crate::storage::tuples::column_ids(
        <(A, B, C, D, E, F, G, H)>::spec_columns(),
    ).to_set();
    assert(A::spec_id() != H::spec_id());
    assert(B::spec_id() != H::spec_id());
    assert(C::spec_id() != H::spec_id());
    assert(D::spec_id() != H::spec_id());
    assert(E::spec_id() != H::spec_id());
    assert(F::spec_id() != H::spec_id());
    assert(G::spec_id() != H::spec_id());
    assert forall|id: ComponentId| #[trigger]
        after.remove_keys(ids).contains_key(id) <==> before.contains_key(id) by {
        assert(ids.contains(id) || (between.contains_key(id) <==> before.contains_key(id)));
        assert(ids.contains(id) || (after.contains_key(id) <==> between.contains_key(id)));
    }
    assert(after.remove_keys(ids) =~= before);
}

/// The columns of nine components: one for each member, in order, with the identifier and the
/// layout of that member.
pub proof fn lemma_nine_columns<
    A: Component,
    B: Component,
    C: Component,
    D: Component,
    E: Component,
    F: Component,
    G: Component,
    H: Component,
    I: Component,
>()
    ensures
        <(A, B, C, D, E, F, G, H, I)>::spec_columns().len() == 9,
        <(A, B, C, D, E, F, G, H, I)>::spec_columns()[0].0 == A::spec_id(),
        <(A, B, C, D, E, F, G, H, I)>::spec_columns()[0].1
            == crate::storage::component::layout_of::<A>(),
        <(A, B, C, D, E, F, G, H, I)>::spec_columns()[1].0 == B::spec_id(),
        <(A, B, C, D, E, F, G, H, I)>::spec_columns()[1].1
            == crate::storage::component::layout_of::<B>(),
        <(A, B, C, D, E, F, G, H, I)>::spec_columns()[2].0 == C::spec_id(),
        <(A, B, C, D, E, F, G, H, I)>::spec_columns()[2].1
            == crate::storage::component::layout_of::<C>(),
        <(A, B, C, D, E, F, G, H, I)>::spec_columns()[3].0 == D::spec_id(),
        <(A, B, C, D, E, F, G, H, I)>::spec_columns()[3].1
            == crate::storage::component::layout_of::<D>(),
        <(A, B, C, D, E, F, G, H, I)>::spec_columns()[4].0 == E::spec_id(),
        <(A, B, C, D, E, F, G, H, I)>::spec_columns()[4].1
            == crate::storage::component::layout_of::<E>(),
        <(A, B, C, D, E, F, G, H, I)>::spec_columns()[5].0 == F::spec_id(),
        <(A, B, C, D, E, F, G, H, I)>::spec_columns()[5].1
            == crate::storage::component::layout_of::<F>(),
        <(A, B, C, D, E, F, G, H, I)>::spec_columns()[6].0 == G::spec_id(),
        <(A, B, C, D, E, F, G, H, I)>::spec_columns()[6].1
            == crate::storage::component::layout_of::<G>(),
        <(A, B, C, D, E, F, G, H, I)>::spec_columns()[7].0 == H::spec_id(),
        <(A, B, C, D, E, F, G, H, I)>::spec_columns()[7].1
            == crate::storage::component::layout_of::<H>(),
        <(A, B, C, D, E, F, G, H, I)>::spec_columns()[8].0 == I::spec_id(),
        <(A, B, C, D, E, F, G, H, I)>::spec_columns()[8].1
            == crate::storage::component::layout_of::<I>(),
        crate::storage::tuples::column_ids(<(A, B, C, D, E, F, G, H, I)>::spec_columns()).len()
            == 9,
        forall|id: ComponentId|
            crate::storage::tuples::column_ids(
                <(A, B, C, D, E, F, G, H, I)>::spec_columns(),
            ).contains(id) <==> {
                ||| id == A::spec_id()
                ||| id == B::spec_id()
                ||| id == C::spec_id()
                ||| id == D::spec_id()
                ||| id == E::spec_id()
                ||| id == F::spec_id()
                ||| id == G::spec_id()
                ||| id == H::spec_id()
                ||| id == I::spec_id()
            },
{
    let ids = crate::storage::tuples::column_ids(<(A, B, C, D, E, F, G, H, I)>::spec_columns());
    assert(ids[0] == A::spec_id());
    assert(ids[1] == B::spec_id());
    assert(ids[2] == C::spec_id());
    assert(ids[3] == D::spec_id());
    assert(ids[4] == E::spec_id());
    assert(ids[5] == F::spec_id());
    assert(ids[6] == G::spec_id());
    assert(ids[7] == H::spec_id());
    assert(ids[8] == I::spec_id());
}

/// The list of the values of nine components: they come in order, each with the identifier of its
/// own member and with bytes that stand for it.
pub proof fn lemma_nine_listed<
    A: Component,
    B: Component,
    C: Component,
    D: Component,
    E: Component,
    F: Component,
    G: Component,
    H: Component,
    I: Component,
>(
    values: (A, B, C, D, E, F, G, H, I),
    list: Seq<(ComponentId, Seq<u8>)>,
)
    ensures
        crate::storage::tuples::lists::<(A, B, C, D, E, F, G, H, I)>(values, list) <==> {
            &&& list.len() == 9
            &&& list[0].0 == A::spec_id()
            &&& values.0.encoded_by(list[0].1)
            &&& list[1].0 == B::spec_id()
            &&& values.1.encoded_by(list[1].1)
            &&& list[2].0 == C::spec_id()
            &&& values.2.encoded_by(list[2].1)
            &&& list[3].0 == D::spec_id()
            &&& values.3.encoded_by(list[3].1)
            &&& list[4].0 == E::spec_id()
            &&& values.4.encoded_by(list[4].1)
            &&& list[5].0 == F::spec_id()
            &&& values.5.encoded_by(list[5].1)
            &&& list[6].0 == G::spec_id()
            &&& values.6.encoded_by(list[6].1)
            &&& list[7].0 == H::spec_id()
            &&& values.7.encoded_by(list[7].1)
            &&& list[8].0 == I::spec_id()
            &&& values.8.encoded_by(list[8].1)
        },
{
    let ids = crate::storage::component::ids(list);
    let columns = <(A, B, C, D, E, F, G, H, I)>::spec_columns();
    let column_ids = crate::storage::tuples::column_ids(columns);
    assert(ids.len() == list.len());
    assert(column_ids.len() == 9);
    assert(column_ids[0] == A::spec_id());
    assert(0 < list.len() ==> ids[0] == list[0].0);
    assert(column_ids[1] == B::spec_id());
    assert(1 < list.len() ==> ids[1] == list[1].0);
    assert(column_ids[2] == C::spec_id());
    assert(2 < list.len() ==> ids[2] == list[2].0);
    assert(column_ids[3] == D::spec_id());
    assert(3 < list.len() ==> ids[3] == list[3].0);
    assert(column_ids[4] == E::spec_id());
    assert(4 < list.len() ==> ids[4] == list[4].0);
    assert(column_ids[5] == F::spec_id());
    assert(5 < list.len() ==> ids[5] == list[5].0);
    assert(column_ids[6] == G::spec_id());
    assert(6 < list.len() ==> ids[6] == list[6].0);
    assert(column_ids[7] == H::spec_id());
    assert(7 < list.len() ==> ids[7] == list[7].0);
    assert(column_ids[8] == I::spec_id());
    assert(8 < list.len() ==> ids[8] == list[8].0);
    if ids.len() == column_ids.len() && (forall|i: int|
        0 <= i < ids.len() ==> ids[i] == column_ids[i]) {
        assert(ids =~= column_ids);
    }
}

/// A row holds the values of nine components exactly if it has each member under its own
/// identifier.
pub proof fn lemma_nine_held<
    A: Component,
    B: Component,
    C: Component,
    D: Component,
    E: Component,
    F: Component,
    G: Component,
    H: Component,
    I: Component,
>(
    values: (A, B, C, D, E, F, G, H, I),
    row: Map<ComponentId, Seq<u8>>,
)
    ensures
        crate::storage::tuples::row_holds::<(A, B, C, D, E, F, G, H, I)>(row, values) <==> {
            &&& row.contains_key(A::spec_id())
            &&& values.0.encoded_by(row[A::spec_id()])
            &&& row.contains_key(B::spec_id())
            &&& values.1.encoded_by(row[B::spec_id()])
            &&& row.contains_key(C::spec_id())
            &&& values.2.encoded_by(row[C::spec_id()])
            &&& row.contains_key(D::spec_id())
            &&& values.3.encoded_by(row[D::spec_id()])
            &&& row.contains_key(E::spec_id())
            &&& values.4.encoded_by(row[E::spec_id()])
            &&& row.contains_key(F::spec_id())
            &&& values.5.encoded_by(row[F::spec_id()])
            &&& row.contains_key(G::spec_id())
            &&& values.6.encoded_by(row[G::spec_id()])
            &&& row.contains_key(H::spec_id())
            &&& values.7.encoded_by(row[H::spec_id()])
            &&& row.contains_key(I::spec_id())
            &&& values.8.encoded_by(row[I::spec_id()])
        },
{
    let columns = <(A, B, C, D, E, F, G, H, I)>::spec_columns();
    let parts = crate::storage::tuples::row_parts(columns, row);
    assert(parts.len() == 9);
    assert(columns[0].0 == A::spec_id());
    assert(parts[0] == row[A::spec_id()]);
    assert(columns[1].0 == B::spec_id());
    assert(parts[1] == row[B::spec_id()]);
    assert(columns[2].0 == C::spec_id());
    assert(parts[2] == row[C::spec_id()]);
    assert(columns[3].0 == D::spec_id());
    assert(parts[3] == row[D::spec_id()]);
    assert(columns[4].0 == E::spec_id());
    assert(parts[4] == row[E::spec_id()]);
    assert(columns[5].0 == F::spec_id());
    assert(parts[5] == row[F::spec_id()]);
    assert(columns[6].0 == G::spec_id());
    assert(parts[6] == row[G::spec_id()]);
    assert(columns[7].0 == H::spec_id());
    assert(parts[7] == row[H::spec_id()]);
    assert(columns[8].0 == I::spec_id());
    assert(parts[8] == row[I::spec_id()]);
}

/// Inserting nine components: each member is there under its own identifier, taking it out again
/// gives its own value, and what was there under other identifiers is as it was.
pub proof fn lemma_nine_inserted<
    A: Component,
    B: Component,
    C: Component,
    D: Component,
    E: Component,
    F: Component,
    G: Component,
    H: Component,
    I: Component,
>(
    before: Map<ComponentId, Seq<u8>>,
    after: Map<ComponentId, Seq<u8>>,
    values: (A, B, C, D, E, F, G, H, I),
)
    requires
        crate::storage::tuples::inserted_into::<(A, B, C, D, E, F, G, H, I)>(before, after, values),
    ensures
        !before.contains_key(A::spec_id()),
        crate::storage::tuples::row_holds::<(A,)>(after, (values.0,)),
        forall|out: (A,)| #[trigger]
            crate::storage::tuples::row_holds::<(A,)>(after, out) ==> out.0 == values.0,
        !before.contains_key(B::spec_id()),
        crate::storage::tuples::row_holds::<(B,)>(after, (values.1,)),
        forall|out: (B,)| #[trigger]
            crate::storage::tuples::row_holds::<(B,)>(after, out) ==> out.0 == values.1,
        !before.contains_key(C::spec_id()),
        crate::storage::tuples::row_holds::<(C,)>(after, (values.2,)),
        forall|out: (C,)| #[trigger]
            crate::storage::tuples::row_holds::<(C,)>(after, out) ==> out.0 == values.2,
        !before.contains_key(D::spec_id()),
        crate::storage::tuples::row_holds::<(D,)>(after, (values.3,)),
        forall|out: (D,)| #[trigger]
            crate::storage::tuples::row_holds::<(D,)>(after, out) ==> out.0 == values.3,
        !before.contains_key(E::spec_id()),
        crate::storage::tuples::row_holds::<(E,)>(after, (values.4,)),
        forall|out: (E,)| #[trigger]
            crate::storage::tuples::row_holds::<(E,)>(after, out) ==> out.0 == values.4,
        !before.contains_key(F::spec_id()),
        crate::storage::tuples::row_holds::<(F,)>(after, (values.5,)),
        forall|out: (F,)| #[trigger]
            crate::storage::tuples::row_holds::<(F,)>(after, out) ==> out.0 == values.5,
        !before.contains_key(G::spec_id()),
        crate::storage::tuples::row_holds::<(G,)>(after, (values.6,)),
        forall|out: (G,)| #[trigger]
            crate::storage::tuples::row_holds::<(G,)>(after, out) ==> out.0 == values.6,
        !before.contains_key(H::spec_id()),
        crate::storage::tuples::row_holds::<(H,)>(after, (values.7,)),
        forall|out: (H,)| #[trigger]
            crate::storage::tuples::row_holds::<(H,)>(after, out) ==> out.0 == values.7,
        !before.contains_key(I::spec_id()),
        crate::storage::tuples::row_holds::<(I,)>(after, (values.8,)),
        forall|out: (I,)| #[trigger]
            crate::storage::tuples::row_holds::<(I,)>(after, out) ==> out.0 == values.8,
        forall|id: ComponentId|
            id != A::spec_id()
                && id != B::spec_id()
                && id != C::spec_id()
                && id != D::spec_id()
                && id != E::spec_id()
                && id != F::spec_id()
                && id != G::spec_id()
                && id != H::spec_id()
                && id != I::spec_id() ==> {
                &&& #[trigger] after.contains_key(id) <==> before.contains_key(id)
                &&& after.contains_key(id) ==> after[id] == before[id]
            },
{
    let ids = crate::storage::tuples::column_ids(
        <(A, B, C, D, E, F, G, H, I)>::spec_columns(),
    ).to_set();
    lemma_nine_columns::<A, B, C, D, E, F, G, H, I>();
    lemma_nine_held::<A, B, C, D, E, F, G, H, I>(values, after);
    lemma_one_held::<A>((values.0,), after);
    assert forall|out: (A,)| #[trigger]
        crate::storage::tuples::row_holds::<(A,)>(after, out) implies out.0 == values.0 by {
        lemma_one_held::<A>(out, after);
        A::lemma_encoded(values.0, out.0);
    }
    assert(ids.contains(A::spec_id()));
    assert(!after.remove_keys(ids).contains_key(A::spec_id()));
    lemma_one_held::<B>((values.1,), after);
    assert forall|out: (B,)| #[trigger]
        crate::storage::tuples::row_holds::<(B,)>(after, out) implies out.0 == values.1 by {
        lemma_one_held::<B>(out, after);
        B::lemma_encoded(values.1, out.0);
    }
    assert(ids.contains(B::spec_id()));
    assert(!after.remove_keys(ids).contains_key(B::spec_id()));
    lemma_one_held::<C>((values.2,), after);
    assert forall|out: (C,)| #[trigger]
        crate::storage::tuples::row_holds::<(C,)>(after, out) implies out.0 == values.2 by {
        lemma_one_held::<C>(out, after);
        C::lemma_encoded(values.2, out.0);
    }
    assert(ids.contains(C::spec_id()));
    assert(!after.remove_keys(ids).contains_key(C::spec_id()));
    lemma_one_held::<D>((values.3,), after);
    assert forall|out: (D,)| #[trigger]
        crate::storage::tuples::row_holds::<(D,)>(after, out) implies out.0 == values.3 by {
        lemma_one_held::<D>(out, after);
        D::lemma_encoded(values.3, out.0);
    }
    assert(ids.contains(D::spec_id()));
    assert(!after.remove_keys(ids).contains_key(D::spec_id()));
    lemma_one_held::<E>((values.4,), after);
    assert forall|out: (E,)| #[trigger]
        crate::storage::tuples::row_holds::<(E,)>(after, out) implies out.0 == values.4 by {
        lemma_one_held::<E>(out, after);
        E::lemma_encoded(values.4, out.0);
    }
    assert(ids.contains(E::spec_id()));
    assert(!after.remove_keys(ids).contains_key(E::spec_id()));
    lemma_one_held::<F>((values.5,), after);
    assert forall|out: (F,)| #[trigger]
        crate::storage::tuples::row_holds::<(F,)>(after, out) implies out.0 == values.5 by {
        lemma_one_held::<F>(out, after);
        F::lemma_encoded(values.5, out.0);
    }
    assert(ids.contains(F::spec_id()));
    assert(!after.remove_keys(ids).contains_key(F::spec_id()));
    lemma_one_held::<G>((values.6,), after);
    assert forall|out: (G,)| #[trigger]
        crate::storage::tuples::row_holds::<(G,)>(after, out) implies out.0 == values.6 by {
        lemma_one_held::<G>(out, after);
        G::lemma_encoded(values.6, out.0);
    }
    assert(ids.contains(G::spec_id()));
    assert(!after.remove_keys(ids).contains_key(G::spec_id()));
    lemma_one_held::<H>((values.7,), after);
    assert forall|out: (H,)| #[trigger]
        crate::storage::tuples::row_holds::<(H,)>(after, out) implies out.0 == values.7 by {
        lemma_one_held::<H>(out, after);
        H::lemma_encoded(values.7, out.0);
    }
    assert(ids.contains(H::spec_id()));
    assert(!after.remove_keys(ids).contains_key(H::spec_id()));
    lemma_one_held::<I>((values.8,), after);
    assert forall|out: (I,)| #[trigger]
        crate::storage::tuples::row_holds::<(I,)>(after, out) implies out.0 == values.8 by {
        lemma_one_held::<I>(out, after);
        I::lemma_encoded(values.8, out.0);
    }
    assert(ids.contains(I::spec_id()));
    assert(!after.remove_keys(ids).contains_key(I::spec_id()));
    assert forall|id: ComponentId|
        id != A::spec_id()
            && id != B::spec_id()
            && id != C::spec_id()
            && id != D::spec_id()
            && id != E::spec_id()
            && id != F::spec_id()
            && id != G::spec_id()
            && id != H::spec_id()
            && id != I::spec_id() implies {
        &&& #[trigger] after.contains_key(id) <==> before.contains_key(id)
        &&& after.contains_key(id) ==> after[id] == before[id]
    } by {
        assert(!ids.contains(id));
        assert(after.remove_keys(ids).contains_key(id) <==> after.contains_key(id));
    }
}

/// Inserting nine components is the same as inserting all but the last, and then the last.
pub proof fn lemma_nine_inserted_one_by_one<
    A: Component,
    B: Component,
    C: Component,
    D: Component,
    E: Component,
    F: Component,
    G: Component,
    H: Component,
    I: Component,
>(
    before: Map<ComponentId, Seq<u8>>,
    between: Map<ComponentId, Seq<u8>>,
    after: Map<ComponentId, Seq<u8>>,
    values: (A, B, C, D, E, F, G, H, I),
)
    requires
        crate::storage::tuples::inserted_into::<(A, B, C, D, E, F, G, H)>(
            before,
            between,
            (values.0, values.1, values.2, values.3, values.4, values.5, values.6, values.7),
        ),
        crate::storage::tuples::inserted_into::<(I,)>(between, after, (values.8,)),
    ensures
        crate::storage::tuples::inserted_into::<(A, B, C, D, E, F, G, H, I)>(before, after, values),
{
    lemma_eight_inserted::<A, B, C, D, E, F, G, H>(
        before,
        between,
        (values.0, values.1, values.2, values.3, values.4, values.5, values.6, values.7),
    );
    lemma_one_inserted::<I>(between, after, (values.8,));
    lemma_nine_columns::<A, B, C, D, E, F, G, H, I>();
    lemma_nine_held::<A, B, C, D, E, F, G, H, I>(values, after);
    let ids = crate::storage::tuples::column_ids(
        <(A, B, C, D, E, F, G, H, I)>::spec_columns(),
    ).to_set();
    assert(A::spec_id() != I::spec_id());
    assert(B::spec_id() != I::spec_id());
    assert(C::spec_id() != I::spec_id());
    assert(D::spec_id() != I::spec_id());
    assert(E::spec_id() != I::spec_id());
    assert(F::spec_id() != I::spec_id());
    assert(G::spec_id() != I::spec_id());
    assert(H::spec_id() != I::spec_id());
    assert forall|id: ComponentId| #[trigger]
        after.remove_keys(ids).contains_key(id) <==> before.contains_key(id) by {
        assert(ids.contains(id) || (between.contains_key(id) <==> before.contains_key(id)));
        assert(ids.contains(id) || (after.contains_key(id) <==> between.contains_key(id)));
    }
    assert(after.remove_keys(ids) =~= before);
}

/// The columns of ten components: one for each member, in order, with the identifier and the
/// layout of that member.
pub proof fn lemma_ten_columns<
    A: Component,
    B: Component,
    C: Component,
    D: Component,
    E: Component,
    F: Component,
    G: Component,
    H: Component,
    I: Component,
    J: Component,
>()
    ensures
        <(A, B, C, D, E, F, G, H, I, J)>::spec_columns().len() == 10,
        <(A, B, C, D, E, F, G, H, I, J)>::spec_columns()[0].0 == A::spec_id(),
        <(A, B, C, D, E, F, G, H, I, J)>::spec_columns()[0].1
            == crate::storage::component::layout_of::<A>(),
        <(A, B, C, D, E, F, G, H, I, J)>::spec_columns()[1].0 == B::spec_id(),
        <(A, B, C, D, E, F, G, H, I, J)>::spec_columns()[1].1
            == crate::storage::component::layout_of::<B>(),
        <(A, B, C, D, E, F, G, H, I, J)>::spec_columns()[2].0 == C::spec_id(),
        <(A, B, C, D, E, F, G, H, I, J)>::spec_columns()[2].1
            == crate::storage::component::layout_of::<C>(),
        <(A, B, C, D, E, F, G, H, I, J)>::spec_columns()[3].0 == D::spec_id(),
        <(A, B, C, D, E, F, G, H, I, J)>::spec_columns()[3].1
            == crate::storage::component::layout_of::<D>(),
        <(A, B, C, D, E, F, G, H, I, J)>::spec_columns()[4].0 == E::spec_id(),
        <(A, B, C, D, E, F, G, H, I, J)>::spec_columns()[4].1
            == crate::storage::component::layout_of::<E>(),
        <(A, B, C, D, E, F, G, H, I, J)>::spec_columns()[5].0 == F::spec_id(),
        <(A, B, C, D, E, F, G, H, I, J)>::spec_columns()[5].1
            == crate::storage::component::layout_of::<F>(),
        <(A, B, C, D, E, F, G, H, I, J)>::spec_columns()[6].0 == G::spec_id(),
        <(A, B, C, D, E, F, G, H, I, J)>::spec_columns()[6].1
            == crate::storage::component::layout_of::<G>(),
        <(A, B, C, D, E, F, G, H, I, J)>::spec_columns()[7].0 == H::spec_id(),
        <(A, B, C, D, E, F, G, H, I, J)>::spec_columns()[7].1
            == crate::storage::component::layout_of::<H>(),
        <(A, B, C, D, E, F, G, H, I, J)>::spec_columns()[8].0 == I::spec_id(),
        <(A, B, C, D, E, F, G, H, I, J)>::spec_columns()[8].1
            == crate::storage::component::layout_of::<I>(),
        <(A, B, C, D, E, F, G, H, I, J)>::spec_columns()[9].0 == J::spec_id(),
        <(A, B, C, D, E, F, G, H, I, J)>::spec_columns()[9].1
            == crate::storage::component::layout_of::<J>(),
        crate::storage::tuples::column_ids(<(A, B, C, D, E, F, G, H, I, J)>::spec_columns()).len()
            == 10,
        forall|id: ComponentId|
            crate::storage::tuples::column_ids(
                <(A, B, C, D, E, F, G, H, I, J)>::spec_columns(),
            ).contains(id) <==> {
                ||| id == A::spec_id()
                ||| id == B::spec_id()
                ||| id == C::spec_id()
                ||| id == D::spec_id()
                ||| id == E::spec_id()
                ||| id == F::spec_id()
                ||| id == G::spec_id()
                ||| id == H::spec_id()
                ||| id == I::spec_id()
                ||| id == J::spec_id()
            },
{
    let ids = crate::storage::tuples::column_ids(<(A, B, C, D, E, F, G, H, I, J)>::spec_columns());
    assert(ids[0] == A::spec_id());
    assert(ids[1] == B::spec_id());
    assert(ids[2] == C::spec_id());
    assert(ids[3] == D::spec_id());
    assert(ids[4] == E::spec_id());
    assert(ids[5] == F::spec_id());
    assert(ids[6] == G::spec_id());
    assert(ids[7] == H::spec_id());
    assert(ids[8] == I::spec_id());
    assert(ids[9] == J::spec_id());
}

/// The list of the values of ten components: they come in order, each with the identifier of its
/// own member and with bytes that stand for it.
pub proof fn lemma_ten_listed<
    A: Component,
    B: Component,
    C: Component,
    D: Component,
    E: Component,
    F: Component,
    G: Component,
    H: Component,
    I: Component,
    J: Component,
>(
    values: (A, B, C, D, E, F, G, H, I, J),
    list: Seq<(ComponentId, Seq<u8>)>,
)
    ensures
        crate::storage::tuples::lists::<(A, B, C, D, E, F, G, H, I, J)>(values, list) <==> {
            &&& list.len() == 10
            &&& list[0].0 == A::spec_id()
            &&& values.0.encoded_by(list[0].1)
            &&& list[1].0 == B::spec_id()
            &&& values.1.encoded_by(list[1].1)
            &&& list[2].0 == C::spec_id()
            &&& values.2.encoded_by(list[2].1)
            &&& list[3].0 == D::spec_id()
            &&& values.3.encoded_by(list[3].1)
            &&& list[4].0 == E::spec_id()
            &&& values.4.encoded_by(list[4].1)
            &&& list[5].0 == F::spec_id()
            &&& values.5.encoded_by(list[5].1)
            &&& list[6].0 == G::spec_id()
            &&& values.6.encoded_by(list[6].1)
            &&& list[7].0 == H::spec_id()
            &&& values.7.encoded_by(list[7].1)
            &&& list[8].0 == I::spec_id()
            &&& values.8.encoded_by(list[8].1)
            &&& list[9].0 == J::spec_id()
            &&& values.9.encoded_by(list[9].1)
        },
{
    let ids = crate::storage::component::ids(list);
    let columns = <(A, B, C, D, E, F, G, H, I, J)>::spec_columns();
    let column_ids = crate::storage::tuples::column_ids(columns);
    assert(ids.len() == list.len());
    assert(column_ids.len() == 10);
    assert(column_ids[0] == A::spec_id());
    assert(0 < list.len() ==> ids[0] == list[0].0);
    assert(column_ids[1] == B::spec_id());
    assert(1 < list.len() ==> ids[1] == list[1].0);
    assert(column_ids[2] == C::spec_id());
    assert(2 < list.len() ==> ids[2] == list[2].0);
    assert(column_ids[3] == D::spec_id());
    assert(3 < list.len() ==> ids[3] == list[3].0);
    assert(column_ids[4] == E::spec_id());
    assert(4 < list.len() ==> ids[4] == list[4].0);
    assert(column_ids[5] == F::spec_id());
    assert(5 < list.len() ==> ids[5] == list[5].0);
    assert(column_ids[6] == G::spec_id());
    assert(6 < list.len() ==> ids[6] == list[6].0);
    assert(column_ids[7] == H::spec_id());
    assert(7 < list.len() ==> ids[7] == list[7].0);
    assert(column_ids[8] == I::spec_id());
    assert(8 < list.len() ==> ids[8] == list[8].0);
    assert(column_ids[9] == J::spec_id());
    assert(9 < list.len() ==> ids[9] == list[9].0);
    if ids.len() == column_ids.len() && (forall|i: int|
        0 <= i < ids.len() ==> ids[i] == column_ids[i]) {
        assert(ids =~= column_ids);
    }
}

/// A row holds the values of ten components exactly if it has each member under its own
/// identifier.
pub proof fn lemma_ten_held<
    A: Component,
    B: Component,
    C: Component,
    D: Component,
    E: Component,
    F: Component,
    G: Component,
    H: Component,
    I: Component,
    J: Component,
>(
    values: (A, B, C, D, E, F, G, H, I, J),
    row: Map<ComponentId, Seq<u8>>,
)
    ensures
        crate::storage::tuples::row_holds::<(A, B, C, D, E, F, G, H, I, J)>(row, values) <==> {
            &&& row.contains_key(A::spec_id())
            &&& values.0.encoded_by(row[A::spec_id()])
            &&& row.contains_key(B::spec_id())
            &&& values.1.encoded_by(row[B::spec_id()])
            &&& row.contains_key(C::spec_id())
            &&& values.2.encoded_by(row[C::spec_id()])
            &&& row.contains_key(D::spec_id())
            &&& values.3.encoded_by(row[D::spec_id()])
            &&& row.contains_key(E::spec_id())
            &&& values.4.encoded_by(row[E::spec_id()])
            &&& row.contains_key(F::spec_id())
            &&& values.5.encoded_by(row[F::spec_id()])
            &&& row.contains_key(G::spec_id())
            &&& values.6.encoded_by(row[G::spec_id()])
            &&& row.contains_key(H::spec_id())
            &&& values.7.encoded_by(row[H::spec_id()])
            &&& row.contains_key(I::spec_id())
            &&& values.8.encoded_by(row[I::spec_id()])
            &&& row.contains_key(J::spec_id())
            &&& values.9.encoded_by(row[J::spec_id()])
        },
{
    let columns = <(A, B, C, D, E, F, G, H, I, J)>::spec_columns();
    let parts = crate::storage::tuples::row_parts(columns, row);
    assert(parts.len() == 10);
    assert(columns[0].0 == A::spec_id());
    assert(parts[0] == row[A::spec_id()]);
    assert(columns[1].0 == B::spec_id());
    assert(parts[1] == row[B::spec_id()]);
    assert(columns[2].0 == C::spec_id());
    assert(parts[2] == row[C::spec_id()]);
    assert(columns[3].0 == D::spec_id());
    assert(parts[3] == row[D::spec_id()]);
    assert(columns[4].0 == E::spec_id());
    assert(parts[4] == row[E::spec_id()]);
    assert(columns[5].0 == F::spec_id());
    assert(parts[5] == row[F::spec_id()]);
    assert(columns[6].0 == G::spec_id());
    assert(parts[6] == row[G::spec_id()]);
    assert(columns[7].0 == H::spec_id());
    assert(parts[7] == row[H::spec_id()]);
    assert(columns[8].0 == I::spec_id());
    assert(parts[8] == row[I::spec_id()]);
    assert(columns[9].0 == J::spec_id());
    assert(parts[9] == row[J::spec_id()]);
}

/// Inserting ten components: each member is there under its own identifier, taking it out again
/// gives its own value, and what was there under other identifiers is as it was.
pub proof fn lemma_ten_inserted<
    A: Component,
    B: Component,
    C: Component,
    D: Component,
    E: Component,
    F: Component,
    G: Component,
    H: Component,
    I: Component,
    J: Component,
>(
    before: Map<ComponentId, Seq<u8>>,
    after: Map<ComponentId, Seq<u8>>,
    values: (A, B, C, D, E, F, G, H, I, J),
)
    requires
        crate::storage::tuples::inserted_into::<(A, B, C, D, E, F, G, H, I, J)>(
            before,
            after,
            values,
        ),
    ensures
        !before.contains_key(A::spec_id()),
        crate::storage::tuples::row_holds::<(A,)>(after, (values.0,)),
        forall|out: (A,)| #[trigger]
            crate::storage::tuples::row_holds::<(A,)>(after, out) ==> out.0 == values.0,
        !before.contains_key(B::spec_id()),
        crate::storage::tuples::row_holds::<(B,)>(after, (values.1,)),
        forall|out: (B,)| #[trigger]
            crate::storage::tuples::row_holds::<(B,)>(after, out) ==> out.0 == values.1,
        !before.contains_key(C::spec_id()),
        crate::storage::tuples::row_holds::<(C,)>(after, (values.2,)),
        forall|out: (C,)| #[trigger]
            crate::storage::tuples::row_holds::<(C,)>(after, out) ==> out.0 == values.2,
        !before.contains_key(D::spec_id()),
        crate::storage::tuples::row_holds::<(D,)>(after, (values.3,)),
        forall|out: (D,)| #[trigger]
            crate::storage::tuples::row_holds::<(D,)>(after, out) ==> out.0 == values.3,
        !before.contains_key(E::spec_id()),
        crate::storage::tuples::row_holds::<(E,)>(after, (values.4,)),
        forall|out: (E,)| #[trigger]
            crate::storage::tuples::row_holds::<(E,)>(after, out) ==> out.0 == values.4,
        !before.contains_key(F::spec_id()),
        crate::storage::tuples::row_holds::<(F,)>(after, (values.5,)),
        forall|out: (F,)| #[trigger]
            crate::storage::tuples::row_holds::<(F,)>(after, out) ==> out.0 == values.5,
        !before.contains_key(G::spec_id()),
        crate::storage::tuples::row_holds::<(G,)>(after, (values.6,)),
        forall|out: (G,)| #[trigger]
            crate::storage::tuples::row_holds::<(G,)>(after, out) ==> out.0 == values.6,
        !before.contains_key(H::spec_id()),
        crate::storage::tuples::row_holds::<(H,)>(after, (values.7,)),
        forall|out: (H,)| #[trigger]
            crate::storage::tuples::row_holds::<(H,)>(after, out) ==> out.0 == values.7,
        !before.contains_key(I::spec_id()),
        crate::storage::tuples::row_holds::<(I,)>(after, (values.8,)),
        forall|out: (I,)| #[trigger]
            crate::storage::tuples::row_holds::<(I,)>(after, out) ==> out.0 == values.8,
        !before.contains_key(J::spec_id()),
        crate::storage::tuples::row_holds::<(J,)>(after, (values.9,)),
        forall|out: (J,)| #[trigger]
            crate::storage::tuples::row_holds::<(J,)>(after, out) ==> out.0 == values.9,
        forall|id: ComponentId|
            id != A::spec_id()
                && id != B::spec_id()
                && id != C::spec_id()
                && id != D::spec_id()
                && id != E::spec_id()
                && id != F::spec_id()
                && id != G::spec_id()
                && id != H::spec_id()
                && id != I::spec_id()
                && id != J::spec_id() ==> {
                &&& #[trigger] after.contains_key(id) <==> before.contains_key(id)
                &&& after.contains_key(id) ==> after[id] == before[id]
            },
{
    let ids = crate::storage::tuples::column_ids(
        <(A, B, C, D, E, F, G, H, I, J)>::spec_columns(),
    ).to_set();
    lemma_ten_columns::<A, B, C, D, E, F, G, H, I, J>();
    lemma_ten_held::<A, B, C, D, E, F, G, H, I, J>(values, after);
    lemma_one_held::<A>((values.0,), after);
    assert forall|out: (A,)| #[trigger]
        crate::storage::tuples::row_holds::<(A,)>(after, out) implies out.0 == values.0 by {
        lemma_one_held::<A>(out, after);
        A::lemma_encoded(values.0, out.0);
    }
    assert(ids.contains(A::spec_id()));
    assert(!after.remove_keys(ids).contains_key(A::spec_id()));
    lemma_one_held::<B>((values.1,), after);
    assert forall|out: (B,)| #[trigger]
        crate::storage::tuples::row_holds::<(B,)>(after, out) implies out.0 == values.1 by {
        lemma_one_held::<B>(out, after);
        B::lemma_encoded(values.1, out.0);
    }
    assert(ids.contains(B::spec_id()));
    assert(!after.remove_keys(ids).contains_key(B::spec_id()));
    lemma_one_held::<C>((values.2,), after);
    assert forall|out: (C,)| #[trigger]
        crate::storage::tuples::row_holds::<(C,)>(after, out) implies out.0 == values.2 by {
        lemma_one_held::<C>(out, after);
        C::lemma_encoded(values.2, out.0);
    }
    assert(ids.contains(C::spec_id()));
    assert(!after.remove_keys(ids).contains_key(C::spec_id()));
    lemma_one_held::<D>((values.3,), after);
    assert forall|out: (D,)| #[trigger]
        crate::storage::tuples::row_holds::<(D,)>(after, out) implies out.0 == values.3 by {
        lemma_one_held::<D>(out, after);
        D::lemma_encoded(values.3, out.0);
    }
    assert(ids.contains(D::spec_id()));
    assert(!after.remove_keys(ids).contains_key(D::spec_id()));
    lemma_one_held::<E>((values.4,), after);
    assert forall|out: (E,)| #[trigger]
        crate::storage::tuples::row_holds::<(E,)>(after, out) implies out.0 == values.4 by {
        lemma_one_held::<E>(out, after);
        E::lemma_encoded(values.4, out.0);
    }
    assert(ids.contains(E::spec_id()));
    assert(!after.remove_keys(ids).contains_key(E::spec_id()));
    lemma_one_held::<F>((values.5,), after);
    assert forall|out: (F,)| #[trigger]
        crate::storage::tuples::row_holds::<(F,)>(after, out) implies out.0 == values.5 by {
        lemma_one_held::<F>(out, after);
        F::lemma_encoded(values.5, out.0);
    }
    assert(ids.contains(F::spec_id()));
    assert(!after.remove_keys(ids).contains_key(F::spec_id()));
    lemma_one_held::<G>((values.6,), after);
    assert forall|out: (G,)| #[trigger]
        crate::storage::tuples::row_holds::<(G,)>(after, out) implies out.0 == values.6 by {
        lemma_one_held::<G>(out, after);
        G::lemma_encoded(values.6, out.0);
    }
    assert(ids.contains(G::spec_id()));
    assert(!after.remove_keys(ids).contains_key(G::spec_id()));
    lemma_one_held::<H>((values.7,), after);
    assert forall|out: (H,)| #[trigger]
        crate::storage::tuples::row_holds::<(H,)>(after, out) implies out.0 == values.7 by {
        lemma_one_held::<H>(out, after);
        H::lemma_encoded(values.7, out.0);
    }
    assert(ids.contains(H::spec_id()));
    assert(!after.remove_keys(ids).contains_key(H::spec_id()));
    lemma_one_held::<I>((values.8,), after);
    assert forall|out: (I,)| #[trigger]
        crate::storage::tuples::row_holds::<(I,)>(after, out) implies out.0 == values.8 by {
        lemma_one_held::<I>(out, after);
        I::lemma_encoded(values.8, out.0);
    }
    assert(ids.contains(I::spec_id()));
    assert(!after.remove_keys(ids).contains_key(I::spec_id()));
    lemma_one_held::<J>((values.9,), after);
    assert forall|out: (J,)| #[trigger]
        crate::storage::tuples::row_holds::<(J,)>(after, out) implies out.0 == values.9 by {
        lemma_one_held::<J>(out, after);
        J::lemma_encoded(values.9, out.0);
    }
    assert(ids.contains(J::spec_id()));
    assert(!after.remove_keys(ids).contains_key(J::spec_id()));
    assert forall|id: ComponentId|
        id != A::spec_id()
            && id != B::spec_id()
            && id != C::spec_id()
            && id != D::spec_id()
            && id != E::spec_id()
            && id != F::spec_id()
            && id != G::spec_id()
            && id != H::spec_id()
            && id != I::spec_id()
            && id != J::spec_id() implies {
        &&& #[trigger] after.contains_key(id) <==> before.contains_key(id)
        &&& after.contains_key(id) ==> after[id] == before[id]
    } by {
        assert(!ids.contains(id));
        assert(after.remove_keys(ids).contains_key(id) <==> after.contains_key(id));
    }
}

/// Inserting ten components is the same as inserting all but the last, and then the last.
pub proof fn lemma_ten_inserted_one_by_one<
    A: Component,
    B: Component,
    C: Component,
    D: Component,
    E: Component,
    F: Component,
    G: Component,
    H: Component,
    I: Component,
    J: Component,
>(
    before: Map<ComponentId, Seq<u8>>,
    between: Map<ComponentId, Seq<u8>>,
    after: Map<ComponentId, Seq<u8>>,
    values: (A, B, C, D, E, F, G, H, I, J),
)
    requires
        crate::storage::tuples::inserted_into::<(A, B, C, D, E, F, G, H, I)>(
            before,
            between,
            (
                values.0,
                values.1,
                values.2,
                values.3,
                values.4,
                values.5,
                values.6,
                values.7,
                values.8,
            ),
        ),
        crate::storage::tuples::inserted_into::<(J,)>(between, after, (values.9,)),
    ensures
        crate::storage::tuples::inserted_into::<(A, B, C, D, E, F, G, H, I, J)>(
            before,
            after,
            values,
        ),
{
    lemma_nine_inserted::<A, B, C, D, E, F, G, H, I>(
        before,
        between,
        (
            values.0,
            values.1,
            values.2,
            values.3,
            values.4,
            values.5,
            values.6,
            values.7,
            values.8,
        ),
    );
    lemma_one_inserted::<J>(between, after, (values.9,));
    lemma_ten_columns::<A, B, C, D, E, F, G, H, I, J>();
    lemma_ten_held::<A, B, C, D, E, F, G, H, I, J>(values, after);
    let ids = crate::storage::tuples::column_ids(
        <(A, B, C, D, E, F, G, H, I, J)>::spec_columns(),
    ).to_set();
    assert(A::spec_id() != J::spec_id());
    assert(B::spec_id() != J::spec_id());
    assert(C::spec_id() != J::spec_id());
    assert(D::spec_id() != J::spec_id());
    assert(E::spec_id() != J::spec_id());
    assert(F::spec_id() != J::spec_id());
    assert(G::spec_id() != J::spec_id());
    assert(H::spec_id() != J::spec_id());
    assert(I::spec_id() != J::spec_id());
    assert forall|id: ComponentId| #[trigger]
        after.remove_keys(ids).contains_key(id) <==> before.contains_key(id) by {
        assert(ids.contains(id) || (between.contains_key(id) <==> before.contains_key(id)));
        assert(ids.contains(id) || (after.contains_key(id) <==> between.contains_key(id)));
    }
    assert(after.remove_keys(ids) =~= before);
}

/// The columns of eleven components: one for each member, in order, with the identifier and the
/// layout of that member.
pub proof fn lemma_eleven_columns<
    A: Component,
    B: Component,
    C: Component,
    D: Component,
    E: Component,
    F: Component,
    G: Component,
    H: Component,
    I: Component,
    J: Component,
    K: Component,
>()
    ensures
        <(A, B, C, D, E, F, G, H, I, J, K)>::spec_columns().len() == 11,
        <(A, B, C, D, E, F, G, H, I, J, K)>::spec_columns()[0].0 == A::spec_id(),
        <(A, B, C, D, E, F, G, H, I, J, K)>::spec_columns()[0].1
            == crate::storage::component::layout_of::<A>(),
        <(A, B, C, D, E, F, G, H, I, J, K)>::spec_columns()[1].0 == B::spec_id(),
        <(A, B, C, D, E, F, G, H, I, J, K)>::spec_columns()[1].1
            == crate::storage::component::layout_of::<B>(),
        <(A, B, C, D, E, F, G, H, I, J, K)>::spec_columns()[2].0 == C::spec_id(),
        <(A, B, C, D, E, F, G, H, I, J, K)>::spec_columns()[2].1
            == crate::storage::component::layout_of::<C>(),
        <(A, B, C, D, E, F, G, H, I, J, K)>::spec_columns()[3].0 == D::spec_id(),
        <(A, B, C, D, E, F, G, H, I, J, K)>::spec_columns()[3].1
            == crate::storage::component::layout_of::<D>(),
        <(A, B, C, D, E, F, G, H, I, J, K)>::spec_columns()[4].0 == E::spec_id(),
        <(A, B, C, D, E, F, G, H, I, J, K)>::spec_columns()[4].1
            == crate::storage::component::layout_of::<E>(),
        <(A, B, C, D, E, F, G, H, I, J, K)>::spec_columns()[5].0 == F::spec_id(),
        <(A, B, C, D, E, F, G, H, I, J, K)>::spec_columns()[5].1
            == crate::storage::component::layout_of::<F>(),
        <(A, B, C, D, E, F, G, H, I, J, K)>::spec_columns()[6].0 == G::spec_id(),
        <(A, B, C, D, E, F, G, H, I, J, K)>::spec_columns()[6].1
            == crate::storage::component::layout_of::<G>(),
        <(A, B, C, D, E, F, G, H, I, J, K)>::spec_columns()[7].0 == H::spec_id(),
        <(A, B, C, D, E, F, G, H, I, J, K)>::spec_columns()[7].1
            == crate::storage::component::layout_of::<H>(),
        <(A, B, C, D, E, F, G, H, I, J, K)>::spec_columns()[8].0 == I::spec_id(),
        <(A, B, C, D, E, F, G, H, I, J, K)>::spec_columns()[8].1
            == crate::storage::component::layout_of::<I>(),
        <(A, B, C, D, E, F, G, H, I, J, K)>::spec_columns()[9].0 == J::spec_id(),
        <(A, B, C, D, E, F, G, H, I, J, K)>::spec_columns()[9].1
            == crate::storage::component::layout_of::<J>(),
        <(A, B, C, D, E, F, G, H, I, J, K)>::spec_columns()[10].0 == K::spec_id(),
        <(A, B, C, D, E, F, G, H, I, J, K)>::spec_columns()[10].1
            == crate::storage::component::layout_of::<K>(),
        crate::storage::tuples::column_ids(
            <(A, B, C, D, E, F, G, H, I, J, K)>::spec_columns(),
        ).len()
            == 11,
        forall|id: ComponentId|
            crate::storage::tuples::column_ids(
                <(A, B, C, D, E, F, G, H, I, J, K)>::spec_columns(),
            ).contains(id) <==> {
                ||| id == A::spec_id()
                ||| id == B::spec_id()
                ||| id == C::spec_id()
                ||| id == D::spec_id()
                ||| id == E::spec_id()
                ||| id == F::spec_id()
                ||| id == G::spec_id()
                ||| id == H::spec_id()
                ||| id == I::spec_id()
                ||| id == J::spec_id()
                ||| id == K::spec_id()
            },
{
    let ids = crate::storage::tuples::column_ids(
        <(A, B, C, D, E, F, G, H, I, J, K)>::spec_columns(),
    );
    assert(ids[0] == A::spec_id());
    assert(ids[1] == B::spec_id());
    assert(ids[2] == C::spec_id());
    assert(ids[3] == D::spec_id());
    assert(ids[4] == E::spec_id());
    assert(ids[5] == F::spec_id());
    assert(ids[6] == G::spec_id());
    assert(ids[7] == H::spec_id());
    assert(ids[8] == I::spec_id());
    assert(ids[9] == J::spec_id());
    assert(ids[10] == K::spec_id());
}

/// The list of the values of eleven components: they come in order, each with the identifier of its
/// own member and with bytes that stand for it.
pub proof fn lemma_eleven_listed<
    A: Component,
    B: Component,
    C: Component,
    D: Component,
    E: Component,
    F: Component,
    G: Component,
    H: Component,
    I: Component,
    J: Component,
    K: Component,
>(
    values: (A, B, C, D, E, F, G, H, I, J, K),
    list: Seq<(ComponentId, Seq<u8>)>,
)
    ensures
        crate::storage::tuples::lists::<(A, B, C, D, E, F, G, H, I, J, K)>(values, list) <==> {
            &&& list.len() == 11
            &&& list[0].0 == A::spec_id()
            &&& values.0.encoded_by(list[0].1)
            &&& list[1].0 == B::spec_id()
            &&& values.1.encoded_by(list[1].1)
            &&& list[2].0 == C::spec_id()
            &&& values.2.encoded_by(list[2].1)
            &&& list[3].0 == D::spec_id()
            &&& values.3.encoded_by(list[3].1)
            &&& list[4].0 == E::spec_id()
            &&& values.4.encoded_by(list[4].1)
            &&& list[5].0 == F::spec_id()
            &&& values.5.encoded_by(list[5].1)
            &&& list[6].0 == G::spec_id()
            &&& values.6.encoded_by(list[6].1)
            &&& list[7].0 == H::spec_id()
            &&& values.7.encoded_by(list[7].1)
            &&& list[8].0 == I::spec_id()
            &&& values.8.encoded_by(list[8].1)
            &&& list[9].0 == J::spec_id()
            &&& values.9.encoded_by(list[9].1)
            &&& list[10].0 == K::spec_id()
            &&& values.10.encoded_by(list[10].1)
        },
{
    let ids = crate::storage::component::ids(list);
    let columns = <(A, B, C, D, E, F, G, H, I, J, K)>::spec_columns();
    let column_ids = crate::storage::tuples::column_ids(columns);
    assert(ids.len() == list.len());
    assert(column_ids.len() == 11);
    assert(column_ids[0] == A::spec_id());
    assert(0 < list.len() ==> ids[0] == list[0].0);
    assert(column_ids[1] == B::spec_id());
    assert(1 < list.len() ==> ids[1] == list[1].0);
    assert(column_ids[2] == C::spec_id());
    assert(2 < list.len() ==> ids[2] == list[2].0);
    assert(column_ids[3] == D::spec_id());
    assert(3 < list.len() ==> ids[3] == list[3].0);
    assert(column_ids[4] == E::spec_id());
    assert(4 < list.len() ==> ids[4] == list[4].0);
    assert(column_ids[5] == F::spec_id());
    assert(5 < list.len() ==> ids[5] == list[5].0);
    assert(column_ids[6] == G::spec_id());
    assert(6 < list.len() ==> ids[6] == list[6].0);
    assert(column_ids[7] == H::spec_id());
    assert(7 < list.len() ==> ids[7] == list[7].0);
    assert(column_ids[8] == I::spec_id());
    assert(8 < list.len() ==> ids[8] == list[8].0);
    assert(column_ids[9] == J::spec_id());
    assert(9 < list.len() ==> ids[9] == list[9].0);
    assert(column_ids[10] == K::spec_id());
    assert(10 < list.len() ==> ids[10] == list[10].0);
    if ids.len() == column_ids.len() && (forall|i: int|
        0 <= i < ids.len() ==> ids[i] == column_ids[i]) {
        assert(ids =~= column_ids);
    }
}

/// A row holds the values of eleven components exactly if it has each member under its own
/// identifier.
pub proof fn lemma_eleven_held<
    A: Component,
    B: Component,
    C: Component,
    D: Component,
    E: Component,
    F: Component,
    G: Component,
    H: Component,
    I: Component,
    J: Component,
    K: Component,
>(
    values: (A, B, C, D, E, F, G, H, I, J, K),
    row: Map<ComponentId, Seq<u8>>,
)
    ensures
        crate::storage::tuples::row_holds::<(A, B, C, D, E, F, G, H, I, J, K)>(row, values) <==> {
            &&& row.contains_key(A::spec_id())
            &&& values.0.encoded_by(row[A::spec_id()])
            &&& row.contains_key(B::spec_id())
            &&& values.1.encoded_by(row[B::spec_id()])
            &&& row.contains_key(C::spec_id())
            &&& values.2.encoded_by(row[C::spec_id()])
            &&& row.contains_key(D::spec_id())
            &&& values.3.encoded_by(row[D::spec_id()])
            &&& row.contains_key(E::spec_id())
            &&& values.4.encoded_by(row[E::spec_id()])
            &&& row.contains_key(F::spec_id())
            &&& values.5.encoded_by(row[F::spec_id()])
            &&& row.contains_key(G::spec_id())
            &&& values.6.encoded_by(row[G::spec_id()])
            &&& row.contains_key(H::spec_id())
            &&& values.7.encoded_by(row[H::spec_id()])
            &&& row.contains_key(I::spec_id())
            &&& values.8.encoded_by(row[I::spec_id()])
            &&& row.contains_key(J::spec_id())
            &&& values.9.encoded_by(row[J::spec_id()])
            &&& row.contains_key(K::spec_id())
            &&& values.10.encoded_by(row[K::spec_id()])
        },
{
    let columns = <(A, B, C, D, E, F, G, H, I, J, K)>::spec_columns();
    let parts = crate::storage::tuples::row_parts(columns, row);
    assert(parts.len() == 11);
    assert(columns[0].0 == A::spec_id());
    assert(parts[0] == row[A::spec_id()]);
    assert(columns[1].0 == B::spec_id());
    assert(parts[1] == row[B::spec_id()]);
    assert(columns[2].0 == C::spec_id());
    assert(parts[2] == row[C::spec_id()]);
    assert(columns[3].0 == D::spec_id());
    assert(parts[3] == row[D::spec_id()]);
    assert(columns[4].0 == E::spec_id());
    assert(parts[4] == row[E::spec_id()]);
    assert(columns[5].0 == F::spec_id());
    assert(parts[5] == row[F::spec_id()]);
    assert(columns[6].0 == G::spec_id());
    assert(parts[6] == row[G::spec_id()]);
    assert(columns[7].0 == H::spec_id());
    assert(parts[7] == row[H::spec_id()]);
    assert(columns[8].0 == I::spec_id());
    assert(parts[8] == row[I::spec_id()]);
    assert(columns[9].0 == J::spec_id());
    assert(parts[9] == row[J::spec_id()]);
    assert(columns[10].0 == K::spec_id());
    assert(parts[10] == row[K::spec_id()]);
}

/// Inserting eleven components: each member is there under its own identifier, taking it out again
/// gives its own value, and what was there under other identifiers is as it was.
pub proof fn lemma_eleven_inserted<
    A: Component,
    B: Component,
    C: Component,
    D: Component,
    E: Component,
    F: Component,
    G: Component,
    H: Component,
    I: Component,
    J: Component,
    K: Component,
>(
    before: Map<ComponentId, Seq<u8>>,
    after: Map<ComponentId, Seq<u8>>,
    values: (A, B, C, D, E, F, G, H, I, J, K),
)
    requires
        crate::storage::tuples::inserted_into::<(A, B, C, D, E, F, G, H, I, J, K)>(
            before,
            after,
            values,
        ),
    ensures
        !before.contains_key(A::spec_id()),
        crate::storage::tuples::row_holds::<(A,)>(after, (values.0,)),
        forall|out: (A,)| #[trigger]
            crate::storage::tuples::row_holds::<(A,)>(after, out) ==> out.0 == values.0,
        !before.contains_key(B::spec_id()),
        crate::storage::tuples::row_holds::<(B,)>(after, (values.1,)),
        forall|out: (B,)| #[trigger]
            crate::storage::tuples::row_holds::<(B,)>(after, out) ==> out.0 == values.1,
        !before.contains_key(C::spec_id()),
        crate::storage::tuples::row_holds::<(C,)>(after, (values.2,)),
        forall|out: (C,)| #[trigger]
            crate::storage::tuples::row_holds::<(C,)>(after, out) ==> out.0 == values.2,
        !before.contains_key(D::spec_id()),
        crate::storage::tuples::row_holds::<(D,)>(after, (values.3,)),
        forall|out: (D,)| #[trigger]
            crate::storage::tuples::row_holds::<(D,)>(after, out) ==> out.0 == values.3,
        !before.contains_key(E::spec_id()),
        crate::storage::tuples::row_holds::<(E,)>(after, (values.4,)),
        forall|out: (E,)| #[trigger]
            crate::storage::tuples::row_holds::<(E,)>(after, out) ==> out.0 == values.4,
        !before.contains_key(F::spec_id()),
        crate::storage::tuples::row_holds::<(F,)>(after, (values.5,)),
        forall|out: (F,)| #[trigger]
            crate::storage::tuples::row_holds::<(F,)>(after, out) ==> out.0 == values.5,
        !before.contains_key(G::spec_id()),
        crate::storage::tuples::row_holds::<(G,)>(after, (values.6,)),
        forall|out: (G,)| #[trigger]
            crate::storage::tuples::row_holds::<(G,)>(after, out) ==> out.0 == values.6,
        !before.contains_key(H::spec_id()),
        crate::storage::tuples::row_holds::<(H,)>(after, (values.7,)),
        forall|out: (H,)| #[trigger]
            crate::storage::tuples::row_holds::<(H,)>(after, out) ==> out.0 == values.7,
        !before.contains_key(I::spec_id()),
        crate::storage::tuples::row_holds::<(I,)>(after, (values.8,)),
        forall|out: (I,)| #[trigger]
            crate::storage::tuples::row_holds::<(I,)>(after, out) ==> out.0 == values.8,
        !before.contains_key(J::spec_id()),
        crate::storage::tuples::row_holds::<(J,)>(after, (values.9,)),
        forall|out: (J,)| #[trigger]
            crate::storage::tuples::row_holds::<(J,)>(after, out) ==> out.0 == values.9,
        !before.contains_key(K::spec_id()),
        crate::storage::tuples::row_holds::<(K,)>(after, (values.10,)),
        forall|out: (K,)| #[trigger]
            crate::storage::tuples::row_holds::<(K,)>(after, out) ==> out.0 == values.10,
        forall|id: ComponentId|
            id != A::spec_id()
                && id != B::spec_id()
                && id != C::spec_id()
                && id != D::spec_id()
                && id != E::spec_id()
                && id != F::spec_id()
                && id != G::spec_id()
                && id != H::spec_id()
                && id != I::spec_id()
                && id != J::spec_id()
                && id != K::spec_id() ==> {
                &&& #[trigger] after.contains_key(id) <==> before.contains_key(id)
                &&& after.contains_key(id) ==> after[id] == before[id]
            },
{
    let ids = crate::storage::tuples::column_ids(
        <(A, B, C, D, E, F, G, H, I, J, K)>::spec_columns(),
    ).to_set();
    lemma_eleven_columns::<A, B, C, D, E, F, G, H, I, J, K>();
    lemma_eleven_held::<A, B, C, D, E, F, G, H, I, J, K>(values, after);
    lemma_one_held::<A>((values.0,), after);
    assert forall|out: (A,)| #[trigger]
        crate::storage::tuples::row_holds::<(A,)>(after, out) implies out.0 == values.0 by {
        lemma_one_held::<A>(out, after);
        A::lemma_encoded(values.0, out.0);
    }
    assert(ids.contains(A::spec_id()));
    assert(!after.remove_keys(ids).contains_key(A::spec_id()));
    lemma_one_held::<B>((values.1,), after);
    assert forall|out: (B,)| #[trigger]
        crate::storage::tuples::row_holds::<(B,)>(after, out) implies out.0 == values.1 by {
        lemma_one_held::<B>(out, after);
        B::lemma_encoded(values.1, out.0);
    }
    assert(ids.contains(B::spec_id()));
    assert(!after.remove_keys(ids).contains_key(B::spec_id()));
    lemma_one_held::<C>((values.2,), after);
    assert forall|out: (C,)| #[trigger]
        crate::storage::tuples::row_holds::<(C,)>(after, out) implies out.0 == values.2 by {
        lemma_one_held::<C>(out, after);
        C::lemma_encoded(values.2, out.0);
    }
    assert(ids.contains(C::spec_id()));
    assert(!after.remove_keys(ids).contains_key(C::spec_id()));
    lemma_one_held::<D>((values.3,), after);
    assert forall|out: (D,)| #[trigger]
        crate::storage::tuples::row_holds::<(D,)>(after, out) implies out.0 == values.3 by {
        lemma_one_held::<D>(out, after);
        D::lemma_encoded(values.3, out.0);
    }
    assert(ids.contains(D::spec_id()));
    assert(!after.remove_keys(ids).contains_key(D::spec_id()));
    lemma_one_held::<E>((values.4,), after);
    assert forall|out: (E,)| #[trigger]
        crate::storage::tuples::row_holds::<(E,)>(after, out) implies out.0 == values.4 by {
        lemma_one_held::<E>(out, after);
        E::lemma_encoded(values.4, out.0);
    }
    assert(ids.contains(E::spec_id()));
    assert(!after.remove_keys(ids).contains_key(E::spec_id()));
    lemma_one_held::<F>((values.5,), after);
    assert forall|out: (F,)| #[trigger]
        crate::storage::tuples::row_holds::<(F,)>(after, out) implies out.0 == values.5 by {
        lemma_one_held::<F>(out, after);
        F::lemma_encoded(values.5, out.0);
    }
    assert(ids.contains(F::spec_id()));
    assert(!after.remove_keys(ids).contains_key(F::spec_id()));
    lemma_one_held::<G>((values.6,), after);
    assert forall|out: (G,)| #[trigger]
        crate::storage::tuples::row_holds::<(G,)>(after, out) implies out.0 == values.6 by {
        lemma_one_held::<G>(out, after);
        G::lemma_encoded(values.6, out.0);
    }
    assert(ids.contains(G::spec_id()));
    assert(!after.remove_keys(ids).contains_key(G::spec_id()));
    lemma_one_held::<H>((values.7,), after);
    assert forall|out: (H,)| #[trigger]
        crate::storage::tuples::row_holds::<(H,)>(after, out) implies out.0 == values.7 by {
        lemma_one_held::<H>(out, after);
        H::lemma_encoded(values.7, out.0);
    }
    assert(ids.contains(H::spec_id()));
    assert(!after.remove_keys(ids).contains_key(H::spec_id()));
    lemma_one_held::<I>((values.8,), after);
    assert forall|out: (I,)| #[trigger]
        crate::storage::tuples::row_holds::<(I,)>(after, out) implies out.0 == values.8 by {
        lemma_one_held::<I>(out, after);
        I::lemma_encoded(values.8, out.0);
    }
    assert(ids.contains(I::spec_id()));
    assert(!after.remove_keys(ids).contains_key(I::spec_id()));
    lemma_one_held::<J>((values.9,), after);
    assert forall|out: (J,)| #[trigger]
        crate::storage::tuples::row_holds::<(J,)>(after, out) implies out.0 == values.9 by {
        lemma_one_held::<J>(out, after);
        J::lemma_encoded(values.9, out.0);
    }
    assert(ids.contains(J::spec_id()));
    assert(!after.remove_keys(ids).contains_key(J::spec_id()));
    lemma_one_held::<K>((values.10,), after);
    assert forall|out: (K,)| #[trigger]
        crate::storage::tuples::row_holds::<(K,)>(after, out) implies out.0 == values.10 by {
        lemma_one_held::<K>(out, after);
        K::lemma_encoded(values.10, out.0);
    }
    assert(ids.contains(K::spec_id()));
    assert(!after.remove_keys(ids).contains_key(K::spec_id()));
    assert forall|id: ComponentId|
        id != A::spec_id()
            && id != B::spec_id()
            && id != C::spec_id()
            && id != D::spec_id()
            && id != E::spec_id()
            && id != F::spec_id()
            && id != G::spec_id()
            && id != H::spec_id()
            && id != I::spec_id()
            && id != J::spec_id()
            && id != K::spec_id() implies {
        &&& #[trigger] after.contains_key(id) <==> before.contains_key(id)
        &&& after.contains_key(id) ==> after[id] == before[id]
    } by {
        assert(!ids.contains(id));
        assert(after.remove_keys(ids).contains_key(id) <==> after.contains_key(id));
    }
}

/// Inserting eleven components is the same as inserting all but the last, and then the last.
pub proof fn lemma_eleven_inserted_one_by_one<
    A: Component,
    B: Component,
    C: Component,
    D: Component,
    E: Component,
    F: Component,
    G: Component,
    H: Component,
    I: Component,
    J: Component,
    K: Component,
>(
    before: Map<ComponentId, Seq<u8>>,
    between: Map<ComponentId, Seq<u8>>,
    after: Map<ComponentId, Seq<u8>>,
    values: (A, B, C, D, E, F, G, H, I, J, K),
)
    requires
        crate::storage::tuples::inserted_into::<(A, B, C, D, E, F, G, H, I, J)>(
            before,
            between,
            (
                values.0,
                values.1,
                values.2,
                values.3,
                values.4,
                values.5,
                values.6,
                values.7,
                values.8,
                values.9,
            ),
        ),
        crate::storage::tuples::inserted_into::<(K,)>(between, after, (values.10,)),
    ensures
        crate::storage::tuples::inserted_into::<(A, B, C, D, E, F, G, H, I, J, K)>(
            before,
            after,
            values,
        ),
{
    lemma_ten_inserted::<A, B, C, D, E, F, G, H, I, J>(
        before,
        between,
        (
            values.0,
            values.1,
            values.2,
            values.3,
            values.4,
            values.5,
            values.6,
            values.7,
            values.8,
            values.9,
        ),
    );
    lemma_one_inserted::<K>(between, after, (values.10,));
    lemma_eleven_columns::<A, B, C, D, E, F, G, H, I, J, K>();
    lemma_eleven_held::<A, B, C, D, E, F, G, H, I, J, K>(values, after);
    let ids = crate::storage::tuples::column_ids(
        <(A, B, C, D, E, F, G, H, I, J, K)>::spec_columns(),
    ).to_set();
    assert(A::spec_id() != K::spec_id());
    assert(B::spec_id() != K::spec_id());
    assert(C::spec_id() != K::spec_id());
    assert(D::spec_id() != K::spec_id());
    assert(E::spec_id() != K::spec_id());
    assert(F::spec_id() != K::spec_id());
    assert(G::spec_id() != K::spec_id());
    assert(H::spec_id() != K::spec_id());
    assert(I::spec_id() != K::spec_id());
    assert(J::spec_id() != K::spec_id());
    assert forall|id: ComponentId| #[trigger]
        after.remove_keys(ids).contains_key(id) <==> before.contains_key(id) by {
        assert(ids.contains(id) || (between.contains_key(id) <==> before.contains_key(id)));
        assert(ids.contains(id) || (after.contains_key(id) <==> between.contains_key(id)));
    }
    assert(after.remove_keys(ids) =~= before);
}

/// The columns of twelve components: one for each member, in order, with the identifier and the
/// layout of that member.
pub proof fn lemma_twelve_columns<
    A: Component,
    B: Component,
    C: Component,
    D: Component,
    E: Component,
    F: Component,
    G: Component,
    H: Component,
    I: Component,
    J: Component,
    K: Component,
    L: Component,
>()
    ensures
        <(A, B, C, D, E, F, G, H, I, J, K, L)>::spec_columns().len() == 12,
        <(A, B, C, D, E, F, G, H, I, J, K, L)>::spec_columns()[0].0 == A::spec_id(),
        <(A, B, C, D, E, F, G, H, I, J, K, L)>::spec_columns()[0].1
            == crate::storage::component::layout_of::<A>(),
        <(A, B, C, D, E, F, G, H, I, J, K, L)>::spec_columns()[1].0 == B::spec_id(),
        <(A, B, C, D, E, F, G, H, I, J, K, L)>::spec_columns()[1].1
            == crate::storage::component::layout_of::<B>(),
        <(A, B, C, D, E, F, G, H, I, J, K, L)>::spec_columns()[2].0 == C::spec_id(),
        <(A, B, C, D, E, F, G, H, I, J, K, L)>::spec_columns()[2].1
            == crate::storage::component::layout_of::<C>(),
        <(A, B, C, D, E, F, G, H, I, J, K, L)>::spec_columns()[3].0 == D::spec_id(),
        <(A, B, C, D, E, F, G, H, I, J, K, L)>::spec_columns()[3].1
            == crate::storage::component::layout_of::<D>(),
        <(A, B, C, D, E, F, G, H, I, J, K, L)>::spec_columns()[4].0 == E::spec_id(),
        <(A, B, C, D, E, F, G, H, I, J, K, L)>::spec_columns()[4].1
            == crate::storage::component::layout_of::<E>(),
        <(A, B, C, D, E, F, G, H, I, J, K, L)>::spec_columns()[5].0 == F::spec_id(),
        <(A, B, C, D, E, F, G, H, I, J, K, L)>::spec_columns()[5].1
            == crate::storage::component::layout_of::<F>(),
        <(A, B, C, D, E, F, G, H, I, J, K, L)>::spec_columns()[6].0 == G::spec_id(),
        <(A, B, C, D, E, F, G, H, I, J, K, L)>::spec_columns()[6].1
            == crate::storage::component::layout_of::<G>(),
        <(A, B, C, D, E, F, G, H, I, J, K, L)>::spec_columns()[7].0 == H::spec_id(),
        <(A, B, C, D, E, F, G, H, I, J, K, L)>::spec_columns()[7].1
            == crate::storage::component::layout_of::<H>(),
        <(A, B, C, D, E, F, G, H, I, J, K, L)>::spec_columns()[8].0 == I::spec_id(),
        <(A, B, C, D, E, F, G, H, I, J, K, L)>::spec_columns()[8].1
            == crate::storage::component::layout_of::<I>(),
        <(A, B, C, D, E, F, G, H, I, J, K, L)>::spec_columns()[9].0 == J::spec_id(),
        <(A, B, C, D, E, F, G, H, I, J, K, L)>::spec_columns()[9].1
            == crate::storage::component::layout_of::<J>(),
        <(A, B, C, D, E, F, G, H, I, J, K, L)>::spec_columns()[10].0 == K::spec_id(),
        <(A, B, C, D, E, F, G, H, I, J, K, L)>::spec_columns()[10].1
            == crate::storage::component::layout_of::<K>(),
        <(A, B, C, D, E, F, G, H, I, J, K, L)>::spec_columns()[11].0 == L::spec_id(),
        <(A, B, C, D, E, F, G, H, I, J, K, L)>::spec_columns()[11].1
            == crate::storage::component::layout_of::<L>(),
        crate::storage::tuples::column_ids(
            <(A, B, C, D, E, F, G, H, I, J, K, L)>::spec_columns(),
        ).len()
            == 12,
        forall|id: ComponentId|
            crate::storage::tuples::column_ids(
                <(A, B, C, D, E, F, G, H, I, J, K, L)>::spec_columns(),
            ).contains(id) <==> {
                ||| id == A::spec_id()
                ||| id == B::spec_id()
                ||| id == C::spec_id()
                ||| id == D::spec_id()
                ||| id == E::spec_id()
                ||| id == F::spec_id()
                ||| id == G::spec_id()
                ||| id == H::spec_id()
                ||| id == I::spec_id()
                ||| id == J::spec_id()
                ||| id == K::spec_id()
                ||| id == L::spec_id()
            },
{
    let ids = crate::storage::tuples::column_ids(
        <(A, B, C, D, E, F, G, H, I, J, K, L)>::spec_columns(),
    );
    assert(ids[0] == A::spec_id());
    assert(ids[1] == B::spec_id());
    assert(ids[2] == C::spec_id());
    assert(ids[3] == D::spec_id());
    assert(ids[4] == E::spec_id());
    assert(ids[5] == F::spec_id());
    assert(ids[6] == G::spec_id());
    assert(ids[7] == H::spec_id());
    assert(ids[8] == I::spec_id());
    assert(ids[9] == J::spec_id());
    assert(ids[10] == K::spec_id());
    assert(ids[11] == L::spec_id());
}

/// The list of the values of twelve components: they come in order, each with the identifier of its
/// own member and with bytes that stand for it.
pub proof fn lemma_twelve_listed<
    A: Component,
    B: Component,
    C: Component,
    D: Component,
    E: Component,
    F: Component,
    G: Component,
    H: Component,
    I: Component,
    J: Component,
    K: Component,
    L: Component,
>(
    values: (A, B, C, D, E, F, G, H, I, J, K, L),
    list: Seq<(ComponentId, Seq<u8>)>,
)
    ensures
        crate::storage::tuples::lists::<(A, B, C, D, E, F, G, H, I, J, K, L)>(values, list) <==> {
            &&& list.len() == 12
            &&& list[0].0 == A::spec_id()
            &&& values.0.encoded_by(list[0].1)
            &&& list[1].0 == B::spec_id()
            &&& values.1.encoded_by(list[1].1)
            &&& list[2].0 == C::spec_id()
            &&& values.2.encoded_by(list[2].1)
            &&& list[3].0 == D::spec_id()
            &&& values.3.encoded_by(list[3].1)
            &&& list[4].0 == E::spec_id()
            &&& values.4.encoded_by(list[4].1)
            &&& list[5].0 == F::spec_id()
            &&& values.5.encoded_by(list[5].1)
            &&& list[6].0 == G::spec_id()
            &&& values.6.encoded_by(list[6].1)
            &&& list[7].0 == H::spec_id()
            &&& values.7.encoded_by(list[7].1)
            &&& list[8].0 == I::spec_id()
            &&& values.8.encoded_by(list[8].1)
            &&& list[9].0 == J::spec_id()
            &&& values.9.encoded_by(list[9].1)
            &&& list[10].0 == K::spec_id()
            &&& values.10.encoded_by(list[10].1)
            &&& list[11].0 == L::spec_id()
            &&& values.11.encoded_by(list[11].1)
        },
{
    let ids = crate::storage::component::ids(list);
    let columns = <(A, B, C, D, E, F, G, H, I, J, K, L)>::spec_columns();
    let column_ids = crate::storage::tuples::column_ids(columns);
    assert(ids.len() == list.len());
    assert(column_ids.len() == 12);
    assert(column_ids[0] == A::spec_id());
    assert(0 < list.len() ==> ids[0] == list[0].0);
    assert(column_ids[1] == B::spec_id());
    assert(1 < list.len() ==> ids[1] == list[1].0);
    assert(column_ids[2] == C::spec_id());
    assert(2 < list.len() ==> ids[2] == list[2].0);
    assert(column_ids[3] == D::spec_id());
    assert(3 < list.len() ==> ids[3] == list[3].0);
    assert(column_ids[4] == E::spec_id());
    assert(4 < list.len() ==> ids[4] == list[4].0);
    assert(column_ids[5] == F::spec_id());
    assert(5 < list.len() ==> ids[5] == list[5].0);
    assert(column_ids[6] == G::spec_id());
    assert(6 < list.len() ==> ids[6] == list[6].0);
    assert(column_ids[7] == H::spec_id());
    assert(7 < list.len() ==> ids[7] == list[7].0);
    assert(column_ids[8] == I::spec_id());
    assert(8 < list.len() ==> ids[8] == list[8].0);
    assert(column_ids[9] == J::spec_id());
    assert(9 < list.len() ==> ids[9] == list[9].0);
    assert(column_ids[10] == K::spec_id());
    assert(10 < list.len() ==> ids[10] == list[10].0);
    assert(column_ids[11] == L::spec_id());
    assert(11 < list.len() ==> ids[11] == list[11].0);
    if ids.len() == column_ids.len() && (forall|i: int|
        0 <= i < ids.len() ==> ids[i] == column_ids[i]) {
        assert(ids =~= column_ids);
    }
}

/// A row holds the values of twelve components exactly if it has each member under its own
/// identifier.
pub proof fn lemma_twelve_held<
    A: Component,
    B: Component,
    C: Component,
    D: Component,
    E: Component,
    F: Component,
    G: Component,
    H: Component,
    I: Component,
    J: Component,
    K: Component,
    L: Component,
>(
    values: (A, B, C, D, E, F, G, H, I, J, K, L),
    row: Map<ComponentId, Seq<u8>>,
)
    ensures
        crate::storage::tuples::row_holds::<(A, B, C, D, E, F, G, H, I, J, K, L)>(
            row,
            values,
        ) <==> {
            &&& row.contains_key(A::spec_id())
            &&& values.0.encoded_by(row[A::spec_id()])
            &&& row.contains_key(B::spec_id())
            &&& values.1.encoded_by(row[B::spec_id()])
            &&& row.contains_key(C::spec_id())
            &&& values.2.encoded_by(row[C::spec_id()])
            &&& row.contains_key(D::spec_id())
            &&& values.3.encoded_by(row[D::spec_id()])
            &&& row.contains_key(E::spec_id())
            &&& values.4.encoded_by(row[E::spec_id()])
            &&& row.contains_key(F::spec_id())
            &&& values.5.encoded_by(row[F::spec_id()])
            &&& row.contains_key(G::spec_id())
            &&& values.6.encoded_by(row[G::spec_id()])
            &&& row.contains_key(H::spec_id())
            &&& values.7.encoded_by(row[H::spec_id()])
            &&& row.contains_key(I::spec_id())
            &&& values.8.encoded_by(row[I::spec_id()])
            &&& row.contains_key(J::spec_id())
            &&& values.9.encoded_by(row[J::spec_id()])
            &&& row.contains_key(K::spec_id())
            &&& values.10.encoded_by(row[K::spec_id()])
            &&& row.contains_key(L::spec_id())
            &&& values.11.encoded_by(row[L::spec_id()])
        },
{
    let columns = <(A, B, C, D, E, F, G, H, I, J, K, L)>::spec_columns();
    let parts = crate::storage::tuples::row_parts(columns, row);
    assert(parts.len() == 12);
    assert(columns[0].0 == A::spec_id());
    assert(parts[0] == row[A::spec_id()]);
    assert(columns[1].0 == B::spec_id());
    assert(parts[1] == row[B::spec_id()]);
    assert(columns[2].0 == C::spec_id());
    assert(parts[2] == row[C::spec_id()]);
    assert(columns[3].0 == D::spec_id());
    assert(parts[3] == row[D::spec_id()]);
    assert(columns[4].0 == E::spec_id());
    assert(parts[4] == row[E::spec_id()]);
    assert(columns[5].0 == F::spec_id());
    assert(parts[5] == row[F::spec_id()]);
    assert(columns[6].0 == G::spec_id());
    assert(parts[6] == row[G::spec_id()]);
    assert(columns[7].0 == H::spec_id());
    assert(parts[7] == row[H::spec_id()]);
    assert(columns[8].0 == I::spec_id());
    assert(parts[8] == row[I::spec_id()]);
    assert(columns[9].0 == J::spec_id());
    assert(parts[9] == row[J::spec_id()]);
    assert(columns[10].0 == K::spec_id());
    assert(parts[10] == row[K::spec_id()]);
    assert(columns[11].0 == L::spec_id());
    assert(parts[11] == row[L::spec_id()]);
}

/// Inserting twelve components: each member is there under its own identifier, taking it out again
/// gives its own value, and what was there under other identifiers is as it was.
pub proof fn lemma_twelve_inserted<
    A: Component,
    B: Component,
    C: Component,
    D: Component,
    E: Component,
    F: Component,
    G: Component,
    H: Component,
    I: Component,
    J: Component,
    K: Component,
    L: Component,
>(
    before: Map<ComponentId, Seq<u8>>,
    after: Map<ComponentId, Seq<u8>>,
    values: (A, B, C, D, E, F, G, H, I, J, K, L),
)
    requires
        crate::storage::tuples::inserted_into::<(A, B, C, D, E, F, G, H, I, J, K, L)>(
            before,
            after,
            values,
        ),
    ensures
        !before.contains_key(A::spec_id()),
        crate::storage::tuples::row_holds::<(A,)>(after, (values.0,)),
        forall|out: (A,)| #[trigger]
            crate::storage::tuples::row_holds::<(A,)>(after, out) ==> out.0 == values.0,
        !before.contains_key(B::spec_id()),
        crate::storage::tuples::row_holds::<(B,)>(after, (values.1,)),
        forall|out: (B,)| #[trigger]
            crate::storage::tuples::row_holds::<(B,)>(after, out) ==> out.0 == values.1,
        !before.contains_key(C::spec_id()),
        crate::storage::tuples::row_holds::<(C,)>(after, (values.2,)),
        forall|out: (C,)| #[trigger]
            crate::storage::tuples::row_holds::<(C,)>(after, out) ==> out.0 == values.2,
        !before.contains_key(D::spec_id()),
        crate::storage::tuples::row_holds::<(D,)>(after, (values.3,)),
        forall|out: (D,)| #[trigger]
            crate::storage::tuples::row_holds::<(D,)>(after, out) ==> out.0 == values.3,
        !before.contains_key(E::spec_id()),
        crate::storage::tuples::row_holds::<(E,)>(after, (values.4,)),
        forall|out: (E,)| #[trigger]
            crate::storage::tuples::row_holds::<(E,)>(after, out) ==> out.0 == values.4,
        !before.contains_key(F::spec_id()),
        crate::storage::tuples::row_holds::<(F,)>(after, (values.5,)),
        forall|out: (F,)| #[trigger]
            crate::storage::tuples::row_holds::<(F,)>(after, out) ==> out.0 == values.5,
        !before.contains_key(G::spec_id()),
        crate::storage::tuples::row_holds::<(G,)>(after, (values.6,)),
        forall|out: (G,)| #[trigger]
            crate::storage::tuples::row_holds::<(G,)>(after, out) ==> out.0 == values.6,
        !before.contains_key(H::spec_id()),
        crate::storage::tuples::row_holds::<(H,)>(after, (values.7,)),
        forall|out: (H,)| #[trigger]
            crate::storage::tuples::row_holds::<(H,)>(after, out) ==> out.0 == values.7,
        !before.contains_key(I::spec_id()),
        crate::storage::tuples::row_holds::<(I,)>(after, (values.8,)),
        forall|out: (I,)| #[trigger]
            crate::storage::tuples::row_holds::<(I,)>(after, out) ==> out.0 == values.8,
        !before.contains_key(J::spec_id()),
        crate::storage::tuples::row_holds::<(J,)>(after, (values.9,)),
        forall|out: (J,)| #[trigger]
            crate::storage::tuples::row_holds::<(J,)>(after, out) ==> out.0 == values.9,
        !before.contains_key(K::spec_id()),
        crate::storage::tuples::row_holds::<(K,)>(after, (values.10,)),
        forall|out: (K,)| #[trigger]
            crate::storage::tuples::row_holds::<(K,)>(after, out) ==> out.0 == values.10,
        !before.contains_key(L::spec_id()),
        crate::storage::tuples::row_holds::<(L,)>(after, (values.11,)),
        forall|out: (L,)| #[trigger]
            crate::storage::tuples::row_holds::<(L,)>(after, out) ==> out.0 == values.11,
        forall|id: ComponentId|
            id != A::spec_id()
                && id != B::spec_id()
                && id != C::spec_id()
                && id != D::spec_id()
                && id != E::spec_id()
                && id != F::spec_id()
                && id != G::spec_id()
                && id != H::spec_id()
                && id != I::spec_id()
                && id != J::spec_id()
                && id != K::spec_id()
                && id != L::spec_id() ==> {
                &&& #[trigger] after.contains_key(id) <==> before.contains_key(id)
                &&& after.contains_key(id) ==> after[id] == before[id]
            },
{
    let ids = crate::storage::tuples::column_ids(
        <(A, B, C, D, E, F, G, H, I, J, K, L)>::spec_columns(),
    ).to_set();
    lemma_twelve_columns::<A, B, C, D, E, F, G, H, I, J, K, L>();
    lemma_twelve_held::<A, B, C, D, E, F, G, H, I, J, K, L>(values, after);
    lemma_one_held::<A>((values.0,), after);
    assert forall|out: (A,)| #[trigger]
        crate::storage::tuples::row_holds::<(A,)>(after, out) implies out.0 == values.0 by {
        lemma_one_held::<A>(out, after);
        A::lemma_encoded(values.0, out.0);
    }
    assert(ids.contains(A::spec_id()));
    assert(!after.remove_keys(ids).contains_key(A::spec_id()));
    lemma_one_held::<B>((values.1,), after);
    assert forall|out: (B,)| #[trigger]
        crate::storage::tuples::row_holds::<(B,)>(after, out) implies out.0 == values.1 by {
        lemma_one_held::<B>(out, after);
        B::lemma_encoded(values.1, out.0);
    }
    assert(ids.contains(B::spec_id()));
    assert(!after.remove_keys(ids).contains_key(B::spec_id()));
    lemma_one_held::<C>((values.2,), after);
    assert forall|out: (C,)| #[trigger]
        crate::storage::tuples::row_holds::<(C,)>(after, out) implies out.0 == values.2 by {
        lemma_one_held::<C>(out, after);
        C::lemma_encoded(values.2, out.0);
    }
    assert(ids.contains(C::spec_id()));
    assert(!after.remove_keys(ids).contains_key(C::spec_id()));
    lemma_one_held::<D>((values.3,), after);
    assert forall|out: (D,)| #[trigger]
        crate::storage::tuples::row_holds::<(D,)>(after, out) implies out.0 == values.3 by {
        lemma_one_held::<D>(out, after);
        D::lemma_encoded(values.3, out.0);
    }
    assert(ids.contains(D::spec_id()));
    assert(!after.remove_keys(ids).contains_key(D::spec_id()));
    lemma_one_held::<E>((values.4,), after);
    assert forall|out: (E,)| #[trigger]
        crate::storage::tuples::row_holds::<(E,)>(after, out) implies out.0 == values.4 by {
        lemma_one_held::<E>(out, after);
        E::lemma_encoded(values.4, out.0);
    }
    assert(ids.contains(E::spec_id()));
    assert(!after.remove_keys(ids).contains_key(E::spec_id()));
    lemma_one_held::<F>((values.5,), after);
    assert forall|out: (F,)| #[trigger]
        crate::storage::tuples::row_holds::<(F,)>(after, out) implies out.0 == values.5 by {
        lemma_one_held::<F>(out, after);
        F::lemma_encoded(values.5, out.0);
    }
    assert(ids.contains(F::spec_id()));
    assert(!after.remove_keys(ids).contains_key(F::spec_id()));
    lemma_one_held::<G>((values.6,), after);
    assert forall|out: (G,)| #[trigger]
        crate::storage::tuples::row_holds::<(G,)>(after, out) implies out.0 == values.6 by {
        lemma_one_held::<G>(out, after);
        G::lemma_encoded(values.6, out.0);
    }
    assert(ids.contains(G::spec_id()));
    assert(!after.remove_keys(ids).contains_key(G::spec_id()));
    lemma_one_held::<H>((values.7,), after);
    assert forall|out: (H,)| #[trigger]
        crate::storage::tuples::row_holds::<(H,)>(after, out) implies out.0 == values.7 by {
        lemma_one_held::<H>(out, after);
        H::lemma_encoded(values.7, out.0);
    }
    assert(ids.contains(H::spec_id()));
    assert(!after.remove_keys(ids).contains_key(H::spec_id()));
    lemma_one_held::<I>((values.8,), after);
    assert forall|out: (I,)| #[trigger]
        crate::storage::tuples::row_holds::<(I,)>(after, out) implies out.0 == values.8 by {
        lemma_one_held::<I>(out, after);
        I::lemma_encoded(values.8, out.0);
    }
    assert(ids.contains(I::spec_id()));
    assert(!after.remove_keys(ids).contains_key(I::spec_id()));
    lemma_one_held::<J>((values.9,), after);
    assert forall|out: (J,)| #[trigger]
        crate::storage::tuples::row_holds::<(J,)>(after, out) implies out.0 == values.9 by {
        lemma_one_held::<J>(out, after);
        J::lemma_encoded(values.9, out.0);
    }
    assert(ids.contains(J::spec_id()));
    assert(!after.remove_keys(ids).contains_key(J::spec_id()));
    lemma_one_held::<K>((values.10,), after);
    assert forall|out: (K,)| #[trigger]
        crate::storage::tuples::row_holds::<(K,)>(after, out) implies out.0 == values.10 by {
        lemma_one_held::<K>(out, after);
        K::lemma_encoded(values.10, out.0);
    }
    assert(ids.contains(K::spec_id()));
    assert(!after.remove_keys(ids).contains_key(K::spec_id()));
    lemma_one_held::<L>((values.11,), after);
    assert forall|out: (L,)| #[trigger]
        crate::storage::tuples::row_holds::<(L,)>(after, out) implies out.0 == values.11 by {
        lemma_one_held::<L>(out, after);
        L::lemma_encoded(values.11, out.0);
    }
    assert(ids.contains(L::spec_id()));
    assert(!after.remove_keys(ids).contains_key(L::spec_id()));
    assert forall|id: ComponentId|
        id != A::spec_id()
            && id != B::spec_id()
            && id != C::spec_id()
            && id != D::spec_id()
            && id != E::spec_id()
            && id != F::spec_id()
            && id != G::spec_id()
            && id != H::spec_id()
            && id != I::spec_id()
            && id != J::spec_id()
            && id != K::spec_id()
            && id != L::spec_id() implies {
        &&& #[trigger] after.contains_key(id) <==> before.contains_key(id)
        &&& after.contains_key(id) ==> after[id] == before[id]
    } by {
        assert(!ids.contains(id));
        assert(after.remove_keys(ids).contains_key(id) <==> after.contains_key(id));
    }
}

/// Inserting twelve components is the same as inserting all but the last, and then the last.
pub proof fn lemma_twelve_inserted_one_by_one<
    A: Component,
    B: Component,
    C: Component,
    D: Component,
    E: Component,
    F: Component,
    G: Component,
    H: Component,
    I: Component,
    J: Component,
    K: Component,
    L: Component,
>(
    before: Map<ComponentId, Seq<u8>>,
    between: Map<ComponentId, Seq<u8>>,
    after: Map<ComponentId, Seq<u8>>,
    values: (A, B, C, D, E, F, G, H, I, J, K, L),
)
    requires
        crate::storage::tuples::inserted_into::<(A, B, C, D, E, F, G, H, I, J, K)>(
            before,
            between,
            (
                values.0,
                values.1,
                values.2,
                values.3,
                values.4,
                values.5,
                values.6,
                values.7,
                values.8,
                values.9,
                values.10,
            ),
        ),
        crate::storage::tuples::inserted_into::<(L,)>(between, after, (values.11,)),
    ensures
        crate::storage::tuples::inserted_into::<(A, B, C, D, E, F, G, H, I, J, K, L)>(
            before,
            after,
            values,
        ),
{
    lemma_eleven_inserted::<A, B, C, D, E, F, G, H, I, J, K>(
        before,
        between,
        (
            values.0,
            values.1,
            values.2,
            values.3,
            values.4,
            values.5,
            values.6,
            values.7,
            values.8,
            values.9,
            values.10,
        ),
    );
    lemma_one_inserted::<L>(between, after, (values.11,));
    lemma_twelve_columns::<A, B, C, D, E, F, G, H, I, J, K, L>();
    lemma_twelve_held::<A, B, C, D, E, F, G, H, I, J, K, L>(values, after);
    let ids = crate::storage::tuples::column_ids(
        <(A, B, C, D, E, F, G, H, I, J, K, L)>::spec_columns(),
    ).to_set();
    assert(A::spec_id() != L::spec_id());
    assert(B::spec_id() != L::spec_id());
    assert(C::spec_id() != L::spec_id());
    assert(D::spec_id() != L::spec_id());
    assert(E::spec_id() != L::spec_id());
    assert(F::spec_id() != L::spec_id());
    assert(G::spec_id() != L::spec_id());
    assert(H::spec_id() != L::spec_id());
    assert(I::spec_id() != L::spec_id());
    assert(J::spec_id() != L::spec_id());
    assert(K::spec_id() != L::spec_id());
    assert forall|id: ComponentId| #[trigger]
        after.remove_keys(ids).contains_key(id) <==> before.contains_key(id) by {
        assert(ids.contains(id) || (between.contains_key(id) <==> before.contains_key(id)));
        assert(ids.contains(id) || (after.contains_key(id) <==> between.contains_key(id)));
    }
    assert(after.remove_keys(ids) =~= before);
}

/// The columns of thirteen components: one for each member, in order, with the identifier and the
/// layout of that member.
pub proof fn lemma_thirteen_columns<
    A: Component,
    B: Component,
    C: Component,
    D: Component,
    E: Component,
    F: Component,
    G: Component,
    H: Component,
    I: Component,
    J: Component,
    K: Component,
    L: Component,
    M: Component,
>()
    ensures
        <(A, B, C, D, E, F, G, H, I, J, K, L, M)>::spec_columns().len() == 13,
        <(A, B, C, D, E, F, G, H, I, J, K, L, M)>::spec_columns()[0].0 == A::spec_id(),
        <(A, B, C, D, E, F, G, H, I, J, K, L, M)>::spec_columns()[0].1
            == crate::storage::component::layout_of::<A>(),
        <(A, B, C, D, E, F, G, H, I, J, K, L, M)>::spec_columns()[1].0 == B::spec_id(),
        <(A, B, C, D, E, F, G, H, I, J, K, L, M)>::spec_columns()[1].1
            == crate::storage::component::layout_of::<B>(),
        <(A, B, C, D, E, F, G, H, I, J, K, L, M)>::spec_columns()[2].0 == C::spec_id(),
        <(A, B, C, D, E, F, G, H, I, J, K, L, M)>::spec_columns()[2].1
            == crate::storage::component::layout_of::<C>(),
        <(A, B, C, D, E, F, G, H, I, J, K, L, M)>::spec_columns()[3].0 == D::spec_id(),
        <(A, B, C, D, E, F, G, H, I, J, K, L, M)>::spec_columns()[3].1
            == crate::storage::component::layout_of::<D>(),
        <(A, B, C, D, E, F, G, H, I, J, K, L, M)>::spec_columns()[4].0 == E::spec_id(),
        <(A, B, C, D, E, F, G, H, I, J, K, L, M)>::spec_columns()[4].1
            == crate::storage::component::layout_of::<E>(),
        <(A, B, C, D, E, F, G, H, I, J, K, L, M)>::spec_columns()[5].0 == F::spec_id(),
        <(A, B, C, D, E, F, G, H, I, J, K, L, M)>::spec_columns()[5].1
            == crate::storage::component::layout_of::<F>(),
        <(A, B, C, D, E, F, G, H, I, J, K, L, M)>::spec_columns()[6].0 == G::spec_id(),
        <(A, B, C, D, E, F, G, H, I, J, K, L, M)>::spec_columns()[6].1
            == crate::storage::component::layout_of::<G>(),
        <(A, B, C, D, E, F, G, H, I, J, K, L, M)>::spec_columns()[7].0 == H::spec_id(),
        <(A, B, C, D, E, F, G, H, I, J, K, L, M)>::spec_columns()[7].1
            == crate::storage::component::layout_of::<H>(),
        <(A, B, C, D, E, F, G, H, I, J, K, L, M)>::spec_columns()[8].0 == I::spec_id(),
        <(A, B, C, D, E, F, G, H, I, J, K, L, M)>::spec_columns()[8].1
            == crate::storage::component::layout_of::<I>(),
        <(A, B, C, D, E, F, G, H, I, J, K, L, M)>::spec_columns()[9].0 == J::spec_id(),
        <(A, B, C, D, E, F, G, H, I, J, K, L, M)>::spec_columns()[9].1
            == crate::storage::component::layout_of::<J>(),
        <(A, B, C, D, E, F, G, H, I, J, K, L, M)>::spec_columns()[10].0 == K::spec_id(),
        <(A, B, C, D, E, F, G, H, I, J, K, L, M)>::spec_columns()[10].1
            == crate::storage::component::layout_of::<K>(),
        <(A, B, C, D, E, F, G, H, I, J, K, L, M)>::spec_columns()[11].0 == L::spec_id(),
        <(A, B, C, D, E, F, G, H, I, J, K, L, M)>::spec_columns()[11].1
            == crate::storage::component::layout_of::<L>(),
        <(A, B, C, D, E, F, G, H, I, J, K, L, M)>::spec_columns()[12].0 == M::spec_id(),
        <(A, B, C, D, E, F, G, H, I, J, K, L, M)>::spec_columns()[12].1
            == crate::storage::component::layout_of::<M>(),
        crate::storage::tuples::column_ids(
            <(A, B, C, D, E, F, G, H, I, J, K, L, M)>::spec_columns(),
        ).len()
            == 13,
        forall|id: ComponentId|
            crate::storage::tuples::column_ids(
                <(A, B, C, D, E, F, G, H, I, J, K, L, M)>::spec_columns(),
            ).contains(id) <==> {
                ||| id == A::spec_id()
                ||| id == B::spec_id()
                ||| id == C::spec_id()
                ||| id == D::spec_id()
                ||| id == E::spec_id()
                ||| id == F::spec_id()
                ||| id == G::spec_id()
                ||| id == H::spec_id()
                ||| id == I::spec_id()
                ||| id == J::spec_id()
                ||| id == K::spec_id()
                ||| id == L::spec_id()
                ||| id == M::spec_id()
            },
{
    let ids = crate::storage::tuples::column_ids(
        <(A, B, C, D, E, F, G, H, I, J, K, L, M)>::spec_columns(),
    );
    assert(ids[0] == A::spec_id());
    assert(ids[1] == B::spec_id());
    assert(ids[2] == C::spec_id());
    assert(ids[3] == D::spec_id());
    assert(ids[4] == E::spec_id());
    assert(ids[5] == F::spec_id());
    assert(ids[6] == G::spec_id());
    assert(ids[7] == H::spec_id());
    assert(ids[8] == I::spec_id());
    assert(ids[9] == J::spec_id());
    assert(ids[10] == K::spec_id());
    assert(ids[11] == L::spec_id());
    assert(ids[12] == M::spec_id());
}

/// The list of the values of thirteen components: they come in order, each with the identifier of its
/// own member and with bytes that stand for it.
pub proof fn lemma_thirteen_listed<
    A: Component,
    B: Component,
    C: Component,
    D: Component,
    E: Component,
    F: Component,
    G: Component,
    H: Component,
    I: Component,
    J: Component,
    K: Component,
    L: Component,
    M: Component,
>(
    values: (A, B, C, D, E, F, G, H, I, J, K, L, M),
    list: Seq<(ComponentId, Seq<u8>)>,
)
    ensures
        crate::storage::tuples::lists::<(A, B, C, D, E, F, G, H, I, J, K, L, M)>(
            values,
            list,
        ) <==> {
            &&& list.len() == 13
            &&& list[0].0 == A::spec_id()
            &&& values.0.encoded_by(list[0].1)
            &&& list[1].0 == B::spec_id()
            &&& values.1.encoded_by(list[1].1)
            &&& list[2].0 == C::spec_id()
            &&& values.2.encoded_by(list[2].1)
            &&& list[3].0 == D::spec_id()
            &&& values.3.encoded_by(list[3].1)
            &&& list[4].0 == E::spec_id()
            &&& values.4.encoded_by(list[4].1)
            &&& list[5].0 == F::spec_id()
            &&& values.5.encoded_by(list[5].1)
            &&& list[6].0 == G::spec_id()
            &&& values.6.encoded_by(list[6].1)
            &&& list[7].0 == H::spec_id()
            &&& values.7.encoded_by(list[7].1)
            &&& list[8].0 == I::spec_id()
            &&& values.8.encoded_by(list[8].1)
            &&& list[9].0 == J::spec_id()
            &&& values.9.encoded_by(list[9].1)
            &&& list[10].0 == K::spec_id()
            &&& values.10.encoded_by(list[10].1)
            &&& list[11].0 == L::spec_id()
            &&& values.11.encoded_by(list[11].1)
            &&& list[12].0 == M::spec_id()
            &&& values.12.encoded_by(list[12].1)
        },
{
    let ids = crate::storage::component::ids(list);
    let columns = <(A, B, C, D, E, F, G, H, I, J, K, L, M)>::spec_columns();
    let column_ids = crate::storage::tuples::column_ids(columns);
    assert(ids.len() == list.len());
    assert(column_ids.len() == 13);
    assert(column_ids[0] == A::spec_id());
    assert(0 < list.len() ==> ids[0] == list[0].0);
    assert(column_ids[1] == B::spec_id());
    assert(1 < list.len() ==> ids[1] == list[1].0);
    assert(column_ids[2] == C::spec_id());
    assert(2 < list.len() ==> ids[2] == list[2].0);
    assert(column_ids[3] == D::spec_id());
    assert(3 < list.len() ==> ids[3] == list[3].0);
    assert(column_ids[4] == E::spec_id());
    assert(4 < list.len() ==> ids[4] == list[4].0);
    assert(column_ids[5] == F::spec_id());
    assert(5 < list.len() ==> ids[5] == list[5].0);
    assert(column_ids[6] == G::spec_id());
    assert(6 < list.len() ==> ids[6] == list[6].0);
    assert(column_ids[7] == H::spec_id());
    assert(7 < list.len() ==> ids[7] == list[7].0);
    assert(column_ids[8] == I::spec_id());
    assert(8 < list.len() ==> ids[8] == list[8].0);
    assert(column_ids[9] == J::spec_id());
    assert(9 < list.len() ==> ids[9] == list[9].0);
    assert(column_ids[10] == K::spec_id());
    assert(10 < list.len() ==> ids[10] == list[10].0);
    assert(column_ids[11] == L::spec_id());
    assert(11 < list.len() ==> ids[11] == list[11].0);
    assert(column_ids[12] == M::spec_id());
    assert(12 < list.len() ==> ids[12] == list[12].0);
    if ids.len() == column_ids.len() && (forall|i: int|
        0 <= i < ids.len() ==> ids[i] == column_ids[i]) {
        assert(ids =~= column_ids);
    }
}

/// A row holds the values of thirteen components exactly if it has each member under its own
/// identifier.
pub proof fn lemma_thirteen_held<
    A: Component,
    B: Component,
    C: Component,
    D: Component,
    E: Component,
    F: Component,
    G: Component,
    H: Component,
    I: Component,
    J: Component,
    K: Component,
    L: Component,
    M: Component,
>(
    values: (A, B, C, D, E, F, G, H, I, J, K, L, M),
    row: Map<ComponentId, Seq<u8>>,
)
    ensures
        crate::storage::tuples::row_holds::<(A, B, C, D, E, F, G, H, I, J, K, L, M)>(
            row,
            values,
        ) <==> {
            &&& row.contains_key(A::spec_id())
            &&& values.0.encoded_by(row[A::spec_id()])
            &&& row.contains_key(B::spec_id())
            &&& values.1.encoded_by(row[B::spec_id()])
            &&& row.contains_key(C::spec_id())
            &&& values.2.encoded_by(row[C::spec_id()])
            &&& row.contains_key(D::spec_id())
            &&& values.3.encoded_by(row[D::spec_id()])
            &&& row.contains_key(E::spec_id())
            &&& values.4.encoded_by(row[E::spec_id()])
            &&& row.contains_key(F::spec_id())
            &&& values.5.encoded_by(row[F::spec_id()])
            &&& row.contains_key(G::spec_id())
            &&& values.6.encoded_by(row[G::spec_id()])
            &&& row.contains_key(H::spec_id())
            &&& values.7.encoded_by(row[H::spec_id()])
            &&& row.contains_key(I::spec_id())
            &&& values.8.encoded_by(row[I::spec_id()])
            &&& row.contains_key(J::spec_id())
            &&& values.9.encoded_by(row[J::spec_id()])
            &&& row.contains_key(K::spec_id())
            &&& values.10.encoded_by(row[K::spec_id()])
            &&& row.contains_key(L::spec_id())
            &&& values.11.encoded_by(row[L::spec_id()])
            &&& row.contains_key(M::spec_id())
            &&& values.12.encoded_by(row[M::spec_id()])
        },
{
    let columns = <(A, B, C, D, E, F, G, H, I, J, K, L, M)>::spec_columns();
    let parts = crate::storage::tuples::row_parts(columns, row);
    assert(parts.len() == 13);
    assert(columns[0].0 == A::spec_id());
    assert(parts[0] == row[A::spec_id()]);
    assert(columns[1].0 == B::spec_id());
    assert(parts[1] == row[B::spec_id()]);
    assert(columns[2].0 == C::spec_id());
    assert(parts[2] == row[C::spec_id()]);
    assert(columns[3].0 == D::spec_id());
    assert(parts[3] == row[D::spec_id()]);
    assert(columns[4].0 == E::spec_id());
    assert(parts[4] == row[E::spec_id()]);
    assert(columns[5].0 == F::spec_id());
    assert(parts[5] == row[F::spec_id()]);
    assert(columns[6].0 == G::spec_id());
    assert(parts[6] == row[G::spec_id()]);
    assert(columns[7].0 == H::spec_id());
    assert(parts[7] == row[H::spec_id()]);
    assert(columns[8].0 == I::spec_id());
    assert(parts[8] == row[I::spec_id()]);
    assert(columns[9].0 == J::spec_id());
    assert(parts[9] == row[J::spec_id()]);
    assert(columns[10].0 == K::spec_id());
    assert(parts[10] == row[K::spec_id()]);
    assert(columns[11].0 == L::spec_id());
    assert(parts[11] == row[L::spec_id()]);
    assert(columns[12].0 == M::spec_id());
    assert(parts[12] == row[M::spec_id()]);
}

/// Inserting thirteen components: each member is there under its own identifier, taking it out again
/// gives its own value, and what was there under other identifiers is as it was.
pub proof fn lemma_thirteen_inserted<
    A: Component,
    B: Component,
    C: Component,
    D: Component,
    E: Component,
    F: Component,
    G: Component,
    H: Component,
    I: Component,
    J: Component,
    K: Component,
    L: Component,
    M: Component,
>(
    before: Map<ComponentId, Seq<u8>>,
    after: Map<ComponentId, Seq<u8>>,
    values: (A, B, C, D, E, F, G, H, I, J, K, L, M),
)
    requires
        crate::storage::tuples::inserted_into::<(A, B, C, D, E, F, G, H, I, J, K, L, M)>(
            before,
            after,
            values,
        ),
    ensures
        !before.contains_key(A::spec_id()),
        crate::storage::tuples::row_holds::<(A,)>(after, (values.0,)),
        forall|out: (A,)| #[trigger]
            crate::storage::tuples::row_holds::<(A,)>(after, out) ==> out.0 == values.0,
        !before.contains_key(B::spec_id()),
        crate::storage::tuples::row_holds::<(B,)>(after, (values.1,)),
        forall|out: (B,)| #[trigger]
            crate::storage::tuples::row_holds::<(B,)>(after, out) ==> out.0 == values.1,
        !before.contains_key(C::spec_id()),
        crate::storage::tuples::row_holds::<(C,)>(after, (values.2,)),
        forall|out: (C,)| #[trigger]
            crate::storage::tuples::row_holds::<(C,)>(after, out) ==> out.0 == values.2,
        !before.contains_key(D::spec_id()),
        crate::storage::tuples::row_holds::<(D,)>(after, (values.3,)),
        forall|out: (D,)| #[trigger]
            crate::storage::tuples::row_holds::<(D,)>(after, out) ==> out.0 == values.3,
        !before.contains_key(E::spec_id()),
        crate::storage::tuples::row_holds::<(E,)>(after, (values.4,)),
        forall|out: (E,)| #[trigger]
            crate::storage::tuples::row_holds::<(E,)>(after, out) ==> out.0 == values.4,
        !before.contains_key(F::spec_id()),
        crate::storage::tuples::row_holds::<(F,)>(after, (values.5,)),
        forall|out: (F,)| #[trigger]
            crate::storage::tuples::row_holds::<(F,)>(after, out) ==> out.0 == values.5,
        !before.contains_key(G::spec_id()),
        crate::storage::tuples::row_holds::<(G,)>(after, (values.6,)),
        forall|out: (G,)| #[trigger]
            crate::storage::tuples::row_holds::<(G,)>(after, out) ==> out.0 == values.6,
        !before.contains_key(H::spec_id()),
        crate::storage::tuples::row_holds::<(H,)>(after, (values.7,)),
        forall|out: (H,)| #[trigger]
            crate::storage::tuples::row_holds::<(H,)>(after, out) ==> out.0 == values.7,
        !before.contains_key(I::spec_id()),
        crate::storage::tuples::row_holds::<(I,)>(after, (values.8,)),
        forall|out: (I,)| #[trigger]
            crate::storage::tuples::row_holds::<(I,)>(after, out) ==> out.0 == values.8,
        !before.contains_key(J::spec_id()),
        crate::storage::tuples::row_holds::<(J,)>(after, (values.9,)),
        forall|out: (J,)| #[trigger]
            crate::storage::tuples::row_holds::<(J,)>(after, out) ==> out.0 == values.9,
        !before.contains_key(K::spec_id()),
        crate::storage::tuples::row_holds::<(K,)>(after, (values.10,)),
        forall|out: (K,)| #[trigger]
            crate::storage::tuples::row_holds::<(K,)>(after, out) ==> out.0 == values.10,
        !before.contains_key(L::spec_id()),
        crate::storage::tuples::row_holds::<(L,)>(after, (values.11,)),
        forall|out: (L,)| #[trigger]
            crate::storage::tuples::row_holds::<(L,)>(after, out) ==> out.0 == values.11,
        !before.contains_key(M::spec_id()),
        crate::storage::tuples::row_holds::<(M,)>(after, (values.12,)),
        forall|out: (M,)| #[trigger]
            crate::storage::tuples::row_holds::<(M,)>(after, out) ==> out.0 == values.12,
        forall|id: ComponentId|
            id != A::spec_id()
                && id != B::spec_id()
                && id != C::spec_id()
                && id != D::spec_id()
                && id != E::spec_id()
                && id != F::spec_id()
                && id != G::spec_id()
                && id != H::spec_id()
                && id != I::spec_id()
                && id != J::spec_id()
                && id != K::spec_id()
                && id != L::spec_id()
                && id != M::spec_id() ==> {
                &&& #[trigger] after.contains_key(id) <==> before.contains_key(id)
                &&& after.contains_key(id) ==> after[id] == before[id]
            },
{
    let ids = crate::storage::tuples::column_ids(
        <(A, B, C, D, E, F, G, H, I, J, K, L, M)>::spec_columns(),
    ).to_set();
    lemma_thirteen_columns::<A, B, C, D, E, F, G, H, I, J, K, L, M>();
    lemma_thirteen_held::<A, B, C, D, E, F, G, H, I, J, K, L, M>(values, after);
    lemma_one_held::<A>((values.0,), after);
    assert forall|out: (A,)| #[trigger]
        crate::storage::tuples::row_holds::<(A,)>(after, out) implies out.0 == values.0 by {
        lemma_one_held::<A>(out, after);
        A::lemma_encoded(values.0, out.0);
    }
    assert(ids.contains(A::spec_id()));
    assert(!after.remove_keys(ids).contains_key(A::spec_id()));
    lemma_one_held::<B>((values.1,), after);
    assert forall|out: (B,)| #[trigger]
        crate::storage::tuples::row_holds::<(B,)>(after, out) implies out.0 == values.1 by {
        lemma_one_held::<B>(out, after);
        B::lemma_encoded(values.1, out.0);
    }
    assert(ids.contains(B::spec_id()));
    assert(!after.remove_keys(ids).contains_key(B::spec_id()));
    lemma_one_held::<C>((values.2,), after);
    assert forall|out: (C,)| #[trigger]
        crate::storage::tuples::row_holds::<(C,)>(after, out) implies out.0 == values.2 by {
        lemma_one_held::<C>(out, after);
        C::lemma_encoded(values.2, out.0);
    }
    assert(ids.contains(C::spec_id()));
    assert(!after.remove_keys(ids).contains_key(C::spec_id()));
    lemma_one_held::<D>((values.3,), after);
    assert forall|out: (D,)| #[trigger]
        crate::storage::tuples::row_holds::<(D,)>(after, out) implies out.0 == values.3 by {
        lemma_one_held::<D>(out, after);
        D::lemma_encoded(values.3, out.0);
    }
    assert(ids.contains(D::spec_id()));
    assert(!after.remove_keys(ids).contains_key(D::spec_id()));
    lemma_one_held::<E>((values.4,), after);
    assert forall|out: (E,)| #[trigger]
        crate::storage::tuples::row_holds::<(E,)>(after, out) implies out.0 == values.4 by {
        lemma_one_held::<E>(out, after);
        E::lemma_encoded(values.4, out.0);
    }
    assert(ids.contains(E::spec_id()));
    assert(!after.remove_keys(ids).contains_key(E::spec_id()));
    lemma_one_held::<F>((values.5,), after);
    assert forall|out: (F,)| #[trigger]
        crate::storage::tuples::row_holds::<(F,)>(after, out) implies out.0 == values.5 by {
        lemma_one_held::<F>(out, after);
        F::lemma_encoded(values.5, out.0);
    }
    assert(ids.contains(F::spec_id()));
    assert(!after.remove_keys(ids).contains_key(F::spec_id()));
    lemma_one_held::<G>((values.6,), after);
    assert forall|out: (G,)| #[trigger]
        crate::storage::tuples::row_holds::<(G,)>(after, out) implies out.0 == values.6 by {
        lemma_one_held::<G>(out, after);
        G::lemma_encoded(values.6, out.0);
    }
    assert(ids.contains(G::spec_id()));
    assert(!after.remove_keys(ids).contains_key(G::spec_id()));
    lemma_one_held::<H>((values.7,), after);
    assert forall|out: (H,)| #[trigger]
        crate::storage::tuples::row_holds::<(H,)>(after, out) implies out.0 == values.7 by {
        lemma_one_held::<H>(out, after);
        H::lemma_encoded(values.7, out.0);
    }
    assert(ids.contains(H::spec_id()));
    assert(!after.remove_keys(ids).contains_key(H::spec_id()));
    lemma_one_held::<I>((values.8,), after);
    assert forall|out: (I,)| #[trigger]
        crate::storage::tuples::row_holds::<(I,)>(after, out) implies out.0 == values.8 by {
        lemma_one_held::<I>(out, after);
        I::lemma_encoded(values.8, out.0);
    }
    assert(ids.contains(I::spec_id()));
    assert(!after.remove_keys(ids).contains_key(I::spec_id()));
    lemma_one_held::<J>((values.9,), after);
    assert forall|out: (J,)| #[trigger]
        crate::storage::tuples::row_holds::<(J,)>(after, out) implies out.0 == values.9 by {
        lemma_one_held::<J>(out, after);
        J::lemma_encoded(values.9, out.0);
    }
    assert(ids.contains(J::spec_id()));
    assert(!after.remove_keys(ids).contains_key(J::spec_id()));
    lemma_one_held::<K>((values.10,), after);
    assert forall|out: (K,)| #[trigger]
        crate::storage::tuples::row_holds::<(K,)>(after, out) implies out.0 == values.10 by {
        lemma_one_held::<K>(out, after);
        K::lemma_encoded(values.10, out.0);
    }
    assert(ids.contains(K::spec_id()));
    assert(!after.remove_keys(ids).contains_key(K::spec_id()));
    lemma_one_held::<L>((values.11,), after);
    assert forall|out: (L,)| #[trigger]
        crate::storage::tuples::row_holds::<(L,)>(after, out) implies out.0 == values.11 by {
        lemma_one_held::<L>(out, after);
        L::lemma_encoded(values.11, out.0);
    }
    assert(ids.contains(L::spec_id()));
    assert(!after.remove_keys(ids).contains_key(L::spec_id()));
    lemma_one_held::<M>((values.12,), after);
    assert forall|out: (M,)| #[trigger]
        crate::storage::tuples::row_holds::<(M,)>(after, out) implies out.0 == values.12 by {
        lemma_one_held::<M>(out, after);
        M::lemma_encoded(values.12, out.0);
    }
    assert(ids.contains(M::spec_id()));
    assert(!after.remove_keys(ids).contains_key(M::spec_id()));
    assert forall|id: ComponentId|
        id != A::spec_id()
            && id != B::spec_id()
            && id != C::spec_id()
            && id != D::spec_id()
            && id != E::spec_id()
            && id != F::spec_id()
            && id != G::spec_id()
            && id != H::spec_id()
            && id != I::spec_id()
            && id != J::spec_id()
            && id != K::spec_id()
            && id != L::spec_id()
            && id != M::spec_id() implies {
        &&& #[trigger] after.contains_key(id) <==> before.contains_key(id)
        &&& after.contains_key(id) ==> after[id] == before[id]
    } by {
        assert(!ids.contains(id));
        assert(after.remove_keys(ids).contains_key(id) <==> after.contains_key(id));
    }
}

/// Inserting thirteen components is the same as inserting all but the last, and then the last.
pub proof fn lemma_thirteen_inserted_one_by_one<
    A: Component,
    B: Component,
    C: Component,
    D: Component,
    E: Component,
    F: Component,
    G: Component,
    H: Component,
    I: Component,
    J: Component,
    K: Component,
    L: Component,
    M: Component,
>(
    before: Map<ComponentId, Seq<u8>>,
    between: Map<ComponentId, Seq<u8>>,
    after: Map<ComponentId, Seq<u8>>,
    values: (A, B, C, D, E, F, G, H, I, J, K, L, M),
)
    requires
        crate::storage::tuples::inserted_into::<(A, B, C, D, E, F, G, H, I, J, K, L)>(
            before,
            between,
            (
                values.0,
                values.1,
                values.2,
                values.3,
                values.4,
                values.5,
                values.6,
                values.7,
                values.8,
                values.9,
                values.10,
                values.11,
            ),
        ),
        crate::storage::tuples::inserted_into::<(M,)>(between, after, (values.12,)),
    ensures
        crate::storage::tuples::inserted_into::<(A, B, C, D, E, F, G, H, I, J, K, L, M)>(
            before,
            after,
            values,
        ),
{
    lemma_twelve_inserted::<A, B, C, D, E, F, G, H, I, J, K, L>(
        before,
        between,
        (
            values.0,
            values.1,
            values.2,
            values.3,
            values.4,
            values.5,
            values.6,
            values.7,
            values.8,
            values.9,
            values.10,
            values.11,
        ),
    );
    lemma_one_inserted::<M>(between, after, (values.12,));
    lemma_thirteen_columns::<A, B, C, D, E, F, G, H, I, J, K, L, M>();
    lemma_thirteen_held::<A, B, C, D, E, F, G, H, I, J, K, L, M>(values, after);
    let ids = crate::storage::tuples::column_ids(
        <(A, B, C, D, E, F, G, H, I, J, K, L, M)>::spec_columns(),
    ).to_set();
    assert(A::spec_id() != M::spec_id());
    assert(B::spec_id() != M::spec_id());
    assert(C::spec_id() != M::spec_id());
    assert(D::spec_id() != M::spec_id());
    assert(E::spec_id() != M::spec_id());
    assert(F::spec_id() != M::spec_id());
    assert(G::spec_id() != M::spec_id());
    assert(H::spec_id() != M::spec_id());
    assert(I::spec_id() != M::spec_id());
    assert(J::spec_id() != M::spec_id());
    assert(K::spec_id() != M::spec_id());
    assert(L::spec_id() != M::spec_id());
    assert forall|id: ComponentId| #[trigger]
        after.remove_keys(ids).contains_key(id) <==> before.contains_key(id) by {
        assert(ids.contains(id) || (between.contains_key(id) <==> before.contains_key(id)));
        assert(ids.contains(id) || (after.contains_key(id) <==> between.contains_key(id)));
    }
    assert(after.remove_keys(ids) =~= before);
}

/// The columns of fourteen components: one for each member, in order, with the identifier and the
/// layout of that member.
pub proof fn lemma_fourteen_columns<
    A: Component,
    B: Component,
    C: Component,
    D: Component,
    E: Component,
    F: Component,
    G: Component,
    H: Component,
    I: Component,
    J: Component,
    K: Component,
    L: Component,
    M: Component,
    N: Component,
>()
    ensures
        <(A, B, C, D, E, F, G, H, I, J, K, L, M, N)>::spec_columns().len() == 14,
        <(A, B, C, D, E, F, G, H, I, J, K, L, M, N)>::spec_columns()[0].0 == A::spec_id(),
        <(A, B, C, D, E, F, G, H, I, J, K, L, M, N)>::spec_columns()[0].1
            == crate::storage::component::layout_of::<A>(),
        <(A, B, C, D, E, F, G, H, I, J, K, L, M, N)>::spec_columns()[1].0 == B::spec_id(),
        <(A, B, C, D, E, F, G, H, I, J, K, L, M, N)>::spec_columns()[1].1
            == crate::storage::component::layout_of::<B>(),
        <(A, B, C, D, E, F, G, H, I, J, K, L, M, N)>::spec_columns()[2].0 == C::spec_id(),
        <(A, B, C, D, E, F, G, H, I, J, K, L, M, N)>::spec_columns()[2].1
            == crate::storage::component::layout_of::<C>(),
        <(A, B, C, D, E, F, G, H, I, J, K, L, M, N)>::spec_columns()[3].0 == D::spec_id(),
        <(A, B, C, D, E, F, G, H, I, J, K, L, M, N)>::spec_columns()[3].1
            == crate::storage::component::layout_of::<D>(),
        <(A, B, C, D, E, F, G, H, I, J, K, L, M, N)>::spec_columns()[4].0 == E::spec_id(),
        <(A, B, C, D, E, F, G, H, I, J, K, L, M, N)>::spec_columns()[4].1
            == crate::storage::component::layout_of::<E>(),
        <(A, B, C, D, E, F, G, H, I, J, K, L, M, N)>::spec_columns()[5].0 == F::spec_id(),
        <(A, B, C, D, E, F, G, H, I, J, K, L, M, N)>::spec_columns()[5].1
            == crate::storage::component::layout_of::<F>(),
        <(A, B, C, D, E, F, G, H, I, J, K, L, M, N)>::spec_columns()[6].0 == G::spec_id(),
        <(A, B, C, D, E, F, G, H, I, J, K, L, M, N)>::spec_columns()[6].1
            == crate::storage::component::layout_of::<G>(),
        <(A, B, C, D, E, F, G, H, I, J, K, L, M, N)>::spec_columns()[7].0 == H::spec_id(),
        <(A, B, C, D, E, F, G, H, I, J, K, L, M, N)>::spec_columns()[7].1
            == crate::storage::component::layout_of::<H>(),
        <(A, B, C, D, E, F, G, H, I, J, K, L, M, N)>::spec_columns()[8].0 == I::spec_id(),
        <(A, B, C, D, E, F, G, H, I, J, K, L, M, N)>::spec_columns()[8].1
            == crate::storage::component::layout_of::<I>(),
        <(A, B, C, D, E, F, G, H, I, J, K, L, M, N)>::spec_columns()[9].0 == J::spec_id(),
        <(A, B, C, D, E, F, G, H, I, J, K, L, M, N)>::spec_columns()[9].1
            == crate::storage::component::layout_of::<J>(),
        <(A, B, C, D, E, F, G, H, I, J, K, L, M, N)>::spec_columns()[10].0 == K::spec_id(),
        <(A, B, C, D, E, F, G, H, I, J, K, L, M, N)>::spec_columns()[10].1
            == crate::storage::component::layout_of::<K>(),
        <(A, B, C, D, E, F, G, H, I, J, K, L, M, N)>::spec_columns()[11].0 == L::spec_id(),
        <(A, B, C, D, E, F, G, H, I, J, K, L, M, N)>::spec_columns()[11].1
            == crate::storage::component::layout_of::<L>(),
        <(A, B, C, D, E, F, G, H, I, J, K, L, M, N)>::spec_columns()[12].0 == M::spec_id(),
        <(A, B, C, D, E, F, G, H, I, J, K, L, M, N)>::spec_columns()[12].1
            == crate::storage::component::layout_of::<M>(),
        <(A, B, C, D, E, F, G, H, I, J, K, L, M, N)>::spec_columns()[13].0 == N::spec_id(),
        <(A, B, C, D, E, F, G, H, I, J, K, L, M, N)>::spec_columns()[13].1
            == crate::storage::component::layout_of::<N>(),
        crate::storage::tuples::column_ids(
            <(A, B, C, D, E, F, G, H, I, J, K, L, M, N)>::spec_columns(),
        ).len()
            == 14,
        forall|id: ComponentId|
            crate::storage::tuples::column_ids(
                <(A, B, C, D, E, F, G, H, I, J, K, L, M, N)>::spec_columns(),
            ).contains(id) <==> {
                ||| id == A::spec_id()
                ||| id == B::spec_id()
                ||| id == C::spec_id()
                ||| id == D::spec_id()
                ||| id == E::spec_id()
                ||| id == F::spec_id()
                ||| id == G::spec_id()
                ||| id == H::spec_id()
                ||| id == I::spec_id()
                ||| id == J::spec_id()
                ||| id == K::spec_id()
                ||| id == L::spec_id()
                ||| id == M::spec_id()
                ||| id == N::spec_id()
            },
{
    let ids = crate::storage::tuples::column_ids(
        <(A, B, C, D, E, F, G, H, I, J, K, L, M, N)>::spec_columns(),
    );
    assert(ids[0] == A::spec_id());
    assert(ids[1] == B::spec_id());
    assert(ids[2] == C::spec_id());
    assert(ids[3] == D::spec_id());
    assert(ids[4] == E::spec_id());
    assert(ids[5] == F::spec_id());
    assert(ids[6] == G::spec_id());
    assert(ids[7] == H::spec_id());
    assert(ids[8] == I::spec_id());
    assert(ids[9] == J::spec_id());
    assert(ids[10] == K::spec_id());
    assert(ids[11] == L::spec_id());
    assert(ids[12] == M::spec_id());
    assert(ids[13] == N::spec_id());
}

/// The list of the values of fourteen components: they come in order, each with the identifier of its
/// own member and with bytes that stand for it.
pub proof fn lemma_fourteen_listed<
    A: Component,
    B: Component,
    C: Component,
    D: Component,
    E: Component,
    F: Component,
    G: Component,
    H: Component,
    I: Component,
    J: Component,
    K: Component,
    L: Component,
    M: Component,
    N: Component,
>(
    values: (A, B, C, D, E, F, G, H, I, J, K, L, M, N),
    list: Seq<(ComponentId, Seq<u8>)>,
)
    ensures
        crate::storage::tuples::lists::<(A, B, C, D, E, F, G, H, I, J, K, L, M, N)>(
            values,
            list,
        ) <==> {
            &&& list.len() == 14
            &&& list[0].0 == A::spec_id()
            &&& values.0.encoded_by(list[0].1)
            &&& list[1].0 == B::spec_id()
            &&& values.1.encoded_by(list[1].1)
            &&& list[2].0 == C::spec_id()
            &&& values.2.encoded_by(list[2].1)
            &&& list[3].0 == D::spec_id()
            &&& values.3.encoded_by(list[3].1)
            &&& list[4].0 == E::spec_id()
            &&& values.4.encoded_by(list[4].1)
            &&& list[5].0 == F::spec_id()
            &&& values.5.encoded_by(list[5].1)
            &&& list[6].0 == G::spec_id()
            &&& values.6.encoded_by(list[6].1)
            &&& list[7].0 == H::spec_id()
            &&& values.7.encoded_by(list[7].1)
            &&& list[8].0 == I::spec_id()
            &&& values.8.encoded_by(list[8].1)
            &&& list[9].0 == J::spec_id()
            &&& values.9.encoded_by(list[9].1)
            &&& list[10].0 == K::spec_id()
            &&& values.10.encoded_by(list[10].1)
            &&& list[11].0 == L::spec_id()
            &&& values.11.encoded_by(list[11].1)
            &&& list[12].0 == M::spec_id()
            &&& values.12.encoded_by(list[12].1)
            &&& list[13].0 == N::spec_id()
            &&& values.13.encoded_by(list[13].1)
        },
{
    let ids = crate::storage::component::ids(list);
    let columns = <(A, B, C, D, E, F, G, H, I, J, K, L, M, N)>::spec_columns();
    let column_ids = crate::storage::tuples::column_ids(columns);
    assert(ids.len() == list.len());
    assert(column_ids.len() == 14);
    assert(column_ids[0] == A::spec_id());
    assert(0 < list.len() ==> ids[0] == list[0].0);
    assert(column_ids[1] == B::spec_id());
    assert(1 < list.len() ==> ids[1] == list[1].0);
    assert(column_ids[2] == C::spec_id());
    assert(2 < list.len() ==> ids[2] == list[2].0);
    assert(column_ids[3] == D::spec_id());
    assert(3 < list.len() ==> ids[3] == list[3].0);
    assert(column_ids[4] == E::spec_id());
    assert(4 < list.len() ==> ids[4] == list[4].0);
    assert(column_ids[5] == F::spec_id());
    assert(5 < list.len() ==> ids[5] == list[5].0);
    assert(column_ids[6] == G::spec_id());
    assert(6 < list.len() ==> ids[6] == list[6].0);
    assert(column_ids[7] == H::spec_id());
    assert(7 < list.len() ==> ids[7] == list[7].0);
    assert(column_ids[8] == I::spec_id());
    assert(8 < list.len() ==> ids[8] == list[8].0);
    assert(column_ids[9] == J::spec_id());
    assert(9 < list.len() ==> ids[9] == list[9].0);
    assert(column_ids[10] == K::spec_id());
    assert(10 < list.len() ==> ids[10] == list[10].0);
    assert(column_ids[11] == L::spec_id());
    assert(11 < list.len() ==> ids[11] == list[11].0);
    assert(column_ids[12] == M::spec_id());
    assert(12 < list.len() ==> ids[12] == list[12].0);
    assert(column_ids[13] == N::spec_id());
    assert(13 < list.len() ==> ids[13] == list[13].0);
    if ids.len() == column_ids.len() && (forall|i: int|
        0 <= i < ids.len() ==> ids[i] == column_ids[i]) {
        assert(ids =~= column_ids);
    }
}

/// A row holds the values of fourteen components exactly if it has each member under its own
/// identifier.
pub proof fn lemma_fourteen_held<
    A: Component,
    B: Component,
    C: Component,
    D: Component,
    E: Component,
    F: Component,
    G: Component,
    H: Component,
    I: Component,
    J: Component,
    K: Component,
    L: Component,
    M: Component,
    N: Component,
>(
    values: (A, B, C, D, E, F, G, H, I, J, K, L, M, N),
    row: Map<ComponentId, Seq<u8>>,
)
    ensures
        crate::storage::tuples::row_holds::<(A, B, C, D, E, F, G, H, I, J, K, L, M, N)>(
            row,
            values,
        ) <==> {
            &&& row.contains_key(A::spec_id())
            &&& values.0.encoded_by(row[A::spec_id()])
            &&& row.contains_key(B::spec_id())
            &&& values.1.encoded_by(row[B::spec_id()])
            &&& row.contains_key(C::spec_id())
            &&& values.2.encoded_by(row[C::spec_id()])
            &&& row.contains_key(D::spec_id())
            &&& values.3.encoded_by(row[D::spec_id()])
            &&& row.contains_key(E::spec_id())
            &&& values.4.encoded_by(row[E::spec_id()])
            &&& row.contains_key(F::spec_id())
            &&& values.5.encoded_by(row[F::spec_id()])
            &&& row.contains_key(G::spec_id())
            &&& values.6.encoded_by(row[G::spec_id()])
            &&& row.contains_key(H::spec_id())
            &&& values.7.encoded_by(row[H::spec_id()])
            &&& row.contains_key(I::spec_id())
            &&& values.8.encoded_by(row[I::spec_id()])
            &&& row.contains_key(J::spec_id())
            &&& values.9.encoded_by(row[J::spec_id()])
            &&& row.contains_key(K::spec_id())
            &&& values.10.encoded_by(row[K::spec_id()])
            &&& row.contains_key(L::spec_id())
            &&& values.11.encoded_by(row[L::spec_id()])
            &&& row.contains_key(M::spec_id())
            &&& values.12.encoded_by(row[M::spec_id()])
            &&& row.contains_key(N::spec_id())
            &&& values.13.encoded_by(row[N::spec_id()])
        },
{
    let columns = <(A, B, C, D, E, F, G, H, I, J, K, L, M, N)>::spec_columns();
    let parts = crate::storage::tuples::row_parts(columns, row);
    assert(parts.len() == 14);
    assert(columns[0].0 == A::spec_id());
    assert(parts[0] == row[A::spec_id()]);
    assert(columns[1].0 == B::spec_id());
    assert(parts[1] == row[B::spec_id()]);
    assert(columns[2].0 == C::spec_id());
    assert(parts[2] == row[C::spec_id()]);
    assert(columns[3].0 == D::spec_id());
    assert(parts[3] == row[D::spec_id()]);
    assert(columns[4].0 == E::spec_id());
    assert(parts[4] == row[E::spec_id()]);
    assert(columns[5].0 == F::spec_id());
    assert(parts[5] == row[F::spec_id()]);
    assert(columns[6].0 == G::spec_id());
    assert(parts[6] == row[G::spec_id()]);
    assert(columns[7].0 == H::spec_id());
    assert(parts[7] == row[H::spec_id()]);
    assert(columns[8].0 == I::spec_id());
    assert(parts[8] == row[I::spec_id()]);
    assert(columns[9].0 == J::spec_id());
    assert(parts[9] == row[J::spec_id()]);
    assert(columns[10].0 == K::spec_id());
    assert(parts[10] == row[K::spec_id()]);
    assert(columns[11].0 == L::spec_id());
    assert(parts[11] == row[L::spec_id()]);
    assert(columns[12].0 == M::spec_id());
    assert(parts[12] == row[M::spec_id()]);
    assert(columns[13].0 == N::spec_id());
    assert(parts[13] == row[N::spec_id()]);
}

/// Inserting fourteen components: each member is there under its own identifier, taking it out again
/// gives its own value, and what was there under other identifiers is as it was.
pub proof fn lemma_fourteen_inserted<
    A: Component,
    B: Component,
    C: Component,
    D: Component,
    E: Component,
    F: Component,
    G: Component,
    H: Component,
    I: Component,
    J: Component,
    K: Component,
    L: Component,
    M: Component,
    N: Component,
>(
    before: Map<ComponentId, Seq<u8>>,
    after: Map<ComponentId, Seq<u8>>,
    values: (A, B, C, D, E, F, G, H, I, J, K, L, M, N),
)
    requires
        crate::storage::tuples::inserted_into::<(A, B, C, D, E, F, G, H, I, J, K, L, M, N)>(
            before,
            after,
            values,
        ),
    ensures
        !before.contains_key(A::spec_id()),
        crate::storage::tuples::row_holds::<(A,)>(after, (values.0,)),
        forall|out: (A,)| #[trigger]
            crate::storage::tuples::row_holds::<(A,)>(after, out) ==> out.0 == values.0,
        !before.contains_key(B::spec_id()),
        crate::storage::tuples::row_holds::<(B,)>(after, (values.1,)),
        forall|out: (B,)| #[trigger]
            crate::storage::tuples::row_holds::<(B,)>(after, out) ==> out.0 == values.1,
        !before.contains_key(C::spec_id()),
        crate::storage::tuples::row_holds::<(C,)>(after, (values.2,)),
        forall|out: (C,)| #[trigger]
            crate::storage::tuples::row_holds::<(C,)>(after, out) ==> out.0 == values.2,
        !before.contains_key(D::spec_id()),
        crate::storage::tuples::row_holds::<(D,)>(after, (values.3,)),
        forall|out: (D,)| #[trigger]
            crate::storage::tuples::row_holds::<(D,)>(after, out) ==> out.0 == values.3,
        !before.contains_key(E::spec_id()),
        crate::storage::tuples::row_holds::<(E,)>(after, (values.4,)),
        forall|out: (E,)| #[trigger]
            crate::storage::tuples::row_holds::<(E,)>(after, out) ==> out.0 == values.4,
        !before.contains_key(F::spec_id()),
        crate::storage::tuples::row_holds::<(F,)>(after, (values.5,)),
        forall|out: (F,)| #[trigger]
            crate::storage::tuples::row_holds::<(F,)>(after, out) ==> out.0 == values.5,
        !before.contains_key(G::spec_id()),
        crate::storage::tuples::row_holds::<(G,)>(after, (values.6,)),
        forall|out: (G,)| #[trigger]
            crate::storage::tuples::row_holds::<(G,)>(after, out) ==> out.0 == values.6,
        !before.contains_key(H::spec_id()),
        crate::storage::tuples::row_holds::<(H,)>(after, (values.7,)),
        forall|out: (H,)| #[trigger]
            crate::storage::tuples::row_holds::<(H,)>(after, out) ==> out.0 == values.7,
        !before.contains_key(I::spec_id()),
        crate::storage::tuples::row_holds::<(I,)>(after, (values.8,)),
        forall|out: (I,)| #[trigger]
            crate::storage::tuples::row_holds::<(I,)>(after, out) ==> out.0 == values.8,
        !before.contains_key(J::spec_id()),
        crate::storage::tuples::row_holds::<(J,)>(after, (values.9,)),
        forall|out: (J,)| #[trigger]
            crate::storage::tuples::row_holds::<(J,)>(after, out) ==> out.0 == values.9,
        !before.contains_key(K::spec_id()),
        crate::storage::tuples::row_holds::<(K,)>(after, (values.10,)),
        forall|out: (K,)| #[trigger]
            crate::storage::tuples::row_holds::<(K,)>(after, out) ==> out.0 == values.10,
        !before.contains_key(L::spec_id()),
        crate::storage::tuples::row_holds::<(L,)>(after, (values.11,)),
        forall|out: (L,)| #[trigger]
            crate::storage::tuples::row_holds::<(L,)>(after, out) ==> out.0 == values.11,
        !before.contains_key(M::spec_id()),
        crate::storage::tuples::row_holds::<(M,)>(after, (values.12,)),
        forall|out: (M,)| #[trigger]
            crate::storage::tuples::row_holds::<(M,)>(after, out) ==> out.0 == values.12,
        !before.contains_key(N::spec_id()),
        crate::storage::tuples::row_holds::<(N,)>(after, (values.13,)),
        forall|out: (N,)| #[trigger]
            crate::storage::tuples::row_holds::<(N,)>(after, out) ==> out.0 == values.13,
        forall|id: ComponentId|
            id != A::spec_id()
                && id != B::spec_id()
                && id != C::spec_id()
                && id != D::spec_id()
                && id != E::spec_id()
                && id != F::spec_id()
                && id != G::spec_id()
                && id != H::spec_id()
                && id != I::spec_id()
                && id != J::spec_id()
                && id != K::spec_id()
                && id != L::spec_id()
                && id != M::spec_id()
                && id != N::spec_id() ==> {
                &&& #[trigger] after.contains_key(id) <==> before.contains_key(id)
                &&& after.contains_key(id) ==> after[id] == before[id]
            },
{
    let ids = crate::storage::tuples::column_ids(
        <(A, B, C, D, E, F, G, H, I, J, K, L, M, N)>::spec_columns(),
    ).to_set();
    lemma_fourteen_columns::<A, B, C, D, E, F, G, H, I, J, K, L, M, N>();
    lemma_fourteen_held::<A, B, C, D, E, F, G, H, I, J, K, L, M, N>(values, after);
    lemma_one_held::<A>((values.0,), after);
    assert forall|out: (A,)| #[trigger]
        crate::storage::tuples::row_holds::<(A,)>(after, out) implies out.0 == values.0 by {
        lemma_one_held::<A>(out, after);
        A::lemma_encoded(values.0, out.0);
    }
    assert(ids.contains(A::spec_id()));
    assert(!after.remove_keys(ids).contains_key(A::spec_id()));
    lemma_one_held::<B>((values.1,), after);
    assert forall|out: (B,)| #[trigger]
        crate::storage::tuples::row_holds::<(B,)>(after, out) implies out.0 == values.1 by {
        lemma_one_held::<B>(out, after);
        B::lemma_encoded(values.1, out.0);
    }
    assert(ids.contains(B::spec_id()));
    assert(!after.remove_keys(ids).contains_key(B::spec_id()));
    lemma_one_held::<C>((values.2,), after);
    assert forall|out: (C,)| #[trigger]
        crate::storage::tuples::row_holds::<(C,)>(after, out) implies out.0 == values.2 by {
        lemma_one_held::<C>(out, after);
        C::lemma_encoded(values.2, out.0);
    }
    assert(ids.contains(C::spec_id()));
    assert(!after.remove_keys(ids).contains_key(C::spec_id()));
    lemma_one_held::<D>((values.3,), after);
    assert forall|out: (D,)| #[trigger]
        crate::storage::tuples::row_holds::<(D,)>(after, out) implies out.0 == values.3 by {
        lemma_one_held::<D>(out, after);
        D::lemma_encoded(values.3, out.0);
    }
    assert(ids.contains(D::spec_id()));
    assert(!after.remove_keys(ids).contains_key(D::spec_id()));
    lemma_one_held::<E>((values.4,), after);
    assert forall|out: (E,)| #[trigger]
        crate::storage::tuples::row_holds::<(E,)>(after, out) implies out.0 == values.4 by {
        lemma_one_held::<E>(out, after);
        E::lemma_encoded(values.4, out.0);
    }
    assert(ids.contains(E::spec_id()));
    assert(!after.remove_keys(ids).contains_key(E::spec_id()));
    lemma_one_held::<F>((values.5,), after);
    assert forall|out: (F,)| #[trigger]
        crate::storage::tuples::row_holds::<(F,)>(after, out) implies out.0 == values.5 by {
        lemma_one_held::<F>(out, after);
        F::lemma_encoded(values.5, out.0);
    }
    assert(ids.contains(F::spec_id()));
    assert(!after.remove_keys(ids).contains_key(F::spec_id()));
    lemma_one_held::<G>((values.6,), after);
    assert forall|out: (G,)| #[trigger]
        crate::storage::tuples::row_holds::<(G,)>(after, out) implies out.0 == values.6 by {
        lemma_one_held::<G>(out, after);
        G::lemma_encoded(values.6, out.0);
    }
    assert(ids.contains(G::spec_id()));
    assert(!after.remove_keys(ids).contains_key(G::spec_id()));
    lemma_one_held::<H>((values.7,), after);
    assert forall|out: (H,)| #[trigger]
        crate::storage::tuples::row_holds::<(H,)>(after, out) implies out.0 == values.7 by {
        lemma_one_held::<H>(out, after);
        H::lemma_encoded(values.7, out.0);
    }
    assert(ids.contains(H::spec_id()));
    assert(!after.remove_keys(ids).contains_key(H::spec_id()));
    lemma_one_held::<I>((values.8,), after);
    assert forall|out: (I,)| #[trigger]
        crate::storage::tuples::row_holds::<(I,)>(after, out) implies out.0 == values.8 by {
        lemma_one_held::<I>(out, after);
        I::lemma_encoded(values.8, out.0);
    }
    assert(ids.contains(I::spec_id()));
    assert(!after.remove_keys(ids).contains_key(I::spec_id()));
    lemma_one_held::<J>((values.9,), after);
    assert forall|out: (J,)| #[trigger]
        crate::storage::tuples::row_holds::<(J,)>(after, out) implies out.0 == values.9 by {
        lemma_one_held::<J>(out, after);
        J::lemma_encoded(values.9, out.0);
    }
    assert(ids.contains(J::spec_id()));
    assert(!after.remove_keys(ids).contains_key(J::spec_id()));
    lemma_one_held::<K>((values.10,), after);
    assert forall|out: (K,)| #[trigger]
        crate::storage::tuples::row_holds::<(K,)>(after, out) implies out.0 == values.10 by {
        lemma_one_held::<K>(out, after);
        K::lemma_encoded(values.10, out.0);
    }
    assert(ids.contains(K::spec_id()));
    assert(!after.remove_keys(ids).contains_key(K::spec_id()));
    lemma_one_held::<L>((values.11,), after);
    assert forall|out: (L,)| #[trigger]
        crate::storage::tuples::row_holds::<(L,)>(after, out) implies out.0 == values.11 by {
        lemma_one_held::<L>(out, after);
        L::lemma_encoded(values.11, out.0);
    }
    assert(ids.contains(L::spec_id()));
    assert(!after.remove_keys(ids).contains_key(L::spec_id()));
    lemma_one_held::<M>((values.12,), after);
    assert forall|out: (M,)| #[trigger]
        crate::storage::tuples::row_holds::<(M,)>(after, out) implies out.0 == values.12 by {
        lemma_one_held::<M>(out, after);
        M::lemma_encoded(values.12, out.0);
    }
    assert(ids.contains(M::spec_id()));
    assert(!after.remove_keys(ids).contains_key(M::spec_id()));
    lemma_one_held::<N>((values.13,), after);
    assert forall|out: (N,)| #[trigger]
        crate::storage::tuples::row_holds::<(N,)>(after, out) implies out.0 == values.13 by {
        lemma_one_held::<N>(out, after);
        N::lemma_encoded(values.13, out.0);
    }
    assert(ids.contains(N::spec_id()));
    assert(!after.remove_keys(ids).contains_key(N::spec_id()));
    assert forall|id: ComponentId|
        id != A::spec_id()
            && id != B::spec_id()
            && id != C::spec_id()
            && id != D::spec_id()
            && id != E::spec_id()
            && id != F::spec_id()
            && id != G::spec_id()
            && id != H::spec_id()
            && id != I::spec_id()
            && id != J::spec_id()
            && id != K::spec_id()
            && id != L::spec_id()
            && id != M::spec_id()
            && id != N::spec_id() implies {
        &&& #[trigger] after.contains_key(id) <==> before.contains_key(id)
        &&& after.contains_key(id) ==> after[id] == before[id]
    } by {
        assert(!ids.contains(id));
        assert(after.remove_keys(ids).contains_key(id) <==> after.contains_key(id));
    }
}

/// Inserting fourteen components is the same as inserting all but the last, and then the last.
pub proof fn lemma_fourteen_inserted_one_by_one<
    A: Component,
    B: Component,
    C: Component,
    D: Component,
    E: Component,
    F: Component,
    G: Component,
    H: Component,
    I: Component,
    J: Component,
    K: Component,
    L: Component,
    M: Component,
    N: Component,
>(
    before: Map<ComponentId, Seq<u8>>,
    between: Map<ComponentId, Seq<u8>>,
    after: Map<ComponentId, Seq<u8>>,
    values: (A, B, C, D, E, F, G, H, I, J, K, L, M, N),
)
    requires
        crate::storage::tuples::inserted_into::<(A, B, C, D, E, F, G, H, I, J, K, L, M)>(
            before,
            between,
            (
                values.0,
                values.1,
                values.2,
                values.3,
                values.4,
                values.5,
                values.6,
                values.7,
                values.8,
                values.9,
                values.10,
                values.11,
                values.12,
            ),
        ),
        crate::storage::tuples::inserted_into::<(N,)>(between, after, (values.13,)),
    ensures
        crate::storage::tuples::inserted_into::<(A, B, C, D, E, F, G, H, I, J, K, L, M, N)>(
            before,
            after,
            values,
        ),
{
    lemma_thirteen_inserted::<A, B, C, D, E, F, G, H, I, J, K, L, M>(
        before,
        between,
        (
            values.0,
            values.1,
            values.2,
            values.3,
            values.4,
            values.5,
            values.6,
            values.7,
            values.8,
            values.9,
            values.10,
            values.11,
            values.12,
        ),
    );
    lemma_one_inserted::<N>(between, after, (values.13,));
    lemma_fourteen_columns::<A, B, C, D, E, F, G, H, I, J, K, L, M, N>();
    lemma_fourteen_held::<A, B, C, D, E, F, G, H, I, J, K, L, M, N>(values, after);
    let ids = crate::storage::tuples::column_ids(
        <(A, B, C, D, E, F, G, H, I, J, K, L, M, N)>::spec_columns(),
    ).to_set();
    assert(A::spec_id() != N::spec_id());
    assert(B::spec_id() != N::spec_id());
    assert(C::spec_id() != N::spec_id());
    assert(D::spec_id() != N::spec_id());
    assert(E::spec_id() != N::spec_id());
    assert(F::spec_id() != N::spec_id());
    assert(G::spec_id() != N::spec_id());
    assert(H::spec_id() != N::spec_id());
    assert(I::spec_id() != N::spec_id());
    assert(J::spec_id() != N::spec_id());
    assert(K::spec_id() != N::spec_id());
    assert(L::spec_id() != N::spec_id());
    assert(M::spec_id() != N::spec_id());
    assert forall|id: ComponentId| #[trigger]
        after.remove_keys(ids).contains_key(id) <==> before.contains_key(id) by {
        assert(ids.contains(id) || (between.contains_key(id) <==> before.contains_key(id)));
        assert(ids.contains(id) || (after.contains_key(id) <==> between.contains_key(id)));
    }
    assert(after.remove_keys(ids) =~= before);
}

/// The columns of fifteen components: one for each member, in order, with the identifier and the
/// layout of that member.
pub proof fn lemma_fifteen_columns<
    A: Component,
    B: Component,
    C: Component,
    D: Component,
    E: Component,
    F: Component,
    G: Component,
    H: Component,
    I: Component,
    J: Component,
    K: Component,
    L: Component,
    M: Component,
    N: Component,
    O: Component,
>()
    ensures
        <(A, B, C, D, E, F, G, H, I, J, K, L, M, N, O)>::spec_columns().len() == 15,
        <(A, B, C, D, E, F, G, H, I, J, K, L, M, N, O)>::spec_columns()[0].0 == A::spec_id(),
        <(A, B, C, D, E, F, G, H, I, J, K, L, M, N, O)>::spec_columns()[0].1
            == crate::storage::component::layout_of::<A>(),
        <(A, B, C, D, E, F, G, H, I, J, K, L, M, N, O)>::spec_columns()[1].0 == B::spec_id(),
        <(A, B, C, D, E, F, G, H, I, J, K, L, M, N, O)>::spec_columns()[1].1
            == crate::storage::component::layout_of::<B>(),
        <(A, B, C, D, E, F, G, H, I, J, K, L, M, N, O)>::spec_columns()[2].0 == C::spec_id(),
        <(A, B, C, D, E, F, G, H, I, J, K, L, M, N, O)>::spec_columns()[2].1
            == crate::storage::component::layout_of::<C>(),
        <(A, B, C, D, E, F, G, H, I, J, K, L, M, N, O)>::spec_columns()[3].0 == D::spec_id(),
        <(A, B, C, D, E, F, G, H, I, J, K, L, M, N, O)>::spec_columns()[3].1
            == crate::storage::component::layout_of::<D>(),
        <(A, B, C, D, E, F, G, H, I, J, K, L, M, N, O)>::spec_columns()[4].0 == E::spec_id(),
        <(A, B, C, D, E, F, G, H, I, J, K, L, M, N, O)>::spec_columns()[4].1
            == crate::storage::component::layout_of::<E>(),
        <(A, B, C, D, E, F, G, H, I, J, K, L, M, N, O)>::spec_columns()[5].0 == F::spec_id(),
        <(A, B, C, D, E, F, G, H, I, J, K, L, M, N, O)>::spec_columns()[5].1
            == crate::storage::component::layout_of::<F>(),
        <(A, B, C, D, E, F, G, H, I, J, K, L, M, N, O)>::spec_columns()[6].0 == G::spec_id(),
        <(A, B, C, D, E, F, G, H, I, J, K, L, M, N, O)>::spec_columns()[6].1
            == crate::storage::component::layout_of::<G>(),
        <(A, B, C, D, E, F, G, H, I, J, K, L, M, N, O)>::spec_columns()[7].0 == H::spec_id(),
        <(A, B, C, D, E, F, G, H, I, J, K, L, M, N, O)>::spec_columns()[7].1
            == crate::storage::component::layout_of::<H>(),
        <(A, B, C, D, E, F, G, H, I, J, K, L, M, N, O)>::spec_columns()[8].0 == I::spec_id(),
        <(A, B, C, D, E, F, G, H, I, J, K, L, M, N, O)>::spec_columns()[8].1
            == crate::storage::component::layout_of::<I>(),
        <(A, B, C, D, E, F, G, H, I, J, K, L, M, N, O)>::spec_columns()[9].0 == J::spec_id(),
        <(A, B, C, D, E, F, G, H, I, J, K, L, M, N, O)>::spec_columns()[9].1
            == crate::storage::component::layout_of::<J>(),
        <(A, B, C, D, E, F, G, H, I, J, K, L, M, N, O)>::spec_columns()[10].0 == K::spec_id(),
        <(A, B, C, D, E, F, G, H, I, J, K, L, M, N, O)>::spec_columns()[10].1
            == crate::storage::component::layout_of::<K>(),
        <(A, B, C, D, E, F, G, H, I, J, K, L, M, N, O)>::spec_columns()[11].0 == L::spec_id(),
        <(A, B, C, D, E, F, G, H, I, J, K, L, M, N, O)>::spec_columns()[11].1
            == crate::storage::component::layout_of::<L>(),
        <(A, B, C, D, E, F, G, H, I, J, K, L, M, N, O)>::spec_columns()[12].0 == M::spec_id(),
        <(A, B, C, D, E, F, G, H, I, J, K, L, M, N, O)>::spec_columns()[12].1
            == crate::storage::component::layout_of::<M>(),
        <(A, B, C, D, E, F, G, H, I, J, K, L, M, N, O)>::spec_columns()[13].0 == N::spec_id(),
        <(A, B, C, D, E, F, G, H, I, J, K, L, M, N, O)>::spec_columns()[13].1
            == crate::storage::component::layout_of::<N>(),
        <(A, B, C, D, E, F, G, H, I, J, K, L, M, N, O)>::spec_columns()[14].0 == O::spec_id(),
        <(A, B, C, D, E, F, G, H, I, J, K, L, M, N, O)>::spec_columns()[14].1
            == crate::storage::component::layout_of::<O>(),
        crate::storage::tuples::column_ids(
            <(A, B, C, D, E, F, G, H, I, J, K, L, M, N, O)>::spec_columns(),
        ).len()
            == 15,
        forall|id: ComponentId|
            crate::storage::tuples::column_ids(
                <(A, B, C, D, E, F, G, H, I, J, K, L, M, N, O)>::spec_columns(),
            ).contains(id) <==> {
                ||| id == A::spec_id()
                ||| id == B::spec_id()
                ||| id == C::spec_id()
                ||| id == D::spec_id()
                ||| id == E::spec_id()
                ||| id == F::spec_id()
                ||| id == G::spec_id()
                ||| id == H::spec_id()
                ||| id == I::spec_id()
                ||| id == J::spec_id()
                ||| id == K::spec_id()
                ||| id == L::spec_id()
                ||| id == M::spec_id()
                ||| id == N::spec_id()
                ||| id == O::spec_id()
            },
{
    let ids = crate::storage::tuples::column_ids(
        <(A, B, C, D, E, F, G, H, I, J, K, L, M, N, O)>::spec_columns(),
    );
    assert(ids[0] == A::spec_id());
    assert(ids[1] == B::spec_id());
    assert(ids[2] == C::spec_id());
    assert(ids[3] == D::spec_id());
    assert(ids[4] == E::spec_id());
    assert(ids[5] == F::spec_id());
    assert(ids[6] == G::spec_id());
    assert(ids[7] == H::spec_id());
    assert(ids[8] == I::spec_id());
    assert(ids[9] == J::spec_id());
    assert(ids[10] == K::spec_id());
    assert(ids[11] == L::spec_id());
    assert(ids[12] == M::spec_id());
    assert(ids[13] == N::spec_id());
    assert(ids[14] == O::spec_id());
}

/// The list of the values of fifteen components: they come in order, each with the identifier of its
/// own member and with bytes that stand for it.
pub proof fn lemma_fifteen_listed<
    A: Component,
    B: Component,
    C: Component,
    D: Component,
    E: Component,
    F: Component,
    G: Component,
    H: Component,
    I: Component,
    J: Component,
    K: Component,
    L: Component,
    M: Component,
    N: Component,
    O: Component,
>(
    values: (A, B, C, D, E, F, G, H, I, J, K, L, M, N, O),
    list: Seq<(ComponentId, Seq<u8>)>,
)
    ensures
        crate::storage::tuples::lists::<(A, B, C, D, E, F, G, H, I, J, K, L, M, N, O)>(
            values,
            list,
        ) <==> {
            &&& list.len() == 15
            &&& list[0].0 == A::spec_id()
            &&& values.0.encoded_by(list[0].1)
            &&& list[1].0 == B::spec_id()
            &&& values.1.encoded_by(list[1].1)
            &&& list[2].0 == C::spec_id()
            &&& values.2.encoded_by(list[2].1)
            &&& list[3].0 == D::spec_id()
            &&& values.3.encoded_by(list[3].1)
            &&& list[4].0 == E::spec_id()
            &&& values.4.encoded_by(list[4].1)
            &&& list[5].0 == F::spec_id()
            &&& values.5.encoded_by(list[5].1)
            &&& list[6].0 == G::spec_id()
            &&& values.6.encoded_by(list[6].1)
            &&& list[7].0 == H::spec_id()
            &&& values.7.encoded_by(list[7].1)
            &&& list[8].0 == I::spec_id()
            &&& values.8.encoded_by(list[8].1)
            &&& list[9].0 == J::spec_id()
            &&& values.9.encoded_by(list[9].1)
            &&& list[10].0 == K::spec_id()
            &&& values.10.encoded_by(list[10].1)
            &&& list[11].0 == L::spec_id()
            &&& values.11.encoded_by(list[11].1)
            &&& list[12].0 == M::spec_id()
            &&& values.12.encoded_by(list[12].1)
            &&& list[13].0 == N::spec_id()
            &&& values.13.encoded_by(list[13].1)
            &&& list[14].0 == O::spec_id()
            &&& values.14.encoded_by(list[14].1)
        },
{
    let ids = crate::storage::component::ids(list);
    let columns = <(A, B, C, D, E, F, G, H, I, J, K, L, M, N, O)>::spec_columns();
    let column_ids = crate::storage::tuples::column_ids(columns);
    assert(ids.len() == list.len());
    assert(column_ids.len() == 15);
    assert(column_ids[0] == A::spec_id());
    assert(0 < list.len() ==> ids[0] == list[0].0);
    assert(column_ids[1] == B::spec_id());
    assert(1 < list.len() ==> ids[1] == list[1].0);
    assert(column_ids[2] == C::spec_id());
    assert(2 < list.len() ==> ids[2] == list[2].0);
    assert(column_ids[3] == D::spec_id());
    assert(3 < list.len() ==> ids[3] == list[3].0);
    assert(column_ids[4] == E::spec_id());
    assert(4 < list.len() ==> ids[4] == list[4].0);
    assert(column_ids[5] == F::spec_id());
    assert(5 < list.len() ==> ids[5] == list[5].0);
    assert(column_ids[6] == G::spec_id());
    assert(6 < list.len() ==> ids[6] == list[6].0);
    assert(column_ids[7] == H::spec_id());
    assert(7 < list.len() ==> ids[7] == list[7].0);
    assert(column_ids[8] == I::spec_id());
    assert(8 < list.len() ==> ids[8] == list[8].0);
    assert(column_ids[9] == J::spec_id());
    assert(9 < list.len() ==> ids[9] == list[9].0);
    assert(column_ids[10] == K::spec_id());
    assert(10 < list.len() ==> ids[10] == list[10].0);
    assert(column_ids[11] == L::spec_id());
    assert(11 < list.len() ==> ids[11] == list[11].0);
    assert(column_ids[12] == M::spec_id());
    assert(12 < list.len() ==> ids[12] == list[12].0);
    assert(column_ids[13] == N::spec_id());
    assert(13 < list.len() ==> ids[13] == list[13].0);
    assert(column_ids[14] == O::spec_id());
    assert(14 < list.len() ==> ids[14] == list[14].0);
    if ids.len() == column_ids.len() && (forall|i: int|
        0 <= i < ids.len() ==> ids[i] == column_ids[i]) {
        assert(ids =~= column_ids);
    }
}

/// A row holds the values of fifteen components exactly if it has each member under its own
/// identifier.
pub proof fn lemma_fifteen_held<
    A: Component,
    B: Component,
    C: Component,
    D: Component,
    E: Component,
    F: Component,
    G: Component,
    H: Component,
    I: Component,
    J: Component,
    K: Component,
    L: Component,
    M: Component,
    N: Component,
    O: Component,
>(
    values: (A, B, C, D, E, F, G, H, I, J, K, L, M, N, O),
    row: Map<ComponentId, Seq<u8>>,
)
    ensures
        crate::storage::tuples::row_holds::<(A, B, C, D, E, F, G, H, I, J, K, L, M, N, O)>(
            row,
            values,
        ) <==> {
            &&& row.contains_key(A::spec_id())
            &&& values.0.encoded_by(row[A::spec_id()])
            &&& row.contains_key(B::spec_id())
            &&& values.1.encoded_by(row[B::spec_id()])
            &&& row.contains_key(C::spec_id())
            &&& values.2.encoded_by(row[C::spec_id()])
            &&& row.contains_key(D::spec_id())
            &&& values.3.encoded_by(row[D::spec_id()])
            &&& row.contains_key(E::spec_id())
            &&& values.4.encoded_by(row[E::spec_id()])
            &&& row.contains_key(F::spec_id())
            &&& values.5.encoded_by(row[F::spec_id()])
            &&& row.contains_key(G::spec_id())
            &&& values.6.encoded_by(row[G::spec_id()])
            &&& row.contains_key(H::spec_id())
            &&& values.7.encoded_by(row[H::spec_id()])
            &&& row.contains_key(I::spec_id())
            &&& values.8.encoded_by(row[I::spec_id()])
            &&& row.contains_key(J::spec_id())
            &&& values.9.encoded_by(row[J::spec_id()])
            &&& row.contains_key(K::spec_id())
            &&& values.10.encoded_by(row[K::spec_id()])
            &&& row.contains_key(L::spec_id())
            &&& values.11.encoded_by(row[L::spec_id()])
            &&& row.contains_key(M::spec_id())
            &&& values.12.encoded_by(row[M::spec_id()])
            &&& row.contains_key(N::spec_id())
            &&& values.13.encoded_by(row[N::spec_id()])
            &&& row.contains_key(O::spec_id())
            &&& values.14.encoded_by(row[O::spec_id()])
        },
{
    let columns = <(A, B, C, D, E, F, G, H, I, J, K, L, M, N, O)>::spec_columns();
    let parts = crate::storage::tuples::row_parts(columns, row);
    assert(parts.len() == 15);
    assert(columns[0].0 == A::spec_id());
    assert(parts[0] == row[A::spec_id()]);
    assert(columns[1].0 == B::spec_id());
    assert(parts[1] == row[B::spec_id()]);
    assert(columns[2].0 == C::spec_id());
    assert(parts[2] == row[C::spec_id()]);
    assert(columns[3].0 == D::spec_id());
    assert(parts[3] == row[D::spec_id()]);
    assert(columns[4].0 == E::spec_id());
    assert(parts[4] == row[E::spec_id()]);
    assert(columns[5].0 == F::spec_id());
    assert(parts[5] == row[F::spec_id()]);
    assert(columns[6].0 == G::spec_id());
    assert(parts[6] == row[G::spec_id()]);
    assert(columns[7].0 == H::spec_id());
    assert(parts[7] == row[H::spec_id()]);
    assert(columns[8].0 == I::spec_id());
    assert(parts[8] == row[I::spec_id()]);
    assert(columns[9].0 == J::spec_id());
    assert(parts[9] == row[J::spec_id()]);
    assert(columns[10].0 == K::spec_id());
    assert(parts[10] == row[K::spec_id()]);
    assert(columns[11].0 == L::spec_id());
    assert(parts[11] == row[L::spec_id()]);
    assert(columns[12].0 == M::spec_id());
    assert(parts[12] == row[M::spec_id()]);
    assert(columns[13].0 == N::spec_id());
    assert(parts[13] == row[N::spec_id()]);
    assert(columns[14].0 == O::spec_id());
    assert(parts[14] == row[O::spec_id()]);
}

/// Inserting fifteen components: each member is there under its own identifier, taking it out again
/// gives its own value, and what was there under other identifiers is as it was.
pub proof fn lemma_fifteen_inserted<
    A: Component,
    B: Component,
    C: Component,
    D: Component,
    E: Component,
    F: Component,
    G: Component,
    H: Component,
    I: Component,
    J: Component,
    K: Component,
    L: Component,
    M: Component,
    N: Component,
    O: Component,
>(
    before: Map<ComponentId, Seq<u8>>,
    after: Map<ComponentId, Seq<u8>>,
    values: (A, B, C, D, E, F, G, H, I, J, K, L, M, N, O),
)
    requires
        crate::storage::tuples::inserted_into::<(A, B, C, D, E, F, G, H, I, J, K, L, M, N, O)>(
            before,
            after,
            values,
        ),
    ensures
        !before.contains_key(A::spec_id()),
        crate::storage::tuples::row_holds::<(A,)>(after, (values.0,)),
        forall|out: (A,)| #[trigger]
            crate::storage::tuples::row_holds::<(A,)>(after, out) ==> out.0 == values.0,
        !before.contains_key(B::spec_id()),
        crate::storage::tuples::row_holds::<(B,)>(after, (values.1,)),
        forall|out: (B,)| #[trigger]
            crate::storage::tuples::row_holds::<(B,)>(after, out) ==> out.0 == values.1,
        !before.contains_key(C::spec_id()),
        crate::storage::tuples::row_holds::<(C,)>(after, (values.2,)),
        forall|out: (C,)| #[trigger]
            crate::storage::tuples::row_holds::<(C,)>(after, out) ==> out.0 == values.2,
        !before.contains_key(D::spec_id()),
        crate::storage::tuples::row_holds::<(D,)>(after, (values.3,)),
        forall|out: (D,)| #[trigger]
            crate::storage::tuples::row_holds::<(D,)>(after, out) ==> out.0 == values.3,
        !before.contains_key(E::spec_id()),
        crate::storage::tuples::row_holds::<(E,)>(after, (values.4,)),
        forall|out: (E,)| #[trigger]
            crate::storage::tuples::row_holds::<(E,)>(after, out) ==> out.0 == values.4,
        !before.contains_key(F::spec_id()),
        crate::storage::tuples::row_holds::<(F,)>(after, (values.5,)),
        forall|out: (F,)| #[trigger]
            crate::storage::tuples::row_holds::<(F,)>(after, out) ==> out.0 == values.5,
        !before.contains_key(G::spec_id()),
        crate::storage::tuples::row_holds::<(G,)>(after, (values.6,)),
        forall|out: (G,)| #[trigger]
            crate::storage::tuples::row_holds::<(G,)>(after, out) ==> out.0 == values.6,
        !before.contains_key(H::spec_id()),
        crate::storage::tuples::row_holds::<(H,)>(after, (values.7,)),
        forall|out: (H,)| #[trigger]
            crate::storage::tuples::row_holds::<(H,)>(after, out) ==> out.0 == values.7,
        !before.contains_key(I::spec_id()),
        crate::storage::tuples::row_holds::<(I,)>(after, (values.8,)),
        forall|out: (I,)| #[trigger]
            crate::storage::tuples::row_holds::<(I,)>(after, out) ==> out.0 == values.8,
        !before.contains_key(J::spec_id()),
        crate::storage::tuples::row_holds::<(J,)>(after, (values.9,)),
        forall|out: (J,)| #[trigger]
            crate::storage::tuples::row_holds::<(J,)>(after, out) ==> out.0 == values.9,
        !before.contains_key(K::spec_id()),
        crate::storage::tuples::row_holds::<(K,)>(after, (values.10,)),
        forall|out: (K,)| #[trigger]
            crate::storage::tuples::row_holds::<(K,)>(after, out) ==> out.0 == values.10,
        !before.contains_key(L::spec_id()),
        crate::storage::tuples::row_holds::<(L,)>(after, (values.11,)),
        forall|out: (L,)| #[trigger]
            crate::storage::tuples::row_holds::<(L,)>(after, out) ==> out.0 == values.11,
        !before.contains_key(M::spec_id()),
        crate::storage::tuples::row_holds::<(M,)>(after, (values.12,)),
        forall|out: (M,)| #[trigger]
            crate::storage::tuples::row_holds::<(M,)>(after, out) ==> out.0 == values.12,
        !before.contains_key(N::spec_id()),
        crate::storage::tuples::row_holds::<(N,)>(after, (values.13,)),
        forall|out: (N,)| #[trigger]
            crate::storage::tuples::row_holds::<(N,)>(after, out) ==> out.0 == values.13,
        !before.contains_key(O::spec_id()),
        crate::storage::tuples::row_holds::<(O,)>(after, (values.14,)),
        forall|out: (O,)| #[trigger]
            crate::storage::tuples::row_holds::<(O,)>(after, out) ==> out.0 == values.14,
        forall|id: ComponentId|
            id != A::spec_id()
                && id != B::spec_id()
                && id != C::spec_id()
                && id != D::spec_id()
                && id != E::spec_id()
                && id != F::spec_id()
                && id != G::spec_id()
                && id != H::spec_id()
                && id != I::spec_id()
                && id != J::spec_id()
                && id != K::spec_id()
                && id != L::spec_id()
                && id != M::spec_id()
                && id != N::spec_id()
                && id != O::spec_id() ==> {
                &&& #[trigger] after.contains_key(id) <==> before.contains_key(id)
                &&& after.contains_key(id) ==> after[id] == before[id]
            },
{
    let ids = crate::storage::tuples::column_ids(
        <(A, B, C, D, E, F, G, H, I, J, K, L, M, N, O)>::spec_columns(),
    ).to_set();
    lemma_fifteen_columns::<A, B, C, D, E, F, G, H, I, J, K, L, M, N, O>();
    lemma_fifteen_held::<A, B, C, D, E, F, G, H, I, J, K, L, M, N, O>(values, after);
    lemma_one_held::<A>((values.0,), after);
    assert forall|out: (A,)| #[trigger]
        crate::storage::tuples::row_holds::<(A,)>(after, out) implies out.0 == values.0 by {
        lemma_one_held::<A>(out, after);
        A::lemma_encoded(values.0, out.0);
    }
    assert(ids.contains(A::spec_id()));
    assert(!after.remove_keys(ids).contains_key(A::spec_id()));
    lemma_one_held::<B>((values.1,), after);
    assert forall|out: (B,)| #[trigger]
        crate::storage::tuples::row_holds::<(B,)>(after, out) implies out.0 == values.1 by {
        lemma_one_held::<B>(out, after);
        B::lemma_encoded(values.1, out.0);
    }
    assert(ids.contains(B::spec_id()));
    assert(!after.remove_keys(ids).contains_key(B::spec_id()));
    lemma_one_held::<C>((values.2,), after);
    assert forall|out: (C,)| #[trigger]
        crate::storage::tuples::row_holds::<(C,)>(after, out) implies out.0 == values.2 by {
        lemma_one_held::<C>(out, after);
        C::lemma_encoded(values.2, out.0);
    }
    assert(ids.contains(C::spec_id()));
    assert(!after.remove_keys(ids).contains_key(C::spec_id()));
    lemma_one_held::<D>((values.3,), after);
    assert forall|out: (D,)| #[trigger]
        crate::storage::tuples::row_holds::<(D,)>(after, out) implies out.0 == values.3 by {
        lemma_one_held::<D>(out, after);
        D::lemma_encoded(values.3, out.0);
    }
    assert(ids.contains(D::spec_id()));
    assert(!after.remove_keys(ids).contains_key(D::spec_id()));
    lemma_one_held::<E>((values.4,), after);
    assert forall|out: (E,)| #[trigger]
        crate::storage::tuples::row_holds::<(E,)>(after, out) implies out.0 == values.4 by {
        lemma_one_held::<E>(out, after);
        E::lemma_encoded(values.4, out.0);
    }
    assert(ids.contains(E::spec_id()));
    assert(!after.remove_keys(ids).contains_key(E::spec_id()));
    lemma_one_held::<F>((values.5,), after);
    assert forall|out: (F,)| #[trigger]
        crate::storage::tuples::row_holds::<(F,)>(after, out) implies out.0 == values.5 by {
        lemma_one_held::<F>(out, after);
        F::lemma_encoded(values.5, out.0);
    }
    assert(ids.contains(F::spec_id()));
    assert(!after.remove_keys(ids).contains_key(F::spec_id()));
    lemma_one_held::<G>((values.6,), after);
    assert forall|out: (G,)| #[trigger]
        crate::storage::tuples::row_holds::<(G,)>(after, out) implies out.0 == values.6 by {
        lemma_one_held::<G>(out, after);
        G::lemma_encoded(values.6, out.0);
    }
    assert(ids.contains(G::spec_id()));
    assert(!after.remove_keys(ids).contains_key(G::spec_id()));
    lemma_one_held::<H>((values.7,), after);
    assert forall|out: (H,)| #[trigger]
        crate::storage::tuples::row_holds::<(H,)>(after, out) implies out.0 == values.7 by {
        lemma_one_held::<H>(out, after);
        H::lemma_encoded(values.7, out.0);
    }
    assert(ids.contains(H::spec_id()));
    assert(!after.remove_keys(ids).contains_key(H::spec_id()));
    lemma_one_held::<I>((values.8,), after);
    assert forall|out: (I,)| #[trigger]
        crate::storage::tuples::row_holds::<(I,)>(after, out) implies out.0 == values.8 by {
        lemma_one_held::<I>(out, after);
        I::lemma_encoded(values.8, out.0);
    }
    assert(ids.contains(I::spec_id()));
    assert(!after.remove_keys(ids).contains_key(I::spec_id()));
    lemma_one_held::<J>((values.9,), after);
    assert forall|out: (J,)| #[trigger]
        crate::storage::tuples::row_holds::<(J,)>(after, out) implies out.0 == values.9 by {
        lemma_one_held::<J>(out, after);
        J::lemma_encoded(values.9, out.0);
    }
    assert(ids.contains(J::spec_id()));
    assert(!after.remove_keys(ids).contains_key(J::spec_id()));
    lemma_one_held::<K>((values.10,), after);
    assert forall|out: (K,)| #[trigger]
        crate::storage::tuples::row_holds::<(K,)>(after, out) implies out.0 == values.10 by {
        lemma_one_held::<K>(out, after);
        K::lemma_encoded(values.10, out.0);
    }
    assert(ids.contains(K::spec_id()));
    assert(!after.remove_keys(ids).contains_key(K::spec_id()));
    lemma_one_held::<L>((values.11,), after);
    assert forall|out: (L,)| #[trigger]
        crate::storage::tuples::row_holds::<(L,)>(after, out) implies out.0 == values.11 by {
        lemma_one_held::<L>(out, after);
        L::lemma_encoded(values.11, out.0);
    }
    assert(ids.contains(L::spec_id()));
    assert(!after.remove_keys(ids).contains_key(L::spec_id()));
    lemma_one_held::<M>((values.12,), after);
    assert forall|out: (M,)| #[trigger]
        crate::storage::tuples::row_holds::<(M,)>(after, out) implies out.0 == values.12 by {
        lemma_one_held::<M>(out, after);
        M::lemma_encoded(values.12, out.0);
    }
    assert(ids.contains(M::spec_id()));
    assert(!after.remove_keys(ids).contains_key(M::spec_id()));
    lemma_one_held::<N>((values.13,), after);
    assert forall|out: (N,)| #[trigger]
        crate::storage::tuples::row_holds::<(N,)>(after, out) implies out.0 == values.13 by {
        lemma_one_held::<N>(out, after);
        N::lemma_encoded(values.13, out.0);
    }
    assert(ids.contains(N::spec_id()));
    assert(!after.remove_keys(ids).contains_key(N::spec_id()));
    lemma_one_held::<O>((values.14,), after);
    assert forall|out: (O,)| #[trigger]
        crate::storage::tuples::row_holds::<(O,)>(after, out) implies out.0 == values.14 by {
        lemma_one_held::<O>(out, after);
        O::lemma_encoded(values.14, out.0);
    }
    assert(ids.contains(O::spec_id()));
    assert(!after.remove_keys(ids).contains_key(O::spec_id()));
    assert forall|id: ComponentId|
        id != A::spec_id()
            && id != B::spec_id()
            && id != C::spec_id()
            && id != D::spec_id()
            && id != E::spec_id()
            && id != F::spec_id()
            && id != G::spec_id()
            && id != H::spec_id()
            && id != I::spec_id()
            && id != J::spec_id()
            && id != K::spec_id()
            && id != L::spec_id()
            && id != M::spec_id()
            && id != N::spec_id()
            && id != O::spec_id() implies {
        &&& #[trigger] after.contains_key(id) <==> before.contains_key(id)
        &&& after.contains_key(id) ==> after[id] == before[id]
    } by {
        assert(!ids.contains(id));
        assert(after.remove_keys(ids).contains_key(id) <==> after.contains_key(id));
    }
}

/// Inserting fifteen components is the same as inserting all but the last, and then the last.
pub proof fn lemma_fifteen_inserted_one_by_one<
    A: Component,
    B: Component,
    C: Component,
    D: Component,
    E: Component,
    F: Component,
    G: Component,
    H: Component,
    I: Component,
    J: Component,
    K: Component,
    L: Component,
    M: Component,
    N: Component,
    O: Component,
>(
    before: Map<ComponentId, Seq<u8>>,
    between: Map<ComponentId, Seq<u8>>,
    after: Map<ComponentId, Seq<u8>>,
    values: (A, B, C, D, E, F, G, H, I, J, K, L, M, N, O),
)
    requires
        crate::storage::tuples::inserted_into::<(A, B, C, D, E, F, G, H, I, J, K, L, M, N)>(
            before,
            between,
            (
                values.0,
                values.1,
                values.2,
                values.3,
                values.4,
                values.5,
                values.6,
                values.7,
                values.8,
                values.9,
                values.10,
                values.11,
                values.12,
                values.13,
            ),
        ),
        crate::storage::tuples::inserted_into::<(O,)>(between, after, (values.14,)),
    ensures
        crate::storage::tuples::inserted_into::<(A, B, C, D, E, F, G, H, I, J, K, L, M, N, O)>(
            before,
            after,
            values,
        ),
{
    lemma_fourteen_inserted::<A, B, C, D, E, F, G, H, I, J, K, L, M, N>(
        before,
        between,
        (
            values.0,
            values.1,
            values.2,
            values.3,
            values.4,
            values.5,
            values.6,
            values.7,
            values.8,
            values.9,
            values.10,
            values.11,
            values.12,
            values.13,
        ),
    );
    lemma_one_inserted::<O>(between, after, (values.14,));
    lemma_fifteen_columns::<A, B, C, D, E, F, G, H, I, J, K, L, M, N, O>();
    lemma_fifteen_held::<A, B, C, D, E, F, G, H, I, J, K, L, M, N, O>(values, after);
    let ids = crate::storage::tuples::column_ids(
        <(A, B, C, D, E, F, G, H, I, J, K, L, M, N, O)>::spec_columns(),
    ).to_set();
    assert(A::spec_id() != O::spec_id());
    assert(B::spec_id() != O::spec_id());
    assert(C::spec_id() != O::spec_id());
    assert(D::spec_id() != O::spec_id());
    assert(E::spec_id() != O::spec_id());
    assert(F::spec_id() != O::spec_id());
    assert(G::spec_id() != O::spec_id());
    assert(H::spec_id() != O::spec_id());
    assert(I::spec_id() != O::spec_id());
    assert(J::spec_id() != O::spec_id());
    assert(K::spec_id() != O::spec_id());
    assert(L::spec_id() != O::spec_id());
    assert(M::spec_id() != O::spec_id());
    assert(N::spec_id() != O::spec_id());
    assert forall|id: ComponentId| #[trigger]
        after.remove_keys(ids).contains_key(id) <==> before.contains_key(id) by {
        assert(ids.contains(id) || (between.contains_key(id) <==> before.contains_key(id)));
        assert(ids.contains(id) || (after.contains_key(id) <==> between.contains_key(id)));
    }
    assert(after.remove_keys(ids) =~= before);
}

/// The columns of sixteen components: one for each member, in order, with the identifier and the
/// layout of that member.
pub proof fn lemma_sixteen_columns<
    A: Component,
    B: Component,
    C: Component,
    D: Component,
    E: Component,
    F: Component,
    G: Component,
    H: Component,
    I: Component,
    J: Component,
    K: Component,
    L: Component,
    M: Component,
    N: Component,
    O: Component,
    P: Component,
>()
    ensures
        <(A, B, C, D, E, F, G, H, I, J, K, L, M, N, O, P)>::spec_columns().len() == 16,
        <(A, B, C, D, E, F, G, H, I, J, K, L, M, N, O, P)>::spec_columns()[0].0 == A::spec_id(),
        <(A, B, C, D, E, F, G, H, I, J, K, L, M, N, O, P)>::spec_columns()[0].1
            == crate::storage::component::layout_of::<A>(),
        <(A, B, C, D, E, F, G, H, I, J, K, L, M, N, O, P)>::spec_columns()[1].0 == B::spec_id(),
        <(A, B, C, D, E, F, G, H, I, J, K, L, M, N, O, P)>::spec_columns()[1].1
            == crate::storage::component::layout_of::<B>(),
        <(A, B, C, D, E, F, G, H, I, J, K, L, M, N, O, P)>::spec_columns()[2].0 == C::spec_id(),
        <(A, B, C, D, E, F, G, H, I, J, K, L, M, N, O, P)>::spec_columns()[2].1
            == crate::storage::component::layout_of::<C>(),
        <(A, B, C, D, E, F, G, H, I, J, K, L, M, N, O, P)>::spec_columns()[3].0 == D::spec_id(),
        <(A, B, C, D, E, F, G, H, I, J, K, L, M, N, O, P)>::spec_columns()[3].1
            == crate::storage::component::layout_of::<D>(),
        <(A, B, C, D, E, F, G, H, I, J, K, L, M, N, O, P)>::spec_columns()[4].0 == E::spec_id(),
        <(A, B, C, D, E, F, G, H, I, J, K, L, M, N, O, P)>::spec_columns()[4].1
            == crate::storage::component::layout_of::<E>(),
        <(A, B, C, D, E, F, G, H, I, J, K, L, M, N, O, P)>::spec_columns()[5].0 == F::spec_id(),
        <(A, B, C, D, E, F, G, H, I, J, K, L, M, N, O, P)>::spec_columns()[5].1
            == crate::storage::component::layout_of::<F>(),
        <(A, B, C, D, E, F, G, H, I, J, K, L, M, N, O, P)>::spec_columns()[6].0 == G::spec_id(),
        <(A, B, C, D, E, F, G, H, I, J, K, L, M, N, O, P)>::spec_columns()[6].1
            == crate::storage::component::layout_of::<G>(),
        <(A, B, C, D, E, F, G, H, I, J, K, L, M, N, O, P)>::spec_columns()[7].0 == H::spec_id(),
        <(A, B, C, D, E, F, G, H, I, J, K, L, M, N, O, P)>::spec_columns()[7].1
            == crate::storage::component::layout_of::<H>(),
        <(A, B, C, D, E, F, G, H, I, J, K, L, M, N, O, P)>::spec_columns()[8].0 == I::spec_id(),
        <(A, B, C, D, E, F, G, H, I, J, K, L, M, N, O, P)>::spec_columns()[8].1
            == crate::storage::component::layout_of::<I>(),
        <(A, B, C, D, E, F, G, H, I, J, K, L, M, N, O, P)>::spec_columns()[9].0 == J::spec_id(),
        <(A, B, C, D, E, F, G, H, I, J, K, L, M, N, O, P)>::spec_columns()[9].1
            == crate::storage::component::layout_of::<J>(),
        <(A, B, C, D, E, F, G, H, I, J, K, L, M, N, O, P)>::spec_columns()[10].0 == K::spec_id(),
        <(A, B, C, D, E, F, G, H, I, J, K, L, M, N, O, P)>::spec_columns()[10].1
            == crate::storage::component::layout_of::<K>(),
        <(A, B, C, D, E, F, G, H, I, J, K, L, M, N, O, P)>::spec_columns()[11].0 == L::spec_id(),
        <(A, B, C, D, E, F, G, H, I, J, K, L, M, N, O, P)>::spec_columns()[11].1
            == crate::storage::component::layout_of::<L>(),
        <(A, B, C, D, E, F, G, H, I, J, K, L, M, N, O, P)>::spec_columns()[12].0 == M::spec_id(),
        <(A, B, C, D, E, F, G, H, I, J, K, L, M, N, O, P)>::spec_columns()[12].1
            == crate::storage::component::layout_of::<M>(),
        <(A, B, C, D, E, F, G, H, I, J, K, L, M, N, O, P)>::spec_columns()[13].0 == N::spec_id(),
        <(A, B, C, D, E, F, G, H, I, J, K, L, M, N, O, P)>::spec_columns()[13].1
            == crate::storage::component::layout_of::<N>(),
        <(A, B, C, D, E, F, G, H, I, J, K, L, M, N, O, P)>::spec_columns()[14].0 == O::spec_id(),
        <(A, B, C, D, E, F, G, H, I, J, K, L, M, N, O, P)>::spec_columns()[14].1
            == crate::storage::component::layout_of::<O>(),
        <(A, B, C, D, E, F, G, H, I, J, K, L, M, N, O, P)>::spec_columns()[15].0 == P::spec_id(),
        <(A, B, C, D, E, F, G, H, I, J, K, L, M, N, O, P)>::spec_columns()[15].1
            == crate::storage::component::layout_of::<P>(),
        crate::storage::tuples::column_ids(
            <(A, B, C, D, E, F, G, H, I, J, K, L, M, N, O, P)>::spec_columns(),
        ).len()
            == 16,
        forall|id: ComponentId|
            crate::storage::tuples::column_ids(
                <(A, B, C, D, E, F, G, H, I, J, K, L, M, N, O, P)>::spec_columns(),
            ).contains(id) <==> {
                ||| id == A::spec_id()
                ||| id == B::spec_id()
                ||| id == C::spec_id()
                ||| id == D::spec_id()
                ||| id == E::spec_id()
                ||| id == F::spec_id()
                ||| id == G::spec_id()
                ||| id == H::spec_id()
                ||| id == I::spec_id()
                ||| id == J::spec_id()
                ||| id == K::spec_id()
                ||| id == L::spec_id()
                ||| id == M::spec_id()
                ||| id == N::spec_id()
                ||| id == O::spec_id()
                ||| id == P::spec_id()
            },
{
    let ids = crate::storage::tuples::column_ids(
        <(A, B, C, D, E, F, G, H, I, J, K, L, M, N, O, P)>::spec_columns(),
    );
    assert(ids[0] == A::spec_id());
    assert(ids[1] == B::spec_id());
    assert(ids[2] == C::spec_id());
    assert(ids[3] == D::spec_id());
    assert(ids[4] == E::spec_id());
    assert(ids[5] == F::spec_id());
    assert(ids[6] == G::spec_id());
    assert(ids[7] == H::spec_id());
    assert(ids[8] == I::spec_id());
    assert(ids[9] == J::spec_id());
    assert(ids[10] == K::spec_id());
    assert(ids[11] == L::spec_id());
    assert(ids[12] == M::spec_id());
    assert(ids[13] == N::spec_id());
    assert(ids[14] == O::spec_id());
    assert(ids[15] == P::spec_id());
}

/// The list of the values of sixteen components: they come in order, each with the identifier of its
/// own member and with bytes that stand for it.
pub proof fn lemma_sixteen_listed<
    A: Component,
    B: Component,
    C: Component,
    D: Component,
    E: Component,
    F: Component,
    G: Component,
    H: Component,
    I: Component,
    J: Component,
    K: Component,
    L: Component,
    M: Component,
    N: Component,
    O: Component,
    P: Component,
>(
    values: (A, B, C, D, E, F, G, H, I, J, K, L, M, N, O, P),
    list: Seq<(ComponentId, Seq<u8>)>,
)
    ensures
        crate::storage::tuples::lists::<(A, B, C, D, E, F, G, H, I, J, K, L, M, N, O, P)>(
            values,
            list,
        ) <==> {
            &&& list.len() == 16
            &&& list[0].0 == A::spec_id()
            &&& values.0.encoded_by(list[0].1)
            &&& list[1].0 == B::spec_id()
            &&& values.1.encoded_by(list[1].1)
            &&& list[2].0 == C::spec_id()
            &&& values.2.encoded_by(list[2].1)
            &&& list[3].0 == D::spec_id()
            &&& values.3.encoded_by(list[3].1)
            &&& list[4].0 == E::spec_id()
            &&& values.4.encoded_by(list[4].1)
            &&& list[5].0 == F::spec_id()
            &&& values.5.encoded_by(list[5].1)
            &&& list[6].0 == G::spec_id()
            &&& values.6.encoded_by(list[6].1)
            &&& list[7].0 == H::spec_id()
            &&& values.7.encoded_by(list[7].1)
            &&& list[8].0 == I::spec_id()
            &&& values.8.encoded_by(list[8].1)
            &&& list[9].0 == J::spec_id()
            &&& values.9.encoded_by(list[9].1)
            &&& list[10].0 == K::spec_id()
            &&& values.10.encoded_by(list[10].1)
            &&& list[11].0 == L::spec_id()
            &&& values.11.encoded_by(list[11].1)
            &&& list[12].0 == M::spec_id()
            &&& values.12.encoded_by(list[12].1)
            &&& list[13].0 == N::spec_id()
            &&& values.13.encoded_by(list[13].1)
            &&& list[14].0 == O::spec_id()
            &&& values.14.encoded_by(list[14].1)
            &&& list[15].0 == P::spec_id()
            &&& values.15.encoded_by(list[15].1)
        },
{
    let ids = crate::storage::component::ids(list);
    let columns = <(A, B, C, D, E, F, G, H, I, J, K, L, M, N, O, P)>::spec_columns();
    let column_ids = crate::storage::tuples::column_ids(columns);
    assert(ids.len() == list.len());
    assert(column_ids.len() == 16);
    assert(column_ids[0] == A::spec_id());
    assert(0 < list.len() ==> ids[0] == list[0].0);
    assert(column_ids[1] == B::spec_id());
    assert(1 < list.len() ==> ids[1] == list[1].0);
    assert(column_ids[2] == C::spec_id());
    assert(2 < list.len() ==> ids[2] == list[2].0);
    assert(column_ids[3] == D::spec_id());
    assert(3 < list.len() ==> ids[3] == list[3].0);
    assert(column_ids[4] == E::spec_id());
    assert(4 < list.len() ==> ids[4] == list[4].0);
    assert(column_ids[5] == F::spec_id());
    assert(5 < list.len() ==> ids[5] == list[5].0);
    assert(column_ids[6] == G::spec_id());
    assert(6 < list.len() ==> ids[6] == list[6].0);
    assert(column_ids[7] == H::spec_id());
    assert(7 < list.len() ==> ids[7] == list[7].0);
    assert(column_ids[8] == I::spec_id());
    assert(8 < list.len() ==> ids[8] == list[8].0);
    assert(column_ids[9] == J::spec_id());
    assert(9 < list.len() ==> ids[9] == list[9].0);
    assert(column_ids[10] == K::spec_id());
    assert(10 < list.len() ==> ids[10] == list[10].0);
    assert(column_ids[11] == L::spec_id());
    assert(11 < list.len() ==> ids[11] == list[11].0);
    assert(column_ids[12] == M::spec_id());
    assert(12 < list.len() ==> ids[12] == list[12].0);
    assert(column_ids[13] == N::spec_id());
    assert(13 < list.len() ==> ids[13] == list[13].0);
    assert(column_ids[14] == O::spec_id());
    assert(14 < list.len() ==> ids[14] == list[14].0);
    assert(column_ids[15] == P::spec_id());
    assert(15 < list.len() ==> ids[15] == list[15].0);
    if ids.len() == column_ids.len() && (forall|i: int|
        0 <= i < ids.len() ==> ids[i] == column_ids[i]) {
        assert(ids =~= column_ids);
    }
}

/// A row holds the values of sixteen components exactly if it has each member under its own
/// identifier.
pub proof fn lemma_sixteen_held<
    A: Component,
    B: Component,
    C: Component,
    D: Component,
    E: Component,
    F: Component,
    G: Component,
    H: Component,
    I: Component,
    J: Component,
    K: Component,
    L: Component,
    M: Component,
    N: Component,
    O: Component,
    P: Component,
>(
    values: (A, B, C, D, E, F, G, H, I, J, K, L, M, N, O, P),
    row: Map<ComponentId, Seq<u8>>,
)
    ensures
        crate::storage::tuples::row_holds::<(A, B, C, D, E, F, G, H, I, J, K, L, M, N, O, P)>(
            row,
            values,
        ) <==> {
            &&& row.contains_key(A::spec_id())
            &&& values.0.encoded_by(row[A::spec_id()])
            &&& row.contains_key(B::spec_id())
            &&& values.1.encoded_by(row[B::spec_id()])
            &&& row.contains_key(C::spec_id())
            &&& values.2.encoded_by(row[C::spec_id()])
            &&& row.contains_key(D::spec_id())
            &&& values.3.encoded_by(row[D::spec_id()])
            &&& row.contains_key(E::spec_id())
            &&& values.4.encoded_by(row[E::spec_id()])
            &&& row.contains_key(F::spec_id())
            &&& values.5.encoded_by(row[F::spec_id()])
            &&& row.contains_key(G::spec_id())
            &&& values.6.encoded_by(row[G::spec_id()])
            &&& row.contains_key(H::spec_id())
            &&& values.7.encoded_by(row[H::spec_id()])
            &&& row.contains_key(I::spec_id())
            &&& values.8.encoded_by(row[I::spec_id()])
            &&& row.contains_key(J::spec_id())
            &&& values.9.encoded_by(row[J::spec_id()])
            &&& row.contains_key(K::spec_id())
            &&& values.10.encoded_by(row[K::spec_id()])
            &&& row.contains_key(L::spec_id())
            &&& values.11.encoded_by(row[L::spec_id()])
            &&& row.contains_key(M::spec_id())
            &&& values.12.encoded_by(row[M::spec_id()])
            &&& row.contains_key(N::spec_id())
            &&& values.13.encoded_by(row[N::spec_id()])
            &&& row.contains_key(O::spec_id())
            &&& values.14.encoded_by(row[O::spec_id()])
            &&& row.contains_key(P::spec_id())
            &&& values.15.encoded_by(row[P::spec_id()])
        },
{
    let columns = <(A, B, C, D, E, F, G, H, I, J, K, L, M, N, O, P)>::spec_columns();
    let parts = crate::storage::tuples::row_parts(columns, row);
    assert(parts.len() == 16);
    assert(columns[0].0 == A::spec_id());
    assert(parts[0] == row[A::spec_id()]);
    assert(columns[1].0 == B::spec_id());
    assert(parts[1] == row[B::spec_id()]);
    assert(columns[2].0 == C::spec_id());
    assert(parts[2] == row[C::spec_id()]);
    assert(columns[3].0 == D::spec_id());
    assert(parts[3] == row[D::spec_id()]);
    assert(columns[4].0 == E::spec_id());
    assert(parts[4] == row[E::spec_id()]);
    assert(columns[5].0 == F::spec_id());
    assert(parts[5] == row[F::spec_id()]);
    assert(columns[6].0 == G::spec_id());
    assert(parts[6] == row[G::spec_id()]);
    assert(columns[7].0 == H::spec_id());
    assert(parts[7] == row[H::spec_id()]);
    assert(columns[8].0 == I::spec_id());
    assert(parts[8] == row[I::spec_id()]);
    assert(columns[9].0 == J::spec_id());
    assert(parts[9] == row[J::spec_id()]);
    assert(columns[10].0 == K::spec_id());
    assert(parts[10] == row[K::spec_id()]);
    assert(columns[11].0 == L::spec_id());
    assert(parts[11] == row[L::spec_id()]);
    assert(columns[12].0 == M::spec_id());
    assert(parts[12] == row[M::spec_id()]);
    assert(columns[13].0 == N::spec_id());
    assert(parts[13] == row[N::spec_id()]);
    assert(columns[14].0 == O::spec_id());
    assert(parts[14] == row[O::spec_id()]);
    assert(columns[15].0 == P::spec_id());
    assert(parts[15] == row[P::spec_id()]);
}

/// Inserting sixteen components: each member is there under its own identifier, taking it out again
/// gives its own value, and what was there under other identifiers is as it was.
pub proof fn lemma_sixteen_inserted<
    A: Component,
    B: Component,
    C: Component,
    D: Component,
    E: Component,
    F: Component,
    G: Component,
    H: Component,
    I: Component,
    J: Component,
    K: Component,
    L: Component,
    M: Component,
    N: Component,
    O: Component,
    P: Component,
>(
    before: Map<ComponentId, Seq<u8>>,
    after: Map<ComponentId, Seq<u8>>,
    values: (A, B, C, D, E, F, G, H, I, J, K, L, M, N, O, P),
)
    requires
        crate::storage::tuples::inserted_into::<(A, B, C, D, E, F, G, H, I, J, K, L, M, N, O, P)>(
            before,
            after,
            values,
        ),
    ensures
        !before.contains_key(A::spec_id()),
        crate::storage::tuples::row_holds::<(A,)>(after, (values.0,)),
        forall|out: (A,)| #[trigger]
            crate::storage::tuples::row_holds::<(A,)>(after, out) ==> out.0 == values.0,
        !before.contains_key(B::spec_id()),
        crate::storage::tuples::row_holds::<(B,)>(after, (values.1,)),
        forall|out: (B,)| #[trigger]
            crate::storage::tuples::row_holds::<(B,)>(after, out) ==> out.0 == values.1,
        !before.contains_key(C::spec_id()),
        crate::storage::tuples::row_holds::<(C,)>(after, (values.2,)),
        forall|out: (C,)| #[trigger]
            crate::storage::tuples::row_holds::<(C,)>(after, out) ==> out.0 == values.2,
        !before.contains_key(D::spec_id()),
        crate::storage::tuples::row_holds::<(D,)>(after, (values.3,)),
        forall|out: (D,)| #[trigger]
            crate::storage::tuples::row_holds::<(D,)>(after, out) ==> out.0 == values.3,
        !before.contains_key(E::spec_id()),
        crate::storage::tuples::row_holds::<(E,)>(after, (values.4,)),
        forall|out: (E,)| #[trigger]
            crate::storage::tuples::row_holds::<(E,)>(after, out) ==> out.0 == values.4,
        !before.contains_key(F::spec_id()),
        crate::storage::tuples::row_holds::<(F,)>(after, (values.5,)),
        forall|out: (F,)| #[trigger]
            crate::storage::tuples::row_holds::<(F,)>(after, out) ==> out.0 == values.5,
        !before.contains_key(G::spec_id()),
        crate::storage::tuples::row_holds::<(G,)>(after, (values.6,)),
        forall|out: (G,)| #[trigger]
            crate::storage::tuples::row_holds::<(G,)>(after, out) ==> out.0 == values.6,
        !before.contains_key(H::spec_id()),
        crate::storage::tuples::row_holds::<(H,)>(after, (values.7,)),
        forall|out: (H,)| #[trigger]
            crate::storage::tuples::row_holds::<(H,)>(after, out) ==> out.0 == values.7,
        !before.contains_key(I::spec_id()),
        crate::storage::tuples::row_holds::<(I,)>(after, (values.8,)),
        forall|out: (I,)| #[trigger]
            crate::storage::tuples::row_holds::<(I,)>(after, out) ==> out.0 == values.8,
        !before.contains_key(J::spec_id()),
        crate::storage::tuples::row_holds::<(J,)>(after, (values.9,)),
        forall|out: (J,)| #[trigger]
            crate::storage::tuples::row_holds::<(J,)>(after, out) ==> out.0 == values.9,
        !before.contains_key(K::spec_id()),
        crate::storage::tuples::row_holds::<(K,)>(after, (values.10,)),
        forall|out: (K,)| #[trigger]
            crate::storage::tuples::row_holds::<(K,)>(after, out) ==> out.0 == values.10,
        !before.contains_key(L::spec_id()),
        crate::storage::tuples::row_holds::<(L,)>(after, (values.11,)),
        forall|out: (L,)| #[trigger]
            crate::storage::tuples::row_holds::<(L,)>(after, out) ==> out.0 == values.11,
        !before.contains_key(M::spec_id()),
        crate::storage::tuples::row_holds::<(M,)>(after, (values.12,)),
        forall|out: (M,)| #[trigger]
            crate::storage::tuples::row_holds::<(M,)>(after, out) ==> out.0 == values.12,
        !before.contains_key(N::spec_id()),
        crate::storage::tuples::row_holds::<(N,)>(after, (values.13,)),
        forall|out: (N,)| #[trigger]
            crate::storage::tuples::row_holds::<(N,)>(after, out) ==> out.0 == values.13,
        !before.contains_key(O::spec_id()),
        crate::storage::tuples::row_holds::<(O,)>(after, (values.14,)),
        forall|out: (O,)| #[trigger]
            crate::storage::tuples::row_holds::<(O,)>(after, out) ==> out.0 == values.14,
        !before.contains_key(P::spec_id()),
        crate::storage::tuples::row_holds::<(P,)>(after, (values.15,)),
        forall|out: (P,)| #[trigger]
            crate::storage::tuples::row_holds::<(P,)>(after, out) ==> out.0 == values.15,
        forall|id: ComponentId|
            id != A::spec_id()
                && id != B::spec_id()
                && id != C::spec_id()
                && id != D::spec_id()
                && id != E::spec_id()
                && id != F::spec_id()
                && id != G::spec_id()
                && id != H::spec_id()
                && id != I::spec_id()
                && id != J::spec_id()
                && id != K::spec_id()
                && id != L::spec_id()
                && id != M::spec_id()
                && id != N::spec_id()
                && id != O::spec_id()
                && id != P::spec_id() ==> {
                &&& #[trigger] after.contains_key(id) <==> before.contains_key(id)
                &&& after.contains_key(id) ==> after[id] == before[id]
            },
{
    let ids = crate::storage::tuples::column_ids(
        <(A, B, C, D, E, F, G, H, I, J, K, L, M, N, O, P)>::spec_columns(),
    ).to_set();
    lemma_sixteen_columns::<A, B, C, D, E, F, G, H, I, J, K, L, M, N, O, P>();
    lemma_sixteen_held::<A, B, C, D, E, F, G, H, I, J, K, L, M, N, O, P>(values, after);
    lemma_one_held::<A>((values.0,), after);
    assert forall|out: (A,)| #[trigger]
        crate::storage::tuples::row_holds::<(A,)>(after, out) implies out.0 == values.0 by {
        lemma_one_held::<A>(out, after);
        A::lemma_encoded(values.0, out.0);
    }
    assert(ids.contains(A::spec_id()));
    assert(!after.remove_keys(ids).contains_key(A::spec_id()));
    lemma_one_held::<B>((values.1,), after);
    assert forall|out: (B,)| #[trigger]
        crate::storage::tuples::row_holds::<(B,)>(after, out) implies out.0 == values.1 by {
        lemma_one_held::<B>(out, after);
        B::lemma_encoded(values.1, out.0);
    }
    assert(ids.contains(B::spec_id()));
    assert(!after.remove_keys(ids).contains_key(B::spec_id()));
    lemma_one_held::<C>((values.2,), after);
    assert forall|out: (C,)| #[trigger]
        crate::storage::tuples::row_holds::<(C,)>(after, out) implies out.0 == values.2 by {
        lemma_one_held::<C>(out, after);
        C::lemma_encoded(values.2, out.0);
    }
    assert(ids.contains(C::spec_id()));
    assert(!after.remove_keys(ids).contains_key(C::spec_id()));
    lemma_one_held::<D>((values.3,), after);
    assert forall|out: (D,)| #[trigger]
        crate::storage::tuples::row_holds::<(D,)>(after, out) implies out.0 == values.3 by {
        lemma_one_held::<D>(out, after);
        D::lemma_encoded(values.3, out.0);
    }
    assert(ids.contains(D::spec_id()));
    assert(!after.remove_keys(ids).contains_key(D::spec_id()));
    lemma_one_held::<E>((values.4,), after);
    assert forall|out: (E,)| #[trigger]
        crate::storage::tuples::row_holds::<(E,)>(after, out) implies out.0 == values.4 by {
        lemma_one_held::<E>(out, after);
        E::lemma_encoded(values.4, out.0);
    }
    assert(ids.contains(E::spec_id()));
    assert(!after.remove_keys(ids).contains_key(E::spec_id()));
    lemma_one_held::<F>((values.5,), after);
    assert forall|out: (F,)| #[trigger]
        crate::storage::tuples::row_holds::<(F,)>(after, out) implies out.0 == values.5 by {
        lemma_one_held::<F>(out, after);
        F::lemma_encoded(values.5, out.0);
    }
    assert(ids.contains(F::spec_id()));
    assert(!after.remove_keys(ids).contains_key(F::spec_id()));
    lemma_one_held::<G>((values.6,), after);
    assert forall|out: (G,)| #[trigger]
        crate::storage::tuples::row_holds::<(G,)>(after, out) implies out.0 == values.6 by {
        lemma_one_held::<G>(out, after);
        G::lemma_encoded(values.6, out.0);
    }
    assert(ids.contains(G::spec_id()));
    assert(!after.remove_keys(ids).contains_key(G::spec_id()));
    lemma_one_held::<H>((values.7,), after);
    assert forall|out: (H,)| #[trigger]
        crate::storage::tuples::row_holds::<(H,)>(after, out) implies out.0 == values.7 by {
        lemma_one_held::<H>(out, after);
        H::lemma_encoded(values.7, out.0);
    }
    assert(ids.contains(H::spec_id()));
    assert(!after.remove_keys(ids).contains_key(H::spec_id()));
    lemma_one_held::<I>((values.8,), after);
    assert forall|out: (I,)| #[trigger]
        crate::storage::tuples::row_holds::<(I,)>(after, out) implies out.0 == values.8 by {
        lemma_one_held::<I>(out, after);
        I::lemma_encoded(values.8, out.0);
    }
    assert(ids.contains(I::spec_id()));
    assert(!after.remove_keys(ids).contains_key(I::spec_id()));
    lemma_one_held::<J>((values.9,), after);
    assert forall|out: (J,)| #[trigger]
        crate::storage::tuples::row_holds::<(J,)>(after, out) implies out.0 == values.9 by {
        lemma_one_held::<J>(out, after);
        J::lemma_encoded(values.9, out.0);
    }
    assert(ids.contains(J::spec_id()));
    assert(!after.remove_keys(ids).contains_key(J::spec_id()));
    lemma_one_held::<K>((values.10,), after);
    assert forall|out: (K,)| #[trigger]
        crate::storage::tuples::row_holds::<(K,)>(after, out) implies out.0 == values.10 by {
        lemma_one_held::<K>(out, after);
        K::lemma_encoded(values.10, out.0);
    }
    assert(ids.contains(K::spec_id()));
    assert(!after.remove_keys(ids).contains_key(K::spec_id()));
    lemma_one_held::<L>((values.11,), after);
    assert forall|out: (L,)| #[trigger]
        crate::storage::tuples::row_holds::<(L,)>(after, out) implies out.0 == values.11 by {
        lemma_one_held::<L>(out, after);
        L::lemma_encoded(values.11, out.0);
    }
    assert(ids.contains(L::spec_id()));
    assert(!after.remove_keys(ids).contains_key(L::spec_id()));
    lemma_one_held::<M>((values.12,), after);
    assert forall|out: (M,)| #[trigger]
        crate::storage::tuples::row_holds::<(M,)>(after, out) implies out.0 == values.12 by {
        lemma_one_held::<M>(out, after);
        M::lemma_encoded(values.12, out.0);
    }
    assert(ids.contains(M::spec_id()));
    assert(!after.remove_keys(ids).contains_key(M::spec_id()));
    lemma_one_held::<N>((values.13,), after);
    assert forall|out: (N,)| #[trigger]
        crate::storage::tuples::row_holds::<(N,)>(after, out) implies out.0 == values.13 by {
        lemma_one_held::<N>(out, after);
        N::lemma_encoded(values.13, out.0);
    }
    assert(ids.contains(N::spec_id()));
    assert(!after.remove_keys(ids).contains_key(N::spec_id()));
    lemma_one_held::<O>((values.14,), after);
    assert forall|out: (O,)| #[trigger]
        crate::storage::tuples::row_holds::<(O,)>(after, out) implies out.0 == values.14 by {
        lemma_one_held::<O>(out, after);
        O::lemma_encoded(values.14, out.0);
    }
    assert(ids.contains(O::spec_id()));
    assert(!after.remove_keys(ids).contains_key(O::spec_id()));
    lemma_one_held::<P>((values.15,), after);
    assert forall|out: (P,)| #[trigger]
        crate::storage::tuples::row_holds::<(P,)>(after, out) implies out.0 == values.15 by {
        lemma_one_held::<P>(out, after);
        P::lemma_encoded(values.15, out.0);
    }
    assert(ids.contains(P::spec_id()));
    assert(!after.remove_keys(ids).contains_key(P::spec_id()));
    assert forall|id: ComponentId|
        id != A::spec_id()
            && id != B::spec_id()
            && id != C::spec_id()
            && id != D::spec_id()
            && id != E::spec_id()
            && id != F::spec_id()
            && id != G::spec_id()
            && id != H::spec_id()
            && id != I::spec_id()
            && id != J::spec_id()
            && id != K::spec_id()
            && id != L::spec_id()
            && id != M::spec_id()
            && id != N::spec_id()
            && id != O::spec_id()
            && id != P::spec_id() implies {
        &&& #[trigger] after.contains_key(id) <==> before.contains_key(id)
        &&& after.contains_key(id) ==> after[id] == before[id]
    } by {
        assert(!ids.contains(id));
        assert(after.remove_keys(ids).contains_key(id) <==> after.contains_key(id));
    }
}

/// Inserting sixteen components is the same as inserting all but the last, and then the last.
pub proof fn lemma_sixteen_inserted_one_by_one<
    A: Component,
    B: Component,
    C: Component,
    D: Component,
    E: Component,
    F: Component,
    G: Component,
    H: Component,
    I: Component,
    J: Component,
    K: Component,
    L: Component,
    M: Component,
    N: Component,
    O: Component,
    P: Component,
>(
    before: Map<ComponentId, Seq<u8>>,
    between: Map<ComponentId, Seq<u8>>,
    after: Map<ComponentId, Seq<u8>>,
    values: (A, B, C, D, E, F, G, H, I, J, K, L, M, N, O, P),
)
    requires
        crate::storage::tuples::inserted_into::<(A, B, C, D, E, F, G, H, I, J, K, L, M, N, O)>(
            before,
            between,
            (
                values.0,
                values.1,
                values.2,
                values.3,
                values.4,
                values.5,
                values.6,
                values.7,
                values.8,
                values.9,
                values.10,
                values.11,
                values.12,
                values.13,
                values.14,
            ),
        ),
        crate::storage::tuples::inserted_into::<(P,)>(between, after, (values.15,)),
    ensures
        crate::storage::tuples::inserted_into::<(A, B, C, D, E, F, G, H, I, J, K, L, M, N, O, P)>(
            before,
            after,
            values,
        ),
{
    lemma_fifteen_inserted::<A, B, C, D, E, F, G, H, I, J, K, L, M, N, O>(
        before,
        between,
        (
            values.0,
            values.1,
            values.2,
            values.3,
            values.4,
            values.5,
            values.6,
            values.7,
            values.8,
            values.9,
            values.10,
            values.11,
            values.12,
            values.13,
            values.14,
        ),
    );
    lemma_one_inserted::<P>(between, after, (values.15,));
    lemma_sixteen_columns::<A, B, C, D, E, F, G, H, I, J, K, L, M, N, O, P>();
    lemma_sixteen_held::<A, B, C, D, E, F, G, H, I, J, K, L, M, N, O, P>(values, after);
    let ids = crate::storage::tuples::column_ids(
        <(A, B, C, D, E, F, G, H, I, J, K, L, M, N, O, P)>::spec_columns(),
    ).to_set();
    assert(A::spec_id() != P::spec_id());
    assert(B::spec_id() != P::spec_id());
    assert(C::spec_id() != P::spec_id());
    assert(D::spec_id() != P::spec_id());
    assert(E::spec_id() != P::spec_id());
    assert(F::spec_id() != P::spec_id());
    assert(G::spec_id() != P::spec_id());
    assert(H::spec_id() != P::spec_id());
    assert(I::spec_id() != P::spec_id());
    assert(J::spec_id() != P::spec_id());
    assert(K::spec_id() != P::spec_id());
    assert(L::spec_id() != P::spec_id());
    assert(M::spec_id() != P::spec_id());
    assert(N::spec_id() != P::spec_id());
    assert(O::spec_id() != P::spec_id());
    assert forall|id: ComponentId| #[trigger]
        after.remove_keys(ids).contains_key(id) <==> before.contains_key(id) by {
        assert(ids.contains(id) || (between.contains_key(id) <==> before.contains_key(id)));
        assert(ids.contains(id) || (after.contains_key(id) <==> between.contains_key(id)));
    }
    assert(after.remove_keys(ids) =~= before);
}

} // verus!
