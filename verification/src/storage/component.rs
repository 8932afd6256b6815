//! Components and the values that rows are made of.

use crate::storage::collections::ComponentId;
use crate::storage::column::Column;
use crate::storage::layout::Layout;
use vstd::prelude::*;

verus! {

/// A type with an identifier of its own.
pub trait UniqueId {
    /// The identifier of the type. No other type has the same.
    open spec fn spec_id() -> ComponentId {
        arbitrary()
    }

    /// The identifier of the type.
    fn id() -> (id: ComponentId)
        ensures
            id == Self::spec_id(),
    ;
}

/// A type whose values can be stored as components.
///
/// Storing a value gives up the value for bytes that stand for it, and only turning the bytes
/// back gives up the bytes for the value. Whoever implements this for a type that owns something
/// sees to it that the bytes own it in between.
pub trait Component: UniqueId + Sized {
    /// The bytes stand for the value. There may be several bytes for a value, if there are bytes
    /// in it that do not count.
    open spec fn encoded_by(self, bytes: Seq<u8>) -> bool {
        arbitrary()
    }

    /// Bytes that stand for a value fill its type, and they do not stand for another value.
    proof fn lemma_encoded(a: Self, b: Self)
        ensures
            forall|bytes: Seq<u8>| #[trigger]
                a.encoded_by(bytes) ==> {
                    &&& bytes.len() == layout_of::<Self>().size
                    &&& b.encoded_by(bytes) ==> a == b
                },
    ;

    /// Gives up the value for its bytes.
    fn into_bytes(self) -> (bytes: Vec<u8>)
        ensures
            self.encoded_by(bytes@),
    ;

    /// Turns the bytes of a value back into the value. The bytes are to be considered
    /// uninitialized after this.
    fn from_bytes(bytes: &[u8]) -> (value: Self)
        requires
            exists|v: Self| #[trigger] v.encoded_by(bytes@),
        ensures
            value.encoded_by(bytes@),
    ;
}

/// The layout of the type `T`.
pub open spec fn layout_of<T>() -> Layout {
    Layout {
        size: vstd::layout::size_of::<T>() as usize,
        align: vstd::layout::align_of::<T>() as usize,
    }
}

/// A new column, and the component that it is for.
pub struct ColumnConstruction(pub ComponentId, pub Column);

impl ColumnConstruction {
    /// The column has no memory yet.
    pub open spec fn wf(self) -> bool {
        &&& self.1.allocation is None
        &&& self.1.element_layout.of_type()
    }

    /// A column for components of type `T`.
    pub fn new<T: Component>() -> (construction: Self)
        ensures
            construction.wf(),
            construction.0 == T::spec_id(),
            construction.1.element_layout == layout_of::<T>(),
    {
        ColumnConstruction(T::id(), Column::new::<T>())
    }

    /// The component that the column is for.
    pub fn component_id(&self) -> (id: ComponentId)
        ensures
            id == self.0,
    {
        self.0
    }
}

/// The components and their bytes, as a sequence of mathematical values.
pub open spec fn images(values: Seq<(ComponentId, Vec<u8>)>) -> Seq<(ComponentId, Seq<u8>)> {
    values.map_values(|value: (ComponentId, Vec<u8>)| (value.0, value.1@))
}

/// The listed components, without their bytes.
pub open spec fn ids(values: Seq<(ComponentId, Seq<u8>)>) -> Seq<ComponentId> {
    values.map_values(|value: (ComponentId, Seq<u8>)| value.0)
}

/// The bytes of each component in a list. Of a component that is listed twice, the later one
/// counts.
pub open spec fn by_component(values: Seq<(ComponentId, Seq<u8>)>) -> Map<ComponentId, Seq<u8>>
    decreases values.len(),
{
    if values.len() == 0 {
        Map::empty()
    } else {
        by_component(values.drop_last()).insert(values.last().0, values.last().1)
    }
}

/// Exactly the listed components have bytes.
pub proof fn lemma_by_component_dom(values: Seq<(ComponentId, Seq<u8>)>)
    ensures
        forall|c: ComponentId| #[trigger]
            by_component(values).contains_key(c) <==> exists|i: int|
                0 <= i < values.len() && (#[trigger] values[i]).0 == c,
    decreases values.len(),
{
    if values.len() > 0 {
        let rest = values.drop_last();
        lemma_by_component_dom(rest);
        assert forall|c: ComponentId| #[trigger]
            by_component(values).contains_key(c) <==> exists|i: int|
                0 <= i < values.len() && (#[trigger] values[i]).0 == c by {
            if by_component(values).contains_key(c) {
                if c == values.last().0 {
                    assert(values[values.len() - 1].0 == c);
                } else {
                    assert(by_component(rest).contains_key(c));
                    let i = choose|i: int| 0 <= i < rest.len() && (#[trigger] rest[i]).0 == c;
                    assert(values[i].0 == c);
                }
            }
            if exists|i: int| 0 <= i < values.len() && (#[trigger] values[i]).0 == c {
                let i = choose|i: int| 0 <= i < values.len() && (#[trigger] values[i]).0 == c;
                if i < values.len() - 1 {
                    assert(rest[i].0 == c);
                    assert(by_component(rest).contains_key(c));
                }
            }
        }
    }
}

/// Of two lists in a row, the later one counts where both list a component.
pub proof fn lemma_by_component_concat(
    first: Seq<(ComponentId, Seq<u8>)>,
    second: Seq<(ComponentId, Seq<u8>)>,
)
    ensures
        by_component(first + second) =~= by_component(first).union_prefer_right(
            by_component(second),
        ),
    decreases second.len(),
{
    if second.len() == 0 {
        assert(first + second =~= first);
    } else {
        lemma_by_component_concat(first, second.drop_last());
        assert((first + second).drop_last() =~= first + second.drop_last());
    }
}

/// A listed component has the bytes that are listed with it, if it is listed once.
pub proof fn lemma_by_component_index(values: Seq<(ComponentId, Seq<u8>)>, i: int)
    requires
        0 <= i < values.len(),
        forall|j: int| i < j < values.len() ==> (#[trigger] values[j]).0 != values[i].0,
    ensures
        by_component(values).contains_key(values[i].0),
        by_component(values)[values[i].0] == values[i].1,
    decreases values.len(),
{
    if i < values.len() - 1 {
        assert(values[values.len() - 1].0 != values[i].0);
        lemma_by_component_index(values.drop_last(), i);
    }
}

/// A list that has each component of a row once, with its bytes, stands for that row.
pub proof fn lemma_by_component_is(
    values: Seq<(ComponentId, Seq<u8>)>,
    row: Map<ComponentId, Seq<u8>>,
)
    requires
        ids(values).no_duplicates(),
        forall|i: int|
            #![trigger values[i]]
            0 <= i < values.len() ==> row.contains_key(values[i].0) && row[values[i].0]
                == values[i].1,
        forall|c: ComponentId| #[trigger]
            row.contains_key(c) ==> exists|i: int|
                0 <= i < values.len() && (#[trigger] values[i]).0 == c,
    ensures
        by_component(values) == row,
{
    let given = by_component(values);
    lemma_by_component_dom(values);
    assert forall|c: ComponentId| #[trigger] given.contains_key(c) implies given[c] == row[c] by {
        let i = choose|i: int| 0 <= i < values.len() && (#[trigger] values[i]).0 == c;
        assert forall|j: int| i < j < values.len() implies (#[trigger] values[j]).0
            != values[i].0 by {
            assert(ids(values)[i] != ids(values)[j]);
        }
        lemma_by_component_index(values, i);
    }
    assert forall|c: ComponentId| given.contains_key(c) <==> row.contains_key(c) by {}
    assert(given =~= row);
}

/// Conversely, a list that has no component twice and stands for a row has its components.
pub proof fn lemma_by_component_lists(values: Seq<(ComponentId, Seq<u8>)>)
    requires
        ids(values).no_duplicates(),
    ensures
        forall|i: int|
            #![trigger values[i]]
            0 <= i < values.len() ==> {
                &&& by_component(values).contains_key(values[i].0)
                &&& by_component(values)[values[i].0] == values[i].1
            },
        forall|c: ComponentId| #[trigger]
            by_component(values).contains_key(c) ==> exists|i: int|
                0 <= i < values.len() && (#[trigger] values[i]).0 == c,
{
    lemma_by_component_dom(values);
    assert forall|i: int| #![trigger values[i]] 0 <= i < values.len() implies {
        &&& by_component(values).contains_key(values[i].0)
        &&& by_component(values)[values[i].0] == values[i].1
    } by {
        assert forall|j: int| i < j < values.len() implies (#[trigger] values[j]).0
            != values[i].0 by {
            assert(ids(values)[i] != ids(values)[j]);
        }
        lemma_by_component_index(values, i);
    }
}

} // verus!
