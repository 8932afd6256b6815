# Micro ECS

An entity component system for embedded platforms and retro consoles, verified with Verus.

A world holds entities. An entity has components, and the set of its components is its arche type.
Each arche type has a table with a column for each component and a row for each entity. Inserting
and removing components moves an entity from one table to another. The arche types form a graph
whose edges remember which arche type a component leads to.

A schedule is a list of stages, and a stage is a set of systems that can safely be run in parallel:
no system writes what another one reads or writes.

## Layout

- `src/storage`: layouts, columns of bytes, tables, and components with their tuples.
- `src/arche_type`: arche types and the graph that leads from one to another.
- `src/world`: the world, its entities, and access to a single entity.
- `src/schedule`: requests, queries, systems, stages and schedules.
- `laws.rs` in each of these: what holds of that part as a whole.
- `app`: values of any type as components, their destructors, and error messages.

The hash maps and sets are those of hashbrown, the pairs of parameters come from itertools, and
bytes are copied into columns by uninit. What the proofs take for granted of them is written down
where they are called, and so is what they take for granted of two functions of std.

Components are stored as bytes. A type that is stored says which bytes stand for its values. When
a component is dropped, its bytes are handed out, and whoever knows the type runs its destructor.
