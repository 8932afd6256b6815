//! The hash set of the requests of a query.

use crate::schedule::request::ComponentRequest;
use crate::storage::ComponentId;
use vstd::prelude::*;

verus! {

/// Requests, written as numbers.
#[derive(Debug)]
#[verifier::external_body]
pub struct CodeSet {
    inner: hashbrown::HashSet<(bool, bool, ComponentId)>,
}

/// What a `CodeSet` holds.
pub uninterp spec fn code_set(codes: CodeSet) -> Set<(bool, bool, ComponentId)>;

impl CodeSet {
    /// `hashbrown::HashSet::new`: the new set is empty.
    #[verifier::external_body]
    pub(crate) fn new() -> (codes: Self)
        ensures
            (code_set(codes) == Set::<(bool, bool, ComponentId)>::empty()),
    {
        CodeSet { inner: hashbrown::HashSet::new() }
    }

    /// `hashbrown::HashSet::insert`: the item is in the set, and the others stay.
    #[verifier::external_body]
    pub(crate) fn insert(&mut self, code: (bool, bool, ComponentId))
        ensures
            code_set(*final(self)) == code_set(*old(self)).insert(code),
    {
        self.inner.insert(code);
    }

    /// `hashbrown::HashSet::contains`: whether the item is in the set.
    #[verifier::external_body]
    pub(crate) fn contains(&self, code: (bool, bool, ComponentId)) -> (found: bool)
        ensures
            found == code_set(*self).contains(code),
    {
        self.inner.contains(&code)
    }

    /// `hashbrown::HashSet::iter`: every item once. In which order they come is left open.
    #[verifier::external_body]
    pub(crate) fn items(&self) -> (codes: Vec<(bool, bool, ComponentId)>)
        ensures
            codes@.no_duplicates(),
            codes@.to_set() == code_set(*self),
    {
        self.inner.iter().copied().collect()
    }

    /// `hashbrown::HashSet::eq`: whether both sets have the same items.
    #[verifier::external_body]
    pub(crate) fn same(&self, other: &Self) -> (same: bool)
        ensures
            same == (code_set(*self) == code_set(*other)),
    {
        self.inner == other.inner
    }
}

/// A set of component requests.
#[derive(Debug)]
pub struct RequestSet {
    codes: CodeSet,
}

/// How a request is written as numbers.
pub open spec fn code_of(request: ComponentRequest) -> (bool, bool, ComponentId) {
    match request {
        ComponentRequest::Component(c) => (false, false, c),
        ComponentRequest::ComponentMut(c) => (false, true, c),
        ComponentRequest::With(c) => (true, false, c),
        ComponentRequest::Without(c) => (true, true, c),
    }
}

/// The request that is written as the given numbers.
pub open spec fn request_of(code: (bool, bool, ComponentId)) -> ComponentRequest {
    match (code.0, code.1) {
        (false, false) => ComponentRequest::Component(code.2),
        (false, true) => ComponentRequest::ComponentMut(code.2),
        (true, false) => ComponentRequest::With(code.2),
        (true, true) => ComponentRequest::Without(code.2),
    }
}

impl View for RequestSet {
    type V = Set<ComponentRequest>;

    closed spec fn view(&self) -> Set<ComponentRequest> {
        Set::new(|request: ComponentRequest| code_set(self.codes).contains(code_of(request)))
    }
}

fn encode(request: ComponentRequest) -> (code: (bool, bool, ComponentId))
    ensures
        code == code_of(request),
{
    match request {
        ComponentRequest::Component(component_id) => (false, false, component_id),
        ComponentRequest::ComponentMut(component_id) => (false, true, component_id),
        ComponentRequest::With(component_id) => (true, false, component_id),
        ComponentRequest::Without(component_id) => (true, true, component_id),
    }
}

fn decode(code: (bool, bool, ComponentId)) -> (request: ComponentRequest)
    ensures
        request == request_of(code),
{
    match (code.0, code.1) {
        (false, false) => ComponentRequest::Component(code.2),
        (false, true) => ComponentRequest::ComponentMut(code.2),
        (true, false) => ComponentRequest::With(code.2),
        (true, true) => ComponentRequest::Without(code.2),
    }
}

impl RequestSet {
    /// A set without requests.
    pub fn new() -> (requests: Self)
        ensures
            requests@ == Set::<ComponentRequest>::empty(),
    {
        let requests = RequestSet { codes: CodeSet::new() };
        assert(requests@ =~= Set::empty());
        requests
    }

    /// Add a request.
    pub fn insert(&mut self, request: ComponentRequest)
        ensures
            final(self)@ == old(self)@.insert(request),
    {
        self.codes.insert(encode(request));
        assert(self@ =~= old(self)@.insert(request));
    }

    /// Whether the request is in the set.
    pub fn contains(&self, request: ComponentRequest) -> (found: bool)
        ensures
            found == self@.contains(request),
    {
        self.codes.contains(encode(request))
    }

    /// The requests, each once. Their order is left open.
    pub fn iter(&self) -> (requests: Vec<ComponentRequest>)
        ensures
            requests@.no_duplicates(),
            requests@.to_set() == self@,
    {
        let codes = self.codes.items();
        let mut requests: Vec<ComponentRequest> = Vec::new();
        let mut k: usize = 0;
        while k < codes.len()
            invariant
                k <= codes.len(),
                requests@.len() == k,
                forall|i: int|
                    0 <= i < k ==> #[trigger] requests@[i] == request_of(codes@[i]),
            decreases codes.len() - k,
        {
            requests.push(decode(codes[k]));
            k += 1;
        }
        proof {
            assert forall|i: int, j: int|
                0 <= i < requests@.len() && 0 <= j < requests@.len() && i != j implies requests@[i]
                != requests@[j] by {
                assert(codes@[i] != codes@[j]);
                assert(code_of(requests@[i]) == codes@[i]);
                assert(code_of(requests@[j]) == codes@[j]);
            }
            assert forall|r: ComponentRequest| requests@.to_set().contains(r) <==> self@.contains(
                r,
            ) by {
                if requests@.contains(r) {
                    let i = requests@.index_of(r);
                    assert(codes@.to_set().contains(codes@[i]));
                    assert(code_of(r) == codes@[i]);
                }
                if self@.contains(r) {
                    assert(codes@.to_set().contains(code_of(r)));
                    let i = codes@.index_of(code_of(r));
                    assert(requests@[i] == r);
                }
            }
            assert(requests@.to_set() =~= self@);
        }
        requests
    }

    /// Whether both sets have the same requests.
    pub fn same(&self, other: &Self) -> (same: bool)
        ensures
            same == (self@ == other@),
    {
        proof {
            if self@ == other@ {
                assert forall|code: (bool, bool, ComponentId)| code_set(self.codes).contains(code)
                    <==> code_set(other.codes).contains(code) by {
                    let r = request_of(code);
                    assert(code_of(r) == code);
                    assert(self@.contains(r) <==> other@.contains(r));
                }
                assert(code_set(self.codes) =~= code_set(other.codes));
            }
        }
        self.codes.same(&other.codes)
    }
}

impl Clone for RequestSet {
    /// A set with the same requests.
    fn clone(&self) -> (copy: Self)
        ensures
            copy@ == self@,
    {
        let requests = self.iter();
        let mut copy = RequestSet::new();
        let mut k: usize = 0;
        while k < requests.len()
            invariant
                k <= requests.len(),
                requests@.to_set() == self@,
                forall|i: int| 0 <= i < k ==> copy@.contains(#[trigger] requests@[i]),
                forall|r: ComponentRequest| #[trigger] copy@.contains(r) ==> self@.contains(r),
            decreases requests.len() - k,
        {
            assert(requests@.to_set().contains(requests@[k as int]));
            copy.insert(requests[k]);
            k += 1;
        }
        proof {
            assert forall|r: ComponentRequest| self@.contains(r) implies copy@.contains(r) by {
                assert(requests@.to_set().contains(r));
                let i = requests@.index_of(r);
                assert(copy@.contains(requests@[i]));
            }
            assert(copy@ =~= self@);
        }
        copy
    }
}

} // verus!
