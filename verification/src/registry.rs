//! The registry: a bijection between asset identifiers and resource
//! identifiers, readable in both directions.

use vstd::prelude::*;
use crate::types::{AssetId, ResourceId, same_resource};

verus! {

/// One registered pair.
#[derive(Clone, Copy, Debug)]
struct Registration {
    asset_id: AssetId,
    resource_id: ResourceId,
}

/// Refusal of a registration: one of the two identifiers is already paired.
#[derive(Clone, Copy, Debug, PartialEq, Eq, Structural)]
pub struct AlreadyRegistered;

/// The set of registered pairs.
pub struct Registry {
    entries: Vec<Registration>,
}

/// Whether some entry of `s` pairs the asset `a`.
spec fn has_asset(s: Seq<Registration>, a: AssetId) -> bool {
    exists|i: int| 0 <= i < s.len() && (#[trigger] s[i]).asset_id == a
}

/// Whether some entry of `s` pairs the resource `r`.
spec fn has_resource(s: Seq<Registration>, r: ResourceId) -> bool {
    exists|i: int| 0 <= i < s.len() && (#[trigger] s[i]).resource_id == r
}

/// The position of an entry of `s` that pairs the asset `a`.
spec fn asset_position(s: Seq<Registration>, a: AssetId) -> int {
    choose|i: int| 0 <= i < s.len() && (#[trigger] s[i]).asset_id == a
}

/// The position of an entry of `s` that pairs the resource `r`.
spec fn resource_position(s: Seq<Registration>, r: ResourceId) -> int {
    choose|i: int| 0 <= i < s.len() && (#[trigger] s[i]).resource_id == r
}

/// No asset and no resource occurs in two entries of `s`.
spec fn distinct(s: Seq<Registration>) -> bool {
    forall|i: int, j: int|
        0 <= i < s.len() && 0 <= j < s.len() && i != j ==> (#[trigger] s[i]).asset_id != (
        #[trigger] s[j]).asset_id && s[i].resource_id != s[j].resource_id
}

/// The forward direction of the pairs in `s`.
spec fn forward_of(s: Seq<Registration>) -> Map<AssetId, ResourceId> {
    Map::new(|a: AssetId| has_asset(s, a), |a: AssetId| s[asset_position(s, a)].resource_id)
}

/// The reverse direction of the pairs in `s`.
spec fn reverse_of(s: Seq<Registration>) -> Map<ResourceId, AssetId> {
    Map::new(
        |r: ResourceId| has_resource(s, r),
        |r: ResourceId| s[resource_position(s, r)].asset_id,
    )
}

/// In a sequence without repetition, each entry is found under both of its
/// identifiers.
proof fn lemma_entry_found(s: Seq<Registration>, i: int)
    requires
        distinct(s),
        0 <= i < s.len(),
    ensures
        has_asset(s, s[i].asset_id),
        has_resource(s, s[i].resource_id),
        asset_position(s, s[i].asset_id) == i,
        resource_position(s, s[i].resource_id) == i,
        forward_of(s).dom().contains(s[i].asset_id),
        forward_of(s)[s[i].asset_id] == s[i].resource_id,
        reverse_of(s).dom().contains(s[i].resource_id),
        reverse_of(s)[s[i].resource_id] == s[i].asset_id,
{
    let j = asset_position(s, s[i].asset_id);
    assert(0 <= j < s.len() && s[j].asset_id == s[i].asset_id);
    let k = resource_position(s, s[i].resource_id);
    assert(0 <= k < s.len() && s[k].resource_id == s[i].resource_id);
}

impl Registry {
    /// The lookup from asset to resource.
    pub closed spec fn forward(&self) -> Map<AssetId, ResourceId> {
        forward_of(self.entries@)
    }

    /// The lookup from resource to asset.
    pub closed spec fn reverse(&self) -> Map<ResourceId, AssetId> {
        reverse_of(self.entries@)
    }

    /// The registry's invariant: no identifier is paired twice.
    pub closed spec fn wf(&self) -> bool {
        distinct(self.entries@)
    }

    /// A registry without pairs.
    pub fn new() -> (r: Registry)
        ensures
            r.wf(),
            bijective(r),
            r.forward() == Map::<AssetId, ResourceId>::empty(),
            r.reverse() == Map::<ResourceId, AssetId>::empty(),
    {
        let r = Registry { entries: Vec::new() };
        assert(r.forward() =~= Map::<AssetId, ResourceId>::empty());
        assert(r.reverse() =~= Map::<ResourceId, AssetId>::empty());
        r
    }

    /// The resource paired with `asset_id`, if there is one.
    pub fn lookup_resource(&self, asset_id: AssetId) -> (r: Option<ResourceId>)
        requires
            self.wf(),
        ensures
            r == (if self.forward().dom().contains(asset_id) {
                Some(self.forward()[asset_id])
            } else {
                None
            }),
    {
        let n: usize = self.entries.len();
        let mut i: usize = 0;
        while i < n
            invariant
                i <= n,
                n == self.entries@.len(),
                self.wf(),
                forall|k: int| 0 <= k < i ==> (#[trigger] self.entries@[k]).asset_id != asset_id,
            decreases n - i,
        {
            if self.entries[i].asset_id == asset_id {
                proof {
                    lemma_entry_found(self.entries@, i as int);
                }
                return Some(self.entries[i].resource_id);
            }
            i += 1;
        }
        None
    }

    /// The asset paired with `resource_id`, if there is one.
    pub fn lookup_asset(&self, resource_id: ResourceId) -> (r: Option<AssetId>)
        requires
            self.wf(),
        ensures
            r == (if self.reverse().dom().contains(resource_id) {
                Some(self.reverse()[resource_id])
            } else {
                None
            }),
    {
        match self.find_resource(&resource_id) {
            Some(i) => Some(self.entries[i].asset_id),
            None => None,
        }
    }

    /// The position of the entry that pairs `resource_id`, if there is one.
    fn find_resource(&self, resource_id: &ResourceId) -> (r: Option<usize>)
        requires
            self.wf(),
        ensures
            r is Some <==> self.reverse().dom().contains(*resource_id),
            r matches Some(i) ==> i < self.entries@.len() && self.entries@[i as int].resource_id
                == *resource_id && self.entries@[i as int].asset_id == self.reverse()[*resource_id]
                && self.forward().dom().contains(self.entries@[i as int].asset_id)
                && self.forward()[self.entries@[i as int].asset_id] == *resource_id,
    {
        let n: usize = self.entries.len();
        let mut i: usize = 0;
        while i < n
            invariant
                i <= n,
                n == self.entries@.len(),
                self.wf(),
                forall|k: int|
                    0 <= k < i ==> (#[trigger] self.entries@[k]).resource_id != *resource_id,
            decreases n - i,
        {
            if same_resource(&self.entries[i].resource_id, resource_id) {
                proof {
                    lemma_entry_found(self.entries@, i as int);
                }
                return Some(i);
            }
            i += 1;
        }
        None
    }

    /// Pairs `asset_id` with `resource_id`, unless either is already paired.
    /// A refusal leaves the registry as it was.
    pub fn register(&mut self, asset_id: AssetId, resource_id: ResourceId) -> (r: Result<
        (),
        AlreadyRegistered,
    >)
        requires
            old(self).wf(),
        ensures
            final(self).wf(),
            bijective(*final(self)),
            registers(*old(self), asset_id, resource_id, *final(self), r),
    {
        if self.lookup_resource(asset_id).is_some() || self.find_resource(&resource_id).is_some() {
            proof {
                self.lemma_bijection();
            }
            return Err(AlreadyRegistered);
        }
        self.entries.push(Registration { asset_id, resource_id });
        proof {
            lemma_push(old(self).entries@, Registration { asset_id, resource_id });
            self.lemma_bijection();
        }
        Ok(())
    }

    /// Removes the pair of `resource_id`, in both directions, and returns the
    /// asset that it freed. Where `resource_id` is not paired, nothing
    /// changes and `None` is returned; this is no error.
    pub fn unregister(&mut self, resource_id: ResourceId) -> (r: Result<Option<AssetId>, ()>)
        requires
            old(self).wf(),
        ensures
            final(self).wf(),
            bijective(*final(self)),
            unregisters(*old(self), resource_id, *final(self), r),
    {
        match self.find_resource(&resource_id) {
            Some(i) => {
                let e = self.entries.remove(i);
                proof {
                    lemma_remove(old(self).entries@, i as int);
                    self.lemma_bijection();
                }
                Ok(Some(e.asset_id))
            },
            None => {
                proof {
                    self.lemma_bijection();
                }
                Ok(None)
            },
        }
    }
}

/// Appending a pair of two fresh identifiers keeps the sequence free of
/// repetition and inserts the pair in both directions.
proof fn lemma_push(s: Seq<Registration>, e: Registration)
    requires
        distinct(s),
        !has_asset(s, e.asset_id),
        !has_resource(s, e.resource_id),
    ensures
        distinct(s.push(e)),
        forward_of(s.push(e)) == forward_of(s).insert(e.asset_id, e.resource_id),
        reverse_of(s.push(e)) == reverse_of(s).insert(e.resource_id, e.asset_id),
{
    let t = s.push(e);
    assert(distinct(t));
    assert forall|a: AssetId| has_asset(t, a) <==> (a == e.asset_id || has_asset(s, a)) by {
        if has_asset(s, a) {
            let i = asset_position(s, a);
            assert(t[i].asset_id == a);
        }
        if a == e.asset_id {
            assert(t[s.len() as int].asset_id == a);
        }
        if has_asset(t, a) {
            let i = asset_position(t, a);
            if i < s.len() {
                assert(s[i].asset_id == a);
            }
        }
    }
    assert forall|r: ResourceId| has_resource(t, r) <==> (r == e.resource_id || has_resource(
        s,
        r,
    )) by {
        if has_resource(s, r) {
            let i = resource_position(s, r);
            assert(t[i].resource_id == r);
        }
        if r == e.resource_id {
            assert(t[s.len() as int].resource_id == r);
        }
        if has_resource(t, r) {
            let i = resource_position(t, r);
            if i < s.len() {
                assert(s[i].resource_id == r);
            }
        }
    }
    assert forall|a: AssetId| has_asset(t, a) implies #[trigger] forward_of(t)[a] == forward_of(
        s,
    ).insert(e.asset_id, e.resource_id)[a] by {
        let i = asset_position(t, a);
        if a != e.asset_id {
            let j = asset_position(s, a);
            assert(t[j].asset_id == a);
            lemma_entry_found(t, j);
        } else {
            lemma_entry_found(t, s.len() as int);
        }
    }
    assert forall|r: ResourceId| has_resource(t, r) implies #[trigger] reverse_of(t)[r]
        == reverse_of(s).insert(e.resource_id, e.asset_id)[r] by {
        if r != e.resource_id {
            let j = resource_position(s, r);
            assert(t[j].resource_id == r);
            lemma_entry_found(t, j);
        } else {
            lemma_entry_found(t, s.len() as int);
        }
    }
    assert(forward_of(t) =~= forward_of(s).insert(e.asset_id, e.resource_id));
    assert(reverse_of(t) =~= reverse_of(s).insert(e.resource_id, e.asset_id));
}

/// Dropping one entry keeps the sequence free of repetition and removes its
/// pair in both directions.
proof fn lemma_remove(s: Seq<Registration>, i: int)
    requires
        distinct(s),
        0 <= i < s.len(),
    ensures
        distinct(s.remove(i)),
        forward_of(s.remove(i)) == forward_of(s).remove(s[i].asset_id),
        reverse_of(s.remove(i)) == reverse_of(s).remove(s[i].resource_id),
{
    let t = s.remove(i);
    assert forall|k: int| 0 <= k < t.len() implies #[trigger] t[k] == s[if k < i {
        k
    } else {
        k + 1
    }] by {}
    assert(distinct(t)) by {
        assert forall|j: int, k: int| 0 <= j < t.len() && 0 <= k < t.len() && j != k implies (
        #[trigger] t[j]).asset_id != (#[trigger] t[k]).asset_id && t[j].resource_id
            != t[k].resource_id by {
            let j2 = if j < i { j } else { j + 1 };
            let k2 = if k < i { k } else { k + 1 };
            assert(t[j] == s[j2] && t[k] == s[k2]);
        }
    }
    assert forall|a: AssetId| has_asset(t, a) <==> (a != s[i].asset_id && has_asset(s, a)) by {
        if has_asset(t, a) {
            let k = asset_position(t, a);
            let k2 = if k < i { k } else { k + 1 };
            assert(s[k2].asset_id == a);
        }
        if a != s[i].asset_id && has_asset(s, a) {
            let k = asset_position(s, a);
            let k2 = if k < i { k } else { k - 1 };
            assert(t[k2].asset_id == a);
        }
    }
    assert forall|r: ResourceId| has_resource(t, r) <==> (r != s[i].resource_id && has_resource(
        s,
        r,
    )) by {
        if has_resource(t, r) {
            let k = resource_position(t, r);
            let k2 = if k < i { k } else { k + 1 };
            assert(s[k2].resource_id == r);
        }
        if r != s[i].resource_id && has_resource(s, r) {
            let k = resource_position(s, r);
            let k2 = if k < i { k } else { k - 1 };
            assert(t[k2].resource_id == r);
        }
    }
    assert forall|a: AssetId| has_asset(t, a) implies #[trigger] forward_of(t)[a] == forward_of(
        s,
    )[a] by {
        let k = asset_position(t, a);
        let k2 = if k < i { k } else { k + 1 };
        assert(s[k2].asset_id == a);
        lemma_entry_found(s, k2);
    }
    assert forall|r: ResourceId| has_resource(t, r) implies #[trigger] reverse_of(t)[r]
        == reverse_of(s)[r] by {
        let k = resource_position(t, r);
        let k2 = if k < i { k } else { k + 1 };
        assert(s[k2].resource_id == r);
        lemma_entry_found(s, k2);
    }
    assert(forward_of(t) =~= forward_of(s).remove(s[i].asset_id));
    assert(reverse_of(t) =~= reverse_of(s).remove(s[i].resource_id));
}

/// What `register` does: `post` and `r` are the registry after, and the
/// result of, registering `(asset_id, resource_id)` in `pre`. The call
/// succeeds exactly when both identifiers are free, and then inserts the pair
/// in both directions; a refusal changes nothing.
pub open spec fn registers(
    pre: Registry,
    asset_id: AssetId,
    resource_id: ResourceId,
    post: Registry,
    r: Result<(), AlreadyRegistered>,
) -> bool {
    if !pre.forward().dom().contains(asset_id) && !pre.reverse().dom().contains(resource_id) {
        &&& r is Ok
        &&& post.forward() == pre.forward().insert(asset_id, resource_id)
        &&& post.reverse() == pre.reverse().insert(resource_id, asset_id)
    } else {
        &&& r is Err
        &&& post == pre
    }
}

/// What `unregister` does: `post` and `r` are the registry after, and the
/// result of, unregistering `resource_id` in `pre`. A paired resource is
/// removed together with its asset, which is returned; an unpaired one
/// changes nothing and yields `None`. The call never fails.
pub open spec fn unregisters(
    pre: Registry,
    resource_id: ResourceId,
    post: Registry,
    r: Result<Option<AssetId>, ()>,
) -> bool {
    if pre.reverse().dom().contains(resource_id) {
        &&& r == Ok::<Option<AssetId>, ()>(Some(pre.reverse()[resource_id]))
        &&& post.forward() == pre.forward().remove(pre.reverse()[resource_id])
        &&& post.reverse() == pre.reverse().remove(resource_id)
    } else {
        &&& r == Ok::<Option<AssetId>, ()>(None)
        &&& post == pre
    }
}

/// The two lookups agree: a resource's asset is paired with that resource,
/// and an asset's resource with that asset.
pub open spec fn paired(
    forward: Map<AssetId, ResourceId>,
    reverse: Map<ResourceId, AssetId>,
) -> bool {
    &&& forall|r: ResourceId| #[trigger]
        reverse.dom().contains(r) ==> forward.dom().contains(reverse[r]) && forward[reverse[r]]
            == r
    &&& forall|a: AssetId| #[trigger]
        forward.dom().contains(a) ==> reverse.dom().contains(forward[a]) && reverse[forward[a]]
            == a
}

/// The two directions of `registry` agree.
pub open spec fn bijective(registry: Registry) -> bool {
    paired(registry.forward(), registry.reverse())
}

/// One call that changes a registry.
pub enum Call {
    Register(AssetId, ResourceId),
    Unregister(ResourceId),
}

/// The two lookups after `call`, made on the lookups `forward` and `reverse`:
/// a registration of two free identifiers inserts the pair, a removal of a
/// paired resource removes its pair, and any other call changes nothing.
pub open spec fn after_call(
    forward: Map<AssetId, ResourceId>,
    reverse: Map<ResourceId, AssetId>,
    call: Call,
) -> (Map<AssetId, ResourceId>, Map<ResourceId, AssetId>) {
    match call {
        Call::Register(a, r) => if !forward.dom().contains(a) && !reverse.dom().contains(r) {
            (forward.insert(a, r), reverse.insert(r, a))
        } else {
            (forward, reverse)
        },
        Call::Unregister(r) => if reverse.dom().contains(r) {
            (forward.remove(reverse[r]), reverse.remove(r))
        } else {
            (forward, reverse)
        },
    }
}

/// The two lookups after the calls `calls`, made in turn on an empty
/// registry.
pub open spec fn after_calls(calls: Seq<Call>) -> (
    Map<AssetId, ResourceId>,
    Map<ResourceId, AssetId>,
)
    decreases calls.len(),
{
    if calls.len() == 0 {
        (Map::empty(), Map::empty())
    } else {
        let before = after_calls(calls.drop_last());
        after_call(before.0, before.1, calls.last())
    }
}

/// `register` is the call `Call::Register` on the two lookups.
pub proof fn lemma_register_is_call(
    pre: Registry,
    asset_id: AssetId,
    resource_id: ResourceId,
    post: Registry,
    r: Result<(), AlreadyRegistered>,
)
    requires
        registers(pre, asset_id, resource_id, post, r),
    ensures
        (post.forward(), post.reverse()) == after_call(
            pre.forward(),
            pre.reverse(),
            Call::Register(asset_id, resource_id),
        ),
{
}

/// `unregister` is the call `Call::Unregister` on the two lookups.
pub proof fn lemma_unregister_is_call(
    pre: Registry,
    resource_id: ResourceId,
    post: Registry,
    r: Result<Option<AssetId>, ()>,
)
    requires
        unregisters(pre, resource_id, post, r),
    ensures
        (post.forward(), post.reverse()) == after_call(
            pre.forward(),
            pre.reverse(),
            Call::Unregister(resource_id),
        ),
{
}

/// A call on two lookups that agree leaves two lookups that agree.
pub proof fn lemma_call_keeps_pairing(
    forward: Map<AssetId, ResourceId>,
    reverse: Map<ResourceId, AssetId>,
    call: Call,
)
    requires
        paired(forward, reverse),
    ensures
        paired(after_call(forward, reverse, call).0, after_call(forward, reverse, call).1),
{
    let after = after_call(forward, reverse, call);
    assert forall|r: ResourceId| #[trigger] after.1.dom().contains(r) implies after.0.dom().contains(
        after.1[r],
    ) && after.0[after.1[r]] == r by {
        if reverse.dom().contains(r) {
            assert(forward.dom().contains(reverse[r]));
        }
    }
    assert forall|a: AssetId| #[trigger] after.0.dom().contains(a) implies after.1.dom().contains(
        after.0[a],
    ) && after.1[after.0[a]] == a by {
        if forward.dom().contains(a) {
            assert(reverse.dom().contains(forward[a]));
        }
    }
}

/// After every sequence of registrations and removals, made in turn on an
/// empty registry, the two lookups agree: looking an identifier up and then
/// looking the answer up leads back to the identifier, in both directions.
pub proof fn lemma_calls_keep_pairing(calls: Seq<Call>)
    ensures
        paired(after_calls(calls).0, after_calls(calls).1),
    decreases calls.len(),
{
    if calls.len() > 0 {
        lemma_calls_keep_pairing(calls.drop_last());
        let before = after_calls(calls.drop_last());
        lemma_call_keeps_pairing(before.0, before.1, calls.last());
    }
}

impl Registry {
    /// Every well-formed registry is a bijection: looking an identifier up
    /// and then looking the answer up leads back to the identifier, in both
    /// directions. `new` establishes well-formedness and `register` and
    /// `unregister` keep it, so this holds after every sequence of calls.
    pub proof fn lemma_bijection(self)
        requires
            self.wf(),
        ensures
            bijective(self),
    {
        let s = self.entries@;
        assert forall|r: ResourceId| #[trigger]
            self.reverse().dom().contains(r) implies self.forward().dom().contains(
            self.reverse()[r],
        ) && self.forward()[self.reverse()[r]] == r by {
            lemma_entry_found(s, resource_position(s, r));
        }
        assert forall|a: AssetId| #[trigger]
            self.forward().dom().contains(a) implies self.reverse().dom().contains(
            self.forward()[a],
        ) && self.reverse()[self.forward()[a]] == a by {
            lemma_entry_found(s, asset_position(s, a));
        }
    }

    /// Registering an asset a second time, with whatever resource, is
    /// refused and leaves the registry, and so the first pair, as it was.
    pub proof fn lemma_no_double_registration(
        self,
        asset_id: AssetId,
        first: ResourceId,
        after_first: Registry,
        second: ResourceId,
        after_second: Registry,
        r1: Result<(), AlreadyRegistered>,
        r2: Result<(), AlreadyRegistered>,
    )
        requires
            self.wf(),
            registers(self, asset_id, first, after_first, r1),
            r1 is Ok,
            registers(after_first, asset_id, second, after_second, r2),
        ensures
            r2 == Err::<(), AlreadyRegistered>(AlreadyRegistered),
            after_second == after_first,
            after_second.forward().dom().contains(asset_id),
            after_second.forward()[asset_id] == first,
            after_second.reverse().dom().contains(first),
            after_second.reverse()[first] == asset_id,
    {
        assert(after_first.forward().dom().contains(asset_id));
        assert(r2->Err_0 =~= AlreadyRegistered);
    }

    /// Unregistering a resource twice in a row leaves the registry as
    /// unregistering it once does: the second call removes nothing and
    /// returns `None`.
    pub proof fn lemma_unregister_idempotent(
        self,
        resource_id: ResourceId,
        after_first: Registry,
        after_second: Registry,
        r1: Result<Option<AssetId>, ()>,
        r2: Result<Option<AssetId>, ()>,
    )
        requires
            self.wf(),
            unregisters(self, resource_id, after_first, r1),
            unregisters(after_first, resource_id, after_second, r2),
        ensures
            r2 == Ok::<Option<AssetId>, ()>(None),
            after_second == after_first,
    {
    }
}

} // verus!
