use vstd::prelude::*;
use crate::le_bytes::{le_field, push_all, read_u32_at, read_u64_at, u32_to_le, u64_to_le};
use crate::plugin_parameter::{
    ids_unique, set_where, NormalizedParameterValue, ParameterId, ParameterInfo, ParameterValue,
    ParameterValueContainer,
};
use crate::type_cell::TypeCell;

verus! {

/// Life-cycle hooks of a plugin part.
pub trait Plugin {
    fn initialize(&self) -> bool {
        true
    }

    fn terminate(&self) -> bool {
        true
    }
}

/// Access to a plugin's parameters by descriptor.
pub trait Parameters {
    /// The descriptors that `get_parameters` hands out.
    spec fn parameters_view(&self) -> &[&'static ParameterInfo];

    fn get_parameters(&self) -> (r: &[&'static ParameterInfo])
        ensures
            r@ == self.parameters_view()@,
    ;

    /// Whether a parameter with identity `id` has a live value here.
    spec fn has_parameter(&self, id: ParameterId) -> bool;

    /// What `get_normalized_parameter_value` returns for `param`.
    spec fn normalized_view(&self, param: &ParameterInfo) -> NormalizedParameterValue;

    fn get_normalized_parameter_value(&self, param: &ParameterInfo) -> (r: NormalizedParameterValue)
        ensures
            r == self.normalized_view(param),
    ;

    /// Sets the value of the parameter with `param`'s identity; where there
    /// is none, nothing changes.
    fn set_normalized_parameter_value(&mut self, param: &ParameterInfo, value: NormalizedParameterValue)
        ensures
            final(self).parameters_view()@ == old(self).parameters_view()@,
            forall|id: ParameterId| #[trigger] final(self).has_parameter(id) == old(self).has_parameter(id),
            old(self).has_parameter(param.id) ==> final(self).normalized_view(param) == value,
            forall|q: &ParameterInfo|
                (q.id != param.id || !old(self).has_parameter(param.id))
                    ==> #[trigger] final(self).normalized_view(q) == old(self).normalized_view(q),
    ;

    /// The first descriptor whose identity is `id`; `None` exactly where no
    /// descriptor has it.
    fn get_parameter_by_id(&self, id: ParameterId) -> (r: Option<&'static ParameterInfo>)
        ensures
            match r {
                Some(p) => exists|k: int|
                    0 <= k < self.parameters_view()@.len() && self.parameters_view()@[k] == p && p.id
                        == id && forall|j: int|
                        0 <= j < k ==> (#[trigger] self.parameters_view()@[j]).id != id,
                None => forall|k: int|
                    0 <= k < self.parameters_view()@.len() ==> (#[trigger] self.parameters_view()@[k]).id
                        != id,
            },
    {
        let params = self.get_parameters();
        let mut i: usize = 0;
        while i < params.len()
            invariant
                i <= params@.len(),
                params@ == self.parameters_view()@,
                forall|j: int| 0 <= j < i ==> (#[trigger] params@[j]).id != id,
            decreases params@.len() - i,
        {
            if params[i].id == id {
                return Some(params[i]);
            }
            i = i + 1;
        }
        None
    }
}

/// Why a saved state could not be read in full.
#[derive(Clone, Copy, Debug, PartialEq, Eq, Structural)]
pub enum StateError {
    /// The bytes ended before the count, or before a declared pair.
    UnexpectedEnd,
}

/// The declared number of (identity, value) pairs.
pub open spec fn state_count(b: Seq<u8>) -> nat {
    le_field(b, 0, 4)
}

/// The identity of pair `j`.
pub open spec fn pair_id(b: Seq<u8>, j: int) -> nat {
    le_field(b, 4 + 12 * j, 4)
}

/// The normalized value of pair `j`.
pub open spec fn pair_value(b: Seq<u8>, j: int) -> nat {
    le_field(b, 8 + 12 * j, 8)
}

/// How many whole pairs follow the count.
pub open spec fn pairs_available(b: Seq<u8>) -> nat {
    if b.len() < 4 {
        0
    } else {
        ((b.len() - 4) / 12) as nat
    }
}

/// How many pairs a reader applies: the declared ones that are all there.
pub open spec fn pairs_read(b: Seq<u8>) -> nat {
    if b.len() < 4 {
        0
    } else if state_count(b) <= pairs_available(b) {
        state_count(b)
    } else {
        pairs_available(b)
    }
}

/// `b` is the saved state of a catalog with these identities and normalized
/// values: a count, then one (identity, value) pair per parameter, in order,
/// all little-endian.
pub open spec fn encodes_state(b: Seq<u8>, ids: Seq<ParameterId>, vals: Seq<ParameterValue>) -> bool {
    &&& ids.len() == vals.len()
    &&& b.len() == 4 + 12 * ids.len()
    &&& state_count(b) == ids.len()
    &&& pairs_match(b, ids, vals, ids.len() as int)
}

/// The first `n` pairs of `b` hold these identities and values.
pub open spec fn pairs_match(b: Seq<u8>, ids: Seq<ParameterId>, vals: Seq<ParameterValue>, n: int) -> bool {
    forall|j: int|
        0 <= j < n ==> #[trigger] pair_id(b, j) == ids[j] as nat && pair_value(b, j) == vals[j] as nat
}

/// The values after the first `n` pairs of `b` were applied, one after the
/// other, to `vals`: each sets the parameter with its identity, if any.
pub open spec fn restore(vals: Seq<ParameterValue>, ids: Seq<ParameterId>, b: Seq<u8>, n: nat) -> Seq<
    ParameterValue,
>
    decreases n,
{
    if n == 0 {
        vals
    } else {
        set_where(
            restore(vals, ids, b, (n - 1) as nat),
            ids,
            pair_id(b, n - 1) as ParameterId,
            pair_value(b, n - 1) as ParameterValue,
        )
    }
}

/// Writes the catalog's saved state: the number of parameters, then the
/// identity and normalized value of each, in catalog order.
pub fn write_parameter_values(obj: &ParameterValueContainer) -> (r: Vec<u8>)
    requires
        obj.wf(),
        obj.ids().len() <= u32::MAX,
    ensures
        encodes_state(r@, obj.ids(), obj.normalized_values()),
{
    proof {
        obj.lemma_wf();
    }
    let params = obj.get_parameters();
    let n = params.len();
    let mut out: Vec<u8> = Vec::new();
    push_all(&mut out, &u32_to_le(n as u32));
    assert(out@.subrange(0, 4) =~= out@);
    let ghost ids = obj.ids();
    let ghost vals = obj.normalized_values();
    let mut k: usize = 0;
    while k < n
        invariant
            n == params@.len(),
            params@ == obj.parameters(),
            ids == obj.ids(),
            vals == obj.normalized_values(),
            ids.len() == n,
            vals.len() == n,
            obj.wf(),
            n <= u32::MAX,
            k <= n,
            out@.len() == 4 + 12 * k,
            state_count(out@) == n,
            pairs_match(out@, ids, vals, k as int),
        decreases n - k,
    {
        let p = params[k];
        let value = *obj.value_at(k).get_normalized().get();
        proof {
            assert(ids[k as int] == p.id);
            assert(vals[k as int] == value);
        }
        let ghost before = out@;
        let id_bytes = u32_to_le(p.id);
        let value_bytes = u64_to_le(value);
        push_all(&mut out, &id_bytes);
        push_all(&mut out, &value_bytes);
        proof {
            let start = 4 + 12 * k;
            assert(out@.subrange(start, start + 4) =~= id_bytes@);
            assert(out@.subrange(start + 4, start + 12) =~= value_bytes@);
            assert(out@.subrange(0, 4) =~= before.subrange(0, 4));
            assert forall|j: int| 0 <= j < k + 1 implies #[trigger] pair_id(out@, j) == ids[j] as nat
                && pair_value(out@, j) == vals[j] as nat by {
                if j == k {
                    assert(pair_id(out@, j) == le_field(out@, start, 4));
                    assert(pair_value(out@, j) == le_field(out@, start + 4, 8));
                    assert(le_field(out@, start, 4) == p.id as nat);
                    assert(le_field(out@, start + 4, 8) == value as nat);
                } else {
                    assert(pair_id(before, j) == ids[j] as nat);
                    assert(out@.subrange(4 + 12 * j, 8 + 12 * j) =~= before.subrange(
                        4 + 12 * j,
                        8 + 12 * j,
                    ));
                    assert(out@.subrange(8 + 12 * j, 16 + 12 * j) =~= before.subrange(
                        8 + 12 * j,
                        16 + 12 * j,
                    ));
                }
            }
            assert(pairs_match(out@, ids, vals, k + 1));
        }
        k = k + 1;
    }
    out
}

/// Reads a saved state into the catalog. Every parameter is first put back to
/// its default; then the declared pairs are applied in order, each to the
/// parameter with its identity, and a pair whose identity the catalog lacks
/// is skipped. The read fails where the bytes end before the count or
/// before a declared pair: the pairs before that point stay applied.
pub fn read_parameter_values(obj: &mut ParameterValueContainer, bytes: &[u8]) -> (r: Result<
    (),
    StateError,
>)
    requires
        old(obj).wf(),
    ensures
        final(obj).wf(),
        final(obj).parameters() == old(obj).parameters(),
        final(obj).normalized_values() == restore(
            old(obj).default_values(),
            old(obj).ids(),
            bytes@,
            pairs_read(bytes@),
        ),
        r is Ok <==> bytes@.len() >= 4 && state_count(bytes@) <= pairs_available(bytes@),
        r is Err ==> r == Err::<(), StateError>(StateError::UnexpectedEnd),
{
    obj.reset_to_defaults();
    let ghost defaults = obj.default_values();
    let ghost ids = obj.ids();
    if bytes.len() < 4 {
        return Err(StateError::UnexpectedEnd);
    }
    let count = read_u32_at(bytes, 0);
    let len = bytes.len();
    let mut j: u32 = 0;
    let mut off: usize = 4;
    while j < count
        invariant
            obj.wf(),
            obj.parameters() == old(obj).parameters(),
            defaults == old(obj).default_values(),
            ids == old(obj).ids(),
            len == bytes@.len(),
            len >= 4,
            count as nat == state_count(bytes@),
            j <= count,
            off == 4 + 12 * j,
            off <= len,
            obj.normalized_values() == restore(defaults, ids, bytes@, j as nat),
        decreases count - j,
    {
        if len - off < 12 {
            proof {
                assert((len - 4) / 12 == j as int) by (nonlinear_arith)
                    requires
                        off == 4 + 12 * j,
                        off <= len,
                        len - off < 12,
                ;
            }
            return Err(StateError::UnexpectedEnd);
        }
        let id = read_u32_at(bytes, off);
        let value = read_u64_at(bytes, off + 4);
        obj.set_normalized_by_id(id, TypeCell::new(value));
        proof {
            assert(pair_id(bytes@, j as int) == id as nat);
            assert(pair_value(bytes@, j as int) == value as nat);
        }
        j = j + 1;
        off = off + 12;
    }
    proof {
        assert(4 + 12 * count <= len);
        assert(count as int <= (len - 4) / 12) by (nonlinear_arith)
            requires
                4 + 12 * count <= len,
        ;
    }
    Ok(())
}

/// Applying the first `m` pairs of a saved state to `defaults`, in a catalog
/// whose identities each occur once, gives the saved values at the first `m`
/// positions and leaves the others at their defaults.
proof fn lemma_restore_prefix(
    defaults: Seq<ParameterValue>,
    ids: Seq<ParameterId>,
    vals: Seq<ParameterValue>,
    b: Seq<u8>,
    m: nat,
)
    requires
        ids_unique(ids),
        defaults.len() == ids.len(),
        vals.len() == ids.len(),
        m <= ids.len(),
        pairs_match(b, ids, vals, ids.len() as int),
    ensures
        restore(defaults, ids, b, m).len() == defaults.len(),
        forall|i: int|
            0 <= i < ids.len() ==> #[trigger] restore(defaults, ids, b, m)[i] == if i < m {
                vals[i]
            } else {
                defaults[i]
            },
    decreases m,
{
    if m > 0 {
        lemma_restore_prefix(defaults, ids, vals, b, (m - 1) as nat);
        let k = m - 1;
        assert(pair_id(b, k) == ids[k] as nat);
        assert(pair_value(b, k) == vals[k] as nat);
        assert forall|i: int| 0 <= i < ids.len() implies #[trigger] restore(defaults, ids, b, m)[i]
            == if i < m {
            vals[i]
        } else {
            defaults[i]
        } by {
            if i != k {
                assert(ids[i] != ids[k]);
            }
        }
    }
}

/// Saving a catalog and reading the bytes back into a catalog with the same
/// identities succeeds and restores exactly the saved normalized values,
/// whatever values the second catalog held before.
pub proof fn lemma_state_round_trip(
    bytes: Seq<u8>,
    ids: Seq<ParameterId>,
    vals: Seq<ParameterValue>,
    defaults: Seq<ParameterValue>,
)
    requires
        encodes_state(bytes, ids, vals),
        ids_unique(ids),
        defaults.len() == ids.len(),
    ensures
        bytes.len() >= 4,
        state_count(bytes) <= pairs_available(bytes),
        restore(defaults, ids, bytes, pairs_read(bytes)) == vals,
{
    let n = ids.len();
    assert(pairs_available(bytes) == n) by (nonlinear_arith)
        requires
            bytes.len() == 4 + 12 * n,
            pairs_available(bytes) == ((bytes.len() - 4) / 12) as nat,
    ;
    lemma_restore_prefix(defaults, ids, vals, bytes, n);
    assert(restore(defaults, ids, bytes, n) =~= vals);
}

/// After `n` pairs that all lie within `bytes`, a parameter whose identity
/// none of them carries is still at its default.
proof fn lemma_untouched(defaults: Seq<ParameterValue>, ids: Seq<ParameterId>, bytes: Seq<u8>, n: nat, i: int)
    requires
        defaults.len() == ids.len(),
        0 <= i < ids.len(),
        4 + 12 * n <= bytes.len(),
        forall|j: int| 0 <= j < n ==> #[trigger] pair_id(bytes, j) != ids[i] as nat,
    ensures
        restore(defaults, ids, bytes, n).len() == defaults.len(),
        restore(defaults, ids, bytes, n)[i] == defaults[i],
    decreases n,
{
    if n > 0 {
        lemma_untouched(defaults, ids, bytes, (n - 1) as nat, i);
        assert(pair_id(bytes, n - 1) != ids[i] as nat);
        lemma_le_value_bound(bytes.subrange(4 + 12 * (n - 1), 4 + 12 * (n - 1) + 4));
    }
}

/// Reading a saved state leaves every parameter whose identity no applied
/// pair carries at its default value: pairs for identities that the catalog
/// lacks change nothing (and, by the reader's contract, cause no error).
pub proof fn lemma_unknown_ids_ignored(
    defaults: Seq<ParameterValue>,
    ids: Seq<ParameterId>,
    bytes: Seq<u8>,
    i: int,
)
    requires
        defaults.len() == ids.len(),
        0 <= i < ids.len(),
        forall|j: int| 0 <= j < pairs_read(bytes) ==> #[trigger] pair_id(bytes, j) != ids[i] as nat,
    ensures
        restore(defaults, ids, bytes, pairs_read(bytes))[i] == defaults[i],
{
    let n = pairs_read(bytes);
    if bytes.len() >= 4 {
        let a = pairs_available(bytes);
        assert(4 + 12 * n <= bytes.len()) by (nonlinear_arith)
            requires
                bytes.len() >= 4,
                a == ((bytes.len() - 4) / 12) as nat,
                n <= a,
        ;
        lemma_untouched(defaults, ids, bytes, n, i);
    }
}

/// Four bytes hold a number below 2^32.
proof fn lemma_le_value_bound(s: Seq<u8>)
    requires
        s.len() == 4,
    ensures
        crate::le_bytes::le_value(s) < 0x1_0000_0000,
{
    let s1 = s.drop_first();
    let s2 = s1.drop_first();
    let s3 = s2.drop_first();
    let s4 = s3.drop_first();
    assert(s4.len() == 0);
    reveal_with_fuel(crate::le_bytes::le_value, 5);
}

} // verus!
