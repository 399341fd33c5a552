use vstd::prelude::*;
use crate::hash::token_address;
use crate::events::RecordModel;
use crate::effects::EffectModel;
use crate::handlers::transfer_record_plan;

verus! {

/// A change to the ownership index, as the document store performs it.
pub enum IndexOp {
    /// Append the address to the wallet's list, creating the entry if needed.
    Push { wallet: Seq<char>, address: Seq<char> },
    /// Remove every copy of the address from the wallet's list, creating the
    /// entry if needed.
    Pull { wallet: Seq<char>, address: Seq<char> },
}

pub open spec fn equals(a: Seq<char>) -> spec_fn(Seq<char>) -> bool {
    |x: Seq<char>| x == a
}

pub open spec fn differs(a: Seq<char>) -> spec_fn(Seq<char>) -> bool {
    |x: Seq<char>| x != a
}

/// The ownership index: for each wallet, the addresses of the tokens it is
/// believed to own.
pub open spec fn entry(m: Map<Seq<char>, Seq<Seq<char>>>, wallet: Seq<char>) -> Seq<Seq<char>> {
    if m.contains_key(wallet) {
        m[wallet]
    } else {
        Seq::empty()
    }
}

pub open spec fn apply_op(m: Map<Seq<char>, Seq<Seq<char>>>, op: IndexOp) -> Map<Seq<char>, Seq<Seq<char>>> {
    match op {
        IndexOp::Push { wallet, address } => m.insert(wallet, entry(m, wallet).push(address)),
        IndexOp::Pull { wallet, address } => m.insert(
            wallet,
            entry(m, wallet).filter(differs(address)),
        ),
    }
}

/// The index after the operations, in order.
pub open spec fn apply_ops(m: Map<Seq<char>, Seq<Seq<char>>>, ops: Seq<IndexOp>) -> Map<Seq<char>, Seq<Seq<char>>>
    decreases ops.len(),
{
    if ops.len() == 0 {
        m
    } else {
        apply_ops(apply_op(m, ops[0]), ops.drop_first())
    }
}

/// The index operations an effect performs once it has succeeded.
pub open spec fn index_ops(e: EffectModel) -> Seq<IndexOp> {
    match e {
        EffectModel::AddOwner { address, owner_id, .. } => seq![
            IndexOp::Push { wallet: owner_id, address },
        ],
        EffectModel::MoveOwner { address, old_owner_id, new_owner_id, .. } => seq![
            IndexOp::Push { wallet: new_owner_id, address },
            IndexOp::Pull { wallet: old_owner_id, address },
        ],
        _ => Seq::empty(),
    }
}

/// How many times `a` occurs in `s`.
pub open spec fn occurrences(s: Seq<Seq<char>>, a: Seq<char>) -> nat {
    s.filter(equals(a)).len()
}

proof fn lemma_no_occurrence(s: Seq<Seq<char>>, a: Seq<char>)
    requires
        !s.contains(a),
    ensures
        occurrences(s, a) == 0,
{
    let f = s.filter(equals(a));
    if f.len() > 0 {
        s.lemma_filter_pred(equals(a), 0);
        assert(f.contains(f[0]));
        s.lemma_filter_contains_rev(equals(a), f[0]);
    }
}

proof fn lemma_pulled(s: Seq<Seq<char>>, a: Seq<char>)
    ensures
        !s.filter(differs(a)).contains(a),
{
    let f = s.filter(differs(a));
    if f.contains(a) {
        let k = choose|k: int| 0 <= k < f.len() && f[k] == a;
        s.lemma_filter_pred(differs(a), k);
    }
}

/// A transfer of a token from wallet `a` to another wallet `b`: once both of
/// its index operations have succeeded, in either order, `a`'s entry no
/// longer holds the token's address and `b`'s holds it once, where it did not
/// hold it before.
pub proof fn lemma_transfer_moves_address(
    contract_id: Seq<char>,
    transfer: RecordModel,
    i: int,
    m: Map<Seq<char>, Seq<Seq<char>>>,
)
    requires
        0 <= i < transfer.token_ids.len(),
        transfer.old_owner_id != transfer.new_owner_id,
        !entry(m, transfer.new_owner_id).contains(token_address(contract_id, transfer.token_ids[i])),
    ensures
        ({
            let ops = index_ops(transfer_record_plan(contract_id, transfer)[i]);
            let h = token_address(contract_id, transfer.token_ids[i]);
            &&& !entry(apply_ops(m, ops), transfer.old_owner_id).contains(h)
            &&& occurrences(entry(apply_ops(m, ops), transfer.new_owner_id), h) == 1
            &&& !entry(apply_ops(m, ops.reverse()), transfer.old_owner_id).contains(h)
            &&& occurrences(entry(apply_ops(m, ops.reverse()), transfer.new_owner_id), h) == 1
        }),
{
    let a = transfer.old_owner_id;
    let b = transfer.new_owner_id;
    let h = token_address(contract_id, transfer.token_ids[i]);
    let ops = index_ops(transfer_record_plan(contract_id, transfer)[i]);
    let push = IndexOp::Push { wallet: b, address: h };
    let pull = IndexOp::Pull { wallet: a, address: h };
    assert(ops == seq![push, pull]);
    let sb = entry(m, b);
    lemma_no_occurrence(sb, h);
    sb.lemma_filter_push(h, equals(h));
    assert(occurrences(sb.push(h), h) == 1);
    // push, then pull
    let m1 = apply_op(m, push);
    let m2 = apply_op(m1, pull);
    assert(ops.drop_first().drop_first() =~= Seq::<IndexOp>::empty());
    assert(ops.drop_first()[0] == pull);
    assert(apply_ops(m1, ops.drop_first()) == apply_ops(m2, ops.drop_first().drop_first()));
    assert(apply_ops(m, ops) == m2);
    assert(entry(m2, b) == sb.push(h));
    lemma_pulled(entry(m1, a), h);
    // pull, then push
    let r = ops.reverse();
    assert(r =~= seq![pull, push]);
    assert(r.drop_first().drop_first() =~= Seq::<IndexOp>::empty());
    let n1 = apply_op(m, pull);
    let n2 = apply_op(n1, push);
    assert(r.drop_first()[0] == push);
    assert(apply_ops(n1, r.drop_first()) == apply_ops(n2, r.drop_first().drop_first()));
    assert(apply_ops(m, r) == n2);
    assert(entry(n1, b) == sb);
    assert(entry(n2, b) == sb.push(h));
    lemma_pulled(entry(m, a), h);
    assert(entry(n2, a) == entry(m, a).filter(differs(h)));
}

} // verus!
