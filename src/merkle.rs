use vstd::prelude::*;
use crate::bytes::{append_bytes, bytes32_eq, bytes32_lt, lex_lt};
use crate::keccak::{keccak256, keccak_of};
use crate::state::CustomError;

verus! {

/// Hash of two nodes, taken in ascending byte order so that the result does
/// not depend on which side each node is on.
pub open spec fn hash_pair_of(a: Seq<u8>, b: Seq<u8>) -> Seq<u8> {
    if lex_lt(a, b) {
        keccak_of(a + b)
    } else {
        keccak_of(b + a)
    }
}

/// The root reached from `leaf` by folding in the siblings of `proof` in order.
pub open spec fn process_proof_of(leaf: Seq<u8>, proof: Seq<[u8; 32]>) -> Seq<u8>
    decreases proof.len(),
{
    if proof.len() == 0 {
        leaf
    } else {
        hash_pair_of(process_proof_of(leaf, proof.drop_last()), proof.last()@)
    }
}

/// Combines two nodes into their parent.
pub fn commutative_keccak256(a: &[u8; 32], b: &[u8; 32]) -> (r: [u8; 32])
    ensures
        r@ == hash_pair_of(a@, b@),
{
    let mut input: Vec<u8> = Vec::new();
    if bytes32_lt(a, b) {
        append_bytes(&mut input, a.as_slice());
        append_bytes(&mut input, b.as_slice());
    } else {
        append_bytes(&mut input, b.as_slice());
        append_bytes(&mut input, a.as_slice());
    }
    keccak256(input.as_slice())
}

/// The root that `proof` leads to from `leaf`.
pub fn process_proof(proof: &Vec<[u8; 32]>, leaf: &[u8; 32]) -> (r: [u8; 32])
    ensures
        r@ == process_proof_of(leaf@, proof@),
{
    let mut computed: [u8; 32] = *leaf;
    let mut i: usize = 0;
    while i < proof.len()
        invariant
            0 <= i <= proof@.len(),
            computed@ == process_proof_of(leaf@, proof@.subrange(0, i as int)),
        decreases proof@.len() - i,
    {
        let next = commutative_keccak256(&computed, &proof[i]);
        proof {
            let p = proof@.subrange(0, i as int + 1);
            assert(p.drop_last() =~= proof@.subrange(0, i as int));
        }
        computed = next;
        i = i + 1;
    }
    assert(proof@.subrange(0, i as int) =~= proof@);
    computed
}

/// Succeeds exactly when `proof` leads from `leaf` to `root`.
pub fn verify_merkle_proof(root: &[u8; 32], leaf: &[u8; 32], proof: &Vec<[u8; 32]>) -> (r: Result<
    (),
    CustomError,
>)
    ensures
        r is Ok <==> process_proof_of(leaf@, proof@) == root@,
        r is Err ==> r == Err::<(), CustomError>(CustomError::InvalidMerkleProof),
{
    let computed = process_proof(proof, leaf);
    if bytes32_eq(&computed, root) {
        Ok(())
    } else {
        Err(CustomError::InvalidMerkleProof)
    }
}

/// Root of the tree built over `leaves`: the first half of the leaves goes to
/// the left subtree, the rest to the right.
pub open spec fn tree_root(leaves: Seq<Seq<u8>>) -> Seq<u8>
    decreases leaves.len(),
{
    if leaves.len() == 0 {
        Seq::empty()
    } else if leaves.len() == 1 {
        leaves[0]
    } else {
        let h = leaves.len() as int / 2;
        hash_pair_of(tree_root(leaves.take(h)), tree_root(leaves.skip(h)))
    }
}

/// The siblings on the way from leaf `i` up to the root of `tree_root(leaves)`,
/// lowest first.
pub open spec fn proof_path(leaves: Seq<Seq<u8>>, i: int) -> Seq<Seq<u8>>
    decreases leaves.len(),
{
    if leaves.len() <= 1 {
        Seq::empty()
    } else {
        let h = leaves.len() as int / 2;
        if i < h {
            proof_path(leaves.take(h), i).push(tree_root(leaves.skip(h)))
        } else {
            proof_path(leaves.skip(h), i - h).push(tree_root(leaves.take(h)))
        }
    }
}

/// Every node of the tree over `leaves` is a 32-byte digest.
pub open spec fn tree_digests_32(leaves: Seq<Seq<u8>>) -> bool
    decreases leaves.len(),
{
    &&& tree_root(leaves).len() == 32
    &&& leaves.len() > 1 ==> {
        &&& tree_digests_32(leaves.take(leaves.len() as int / 2))
        &&& tree_digests_32(leaves.skip(leaves.len() as int / 2))
    }
}

proof fn lemma_lex_lt_order(a: Seq<u8>, b: Seq<u8>)
    requires
        a.len() == b.len(),
    ensures
        !(lex_lt(a, b) && lex_lt(b, a)),
        a != b ==> lex_lt(a, b) || lex_lt(b, a),
    decreases a.len(),
{
    if a.len() == 0 {
        assert(a =~= b);
    } else if a[0] == b[0] {
        lemma_lex_lt_order(a.drop_first(), b.drop_first());
        if a.drop_first() == b.drop_first() {
            assert forall|j: int| 0 <= j < a.len() implies a[j] == b[j] by {
                if j > 0 {
                    assert(a[j] == a.drop_first()[j - 1]);
                    assert(b[j] == b.drop_first()[j - 1]);
                }
            }
            assert(a =~= b);
        }
    }
}

/// Combining two digests of one length does not depend on their order.
pub proof fn lemma_hash_pair_commutative(a: Seq<u8>, b: Seq<u8>)
    requires
        a.len() == b.len(),
    ensures
        hash_pair_of(a, b) == hash_pair_of(b, a),
{
    lemma_lex_lt_order(a, b);
}

/// Every leaf committed into a tree is accepted: its sibling path leads from
/// the leaf to the tree's root, so `verify_merkle_proof` succeeds on it.
pub proof fn lemma_member_proof_verifies(leaves: Seq<Seq<u8>>, i: int, proof: Seq<[u8; 32]>)
    requires
        0 <= i < leaves.len(),
        tree_digests_32(leaves),
        proof.map_values(|p: [u8; 32]| p@) == proof_path(leaves, i),
    ensures
        process_proof_of(leaves[i], proof) == tree_root(leaves),
    decreases leaves.len(),
{
    let path = proof.map_values(|p: [u8; 32]| p@);
    if leaves.len() == 1 {
        assert(path.len() == 0);
    } else {
        let h = leaves.len() as int / 2;
        let (left, right) = (leaves.take(h), leaves.skip(h));
        assert(proof.len() == path.len());
        assert(proof.len() > 0);
        let rest = proof.drop_last();
        assert(rest.map_values(|p: [u8; 32]| p@) =~= path.drop_last());
        assert(proof.last()@ == path.last());
        if i < h {
            assert(left[i] == leaves[i]);
            assert(path.drop_last() =~= proof_path(left, i));
            lemma_member_proof_verifies(left, i, rest);
        } else {
            assert(right[i - h] == leaves[i]);
            assert(path.drop_last() =~= proof_path(right, i - h));
            lemma_member_proof_verifies(right, i - h, rest);
            reveal_with_fuel(tree_digests_32, 2);
            lemma_hash_pair_commutative(tree_root(left), tree_root(right));
        }
    }
}

} // verus!
