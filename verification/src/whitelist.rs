//! The Merkle allow-list gate: a committed set of eligible taker
//! identities, membership provable by a sibling-hash path.
//!
//! At each step of a proof the running hash and the next sibling are
//! combined in canonical (lexicographically sorted) order and re-hashed,
//! so the scheme is agnostic to left/right position in the original tree.

use vstd::prelude::*;

use crate::constants::HASH_SIZE;

verus! {

/// The Keccak-256 digest of a byte string. The digest depends on the input
/// alone; its value is known only through the hash primitive below.
pub uninterp spec fn keccak_of(data: Seq<u8>) -> Seq<u8>;

/// Relies on `anchor_lang::solana_program::keccak::hashv`: the Keccak-256
/// digest of the input bytes, a pure function of them, 32 bytes long.
#[verifier::external_body]
fn keccak(data: &Vec<u8>) -> (r: Vec<u8>)
    ensures
        r@ == keccak_of(data@),
        r@.len() == HASH_SIZE,
{
    anchor_lang::solana_program::keccak::hashv(&[data.as_slice()]).0.to_vec()
}

/// Lexicographic order on byte strings; on strings of equal length this is
/// the order in which the host environment compares 32-byte hashes.
pub open spec fn lex_le(x: Seq<u8>, y: Seq<u8>) -> bool
    decreases x.len(),
{
    if x.len() == 0 {
        true
    } else if y.len() == 0 {
        false
    } else if x[0] < y[0] {
        true
    } else if x[0] > y[0] {
        false
    } else {
        lex_le(x.skip(1), y.skip(1))
    }
}

/// A Merkle node: the hash of the two children in canonical order.
pub open spec fn combine(x: Seq<u8>, y: Seq<u8>) -> Seq<u8> {
    if lex_le(x, y) {
        keccak_of(x + y)
    } else {
        keccak_of(y + x)
    }
}

/// Folding a proof: combine the running hash with each sibling in turn,
/// deepest sibling first.
pub open spec fn merkle_fold(leaf: Seq<u8>, siblings: Seq<Seq<u8>>) -> Seq<u8>
    decreases siblings.len(),
{
    if siblings.len() == 0 {
        leaf
    } else {
        merkle_fold(combine(leaf, siblings[0]), siblings.skip(1))
    }
}

/// The all-zero root: the sentinel for an order open to every taker.
pub open spec fn null_root() -> Seq<u8> {
    Seq::new(HASH_SIZE as nat, |i: int| 0u8)
}

/// Who may take: everyone under the null root, else exactly the takers
/// whose proof folds to the stored root.
pub open spec fn eligible(root: Seq<u8>, siblings: Seq<Seq<u8>>, taker: Seq<u8>) -> bool {
    ||| root == null_root()
    ||| merkle_fold(keccak_of(taker), siblings) == root
}

/// Folding one more sibling combines it onto the fold of the rest.
pub proof fn lemma_fold_snoc(leaf: Seq<u8>, siblings: Seq<Seq<u8>>, x: Seq<u8>)
    ensures
        merkle_fold(leaf, siblings.push(x)) == combine(merkle_fold(leaf, siblings), x),
    decreases siblings.len(),
{
    assert(merkle_fold(leaf, siblings.push(x)) == merkle_fold(
        combine(leaf, siblings.push(x)[0]),
        siblings.push(x).skip(1),
    ));
    if siblings.len() == 0 {
        assert(siblings.push(x)[0] == x);
        assert(siblings.push(x).skip(1) =~= Seq::<Seq<u8>>::empty());
        assert(merkle_fold(combine(leaf, x), Seq::<Seq<u8>>::empty()) == combine(leaf, x));
    } else {
        assert(siblings.push(x)[0] == siblings[0]);
        assert(siblings.push(x).skip(1) =~= siblings.skip(1).push(x));
        lemma_fold_snoc(combine(leaf, siblings[0]), siblings.skip(1), x);
    }
}

/// Nothing is below the other of two byte strings in both orders unless
/// they are the same string.
pub proof fn lemma_lex_le_antisymmetric(x: Seq<u8>, y: Seq<u8>)
    requires
        lex_le(x, y),
        lex_le(y, x),
    ensures
        x == y,
    decreases x.len(),
{
    if x.len() == 0 {
        assert(x =~= y);
    } else {
        assert(x[0] == y[0]);
        lemma_lex_le_antisymmetric(x.skip(1), y.skip(1));
        assert forall|i: int| 0 <= i < x.len() implies x[i] == y[i] by {
            if i > 0 {
                assert(x[i] == x.skip(1)[i - 1]);
                assert(y[i] == y.skip(1)[i - 1]);
            }
        }
        assert(x =~= y);
    }
}

/// Any two byte strings are ordered one way or the other.
pub proof fn lemma_lex_le_total(x: Seq<u8>, y: Seq<u8>)
    ensures
        lex_le(x, y) || lex_le(y, x),
    decreases x.len(),
{
    if x.len() == 0 {
    } else if y.len() == 0 {
    } else if x[0] < y[0] {
    } else if x[0] > y[0] {
    } else {
        lemma_lex_le_total(x.skip(1), y.skip(1));
    }
}

/// Combining in canonical order makes the node hash independent of which
/// child came first.
pub proof fn lemma_combine_symmetric(x: Seq<u8>, y: Seq<u8>)
    ensures
        combine(x, y) == combine(y, x),
{
    lemma_lex_le_total(x, y);
    if lex_le(x, y) && lex_le(y, x) {
        lemma_lex_le_antisymmetric(x, y);
    }
}

/// A Merkle tree over already-hashed leaves, as mathematics: the shape an
/// allow-list commits to with its root.
pub ghost enum MerkleTree {
    Leaf { hash: Seq<u8> },
    Node { left: Box<MerkleTree>, right: Box<MerkleTree> },
}

/// The hash at the root of the tree.
pub open spec fn tree_hash(t: MerkleTree) -> Seq<u8>
    decreases t,
{
    match t {
        MerkleTree::Leaf { hash } => hash,
        MerkleTree::Node { left, right } => combine(tree_hash(*left), tree_hash(*right)),
    }
}

/// Is `siblings` the proof read off the tree for a leaf holding `leaf`:
/// the sibling hash at each level, deepest first?
pub open spec fn proof_for(t: MerkleTree, leaf: Seq<u8>, siblings: Seq<Seq<u8>>) -> bool
    decreases t,
{
    match t {
        MerkleTree::Leaf { hash } => siblings.len() == 0 && hash == leaf,
        MerkleTree::Node { left, right } => siblings.len() > 0 && ((proof_for(
            *left,
            leaf,
            siblings.drop_last(),
        ) && siblings.last() == tree_hash(*right)) || (proof_for(
            *right,
            leaf,
            siblings.drop_last(),
        ) && siblings.last() == tree_hash(*left))),
    }
}

/// Completeness law of the proof check: a proof correctly read off a tree
/// folds to that tree's root hash, wherever in the tree the leaf sits.
pub proof fn lemma_proof_folds_to_root(t: MerkleTree, leaf: Seq<u8>, siblings: Seq<Seq<u8>>)
    requires
        proof_for(t, leaf, siblings),
    ensures
        merkle_fold(leaf, siblings) == tree_hash(t),
    decreases t,
{
    match t {
        MerkleTree::Leaf { hash } => {
        },
        MerkleTree::Node { left, right } => {
            assert(siblings =~= siblings.drop_last().push(siblings.last()));
            lemma_fold_snoc(leaf, siblings.drop_last(), siblings.last());
            if proof_for(*left, leaf, siblings.drop_last()) && siblings.last() == tree_hash(
                *right,
            ) {
                lemma_proof_folds_to_root(*left, leaf, siblings.drop_last());
            } else {
                lemma_proof_folds_to_root(*right, leaf, siblings.drop_last());
                lemma_combine_symmetric(tree_hash(*right), tree_hash(*left));
            }
        },
    }
}

/// Eligibility law: a taker whose hashed identity the tree contains is
/// eligible under the tree's root, with the proof read off the tree.
pub proof fn lemma_valid_proof_is_eligible(t: MerkleTree, taker: Seq<u8>, siblings: Seq<Seq<u8>>)
    requires
        proof_for(t, keccak_of(taker), siblings),
    ensures
        eligible(tree_hash(t), siblings, taker),
{
    lemma_proof_folds_to_root(t, keccak_of(taker), siblings);
}

/// Open-order law: under the all-zero root every taker is eligible, with
/// any proof at all, the empty one included.
pub proof fn lemma_null_root_open(siblings: Seq<Seq<u8>>, taker: Seq<u8>)
    ensures
        eligible(null_root(), siblings, taker),
{
}

/// Is the stored root the all-zero sentinel?
pub fn all_zero(v: &Vec<u8>) -> (r: bool)
    ensures
        r == (v@ == null_root()),
{
    if v.len() != HASH_SIZE {
        proof {
            assert(v@ != null_root()) by {
                assert(null_root().len() == HASH_SIZE);
            }
        }
        return false;
    }
    let mut i: usize = 0;
    while i < v.len()
        invariant
            i <= v.len(),
            v@.len() == HASH_SIZE,
            forall|j: int| 0 <= j < i ==> v@[j] == 0u8,
        decreases v.len() - i,
    {
        if v[i] != 0u8 {
            proof {
                assert(v@ != null_root()) by {
                    assert(null_root()[i as int] == 0u8);
                }
            }
            return false;
        }
        i += 1;
    }
    proof {
        assert(v@ =~= null_root());
    }
    true
}

/// Byte-string equality.
pub fn bytes_eq(x: &Vec<u8>, y: &Vec<u8>) -> (r: bool)
    ensures
        r == (x@ == y@),
{
    if x.len() != y.len() {
        proof {
            assert(x@ != y@) by {
                assert(x@.len() != y@.len());
            }
        }
        return false;
    }
    let mut i: usize = 0;
    while i < x.len()
        invariant
            i <= x.len(),
            x@.len() == y@.len(),
            forall|j: int| 0 <= j < i ==> x@[j] == y@[j],
        decreases x.len() - i,
    {
        if x[i] != y[i] {
            return false;
        }
        i += 1;
    }
    proof {
        assert(x@ =~= y@);
    }
    true
}

/// Lexicographic comparison of byte strings.
pub fn bytes_le(x: &Vec<u8>, y: &Vec<u8>) -> (r: bool)
    ensures
        r == lex_le(x@, y@),
{
    let mut i: usize = 0;
    proof {
        assert(x@.skip(0) =~= x@);
        assert(y@.skip(0) =~= y@);
    }
    loop
        invariant
            i <= x.len(),
            i <= y.len(),
            lex_le(x@, y@) == lex_le(x@.skip(i as int), y@.skip(i as int)),
        decreases x.len() - i,
    {
        if i == x.len() {
            assert(x@.skip(i as int).len() == 0);
            return true;
        }
        if i == y.len() {
            assert(y@.skip(i as int).len() == 0);
            assert(x@.skip(i as int).len() > 0);
            return false;
        }
        let xi = x[i];
        let yi = y[i];
        assert(x@.skip(i as int)[0] == x@[i as int]);
        assert(y@.skip(i as int)[0] == y@[i as int]);
        if xi < yi {
            return true;
        }
        if xi > yi {
            return false;
        }
        proof {
            assert(x@.skip(i as int).skip(1) =~= x@.skip(i as int + 1));
            assert(y@.skip(i as int).skip(1) =~= y@.skip(i as int + 1));
        }
        i += 1;
    }
}

/// The two byte strings, one after the other.
fn concat_bytes(x: &Vec<u8>, y: &Vec<u8>) -> (r: Vec<u8>)
    ensures
        r@ == x@ + y@,
{
    let mut out: Vec<u8> = Vec::new();
    let mut i: usize = 0;
    while i < x.len()
        invariant
            i <= x.len(),
            out@ == x@.take(i as int),
        decreases x.len() - i,
    {
        out.push(x[i]);
        proof {
            assert(x@.take(i as int).push(x@[i as int]) =~= x@.take(i + 1));
        }
        i += 1;
    }
    proof {
        assert(x@.take(x@.len() as int) =~= x@);
    }
    let mut j: usize = 0;
    while j < y.len()
        invariant
            j <= y.len(),
            out@ == x@ + y@.take(j as int),
        decreases y.len() - j,
    {
        out.push(y[j]);
        proof {
            assert((x@ + y@.take(j as int)).push(y@[j as int]) =~= x@ + y@.take(j + 1));
        }
        j += 1;
    }
    proof {
        assert(x@ + y@.take(y@.len() as int) =~= x@ + y@);
    }
    out
}

/// The leaf for a taker identity: its digest.
pub fn leaf_hash(identity: &Vec<u8>) -> (r: Vec<u8>)
    ensures
        r@ == keccak_of(identity@),
        r@.len() == HASH_SIZE,
{
    keccak(identity)
}

/// The parent hash of two child hashes, combined in canonical order.
pub fn hash_pair(x: &Vec<u8>, y: &Vec<u8>) -> (r: Vec<u8>)
    ensures
        r@ == combine(x@, y@),
        r@.len() == HASH_SIZE,
{
    if bytes_le(x, y) {
        keccak(&concat_bytes(x, y))
    } else {
        keccak(&concat_bytes(y, x))
    }
}

} // verus!
