use vstd::prelude::*;
use vstd::arithmetic::power2::pow2;
use crate::errors::DarkPoolError;
use crate::events::ShieldedDeposit;
use crate::events::ShieldedSpent;
use crate::keys::is_zero_key;
use crate::keys::key_eq;
use crate::keys::zero_key;
use crate::state::ShieldedConfig;
use crate::state::ShieldedNullifier;
use crate::tree::fresh_tree_model;
use crate::tree::max_leaves_for_depth;
use crate::tree::merkle_insert;
use crate::tree::shielded_zero_hashes;
use crate::tree::tree_insert;
use crate::tree::word_views;
use crate::tree::zero_hash_table;
use crate::tree::ShieldedMerkleTree;
use crate::tree::SHIELDED_TREE_MAX_DEPTH;

verus! {

/// The configuration record mirrors the tree's public fields; every
/// operation that touches either must leave them in agreement.
pub open spec fn mirror_ok(c: ShieldedConfig, t: ShieldedMerkleTree) -> bool {
    &&& c.current_root@ == t.root@
    &&& c.next_leaf_index == t.next_leaf_index
    &&& c.tree_depth == t.depth
}

/// Creates the shielded pool: an empty tree of the requested depth, its
/// filled-subtree and empty-subtree tables both holding the canonical
/// zero-hash table and its root the top level's empty hash, mirrored into a
/// fresh configuration record. The resulting tree state is fully determined
/// by the depth.
pub fn initialize_shielded(authority: [u8; 32], tree_depth: u8, vault_bump: u8) -> (r: Result<
    (ShieldedConfig, ShieldedMerkleTree),
    DarkPoolError,
>)
    ensures
        !(1 <= tree_depth <= SHIELDED_TREE_MAX_DEPTH) ==> r == Err::<
            (ShieldedConfig, ShieldedMerkleTree),
            DarkPoolError,
        >(DarkPoolError::InvalidTreeDepth),
        1 <= tree_depth <= SHIELDED_TREE_MAX_DEPTH ==> (r matches Ok(p) && {
            let (c, t) = p;
            &&& t.wf()
            &&& t@ == fresh_tree_model(tree_depth as nat)
            &&& t.depth == tree_depth
            &&& t.next_leaf_index == 0
            &&& word_views(t.filled_subtrees@) == zero_hash_table()
            &&& word_views(t.zeroes@) == zero_hash_table()
            &&& t.root@ == t.zeroes@[tree_depth - 1]@
            &&& mirror_ok(c, t)
            &&& c.authority == authority
            &&& c.is_initialized
            &&& c.tree_depth == tree_depth
            &&& c.vault_bump == vault_bump
        }),
{
    if tree_depth == 0 || tree_depth > SHIELDED_TREE_MAX_DEPTH {
        return Err(DarkPoolError::InvalidTreeDepth);
    }
    let zeroes = shielded_zero_hashes();
    let filled = shielded_zero_hashes();
    let root = zeroes[(tree_depth - 1) as usize];
    let tree = ShieldedMerkleTree {
        depth: tree_depth,
        filled_subtrees: filled,
        zeroes,
        root,
        next_leaf_index: 0,
    };
    let config = ShieldedConfig {
        authority,
        is_initialized: true,
        tree_depth,
        vault_bump,
        current_root: root,
        next_leaf_index: 0,
    };
    proof {
        assert(tree@.root == zero_hash_table()[tree_depth - 1]);
        assert(tree@ == fresh_tree_model(tree_depth as nat));
    }
    Ok((config, tree))
}

/// The first precondition a shielded deposit violates, if any, in the order
/// the engine checks them.
pub open spec fn spec_deposit_shielded_err(
    c: ShieldedConfig,
    t: ShieldedMerkleTree,
    commitment: [u8; 32],
    amount: u64,
) -> Option<DarkPoolError> {
    if !c.is_initialized {
        Some(DarkPoolError::ShieldedConfigNotInitialized)
    } else if amount == 0 {
        Some(DarkPoolError::InvalidAmount)
    } else if commitment@ == zero_key() {
        Some(DarkPoolError::InvalidCommitment)
    } else if !(1 <= c.tree_depth <= SHIELDED_TREE_MAX_DEPTH) {
        Some(DarkPoolError::InvalidTreeDepth)
    } else if t.depth != c.tree_depth {
        Some(DarkPoolError::InvalidTreeDepth)
    } else if c.next_leaf_index >= pow2(c.tree_depth as nat) {
        Some(DarkPoolError::ShieldedTreeFull)
    } else if t.next_leaf_index != c.next_leaf_index {
        Some(DarkPoolError::ShieldedStateMismatch)
    } else {
        None
    }
}

/// Appends a commitment to the shielded tree and mirrors the new root and
/// leaf counter into the configuration. The host transfers the deposit into
/// the vault only after this validation has passed, and the tree mutation is
/// the final step, so a successful transfer is never left unmirrored.
pub fn deposit_shielded(
    config: &mut ShieldedConfig,
    tree: &mut ShieldedMerkleTree,
    commitment: [u8; 32],
    amount: u64,
) -> (r: Result<ShieldedDeposit, DarkPoolError>)
    requires
        old(tree).wf(),
    ensures
        final(tree).wf(),
        spec_deposit_shielded_err(*old(config), *old(tree), commitment, amount) matches Some(e)
            ==> (r == Err::<ShieldedDeposit, DarkPoolError>(e) && *final(config) == *old(config)
            && *final(tree) == *old(tree)),
        spec_deposit_shielded_err(*old(config), *old(tree), commitment, amount) is None ==> (
        r matches Ok(ev) && {
            &&& final(tree)@ == tree_insert(old(tree)@, commitment@)
            &&& mirror_ok(*final(config), *final(tree))
            &&& *final(config) == (ShieldedConfig {
                current_root: final(tree).root,
                next_leaf_index: final(tree).next_leaf_index,
                ..*old(config)
            })
            &&& final(tree).next_leaf_index == old(tree).next_leaf_index + 1
            &&& ev == (ShieldedDeposit {
                commitment,
                amount,
                leaf_index: old(tree).next_leaf_index,
                new_root: final(tree).root,
            })
        }),
{
    if !config.is_initialized {
        return Err(DarkPoolError::ShieldedConfigNotInitialized);
    }
    if amount == 0 {
        return Err(DarkPoolError::InvalidAmount);
    }
    if is_zero_key(&commitment) {
        return Err(DarkPoolError::InvalidCommitment);
    }
    if config.tree_depth == 0 || config.tree_depth > SHIELDED_TREE_MAX_DEPTH {
        return Err(DarkPoolError::InvalidTreeDepth);
    }
    if tree.depth != config.tree_depth {
        return Err(DarkPoolError::InvalidTreeDepth);
    }
    let max_leaves = match max_leaves_for_depth(config.tree_depth) {
        Ok(m) => m,
        Err(e) => {
            return Err(e);
        },
    };
    if config.next_leaf_index >= max_leaves {
        return Err(DarkPoolError::ShieldedTreeFull);
    }
    if tree.next_leaf_index != config.next_leaf_index {
        return Err(DarkPoolError::ShieldedStateMismatch);
    }
    let (leaf_index, new_root) = match merkle_insert(tree, commitment) {
        Ok(p) => p,
        Err(e) => {
            return Err(e);
        },
    };
    config.current_root = new_root;
    config.next_leaf_index = tree.next_leaf_index;
    Ok(ShieldedDeposit { commitment, amount, leaf_index, new_root })
}

/// The nullifier record and result after marking it used: a used record
/// rejects the call, an unused one binds the value and flips the flag, and
/// the flag never reverts.
pub open spec fn spec_mark_used(nr: ShieldedNullifier, value: [u8; 32]) -> (
    ShieldedNullifier,
    Result<(), DarkPoolError>,
) {
    if nr.is_used {
        (nr, Err(DarkPoolError::NullifierAlreadyUsed))
    } else {
        (ShieldedNullifier { nullifier: value, is_used: true }, Ok(()))
    }
}

/// Marks an anonymous-spend nullifier used, binding the stored value.
pub fn mark_used(record: &mut ShieldedNullifier, value: [u8; 32]) -> (r: Result<(), DarkPoolError>)
    ensures
        (*final(record), r) == spec_mark_used(*old(record), value),
        r is Ok <==> !old(record).is_used,
        r is Err ==> *final(record) == *old(record),
        r is Ok ==> final(record).is_used && final(record).nullifier == value,
{
    if record.is_used {
        return Err(DarkPoolError::NullifierAlreadyUsed);
    }
    record.nullifier = value;
    record.is_used = true;
    Ok(())
}

/// No double spend through the anonymous path: once a nullifier record is
/// marked used, every later attempt — whatever value it claims — fails with
/// the replay error and leaves the record unchanged.
pub proof fn lemma_no_double_spend_shielded(
    nr: ShieldedNullifier,
    value: [u8; 32],
    value2: [u8; 32],
)
    ensures
        ({
            let (n1, r1) = spec_mark_used(nr, value);
            let (n2, r2) = spec_mark_used(n1, value2);
            r1 is Ok ==> {
                &&& n1.is_used
                &&& r2 == Err::<(), DarkPoolError>(DarkPoolError::NullifierAlreadyUsed)
                &&& n2 == n1
            }
        }),
{
}

/// The nullifier record and result after an anonymous spend attempt.
pub open spec fn spec_spend_shielded(
    c: ShieldedConfig,
    tree_root: Seq<u8>,
    nr: ShieldedNullifier,
    nullifier: [u8; 32],
    amount: u64,
    root: [u8; 32],
    recipient: [u8; 32],
    vault_lamports: u64,
    recipient_fresh: bool,
    rent_min: u64,
) -> (ShieldedNullifier, Result<ShieldedSpent, DarkPoolError>) {
    if !c.is_initialized {
        (nr, Err(DarkPoolError::ShieldedConfigNotInitialized))
    } else if amount == 0 {
        (nr, Err(DarkPoolError::InvalidAmount))
    } else if root@ != c.current_root@ {
        (nr, Err(DarkPoolError::ShieldedRootMismatch))
    } else if root@ != tree_root {
        (nr, Err(DarkPoolError::ShieldedStateMismatch))
    } else if recipient_fresh && amount < rent_min {
        (nr, Err(DarkPoolError::ShieldedRecipientNotRentExempt))
    } else if vault_lamports < amount {
        (nr, Err(DarkPoolError::InsufficientVaultBalance))
    } else if nr.is_used {
        (nr, Err(DarkPoolError::NullifierAlreadyUsed))
    } else {
        (
            ShieldedNullifier { nullifier, is_used: true },
            Ok(ShieldedSpent { nullifier, recipient, amount, root }),
        )
    }
}

/// Spends from the shielded vault against the current root: the claimed
/// root must match both the mirror and the tree, a freshly created
/// recipient must receive at least the rent floor, the vault must cover the
/// amount, and the nullifier must never have been used. On success the
/// record is bound and marked used and the host pays `amount` to the
/// recipient; no protocol fee is charged on this path.
pub fn process_spend_shielded(
    config: &ShieldedConfig,
    tree_root: &[u8; 32],
    nullifier_record: &mut ShieldedNullifier,
    nullifier: [u8; 32],
    amount: u64,
    root: [u8; 32],
    recipient: [u8; 32],
    vault_lamports: u64,
    recipient_fresh: bool,
    rent_min: u64,
) -> (r: Result<ShieldedSpent, DarkPoolError>)
    ensures
        (*final(nullifier_record), r) == spec_spend_shielded(
            *config,
            tree_root@,
            *old(nullifier_record),
            nullifier,
            amount,
            root,
            recipient,
            vault_lamports,
            recipient_fresh,
            rent_min,
        ),
        r is Err ==> *final(nullifier_record) == *old(nullifier_record),
        r is Ok ==> final(nullifier_record).is_used && final(nullifier_record).nullifier
            == nullifier,
{
    if !config.is_initialized {
        return Err(DarkPoolError::ShieldedConfigNotInitialized);
    }
    if amount == 0 {
        return Err(DarkPoolError::InvalidAmount);
    }
    if !key_eq(&root, &config.current_root) {
        return Err(DarkPoolError::ShieldedRootMismatch);
    }
    if !key_eq(&root, tree_root) {
        return Err(DarkPoolError::ShieldedStateMismatch);
    }
    if recipient_fresh && amount < rent_min {
        return Err(DarkPoolError::ShieldedRecipientNotRentExempt);
    }
    if vault_lamports < amount {
        return Err(DarkPoolError::InsufficientVaultBalance);
    }
    match mark_used(nullifier_record, nullifier) {
        Ok(()) => Ok(ShieldedSpent { nullifier, recipient, amount, root }),
        Err(e) => Err(e),
    }
}

/// Anonymous spend without a proof: the placeholder configuration where the
/// external verifier is not consulted.
pub fn spend_shielded(
    config: &ShieldedConfig,
    tree_root: &[u8; 32],
    nullifier_record: &mut ShieldedNullifier,
    nullifier: [u8; 32],
    amount: u64,
    root: [u8; 32],
    recipient: [u8; 32],
    vault_lamports: u64,
    recipient_fresh: bool,
    rent_min: u64,
) -> (r: Result<ShieldedSpent, DarkPoolError>)
    ensures
        (*final(nullifier_record), r) == spec_spend_shielded(
            *config,
            tree_root@,
            *old(nullifier_record),
            nullifier,
            amount,
            root,
            recipient,
            vault_lamports,
            recipient_fresh,
            rent_min,
        ),
{
    process_spend_shielded(
        config,
        tree_root,
        nullifier_record,
        nullifier,
        amount,
        root,
        recipient,
        vault_lamports,
        recipient_fresh,
        rent_min,
    )
}

/// Accepts a candidate proof before a spend. The external zero-knowledge
/// verifier is an out-of-scope collaborator; this placeholder only rejects
/// an empty proof and performs no state change. A real verifier must stand
/// here before proof-carrying spends can be trusted.
pub fn verify_shielded_proof(
    proof: &[u8],
    _nullifier: &[u8; 32],
    _amount: u64,
    _root: &[u8; 32],
) -> (r: Result<(), DarkPoolError>)
    ensures
        r is Ok <==> proof@.len() > 0,
        r is Err ==> r == Err::<(), DarkPoolError>(DarkPoolError::InvalidShieldedProof),
{
    if proof.len() == 0 {
        return Err(DarkPoolError::InvalidShieldedProof);
    }
    Ok(())
}

/// Anonymous spend gated by the proof placeholder: an empty proof fails the
/// whole call with no state change, a non-empty proof proceeds exactly as a
/// proofless spend.
pub fn spend_shielded_with_proof(
    config: &ShieldedConfig,
    tree_root: &[u8; 32],
    nullifier_record: &mut ShieldedNullifier,
    proof: &[u8],
    nullifier: [u8; 32],
    amount: u64,
    root: [u8; 32],
    recipient: [u8; 32],
    vault_lamports: u64,
    recipient_fresh: bool,
    rent_min: u64,
) -> (r: Result<ShieldedSpent, DarkPoolError>)
    ensures
        proof@.len() == 0 ==> (r == Err::<ShieldedSpent, DarkPoolError>(
            DarkPoolError::InvalidShieldedProof,
        ) && *final(nullifier_record) == *old(nullifier_record)),
        proof@.len() > 0 ==> (*final(nullifier_record), r) == spec_spend_shielded(
            *config,
            tree_root@,
            *old(nullifier_record),
            nullifier,
            amount,
            root,
            recipient,
            vault_lamports,
            recipient_fresh,
            rent_min,
        ),
{
    match verify_shielded_proof(proof, &nullifier, amount, &root) {
        Ok(()) => {},
        Err(e) => {
            return Err(e);
        },
    }
    process_spend_shielded(
        config,
        tree_root,
        nullifier_record,
        nullifier,
        amount,
        root,
        recipient,
        vault_lamports,
        recipient_fresh,
        rent_min,
    )
}

} // verus!
