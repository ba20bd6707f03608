use vstd::prelude::*;
use vstd::arithmetic::power2::pow2;
use vstd::arithmetic::power2::lemma_pow2_strictly_increases;
use vstd::arithmetic::power2::lemma_pow2_unfold;
use vstd::arithmetic::power2::lemma2_to64;
use crate::errors::DarkPoolError;
use crate::hashing::hash_pair;
use crate::hashing::hash_pair_of;

verus! {

/// Depth is fixed at initialization and bounded so that the leaf counter
/// always fits comfortably in a `u32`.
pub const SHIELDED_TREE_MAX_DEPTH: u8 = 20;

/// Mathematical model of the commitment tree: the per-level filled-subtree
/// hashes, the precomputed empty-subtree hashes, the current root, and how
/// many leaves have been appended.
pub ghost struct TreeModel {
    pub depth: nat,
    pub filled_subtrees: Seq<Seq<u8>>,
    pub zeroes: Seq<Seq<u8>>,
    pub root: Seq<u8>,
    pub next_leaf_index: nat,
}

impl TreeModel {
    pub open spec fn capacity(self) -> nat {
        pow2(self.depth)
    }

    pub open spec fn is_full(self) -> bool {
        self.next_leaf_index >= self.capacity()
    }

    pub open spec fn wf(self) -> bool {
        &&& 1 <= self.depth <= SHIELDED_TREE_MAX_DEPTH
        &&& self.filled_subtrees.len() == 20
        &&& self.zeroes.len() == 20
        &&& self.next_leaf_index <= self.capacity()
    }
}

/// The byte views of a sequence of 32-byte words.
pub open spec fn word_views(s: Seq<[u8; 32]>) -> Seq<Seq<u8>> {
    Seq::new(s.len(), |i: int| s[i]@)
}

/// Append-only fixed-depth binary hash tree, maintained with the
/// filled-subtree trick: O(depth) storage and O(depth) hashing per insertion.
pub struct ShieldedMerkleTree {
    pub depth: u8,
    pub filled_subtrees: Vec<[u8; 32]>,
    pub zeroes: Vec<[u8; 32]>,
    pub root: [u8; 32],
    pub next_leaf_index: u32,
}

impl View for ShieldedMerkleTree {
    type V = TreeModel;

    open spec fn view(&self) -> TreeModel {
        TreeModel {
            depth: self.depth as nat,
            filled_subtrees: word_views(self.filled_subtrees@),
            zeroes: word_views(self.zeroes@),
            root: self.root@,
            next_leaf_index: self.next_leaf_index as nat,
        }
    }
}

impl ShieldedMerkleTree {
    pub open spec fn wf(self) -> bool {
        self@.wf()
    }
}

/// One walk from a fresh leaf up to the root: at each level an even index
/// pairs the running hash with the empty-subtree hash and records it as the
/// level's filled subtree; an odd index pairs the recorded filled subtree
/// with the running hash.
pub open spec fn spec_insert_levels(
    subtrees: Seq<Seq<u8>>,
    zeroes: Seq<Seq<u8>>,
    index: nat,
    current: Seq<u8>,
    level: nat,
    depth: nat,
) -> (Seq<Seq<u8>>, Seq<u8>)
    decreases depth - level,
{
    if level >= depth {
        (subtrees, current)
    } else if index % 2 == 0 {
        spec_insert_levels(
            subtrees.update(level as int, current),
            zeroes,
            index / 2,
            hash_pair_of(current, zeroes[level as int]),
            (level + 1) as nat,
            depth,
        )
    } else {
        spec_insert_levels(
            subtrees,
            zeroes,
            index / 2,
            hash_pair_of(subtrees[level as int], current),
            (level + 1) as nat,
            depth,
        )
    }
}

/// The tree after one insertion: a full tree is left unchanged (the
/// executable insertion reports the failure), otherwise the filled subtrees
/// and root are rewritten by the walk and the leaf counter advances.
pub open spec fn tree_insert(m: TreeModel, commitment: Seq<u8>) -> TreeModel {
    if m.is_full() {
        m
    } else {
        let r = spec_insert_levels(
            m.filled_subtrees,
            m.zeroes,
            m.next_leaf_index,
            commitment,
            0,
            m.depth,
        );
        TreeModel {
            depth: m.depth,
            filled_subtrees: r.0,
            zeroes: m.zeroes,
            root: r.1,
            next_leaf_index: (m.next_leaf_index + 1) as nat,
        }
    }
}

/// The tree after inserting a whole sequence of commitments in order.
pub open spec fn tree_insert_all(m: TreeModel, cs: Seq<Seq<u8>>) -> TreeModel
    decreases cs.len(),
{
    if cs.len() == 0 {
        m
    } else {
        tree_insert_all(tree_insert(m, cs[0]), cs.drop_first())
    }
}

/// Append-only soundness: inserting `k` commitments into a tree with room
/// for them advances the leaf counter by exactly `k` and touches neither the
/// depth nor the empty-subtree table. The root after the run is
/// `tree_insert_all(m, cs).root`, a function of the starting state and the
/// commitment sequence alone, so recomputing from scratch over the same
/// sequence always reproduces it.
pub proof fn lemma_accumulator_append_only(m: TreeModel, cs: Seq<Seq<u8>>)
    requires
        m.wf(),
        m.next_leaf_index + cs.len() <= m.capacity(),
    ensures
        tree_insert_all(m, cs).next_leaf_index == m.next_leaf_index + cs.len(),
        tree_insert_all(m, cs).depth == m.depth,
        tree_insert_all(m, cs).zeroes == m.zeroes,
        tree_insert_all(m, cs).wf(),
    decreases cs.len(),
{
    if cs.len() > 0 {
        let m1 = tree_insert(m, cs[0]);
        assert(!m.is_full());
        lemma_insert_preserves_shape(m, cs[0]);
        lemma_accumulator_append_only(m1, cs.drop_first());
    }
}

/// Capacity boundary: an insertion into a full tree changes nothing, and an
/// insertion into a tree with room advances the leaf counter by one.
pub proof fn lemma_tree_capacity(m: TreeModel, commitment: Seq<u8>)
    requires
        m.wf(),
    ensures
        m.is_full() ==> tree_insert(m, commitment) == m,
        !m.is_full() ==> tree_insert(m, commitment).next_leaf_index == m.next_leaf_index + 1,
{
}

/// The walk leaves the subtree table's length alone.
proof fn lemma_insert_levels_len(
    subtrees: Seq<Seq<u8>>,
    zeroes: Seq<Seq<u8>>,
    index: nat,
    current: Seq<u8>,
    level: nat,
    depth: nat,
)
    requires
        depth <= subtrees.len(),
    ensures
        spec_insert_levels(subtrees, zeroes, index, current, level, depth).0.len()
            == subtrees.len(),
    decreases depth - level,
{
    if level < depth {
        if index % 2 == 0 {
            lemma_insert_levels_len(
                subtrees.update(level as int, current),
                zeroes,
                index / 2,
                hash_pair_of(current, zeroes[level as int]),
                (level + 1) as nat,
                depth,
            );
        } else {
            lemma_insert_levels_len(
                subtrees,
                zeroes,
                index / 2,
                hash_pair_of(subtrees[level as int], current),
                (level + 1) as nat,
                depth,
            );
        }
    }
}

proof fn lemma_insert_preserves_shape(m: TreeModel, commitment: Seq<u8>)
    requires
        m.wf(),
        !m.is_full(),
    ensures
        tree_insert(m, commitment).wf(),
        tree_insert(m, commitment).next_leaf_index == m.next_leaf_index + 1,
        tree_insert(m, commitment).depth == m.depth,
        tree_insert(m, commitment).zeroes == m.zeroes,
{
    lemma_insert_levels_len(
        m.filled_subtrees,
        m.zeroes,
        m.next_leaf_index,
        commitment,
        0,
        m.depth,
    );
}

/// The state of a freshly initialized tree of the given depth: both the
/// filled-subtree table and the empty-subtree table hold the canonical
/// zero-hash table, the root is the top level's empty hash, and no leaf has
/// been appended.
pub open spec fn fresh_tree_model(depth: nat) -> TreeModel {
    TreeModel {
        depth,
        filled_subtrees: zero_hash_table(),
        zeroes: zero_hash_table(),
        root: zero_hash_table()[depth - 1],
        next_leaf_index: 0,
    }
}

/// From-scratch determinism, the recomputation half of append-only
/// soundness: a fresh tree of a given depth is one fixed state, and
/// insertion is a pure function of the state and the commitment, so two
/// trees each built by inserting the same commitment sequence in order into
/// a fresh tree of the same depth agree exactly — same root, same filled
/// subtrees, same leaf counter.
pub proof fn lemma_from_scratch_determinism(
    depth: nat,
    cs: Seq<Seq<u8>>,
    t1: TreeModel,
    t2: TreeModel,
)
    requires
        t1 == tree_insert_all(fresh_tree_model(depth), cs),
        t2 == tree_insert_all(fresh_tree_model(depth), cs),
    ensures
        t1 == t2,
        t1.root == t2.root,
        t1.filled_subtrees == t2.filled_subtrees,
        t1.next_leaf_index == t2.next_leaf_index,
{
}

/// Leaf capacity of a tree of the given depth; depths outside `[1, 20]` are
/// rejected.
pub fn max_leaves_for_depth(depth: u8) -> (r: Result<u32, DarkPoolError>)
    ensures
        1 <= depth <= SHIELDED_TREE_MAX_DEPTH ==> (r matches Ok(m) && m == pow2(depth as nat)),
        !(1 <= depth <= SHIELDED_TREE_MAX_DEPTH) ==> r == Err::<u32, DarkPoolError>(
            DarkPoolError::InvalidTreeDepth,
        ),
{
    if depth == 0 || depth > SHIELDED_TREE_MAX_DEPTH {
        return Err(DarkPoolError::InvalidTreeDepth);
    }
    proof {
        lemma2_to64();
    }
    let mut m: u32 = 1;
    let mut i: u8 = 0;
    while i < depth
        invariant
            i <= depth <= 20,
            m == pow2(i as nat),
            pow2(20) == 0x10_0000,
        decreases depth - i,
    {
        proof {
            lemma_pow2_unfold((i + 1) as nat);
            if i + 1 < 20 {
                lemma_pow2_strictly_increases((i + 1) as nat, 20);
            }
        }
        m = m * 2;
        i = i + 1;
    }
    Ok(m)
}

/// Updating one word of a table and then taking byte views is the same as
/// updating the table of byte views.
proof fn lemma_word_views_update(s: Seq<[u8; 32]>, i: int, v: [u8; 32])
    requires
        0 <= i < s.len(),
    ensures
        word_views(s.update(i, v)) == word_views(s).update(i, v@),
{
    assert(word_views(s.update(i, v)) =~= word_views(s).update(i, v@));
}

/// Inserts a commitment as the next leaf and recomputes the root, updating
/// one filled subtree per level. Exactly the capacity check can fail; a full
/// tree is reported as such and left untouched. On success the new state is
/// `tree_insert` of the old state and the result carries the consumed leaf
/// index and the new root.
pub fn merkle_insert(tree: &mut ShieldedMerkleTree, commitment: [u8; 32]) -> (r: Result<
    (u32, [u8; 32]),
    DarkPoolError,
>)
    requires
        old(tree).wf(),
    ensures
        final(tree).wf(),
        !old(tree)@.is_full() ==> (r matches Ok(p) && final(tree)@ == tree_insert(
            old(tree)@,
            commitment@,
        ) && p.0 == old(tree).next_leaf_index && p.1 == final(tree).root && p.1@ == tree_insert(
            old(tree)@,
            commitment@,
        ).root),
        old(tree)@.is_full() ==> (r == Err::<(u32, [u8; 32]), DarkPoolError>(
            DarkPoolError::ShieldedTreeFull,
        ) && *final(tree) == *old(tree)),
{
    let ghost orig: TreeModel = tree@;
    let depth_u8 = tree.depth;
    if depth_u8 == 0 || depth_u8 > SHIELDED_TREE_MAX_DEPTH {
        return Err(DarkPoolError::InvalidTreeDepth);
    }
    let max_leaves = match max_leaves_for_depth(depth_u8) {
        Ok(m) => m,
        Err(e) => {
            return Err(e);
        },
    };
    if tree.next_leaf_index >= max_leaves {
        return Err(DarkPoolError::ShieldedTreeFull);
    }

    let leaf_index = tree.next_leaf_index;
    let mut index = leaf_index;
    let mut current = commitment;
    let mut level: usize = 0;
    let depth = depth_u8 as usize;
    while level < depth
        invariant
            0 <= level <= depth,
            depth == orig.depth,
            depth <= 20,
            tree.depth == depth_u8,
            depth == depth_u8 as int,
            tree.filled_subtrees@.len() == 20,
            tree.zeroes@.len() == 20,
            word_views(tree.zeroes@) == orig.zeroes,
            tree.root@ == orig.root,
            tree.next_leaf_index as nat == orig.next_leaf_index,
            spec_insert_levels(
                word_views(tree.filled_subtrees@),
                orig.zeroes,
                index as nat,
                current@,
                level as nat,
                depth as nat,
            ) == spec_insert_levels(
                orig.filled_subtrees,
                orig.zeroes,
                orig.next_leaf_index,
                commitment@,
                0,
                depth as nat,
            ),
        decreases depth - level,
    {
        let ghost subs_before = tree.filled_subtrees@;
        let ghost current_before = current;
        if index % 2 == 0 {
            let z = tree.zeroes[level];
            tree.filled_subtrees[level] = current;
            current = hash_pair(&current, &z);
            proof {
                lemma_word_views_update(subs_before, level as int, current_before);
                assert(z@ == orig.zeroes[level as int]);
            }
        } else {
            let left = tree.filled_subtrees[level];
            current = hash_pair(&left, &current);
            proof {
                assert(left@ == word_views(subs_before)[level as int]);
            }
        }
        index = index / 2;
        level = level + 1;
    }
    tree.root = current;
    proof {
        lemma2_to64();
        if (depth_u8 as nat) < 20 {
            lemma_pow2_strictly_increases(depth_u8 as nat, 20);
        }
    }
    tree.next_leaf_index = leaf_index + 1;
    proof {
        lemma_insert_levels_len(
            orig.filled_subtrees,
            orig.zeroes,
            orig.next_leaf_index,
            commitment@,
            0,
            depth as nat,
        );
        assert(tree@.filled_subtrees =~= tree_insert(orig, commitment@).filled_subtrees);
        assert(tree@ == tree_insert(orig, commitment@));
    }
    Ok((leaf_index, current))
}

/// The canonical empty-subtree hash of each level, as specification data:
/// the exact bytes the executable table holds.
pub open spec fn zero_hash_row(level: int) -> Seq<u8> {
    if level == 0 {
        seq![32u8, 152, 245, 251, 158, 35, 158, 171, 60, 234, 195, 242, 123, 129, 228, 129, 220, 49, 36, 213, 95, 254, 213, 35, 168, 57, 238, 132, 70, 182, 72, 100]
    } else if level == 1 {
        seq![13u8, 42, 45, 22, 205, 89, 26, 187, 101, 40, 94, 17, 180, 106, 87, 213, 202, 232, 251, 75, 0, 101, 203, 59, 250, 170, 20, 26, 206, 64, 19, 104]
    } else if level == 2 {
        seq![7u8, 230, 128, 188, 164, 144, 187, 159, 30, 157, 9, 226, 43, 39, 19, 170, 154, 248, 17, 191, 202, 193, 138, 63, 48, 122, 4, 77, 41, 195, 73, 86]
    } else if level == 3 {
        seq![26u8, 96, 199, 12, 249, 100, 63, 169, 166, 232, 102, 231, 38, 216, 134, 135, 103, 167, 75, 119, 158, 170, 117, 171, 53, 100, 112, 132, 68, 137, 93, 10]
    } else if level == 4 {
        seq![35u8, 128, 16, 171, 32, 169, 232, 4, 174, 118, 77, 61, 79, 40, 79, 47, 232, 125, 196, 86, 9, 223, 129, 106, 190, 21, 102, 92, 138, 89, 109, 233]
    } else if level == 5 {
        seq![44u8, 72, 21, 148, 130, 187, 172, 227, 120, 26, 173, 2, 24, 18, 27, 237, 220, 21, 100, 198, 176, 251, 252, 223, 68, 146, 25, 246, 109, 234, 204, 22]
    } else if level == 6 {
        seq![20u8, 144, 239, 87, 158, 76, 47, 31, 235, 191, 118, 86, 98, 194, 98, 101, 10, 202, 52, 139, 195, 56, 66, 130, 156, 127, 239, 116, 41, 115, 4, 189]
    } else if level == 7 {
        seq![2u8, 174, 165, 120, 72, 121, 181, 87, 218, 135, 152, 109, 57, 0, 63, 93, 211, 113, 234, 126, 198, 48, 133, 186, 54, 134, 94, 179, 44, 231, 11, 56]
    } else if level == 8 {
        seq![38u8, 18, 236, 132, 199, 68, 152, 120, 180, 11, 100, 4, 241, 50, 151, 132, 43, 135, 13, 84, 177, 130, 87, 84, 144, 158, 43, 149, 189, 17, 233, 175]
    } else if level == 9 {
        seq![46u8, 58, 251, 29, 26, 113, 8, 171, 63, 66, 175, 162, 246, 61, 231, 230, 50, 223, 180, 29, 62, 7, 117, 89, 60, 168, 141, 34, 218, 205, 155, 223]
    } else if level == 10 {
        seq![47u8, 54, 75, 84, 109, 9, 110, 26, 213, 154, 151, 53, 145, 253, 60, 45, 29, 1, 232, 241, 88, 213, 111, 132, 231, 187, 240, 130, 79, 123, 234, 179]
    } else if level == 11 {
        seq![41u8, 119, 29, 68, 205, 189, 160, 125, 44, 75, 37, 73, 50, 181, 75, 211, 177, 42, 255, 129, 196, 248, 161, 128, 128, 129, 22, 149, 142, 214, 241, 1]
    } else if level == 12 {
        seq![15u8, 119, 124, 198, 191, 232, 68, 85, 38, 197, 122, 249, 255, 61, 22, 97, 82, 86, 92, 107, 244, 172, 132, 67, 235, 107, 184, 101, 202, 223, 144, 161]
    } else if level == 13 {
        seq![8u8, 119, 83, 29, 39, 42, 224, 20, 107, 126, 103, 193, 129, 172, 179, 148, 81, 215, 227, 188, 113, 129, 71, 144, 21, 160, 87, 72, 117, 194, 239, 100]
    } else if level == 14 {
        seq![46u8, 126, 88, 247, 224, 107, 203, 217, 98, 29, 24, 121, 215, 136, 205, 193, 27, 234, 0, 183, 154, 188, 177, 123, 58, 165, 93, 168, 14, 98, 38, 98]
    } else if level == 15 {
        seq![30u8, 252, 182, 206, 135, 120, 223, 214, 244, 240, 57, 171, 6, 140, 6, 28, 19, 31, 20, 59, 233, 55, 36, 12, 43, 156, 143, 95, 148, 220, 239, 70]
    } else if level == 16 {
        seq![40u8, 141, 85, 76, 44, 168, 81, 79, 81, 244, 221, 60, 70, 60, 133, 160, 173, 195, 241, 213, 156, 166, 238, 248, 183, 244, 164, 124, 224, 119, 173, 20]
    } else if level == 17 {
        seq![16u8, 93, 55, 210, 6, 102, 160, 34, 253, 254, 183, 194, 234, 214, 181, 67, 62, 229, 205, 54, 73, 252, 78, 188, 166, 230, 101, 201, 65, 188, 153, 112]
    } else if level == 18 {
        seq![10u8, 84, 243, 220, 193, 107, 4, 107, 122, 89, 109, 162, 19, 197, 87, 82, 26, 179, 104, 252, 46, 229, 18, 50, 202, 47, 180, 86, 159, 137, 10, 20]
    } else {
        seq![31u8, 119, 64, 186, 175, 91, 166, 84, 77, 246, 87, 254, 66, 194, 157, 80, 60, 132, 108, 213, 146, 155, 176, 133, 163, 81, 163, 241, 180, 153, 121, 235]
    }
}

/// The whole twenty-level table of empty-subtree hashes.
pub open spec fn zero_hash_table() -> Seq<Seq<u8>> {
    Seq::new(20, |i: int| zero_hash_row(i))
}

/// The precomputed empty-subtree hash for each of the twenty levels, level 0
/// first: exactly the table `zero_hash_table` spells out.
pub fn shielded_zero_hashes() -> (z: Vec<[u8; 32]>)
    ensures
        z@.len() == 20,
        word_views(z@) == zero_hash_table(),
{
    let mut z: Vec<[u8; 32]> = Vec::new();
    z.push([32, 152, 245, 251, 158, 35, 158, 171, 60, 234, 195, 242, 123, 129, 228, 129, 220, 49, 36, 213, 95, 254, 213, 35, 168, 57, 238, 132, 70, 182, 72, 100]);
    z.push([13, 42, 45, 22, 205, 89, 26, 187, 101, 40, 94, 17, 180, 106, 87, 213, 202, 232, 251, 75, 0, 101, 203, 59, 250, 170, 20, 26, 206, 64, 19, 104]);
    z.push([7, 230, 128, 188, 164, 144, 187, 159, 30, 157, 9, 226, 43, 39, 19, 170, 154, 248, 17, 191, 202, 193, 138, 63, 48, 122, 4, 77, 41, 195, 73, 86]);
    z.push([26, 96, 199, 12, 249, 100, 63, 169, 166, 232, 102, 231, 38, 216, 134, 135, 103, 167, 75, 119, 158, 170, 117, 171, 53, 100, 112, 132, 68, 137, 93, 10]);
    z.push([35, 128, 16, 171, 32, 169, 232, 4, 174, 118, 77, 61, 79, 40, 79, 47, 232, 125, 196, 86, 9, 223, 129, 106, 190, 21, 102, 92, 138, 89, 109, 233]);
    z.push([44, 72, 21, 148, 130, 187, 172, 227, 120, 26, 173, 2, 24, 18, 27, 237, 220, 21, 100, 198, 176, 251, 252, 223, 68, 146, 25, 246, 109, 234, 204, 22]);
    z.push([20, 144, 239, 87, 158, 76, 47, 31, 235, 191, 118, 86, 98, 194, 98, 101, 10, 202, 52, 139, 195, 56, 66, 130, 156, 127, 239, 116, 41, 115, 4, 189]);
    z.push([2, 174, 165, 120, 72, 121, 181, 87, 218, 135, 152, 109, 57, 0, 63, 93, 211, 113, 234, 126, 198, 48, 133, 186, 54, 134, 94, 179, 44, 231, 11, 56]);
    z.push([38, 18, 236, 132, 199, 68, 152, 120, 180, 11, 100, 4, 241, 50, 151, 132, 43, 135, 13, 84, 177, 130, 87, 84, 144, 158, 43, 149, 189, 17, 233, 175]);
    z.push([46, 58, 251, 29, 26, 113, 8, 171, 63, 66, 175, 162, 246, 61, 231, 230, 50, 223, 180, 29, 62, 7, 117, 89, 60, 168, 141, 34, 218, 205, 155, 223]);
    z.push([47, 54, 75, 84, 109, 9, 110, 26, 213, 154, 151, 53, 145, 253, 60, 45, 29, 1, 232, 241, 88, 213, 111, 132, 231, 187, 240, 130, 79, 123, 234, 179]);
    z.push([41, 119, 29, 68, 205, 189, 160, 125, 44, 75, 37, 73, 50, 181, 75, 211, 177, 42, 255, 129, 196, 248, 161, 128, 128, 129, 22, 149, 142, 214, 241, 1]);
    z.push([15, 119, 124, 198, 191, 232, 68, 85, 38, 197, 122, 249, 255, 61, 22, 97, 82, 86, 92, 107, 244, 172, 132, 67, 235, 107, 184, 101, 202, 223, 144, 161]);
    z.push([8, 119, 83, 29, 39, 42, 224, 20, 107, 126, 103, 193, 129, 172, 179, 148, 81, 215, 227, 188, 113, 129, 71, 144, 21, 160, 87, 72, 117, 194, 239, 100]);
    z.push([46, 126, 88, 247, 224, 107, 203, 217, 98, 29, 24, 121, 215, 136, 205, 193, 27, 234, 0, 183, 154, 188, 177, 123, 58, 165, 93, 168, 14, 98, 38, 98]);
    z.push([30, 252, 182, 206, 135, 120, 223, 214, 244, 240, 57, 171, 6, 140, 6, 28, 19, 31, 20, 59, 233, 55, 36, 12, 43, 156, 143, 95, 148, 220, 239, 70]);
    z.push([40, 141, 85, 76, 44, 168, 81, 79, 81, 244, 221, 60, 70, 60, 133, 160, 173, 195, 241, 213, 156, 166, 238, 248, 183, 244, 164, 124, 224, 119, 173, 20]);
    z.push([16, 93, 55, 210, 6, 102, 160, 34, 253, 254, 183, 194, 234, 214, 181, 67, 62, 229, 205, 54, 73, 252, 78, 188, 166, 230, 101, 201, 65, 188, 153, 112]);
    z.push([10, 84, 243, 220, 193, 107, 4, 107, 122, 89, 109, 162, 19, 197, 87, 82, 26, 179, 104, 252, 46, 229, 18, 50, 202, 47, 180, 86, 159, 137, 10, 20]);
    z.push([31, 119, 64, 186, 175, 91, 166, 84, 77, 246, 87, 254, 66, 194, 157, 80, 60, 132, 108, 213, 146, 155, 176, 133, 163, 81, 163, 241, 180, 153, 121, 235]);
    proof {
        assert(z@[0]@ =~= zero_hash_row(0));
        assert(z@[1]@ =~= zero_hash_row(1));
        assert(z@[2]@ =~= zero_hash_row(2));
        assert(z@[3]@ =~= zero_hash_row(3));
        assert(z@[4]@ =~= zero_hash_row(4));
        assert(z@[5]@ =~= zero_hash_row(5));
        assert(z@[6]@ =~= zero_hash_row(6));
        assert(z@[7]@ =~= zero_hash_row(7));
        assert(z@[8]@ =~= zero_hash_row(8));
        assert(z@[9]@ =~= zero_hash_row(9));
        assert(z@[10]@ =~= zero_hash_row(10));
        assert(z@[11]@ =~= zero_hash_row(11));
        assert(z@[12]@ =~= zero_hash_row(12));
        assert(z@[13]@ =~= zero_hash_row(13));
        assert(z@[14]@ =~= zero_hash_row(14));
        assert(z@[15]@ =~= zero_hash_row(15));
        assert(z@[16]@ =~= zero_hash_row(16));
        assert(z@[17]@ =~= zero_hash_row(17));
        assert(z@[18]@ =~= zero_hash_row(18));
        assert(z@[19]@ =~= zero_hash_row(19));
        assert(word_views(z@) =~= zero_hash_table());
    }
    z
}

} // verus!
