//! The mesh model: vertex deduplication for indexed drawing, and the
//! vertex/index counts a model is bound and drawn with.  Vertices are
//! identified by the hash keys the loader computes for them; the float
//! attribute data itself stays with the application layer.

use vstd::prelude::*;

use std::collections::HashMap;

verus! {

broadcast use vstd::std_specs::hash::group_hash_axioms;

/// The distinct keys of `keys` in order of first occurrence.
pub open spec fn spec_uniques(keys: Seq<u64>) -> Seq<u64>
    decreases keys.len(),
{
    if keys.len() == 0 {
        Seq::empty()
    } else {
        let prefix = spec_uniques(keys.drop_last());
        if prefix.contains(keys.last()) {
            prefix
        } else {
            prefix.push(keys.last())
        }
    }
}

/// A key occurs among the distinct keys exactly when it occurs in the
/// input.
pub proof fn lemma_uniques_contains(keys: Seq<u64>, k: u64)
    ensures
        spec_uniques(keys).contains(k) <==> keys.contains(k),
    decreases keys.len(),
{
    if keys.len() > 0 {
        let dl = keys.drop_last();
        let last = keys.last();
        let uniq = spec_uniques(keys);
        lemma_uniques_contains(dl, k);
        if keys.contains(k) {
            let i = choose|i: int| 0 <= i < keys.len() && keys[i] == k;
            if i < keys.len() - 1 {
                assert(dl[i] == k);
                assert(dl.contains(k));
                let t = choose|t: int| 0 <= t < spec_uniques(dl).len() && spec_uniques(dl)[t] == k;
                assert(uniq[t] == k);
                assert(uniq.contains(k));
            } else {
                if spec_uniques(dl).contains(last) {
                    let t = choose|t: int|
                        0 <= t < spec_uniques(dl).len() && spec_uniques(dl)[t] == last;
                    assert(uniq[t] == k);
                } else {
                    assert(uniq[uniq.len() - 1] == k);
                }
                assert(uniq.contains(k));
            }
        }
        if uniq.contains(k) {
            let t = choose|t: int| 0 <= t < uniq.len() && uniq[t] == k;
            if t < spec_uniques(dl).len() {
                assert(spec_uniques(dl)[t] == k);
                assert(spec_uniques(dl).contains(k));
                let i = choose|i: int| 0 <= i < dl.len() && dl[i] == k;
                assert(keys[i] == k);
                assert(keys.contains(k));
            } else {
                assert(k == last);
                assert(keys[keys.len() - 1] == k);
                assert(keys.contains(k));
            }
        }
    }
}

/// Each distinct key is listed exactly once.
pub proof fn lemma_uniques_no_duplicates(keys: Seq<u64>)
    ensures
        spec_uniques(keys).no_duplicates(),
    decreases keys.len(),
{
    if keys.len() > 0 {
        let dl = keys.drop_last();
        let last = keys.last();
        lemma_uniques_no_duplicates(dl);
        if !spec_uniques(dl).contains(last) {
            let uniq = spec_uniques(keys);
            assert forall|i: int, j: int| 0 <= i < uniq.len() && 0 <= j < uniq.len() && i != j
                implies uniq[i] != uniq[j] by {
                if i < uniq.len() - 1 && j < uniq.len() - 1 {
                    assert(uniq[i] == spec_uniques(dl)[i]);
                    assert(uniq[j] == spec_uniques(dl)[j]);
                } else if i == uniq.len() - 1 {
                    assert(uniq[j] == spec_uniques(dl)[j]);
                    assert(spec_uniques(dl).contains(spec_uniques(dl)[j]));
                } else {
                    assert(uniq[i] == spec_uniques(dl)[i]);
                    assert(spec_uniques(dl).contains(spec_uniques(dl)[i]));
                }
            }
        }
    }
}

/// The result of deduplicating a mesh's corner keys.
pub struct VertexDedup {
    /// For each distinct key, in first-occurrence order, the position of
    /// its first occurrence in the input: the corners whose vertex data the
    /// vertex buffer keeps.
    pub kept: Vec<usize>,
    /// For each corner, the rank of its key among the kept vertices: the
    /// index buffer contents.
    pub indices: Vec<u32>,
}

/// Deduplicate a mesh's corners by their vertex keys: keep the first
/// occurrence of each key and have every corner index the kept slot of its
/// key, so the indexed draw reproduces the mesh's full corner sequence.
pub fn dedup_vertex_keys(keys: &Vec<u64>) -> (r: VertexDedup)
    requires
        keys@.len() <= 0xFFFF_FFFF,
    ensures
        r.indices@.len() == keys@.len(),
        r.kept@.len() == spec_uniques(keys@).len(),
        forall|t: int|
            0 <= t < r.kept@.len() ==> {
                &&& (#[trigger] r.kept@[t]) < keys@.len()
                &&& keys@[r.kept@[t] as int] == spec_uniques(keys@)[t]
                &&& forall|i: int| 0 <= i < r.kept@[t] ==> keys@[i] != spec_uniques(keys@)[t]
            },
        forall|j: int|
            0 <= j < keys@.len() ==> {
                &&& (#[trigger] r.indices@[j]) < r.kept@.len()
                &&& spec_uniques(keys@)[r.indices@[j] as int] == keys@[j]
            },
{
    let n: usize = keys.len();
    let mut seen: HashMap<u64, u32> = HashMap::new();
    let mut kept: Vec<usize> = Vec::new();
    let mut indices: Vec<u32> = Vec::new();
    let mut unique_ind: u32 = 0;
    let mut j: usize = 0;
    proof {
        assert(keys@.take(0) =~= Seq::<u64>::empty());
    }
    while j < n
        invariant
            n == keys@.len(),
            n <= 0xFFFF_FFFF,
            0 <= j <= n,
            indices@.len() == j,
            unique_ind as int == kept@.len(),
            kept@.len() == spec_uniques(keys@.take(j as int)).len(),
            kept@.len() <= j,
            forall|i: int| 0 <= i < j ==> seen@.contains_key(#[trigger] keys@[i]),
            forall|k: u64| #[trigger]
                seen@.contains_key(k) ==> {
                    &&& seen@[k] < kept@.len()
                    &&& spec_uniques(keys@.take(j as int))[seen@[k] as int] == k
                },
            forall|t: int|
                0 <= t < kept@.len() ==> {
                    &&& (#[trigger] kept@[t]) < j
                    &&& keys@[kept@[t] as int] == spec_uniques(keys@.take(j as int))[t]
                    &&& forall|i: int|
                        0 <= i < kept@[t] ==> keys@[i] != spec_uniques(keys@.take(j as int))[t]
                },
            forall|jj: int|
                0 <= jj < j ==> {
                    &&& (#[trigger] indices@[jj]) < kept@.len()
                    &&& spec_uniques(keys@.take(j as int))[indices@[jj] as int] == keys@[jj]
                },
        decreases n - j,
    {
        let key = keys[j];
        let ghost pre = keys@.take(j as int);
        let ghost post = keys@.take(j + 1);
        proof {
            assert(post.drop_last() =~= pre);
            assert(post.last() == keys@[j as int]);
            lemma_uniques_contains(pre, key);
        }
        let got = seen.get(&key);
        match got {
            Some(ix_ref) => {
                let ix: u32 = *ix_ref;
                proof {
                    assert(seen@.contains_key(key) && seen@[key] == ix);
                    assert(spec_uniques(pre)[ix as int] == key);
                    assert(spec_uniques(pre).contains(key));
                    assert(spec_uniques(post) == spec_uniques(pre));
                }
                indices.push(ix);
            },
            None => {
                proof {
                    assert(!seen@.contains_key(key));
                    assert forall|i: int| 0 <= i < j implies keys@[i] != key by {
                        if keys@[i] == key {
                            assert(seen@.contains_key(keys@[i]));
                        }
                    }
                    if spec_uniques(pre).contains(key) {
                        assert(pre.contains(key));
                        let i = choose|i: int| 0 <= i < pre.len() && pre[i] == key;
                        assert(keys@[i] == key);
                    }
                    assert(!spec_uniques(pre).contains(key));
                    assert(spec_uniques(post) == spec_uniques(pre).push(key));
                }
                seen.insert(key, unique_ind);
                kept.push(j);
                indices.push(unique_ind);
                unique_ind = unique_ind + 1;
            },
        }
        j = j + 1;
    }
    proof {
        assert(keys@.take(n as int) =~= keys@);
    }
    VertexDedup { kept, indices }
}

/// What one draw of a model records into the command buffer.
#[derive(Clone, Copy, Debug, PartialEq, Eq, Structural)]
pub enum DrawCall {
    /// Draw through the index buffer.
    Indexed { index_count: u32 },
    /// Draw the vertex buffer directly.
    Direct { vertex_count: u32 },
}

/// The model's verified state: the counts its buffers were created with.
/// The vertex and index buffers themselves are owned by the application
/// layer.
pub struct LveModel {
    pub vertex_count: u32,
    pub index_count: u32,
    pub has_index_buffer: bool,
    pub name: String,
}

impl LveModel {
    /// A model over `vertex_count` vertices and, when present, an index
    /// buffer of `index_count` indices.  Geometry with fewer than three
    /// vertices is degenerate and fails construction, so the precondition
    /// rules it out.
    pub fn new(vertex_count: u32, index_count: Option<u32>, name: String) -> (r: LveModel)
        requires
            vertex_count >= 3,
        ensures
            r.vertex_count == vertex_count,
            r.has_index_buffer == index_count is Some,
            index_count matches Some(c) ==> r.index_count == c,
            index_count is None ==> r.index_count == 0,
            r.name == name,
    {
        match index_count {
            Some(c) => LveModel { vertex_count, index_count: c, has_index_buffer: true, name },
            None => LveModel { vertex_count, index_count: 0, has_index_buffer: false, name },
        }
    }

    /// A placeholder model with no geometry; it binds nothing and draws
    /// nothing.
    pub fn new_null(name: String) -> (r: LveModel)
        ensures
            r.vertex_count == 0,
            r.index_count == 0,
            !r.has_index_buffer,
            r.name == name,
    {
        LveModel { vertex_count: 0, index_count: 0, has_index_buffer: false, name }
    }

    /// How to draw the model: through the index buffer when it has one,
    /// directly over the vertices otherwise.
    pub fn draw(&self) -> (r: DrawCall)
        ensures
            self.has_index_buffer ==> r == (DrawCall::Indexed { index_count: self.index_count }),
            !self.has_index_buffer ==> r == (DrawCall::Direct { vertex_count: self.vertex_count }),
    {
        if self.has_index_buffer {
            DrawCall::Indexed { index_count: self.index_count }
        } else {
            DrawCall::Direct { vertex_count: self.vertex_count }
        }
    }
}

} // verus!
