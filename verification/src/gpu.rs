//! Handles and CPU-side data exchanged with the graphics backends.

use vstd::prelude::*;
use crate::text::str_equals;

verus! {

/// A mesh uploaded to the GPU (opaque handle of the backend).
#[derive(Debug, Clone, Copy)]
pub struct GpuMesh {
    pub vertex_count: u32,
    pub index_count: u32,
    pub gpu_id: u64,
    /// Albedo texture embedded in the model, when there is one.
    pub albedo_tex: Option<u64>,
}

/// A texture uploaded to the GPU.
#[derive(Debug, Clone, Copy)]
pub struct GpuTexture {
    pub gpu_id: u64,
    pub width: u32,
    pub height: u32,
}

/// RGBA8 texture data on the CPU, ready to upload.
#[derive(Debug, Clone)]
pub struct TextureData {
    pub width: u32,
    pub height: u32,
    pub pixels: Vec<u8>,
}

/// Uploaded meshes by key (shape and colour).
pub struct MeshCache {
    meshes: Vec<(String, GpuMesh)>,
}

/// The mesh stored under `key` among `entries`, if any.
pub open spec fn lookup(entries: Seq<(Seq<char>, GpuMesh)>, key: Seq<char>) -> Option<GpuMesh> {
    if exists|i: int| 0 <= i < entries.len() && entries[i].0 == key {
        let i = choose|i: int| 0 <= i < entries.len() && entries[i].0 == key;
        Some(entries[i].1)
    } else {
        None
    }
}

/// No key occurs twice.
pub open spec fn distinct_keys(entries: Seq<(Seq<char>, GpuMesh)>) -> bool {
    forall|i: int, j: int| 0 <= i < j < entries.len() ==> entries[i].0 != entries[j].0
}

impl View for MeshCache {
    type V = Seq<(Seq<char>, GpuMesh)>;

    closed spec fn view(&self) -> Seq<(Seq<char>, GpuMesh)> {
        mesh_entries(self.meshes@)
    }
}

/// Stored entries as values.
pub open spec fn mesh_entries(v: Seq<(String, GpuMesh)>) -> Seq<(Seq<char>, GpuMesh)> {
    v.map_values(|e: (String, GpuMesh)| (e.0@, e.1))
}

fn find_key(meshes: &Vec<(String, GpuMesh)>, key: &str) -> (r: Option<usize>)
    ensures
        match r {
            Some(i) => i < meshes@.len() && mesh_entries(meshes@)[i as int].0 == key@,
            None => forall|i: int| 0 <= i < meshes@.len() ==> mesh_entries(meshes@)[i].0 != key@,
        },
{
    let mut i: usize = 0;
    while i < meshes.len()
        invariant
            i <= meshes@.len(),
            forall|j: int| 0 <= j < i ==> mesh_entries(meshes@)[j].0 != key@,
        decreases meshes.len() - i,
    {
        if str_equals(meshes[i].0.as_str(), key) {
            return Some(i);
        }
        i = i + 1;
    }
    None
}

/// With distinct keys, an entry found at `i` is what `lookup` gives.
pub proof fn lemma_lookup_at(entries: Seq<(Seq<char>, GpuMesh)>, i: int)
    requires
        distinct_keys(entries),
        0 <= i < entries.len(),
    ensures
        lookup(entries, entries[i].0) == Some(entries[i].1),
{
    let k = choose|k: int| 0 <= k < entries.len() && entries[k].0 == entries[i].0;
    assert(k == i);
}

impl MeshCache {
    /// No key is stored twice.
    #[verifier::type_invariant]
    spec fn wf(&self) -> bool {
        distinct_keys(self@)
    }

    /// An empty cache.
    pub fn new() -> (c: Self)
        ensures
            c@ == Seq::<(Seq<char>, GpuMesh)>::empty(),
    {
        let c = MeshCache { meshes: Vec::new() };
        assert(c@ =~= Seq::<(Seq<char>, GpuMesh)>::empty());
        c
    }

    /// Whether a mesh is stored under `key`.
    pub fn contains_key(&self, key: &str) -> (b: bool)
        ensures
            b == (lookup(self@, key@) is Some),
    {
        match find_key(&self.meshes, key) {
            Some(i) => {
                assert(self@[i as int].0 == key@);
                true
            },
            None => false,
        }
    }

    /// The mesh stored under `key`.
    pub fn get(&self, key: &str) -> (m: Option<&GpuMesh>)
        ensures
            match m {
                Some(mesh) => lookup(self@, key@) == Some(*mesh),
                None => lookup(self@, key@) is None,
            },
    {
        match find_key(&self.meshes, key) {
            Some(i) => {
                proof {
                    use_type_invariant(self);
                    lemma_lookup_at(self@, i as int);
                }
                Some(&self.meshes[i].1)
            },
            None => None,
        }
    }

    /// Stores `mesh` under `key`, replacing what was there.
    pub fn insert(&mut self, key: String, mesh: GpuMesh)
        ensures
            lookup(final(self)@, key@) == Some(mesh),
            forall|k: Seq<char>| k != key@ ==> lookup(final(self)@, k) == lookup(old(self)@, k),
    {
        proof {
            use_type_invariant(&*self);
        }
        let ghost before = self@;
        let ghost kv = key@;
        let mut meshes: Vec<(String, GpuMesh)> = Vec::new();
        std::mem::swap(&mut meshes, &mut self.meshes);
        match find_key(&meshes, key.as_str()) {
            Some(i) => {
                meshes.set(i, (key, mesh));
                assert(mesh_entries(meshes@) =~= before.update(i as int, (kv, mesh)));
                proof {
                    lemma_lookup_other_keys(before, mesh_entries(meshes@), kv);
                    lemma_lookup_at(mesh_entries(meshes@), i as int);
                }
            },
            None => {
                meshes.push((key, mesh));
                assert(mesh_entries(meshes@) =~= before.push((kv, mesh)));
                proof {
                    lemma_lookup_other_keys(before, mesh_entries(meshes@), kv);
                    lemma_lookup_at(mesh_entries(meshes@), before.len() as int);
                }
            },
        }
        self.meshes = meshes;
    }
}

/// Writing under `key` (replacing its entry or appending one) keeps the keys
/// distinct and leaves what every other key finds unchanged.
pub proof fn lemma_lookup_other_keys(
    before: Seq<(Seq<char>, GpuMesh)>,
    after: Seq<(Seq<char>, GpuMesh)>,
    key: Seq<char>,
)
    requires
        distinct_keys(before),
        before.len() <= after.len() <= before.len() + 1,
        forall|j: int| 0 <= j < before.len() && before[j].0 != key ==> after[j] == before[j],
        forall|j: int| 0 <= j < before.len() && before[j].0 == key ==> after[j].0 == key,
        after.len() == before.len() + 1 ==> after[before.len() as int].0 == key && forall|j: int|
            0 <= j < before.len() ==> before[j].0 != key,
    ensures
        distinct_keys(after),
        forall|k: Seq<char>| k != key ==> lookup(after, k) == lookup(before, k),
{
    assert forall|a: int, b: int| 0 <= a < b < after.len() implies after[a].0 != after[b].0 by {
        if b < before.len() {
            if before[a].0 == key || before[b].0 == key {
            } else {
                assert(after[a] == before[a] && after[b] == before[b]);
            }
        } else {
            if before[a].0 != key {
                assert(after[a] == before[a]);
            }
        }
    }
    assert forall|k: Seq<char>| k != key implies lookup(after, k) == lookup(before, k) by {
        if exists|j: int| 0 <= j < before.len() && before[j].0 == k {
            let j = choose|j: int| 0 <= j < before.len() && before[j].0 == k;
            lemma_lookup_at(before, j);
            assert(after[j] == before[j]);
            lemma_lookup_at(after, j);
        } else {
            assert forall|j: int| 0 <= j < after.len() implies after[j].0 != k by {
                if j < before.len() {
                    if before[j].0 != key {
                        assert(after[j] == before[j]);
                    }
                }
            }
        }
    }
}

impl Default for MeshCache {
    fn default() -> (c: Self)
        ensures
            c@ == Seq::<(Seq<char>, GpuMesh)>::empty(),
    {
        MeshCache::new()
    }
}

/// Memory type `i` is allowed by the `requirements` bit mask and its property
/// flags include every flag of `properties`.
pub open spec fn memory_type_suits(requirements: u32, flags: u32, properties: u32, i: u32) -> bool {
    (requirements & (1u32 << i)) != 0 && (flags & properties) == properties
}

/// The first memory type that the requirement bits allow and whose flags hold
/// all the wanted `properties`; `type_flags` lists the property flags of the
/// device's memory types in order (a device has at most 32).
pub fn find_memory_type(requirements: u32, type_flags: &Vec<u32>, properties: u32) -> (r: Option<u32>)
    requires
        type_flags.len() <= 32,
    ensures
        match r {
            Some(i) => i < type_flags.len() && memory_type_suits(requirements, type_flags[i as int], properties, i)
                && forall|j: u32| j < i ==> !memory_type_suits(requirements, #[trigger] type_flags[j as int], properties, j),
            None => forall|j: u32| j < type_flags.len() ==> !memory_type_suits(requirements, #[trigger] type_flags[j as int], properties, j),
        },
        r is Some ==> (requirements & (1u32 << r->0)) != 0
            && (type_flags[r->0 as int] & properties) == properties,
        r is Some ==> forall|bit: u32|
            bit < 32 && (properties & (1u32 << bit)) != 0 ==> (#[trigger] (type_flags[r->0 as int]
                & (1u32 << bit))) != 0,
        forall|j: u32|
            j < type_flags.len() && (r is None || j < r->0) ==> !((requirements & (1u32 << j)) != 0
                && (#[trigger] type_flags[j as int] & properties) == properties),
{
    let mut i: usize = 0;
    while i < type_flags.len()
        invariant
            i <= type_flags.len() <= 32,
            forall|j: u32| j < i ==> !memory_type_suits(requirements, #[trigger] type_flags[j as int], properties, j),
        decreases type_flags.len() - i,
    {
        let bit: u32 = i as u32;
        if (requirements & (1u32 << bit)) != 0 && (type_flags[i] & properties) == properties {
            proof {
                assert forall|b: u32| b < 32 && (properties & (1u32 << b)) != 0 implies
                    #[trigger] (type_flags[i as int] & (1u32 << b)) != 0 by {
                    lemma_suiting_flags_have_each_property(type_flags[i as int], properties, b);
                }
            }
            return Some(bit);
        }
        i = i + 1;
    }
    None
}

/// A memory type whose flags hold all of `properties` has every single flag
/// that `properties` asks for.
pub proof fn lemma_suiting_flags_have_each_property(flags: u32, properties: u32, bit: u32)
    requires
        (flags & properties) == properties,
        bit < 32,
    ensures
        (properties & (1u32 << bit)) != 0 ==> (flags & (1u32 << bit)) != 0,
{
    assert((flags & properties) == properties && bit < 32 ==> ((properties & (1u32 << bit)) != 0
        ==> (flags & (1u32 << bit)) != 0)) by (bit_vector);
}

} // verus!
