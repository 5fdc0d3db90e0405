use vstd::prelude::*;
use crate::TexHandle;
use crate::events::UserAddedTexture;
use crate::path::is_supported_format;
use crate::path::is_supported_texture_path;
use crate::registry::TexHandleQueue;
use crate::registry::wf_registry;

verus! {

/// One line of the ingestion trace: the index a dropped texture was
/// registered under, and whether its extension looked supported. The
/// check is advisory only; an unsupported extension never blocks
/// ingestion.
#[derive(Clone, Copy, Debug, PartialEq, Eq, Structural)]
pub struct IngestRecord {
    pub index: usize,
    pub supported: bool,
}

/// Ingest one dropped texture: note whether its extension is supported,
/// and register the handle that the asset collaborator returned for its
/// path under the next free index (the registry's current count).
pub fn ingest_texture(
    tex: &UserAddedTexture,
    handle: TexHandle,
    handle_queue: &mut TexHandleQueue,
) -> (rec: IngestRecord)
    requires
        old(handle_queue).wf(),
        old(handle_queue)@.len() < usize::MAX,
    ensures
        final(handle_queue).wf(),
        rec.index as nat == old(handle_queue)@.len(),
        final(handle_queue)@ == old(handle_queue)@.insert(rec.index, handle),
        rec.supported == is_supported_format(tex@),
{
    let supported = is_supported_texture_path(&tex.0);
    let new_idx = handle_queue.count();
    handle_queue.insert(new_idx, handle);
    IngestRecord { index: new_idx, supported }
}

/// Consume one cycle's dropped-texture events, in arrival order. The asset
/// collaborator has already answered `load(path)` for each event with the
/// matching entry of `handles`; each handle is registered under the next
/// free index, so a registry of K entries grows to exactly K+N entries,
/// the new handles sitting at indices K .. K+N-1 in event order and every
/// old entry untouched. The returned trace records each assigned index and
/// the advisory extension check.
pub fn add_dropped_file(
    user_textures: &Vec<UserAddedTexture>,
    handles: &Vec<TexHandle>,
    handle_queue: &mut TexHandleQueue,
) -> (trace: Vec<IngestRecord>)
    requires
        old(handle_queue).wf(),
        handles@.len() == user_textures@.len(),
        old(handle_queue)@.len() + user_textures@.len() <= usize::MAX,
    ensures
        final(handle_queue).wf(),
        final(handle_queue)@.len() == old(handle_queue)@.len() + user_textures@.len(),
        forall|i: usize|
            (i as nat) < old(handle_queue)@.len() ==> #[trigger] final(handle_queue)@.contains_key(
                i,
            ),
        forall|i: usize|
            (i as nat) < old(handle_queue)@.len() ==> (#[trigger] final(handle_queue)@[i]) == old(
                handle_queue,
            )@[i],
        forall|i: usize|
            old(handle_queue)@.len() <= (i as nat) && (i as nat) < old(handle_queue)@.len()
                + user_textures@.len() ==> #[trigger] final(handle_queue)@.contains_key(i),
        forall|i: usize|
            old(handle_queue)@.len() <= (i as nat) && (i as nat) < old(handle_queue)@.len()
                + user_textures@.len() ==> (#[trigger] final(handle_queue)@[i]) == handles@[i as int
                - old(handle_queue)@.len() as int],
        trace@.len() == user_textures@.len(),
        forall|j: int|
            0 <= j < trace@.len() ==> {
                &&& (#[trigger] trace@[j]).index as nat == old(handle_queue)@.len() + j
                &&& trace@[j].supported == is_supported_format(user_textures@[j]@)
            },
{
    let n = user_textures.len();
    let ghost m0 = old(handle_queue)@;
    let ghost k = m0.len();
    let mut trace: Vec<IngestRecord> = Vec::new();
    let mut i: usize = 0;
    while i < n
        invariant
            i <= n,
            n == user_textures@.len(),
            n == handles@.len(),
            k == m0.len(),
            k + n <= usize::MAX,
            handle_queue.wf(),
            handle_queue@.len() == k + i,
            forall|u: usize| (u as nat) < k ==> #[trigger] handle_queue@.contains_key(u),
            forall|u: usize| (u as nat) < k ==> (#[trigger] handle_queue@[u]) == m0[u],
            forall|u: usize|
                k <= (u as nat) && (u as nat) < k + i ==> #[trigger] handle_queue@.contains_key(u),
            forall|u: usize|
                k <= (u as nat) && (u as nat) < k + i ==> (#[trigger] handle_queue@[u])
                    == handles@[u as int - k as int],
            trace@.len() == i,
            forall|j: int|
                0 <= j < i ==> {
                    &&& (#[trigger] trace@[j]).index as nat == k + j
                    &&& trace@[j].supported == is_supported_format(user_textures@[j]@)
                },
        decreases n - i,
    {
        let rec = ingest_texture(&user_textures[i], handles[i], handle_queue);
        trace.push(rec);
        i = i + 1;
    }
    trace
}

/// Dropping the same path in two different cycles never deduplicates:
/// whatever handles the two loads returned, the second ingestion assigns a
/// fresh index, distinct from the first, and afterward both entries sit in
/// the registry. `i1` and `i2` are the indices the two ingestions assign:
/// each registry's count at the time.
pub proof fn lemma_no_dedup(
    m: Map<usize, TexHandle>,
    i1: usize,
    h1: TexHandle,
    i2: usize,
    h2: TexHandle,
)
    requires
        m.dom().finite(),
        wf_registry(m),
        i1 as nat == m.len(),
        i2 as nat == m.insert(i1, h1).len(),
    ensures
        i2 != i1,
        m.insert(i1, h1).insert(i2, h2).contains_key(i1),
        m.insert(i1, h1).insert(i2, h2)[i1] == h1,
        m.insert(i1, h1).insert(i2, h2).contains_key(i2),
        m.insert(i1, h1).insert(i2, h2)[i2] == h2,
{
    assert(!m.dom().contains(i1));
    assert(m.insert(i1, h1).dom() == m.dom().insert(i1));
    assert(m.insert(i1, h1).len() == m.len() + 1);
}

} // verus!
