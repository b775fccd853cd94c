//! Raytracing proxy meshes.
//!
//! A mesh entity that renders with a standard material gets a raytracing proxy:
//! a triangle-list copy of its position, normal and UV attributes with 32-bit
//! indices and tangents, flagged for raytracing. One proxy is made per source
//! mesh asset and shared by every entity that uses it. Vertex attribute data is
//! generic: the renderer stores Bevy's vertex attribute values in it.

use vstd::prelude::*;

verus! {

/// How the vertices of a mesh form primitives.
#[derive(Clone, Copy, Debug, PartialEq, Eq, Structural)]
pub enum PrimitiveTopology {
    /// Each vertex is a point.
    PointList,
    /// Each pair of vertices is a line.
    LineList,
    /// Each two adjacent vertices form a line.
    LineStrip,
    /// Each three vertices form a triangle.
    TriangleList,
    /// Each three adjacent vertices form a triangle.
    TriangleStrip,
}

/// The index buffer of a mesh.
#[derive(Debug)]
pub enum MeshIndices {
    /// 16-bit indices.
    U16(Vec<u16>),
    /// 32-bit indices.
    U32(Vec<u32>),
}

/// The index values of an index buffer, whatever their width.
pub open spec fn index_values(indices: MeshIndices) -> Seq<int> {
    match indices {
        MeshIndices::U16(values) => values@.map_values(|v: u16| v as int),
        MeshIndices::U32(values) => values@.map_values(|v: u32| v as int),
    }
}

/// What a proxy is made from: the parts of a source mesh that it reads.
pub struct SourceMesh<A> {
    /// The source's primitive topology.
    pub primitive_topology: PrimitiveTopology,
    /// The source's render asset usage flags (main world, render world).
    pub asset_usage: u8,
    /// The source's vertex positions.
    pub position: Option<A>,
    /// The source's vertex normals.
    pub normal: Option<A>,
    /// The source's first UV set.
    pub uv_0: Option<A>,
    /// The source's vertex tangents.
    pub tangent: Option<A>,
    /// The source's index buffer.
    pub indices: Option<MeshIndices>,
}

/// Where a proxy's tangents come from.
pub enum ProxyTangents<A> {
    /// The source's tangents, copied.
    Copied(A),
    /// Tangents generated from the proxy's geometry; if generation fails there is
    /// no proxy.
    Generate,
}

/// A raytracing proxy mesh.
pub struct RaytracingProxyMesh<A> {
    /// Always a triangle list.
    pub primitive_topology: PrimitiveTopology,
    /// The source's render asset usage flags.
    pub asset_usage: u8,
    /// The source's vertex positions.
    pub position: A,
    /// The source's vertex normals.
    pub normal: A,
    /// The source's first UV set.
    pub uv_0: A,
    /// The source's indices, widened to 32 bits.
    pub indices: MeshIndices,
    /// The proxy's tangents.
    pub tangents: ProxyTangents<A>,
    /// Whether the mesh takes part in raytracing; always set.
    pub enable_raytracing: bool,
}

/// A source mesh can have a proxy when it is a triangle list with positions,
/// normals, a UV set and an index buffer.
pub open spec fn proxy_possible<A>(source: SourceMesh<A>) -> bool {
    &&& source.primitive_topology == PrimitiveTopology::TriangleList
    &&& source.position is Some
    &&& source.normal is Some
    &&& source.uv_0 is Some
    &&& source.indices is Some
}

/// A proxy exists only for a triangle list: points, lines, line strips and
/// triangle strips never get one; a triangle list gets one exactly when it has
/// positions, normals, a UV set and indices.
pub proof fn lemma_proxy_only_for_triangle_lists<A>(source: SourceMesh<A>)
    ensures
        proxy_possible(source) ==> source.primitive_topology == PrimitiveTopology::TriangleList,
        source.primitive_topology != PrimitiveTopology::TriangleList ==> !proxy_possible(source),
        source.primitive_topology == PrimitiveTopology::TriangleList ==> (proxy_possible(source)
            <==> (source.position is Some && source.normal is Some && source.uv_0 is Some
            && source.indices is Some)),
{
}

/// The indices of an index buffer as 32-bit values, in order.
pub fn widen_indices(indices: &MeshIndices) -> (widened: Vec<u32>)
    ensures
        widened@.map_values(|v: u32| v as int) == index_values(*indices),
{
    let mut widened: Vec<u32> = Vec::new();
    match indices {
        MeshIndices::U16(values) => {
            let mut i: usize = 0;
            while i < values.len()
                invariant
                    i <= values.len(),
                    widened@.len() == i,
                    forall|j: int| 0 <= j < i ==> widened@[j] as int == values@[j] as int,
                decreases values.len() - i,
            {
                widened.push(values[i] as u32);
                i += 1;
            }
            assert(widened@.map_values(|v: u32| v as int) =~= values@.map_values(
                |v: u16| v as int,
            ));
        },
        MeshIndices::U32(values) => {
            let mut i: usize = 0;
            while i < values.len()
                invariant
                    i <= values.len(),
                    widened@.len() == i,
                    forall|j: int| 0 <= j < i ==> widened@[j] == values@[j],
                decreases values.len() - i,
            {
                widened.push(values[i]);
                i += 1;
            }
            assert(widened@.map_values(|v: u32| v as int) =~= values@.map_values(
                |v: u32| v as int,
            ));
        },
    }
    widened
}

/// Make the raytracing proxy of a source mesh: `None` unless the source is a
/// triangle list with positions, normals, a UV set and indices; otherwise a
/// triangle list with the source's attributes and asset usage, its indices
/// widened to 32 bits, its tangents copied (or, without source tangents, to be
/// generated), and raytracing enabled. A proxy whose tangents are to be
/// generated exists only if generating them from its positions, normals and UVs
/// succeeds; where it fails the mesh gets no proxy.
pub fn make_raytracing_proxy_mesh<A>(source: SourceMesh<A>) -> (proxy: Option<RaytracingProxyMesh<A>>)
    ensures
        proxy is Some <==> proxy_possible(source),
        proxy is Some ==> source.primitive_topology == PrimitiveTopology::TriangleList,
        proxy is Some <==> (source.primitive_topology == PrimitiveTopology::TriangleList
            && source.position is Some && source.normal is Some && source.uv_0 is Some
            && source.indices is Some),
        proxy matches Some(mesh) ==> {
            &&& mesh.primitive_topology == PrimitiveTopology::TriangleList
            &&& mesh.asset_usage == source.asset_usage
            &&& Some(mesh.position) == source.position
            &&& Some(mesh.normal) == source.normal
            &&& Some(mesh.uv_0) == source.uv_0
            &&& mesh.indices is U32
            &&& index_values(mesh.indices) == index_values(source.indices->Some_0)
            &&& mesh.tangents == match source.tangent {
                Some(tangent) => ProxyTangents::Copied(tangent),
                None => ProxyTangents::<A>::Generate,
            }
            &&& mesh.enable_raytracing
        },
{
    if source.primitive_topology != PrimitiveTopology::TriangleList {
        return None;
    }
    let SourceMesh { primitive_topology: _, asset_usage, position, normal, uv_0, tangent, indices } =
        source;
    let position = match position {
        Some(values) => values,
        None => {
            return None;
        },
    };
    let normal = match normal {
        Some(values) => values,
        None => {
            return None;
        },
    };
    let uv_0 = match uv_0 {
        Some(values) => values,
        None => {
            return None;
        },
    };
    let indices = match indices {
        Some(indices) => indices,
        None => {
            return None;
        },
    };
    let widened = widen_indices(&indices);
    let tangents = match tangent {
        Some(values) => ProxyTangents::Copied(values),
        None => ProxyTangents::Generate,
    };
    Some(
        RaytracingProxyMesh {
            primitive_topology: PrimitiveTopology::TriangleList,
            asset_usage,
            position,
            normal,
            uv_0,
            indices: MeshIndices::U32(widened),
            tangents,
            enable_raytracing: true,
        },
    )
}

/// What tagging does with one mesh entity that renders with a standard material
/// and has neither a raytracing mesh nor the opt-out marker.
#[derive(Clone, Copy, Debug, PartialEq, Eq, Structural)]
pub enum ProxyTagStep {
    /// Give the entity the proxy already made for its source mesh.
    ReuseCachedProxy,
    /// The source mesh asset is not loaded yet: try again on a later frame.
    WaitForSource,
    /// Make the proxy from the loaded source, add it as an asset, remember it
    /// for the source, and give it to the entity (unless no proxy can be made).
    BuildProxy,
}

/// The tagging step for a mesh entity: a source mesh gets its proxy built once
/// and reused for every entity after that.
pub fn proxy_tag_step(has_cached_proxy: bool, source_loaded: bool) -> (step: ProxyTagStep)
    ensures
        has_cached_proxy ==> step == ProxyTagStep::ReuseCachedProxy,
        !has_cached_proxy && !source_loaded ==> step == ProxyTagStep::WaitForSource,
        !has_cached_proxy && source_loaded ==> step == ProxyTagStep::BuildProxy,
{
    if has_cached_proxy {
        ProxyTagStep::ReuseCachedProxy
    } else if !source_loaded {
        ProxyTagStep::WaitForSource
    } else {
        ProxyTagStep::BuildProxy
    }
}


/// A stand-in for the asset id of a source mesh: an asset index packed into 64
/// bits, or an asset UUID.
#[derive(Clone, Copy, Debug, PartialEq, Eq, Structural)]
pub enum MeshSourceKey {
    /// An asset index (index and generation) in its packed form.
    Index(u64),
    /// An asset UUID as a 128-bit value.
    Uuid(u128),
}

/// The proxies made so far, one per source mesh.
pub struct RaytraceProxyMeshes<H> {
    entries: Vec<(MeshSourceKey, H)>,
}

/// The source meshes of the entries, keyed to their proxies (a later entry for a
/// key would win, but keys never repeat).
pub open spec fn entries_map<H>(entries: Seq<(MeshSourceKey, H)>) -> Map<MeshSourceKey, H>
    decreases entries.len(),
{
    if entries.len() == 0 {
        Map::empty()
    } else {
        entries_map(entries.drop_last()).insert(entries.last().0, entries.last().1)
    }
}

/// No source mesh has two entries.
pub open spec fn keys_distinct<H>(entries: Seq<(MeshSourceKey, H)>) -> bool {
    forall|i: int, j: int| 0 <= i < j < entries.len() ==> entries[i].0 != entries[j].0
}

proof fn lemma_entries_map<H>(entries: Seq<(MeshSourceKey, H)>, key: MeshSourceKey)
    requires
        keys_distinct(entries),
    ensures
        entries_map(entries).contains_key(key) <==> exists|i: int|
            0 <= i < entries.len() && entries[i].0 == key,
        forall|i: int|
            0 <= i < entries.len() && #[trigger] entries[i].0 == key ==> entries_map(entries)[key]
                == entries[i].1,
    decreases entries.len(),
{
    if entries.len() > 0 {
        let rest = entries.drop_last();
        assert(keys_distinct(rest));
        lemma_entries_map(rest, key);
        if entries.last().0 != key {
            assert forall|i: int| 0 <= i < entries.len() && entries[i].0 == key implies i
                < rest.len() && rest[i] == entries[i] by {}
        }
    }
}

impl<H> View for RaytraceProxyMeshes<H> {
    type V = Map<MeshSourceKey, H>;

    closed spec fn view(&self) -> Map<MeshSourceKey, H> {
        entries_map(self.entries@)
    }
}

impl<H> RaytraceProxyMeshes<H> {
    /// Every source mesh has at most one entry.
    pub closed spec fn well_formed(&self) -> bool {
        keys_distinct(self.entries@)
    }

    /// No proxies yet.
    pub fn new() -> (cache: Self)
        ensures
            cache.well_formed(),
            cache@ == Map::<MeshSourceKey, H>::empty(),
    {
        RaytraceProxyMeshes { entries: Vec::new() }
    }

    /// The proxy made for a source mesh, if there is one.
    #[verifier::loop_isolation(false)]
    pub fn cached(&self, source: MeshSourceKey) -> (proxy: Option<&H>)
        requires
            self.well_formed(),
        ensures
            proxy is Some <==> self@.contains_key(source),
            proxy matches Some(found) ==> *found == self@[source],
    {
        proof {
            lemma_entries_map(self.entries@, source);
        }
        let mut i: usize = 0;
        while i < self.entries.len()
            invariant
                i <= self.entries.len(),
                forall|j: int| 0 <= j < i ==> self.entries@[j].0 != source,
            decreases self.entries.len() - i,
        {
            if self.entries[i].0 == source {
                return Some(&self.entries[i].1);
            }
            i += 1;
        }
        None
    }

    /// Remember the proxy made for a source mesh that had none.
    pub fn remember(&mut self, source: MeshSourceKey, proxy: H)
        requires
            old(self).well_formed(),
            !old(self)@.contains_key(source),
        ensures
            final(self).well_formed(),
            final(self)@ == old(self)@.insert(source, proxy),
    {
        proof {
            lemma_entries_map(self.entries@, source);
        }
        let ghost before = self.entries@;
        self.entries.push((source, proxy));
        proof {
            assert(self.entries@.drop_last() == before);
        }
    }
}

/// The tagging step for a mesh entity whose source is `source`, given the
/// sources that have a proxy so far.
pub open spec fn spec_proxy_tag_step(
    cached_sources: Set<MeshSourceKey>,
    source: MeshSourceKey,
    source_loaded: bool,
) -> ProxyTagStep {
    if cached_sources.contains(source) {
        ProxyTagStep::ReuseCachedProxy
    } else if !source_loaded {
        ProxyTagStep::WaitForSource
    } else {
        ProxyTagStep::BuildProxy
    }
}

/// The tagging step for one mesh entity, read from the proxy cache.
pub fn proxy_tag_step_for<H>(
    cache: &RaytraceProxyMeshes<H>,
    source: MeshSourceKey,
    source_loaded: bool,
) -> (step: ProxyTagStep)
    requires
        cache.well_formed(),
    ensures
        step == spec_proxy_tag_step(cache@.dom(), source, source_loaded),
{
    let has_cached_proxy = cache.cached(source).is_some();
    proxy_tag_step(has_cached_proxy, source_loaded)
}

/// One proxy per source mesh: once the proxy built for a source is remembered,
/// every later entity with that source is given that very proxy and none is
/// built again, and remembering one source leaves the steps and proxies of all
/// other sources as they were.
pub proof fn lemma_one_proxy_per_source<H>(
    cached: Map<MeshSourceKey, H>,
    source: MeshSourceKey,
    proxy: H,
    other: MeshSourceKey,
    source_loaded: bool,
)
    requires
        !cached.contains_key(source),
    ensures
        ({
            let after = cached.insert(source, proxy);
            let keys_before = cached.dom();
            let keys_after = after.dom();
            &&& spec_proxy_tag_step(keys_after, source, source_loaded)
                == ProxyTagStep::ReuseCachedProxy
            &&& after[source] == proxy
            &&& other != source ==> spec_proxy_tag_step(keys_after, other, source_loaded)
                == spec_proxy_tag_step(keys_before, other, source_loaded)
            &&& other != source && cached.contains_key(other) ==> after[other] == cached[other]
        }),
{
}

} // verus!
