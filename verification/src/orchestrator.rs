//! The per-chunk, per-tick orchestrator.
//!
//! One `VoxelBuffers` set is created with the pipeline and reused for every
//! chunk, every tick: the lookup tables uploaded once, the sample-point and
//! height buffers of the height stage, the voxel upload pair, and the four
//! worst-case-sized output buffers with their atomic counter pair. A tick
//! runs strictly in order — height readback, density update on the host,
//! voxel upload, counter reset, polygonization dispatch, counter readback,
//! then payload readback sized exactly to the counters, skipped entirely
//! when the vertex counter is zero — and every device read is preceded by
//! the device-idle wait that the buffer mapping model builds in.
//!
//! The height kernel itself (a noise function) is device work outside this
//! model: the caller runs it on the uploaded sample points and hands the
//! resulting height samples in.

use vstd::prelude::*;

use crate::buffer::{encode_seq, lemma_decode_encode, lemma_encode_seq_len, parse_elements, BufVec};
use crate::element::BufElement;
use crate::field::{spec_sample_point, update_density, updated_voxel, voxel_at};
use crate::math::{FxVec2, FxVec3, FxVec4};
use crate::poly::{
    mesh_indices, mesh_normals, mesh_positions, mesh_uvs, polygonize_field, spec_index_count,
    spec_vertex_count, MeshData,
};
use crate::tables::{EDGE_TABLE, TRI_TABLE};
use crate::voxel::{Chunk, Voxel};
use crate::{CHUNK_SZ, CHUNK_SZ_2, CHUNK_SZ_3, FP_ONE};

verus! {

/// Sample points (and height samples) per chunk: one per `(x, z)` column.
pub const POINT_COUNT: usize = 1024;

/// Worst-case vertex capacity: every cell of an `N^3` chunk emitting a
/// vertex on each of its 12 edges.
pub const VERTEX_CAP: usize = 393216;

/// Worst-case index capacity: every cell of an `N^3` chunk emitting the
/// five-triangle table maximum.
pub const INDEX_CAP: usize = 491520;

/// The sample points uploaded for elapsed time `t`: point `x + z * N` is
/// column `(x, z)`'s.
pub open spec fn spec_points(t: int) -> Seq<FxVec2> {
    Seq::new(POINT_COUNT as nat, |i: int| spec_sample_point(i % 32, i / 32, t))
}

/// The process-wide buffer set of the meshing pipeline.
pub struct VoxelBuffers {
    edge_table: Vec<u8>,
    tri_table: Vec<u8>,
    points: BufVec<FxVec2>,
    heights: BufVec<i32>,
    voxels: Vec<u8>,
    voxels_staging: Vec<u8>,
    vertices: BufVec<FxVec4>,
    normals: BufVec<FxVec4>,
    uvs: BufVec<FxVec2>,
    indices: BufVec<u32>,
    atomics: BufVec<u32>,
    atomics_staging: Vec<u8>,
}

/// The assembled mesh handed to the renderer and the collision consumer:
/// triangle-list topology, 3-component positions and normals, 2-component
/// texture coordinates, 32-bit indices.
pub struct MeshAssembly {
    pub positions: Vec<FxVec3>,
    pub normals: Vec<FxVec3>,
    pub uvs: Vec<FxVec2>,
    pub indices: Vec<u32>,
}

impl VoxelBuffers {
    /// Every buffer sized to its reserved worst case, nothing mapped.
    pub closed spec fn wf(self) -> bool {
        &&& self.points.wf() && self.points.spec_capacity() == POINT_COUNT
            && !self.points.is_mapped()
        &&& self.heights.wf() && self.heights.spec_capacity() == POINT_COUNT
            && !self.heights.is_mapped()
        &&& self.vertices.wf() && self.vertices.spec_capacity() == VERTEX_CAP
            && !self.vertices.is_mapped()
        &&& self.normals.wf() && self.normals.spec_capacity() == VERTEX_CAP
            && !self.normals.is_mapped()
        &&& self.uvs.wf() && self.uvs.spec_capacity() == VERTEX_CAP && !self.uvs.is_mapped()
        &&& self.indices.wf() && self.indices.spec_capacity() == INDEX_CAP
            && !self.indices.is_mapped()
        &&& self.atomics.wf() && self.atomics.spec_capacity() == 2 && !self.atomics.is_mapped()
        &&& self.voxels@.len() == 262144
        &&& self.voxels_staging@.len() == 262144
        &&& self.atomics_staging@.len() == 8
        &&& forall|i: int| 0 <= i < 8 ==> self.atomics_staging@[i] == 0u8
    }

    /// The uploaded sample points.
    pub closed spec fn points_view(self) -> Seq<FxVec2> {
        self.points@
    }

    /// The height samples read back from the device.
    pub closed spec fn heights_view(self) -> Seq<i32> {
        self.heights@
    }

    /// The counter pair as last read back.
    pub closed spec fn counters_view(self) -> Seq<u32> {
        self.atomics@
    }

    /// The device-side bytes of the sample-point buffer: what the height
    /// kernel is bound to.
    pub closed spec fn points_device_bytes(self) -> Seq<u8> {
        self.points.device_bytes()
    }

    /// Creates the pipeline's buffers: uploads the two lookup tables and
    /// reserves the height-stage buffers, the voxel pair, and the output
    /// buffers at their worst-case capacities.
    pub fn new() -> (b: VoxelBuffers)
        ensures
            b.wf(),
            b.edge_table_bytes() == encode_seq(EDGE_TABLE@),
            b.tri_table_bytes() == encode_seq(TRI_TABLE@),
    {
        let mut edge_words: Vec<u32> = Vec::new();
        let mut k: usize = 0;
        while k < 256
            invariant
                k <= 256,
                edge_words@ == EDGE_TABLE@.take(k as int),
            decreases 256 - k,
        {
            edge_words.push(EDGE_TABLE[k]);
            proof {
                assert(edge_words@ =~= EDGE_TABLE@.take(k + 1));
            }
            k = k + 1;
        }
        proof {
            assert(EDGE_TABLE@.take(256) =~= EDGE_TABLE@);
        }
        let edge_table = crate::buffer::encode_elements(&edge_words);

        let mut tri_words: Vec<u64> = Vec::new();
        let mut k2: usize = 0;
        while k2 < 256
            invariant
                k2 <= 256,
                tri_words@ == TRI_TABLE@.take(k2 as int),
            decreases 256 - k2,
        {
            tri_words.push(TRI_TABLE[k2]);
            proof {
                assert(tri_words@ =~= TRI_TABLE@.take(k2 + 1));
            }
            k2 = k2 + 1;
        }
        proof {
            assert(TRI_TABLE@.take(256) =~= TRI_TABLE@);
        }
        let tri_table = crate::buffer::encode_elements(&tri_words);

        let mut atomics_staging: Vec<u8> = Vec::new();
        let mut k3: usize = 0;
        while k3 < 8
            invariant
                k3 <= 8,
                atomics_staging@.len() == k3,
                forall|i: int| 0 <= i < k3 ==> atomics_staging@[i] == 0u8,
            decreases 8 - k3,
        {
            atomics_staging.push(0);
            k3 = k3 + 1;
        }

        VoxelBuffers {
            edge_table,
            tri_table,
            points: BufVec::with_capacity(false, POINT_COUNT),
            heights: BufVec::with_capacity(true, POINT_COUNT),
            voxels: crate::buffer::create_buffer(false, 262144),
            voxels_staging: crate::buffer::create_staging_buffer(false, 262144),
            vertices: BufVec::with_capacity(true, VERTEX_CAP),
            normals: BufVec::with_capacity(true, VERTEX_CAP),
            uvs: BufVec::with_capacity(true, VERTEX_CAP),
            indices: BufVec::with_capacity(true, INDEX_CAP),
            atomics: BufVec::with_capacity(true, 2),
            atomics_staging,
        }
    }

    /// The device copy of the edge table.
    pub closed spec fn edge_table_bytes(self) -> Seq<u8> {
        self.edge_table@
    }

    /// The device copy of the triangle table.
    pub closed spec fn tri_table_bytes(self) -> Seq<u8> {
        self.tri_table@
    }

    /// The height stage's upload: rebuilds the sample-point lattice for
    /// elapsed time `t` in the host mirror and writes it to the device,
    /// ready for the height kernel.
    pub fn generate_points(&mut self, t: i32)
        requires
            old(self).wf(),
            t >= 0,
        ensures
            final(self).wf(),
            final(self).points_view() == spec_points(t as int),
            final(self).points_device_bytes().subrange(0, 8192) == crate::buffer::encode_seq(
                spec_points(t as int),
            ),
            final(self).heights_view() == old(self).heights_view(),
            final(self).counters_view() == old(self).counters_view(),
    {
        self.points.clear();
        let mut i: usize = 0;
        while i < POINT_COUNT
            invariant
                i <= POINT_COUNT,
                t >= 0,
                self.points.wf(),
                self.points.spec_capacity() == POINT_COUNT,
                !self.points.is_mapped(),
                self.points@.len() == i,
                forall|j: int| 0 <= j < i ==> self.points@[j] == spec_points(t as int)[j],
                self.heights == old(self).heights,
                self.vertices == old(self).vertices,
                self.normals == old(self).normals,
                self.uvs == old(self).uvs,
                self.indices == old(self).indices,
                self.atomics == old(self).atomics,
                self.voxels == old(self).voxels,
                self.voxels_staging == old(self).voxels_staging,
                self.atomics_staging == old(self).atomics_staging,
                self.edge_table == old(self).edge_table,
                self.tri_table == old(self).tri_table,
            decreases POINT_COUNT - i,
        {
            let gx = i % 32;
            let gz = i / 32;
            let p = crate::field::sample_point(gx, gz, t);
            self.points.push(p);
            i = i + 1;
        }
        proof {
            assert(self.points@ =~= spec_points(t as int));
        }
        self.points.encode_write();
        proof {
            lemma_encode_seq_len::<FxVec2>(self.points@);
            assert(self.points.device_bytes().subrange(0, 8192) =~= encode_seq(
                spec_points(t as int),
            ));
        }
    }
}

impl VoxelBuffers {
    /// The uploaded sample points, as the height kernel will see them.
    pub fn points_values(&self) -> (v: &Vec<FxVec2>)
        ensures
            v@ == self.points_view(),
    {
        self.points.values()
    }

    /// The height samples as last read back.
    pub fn heights_values(&self) -> (v: &Vec<i32>)
        ensures
            v@ == self.heights_view(),
    {
        self.heights.values()
    }

    /// The counter pair as last read back: vertex count, then index count.
    pub fn counters(&self) -> (r: (u32, u32))
        requires
            self.counters_view().len() == 2,
        ensures
            r.0 == self.counters_view()[0],
            r.1 == self.counters_view()[1],
    {
        let av = self.atomics.values();
        (av[0], av[1])
    }

    /// Uploads the chunk's voxel array: serialized into the staging buffer,
    /// then copied on to the device-side voxel buffer.
    fn write_voxels(&mut self, data: &Vec<Voxel>)
        requires
            old(self).wf(),
            data@.len() == CHUNK_SZ_3,
        ensures
            final(self).wf(),
            final(self).voxels@ == encode_seq(data@),
            final(self).voxels_staging@ == encode_seq(data@),
            final(self).points == old(self).points,
            final(self).heights == old(self).heights,
            final(self).vertices == old(self).vertices,
            final(self).normals == old(self).normals,
            final(self).uvs == old(self).uvs,
            final(self).indices == old(self).indices,
            final(self).atomics == old(self).atomics,
            final(self).atomics_staging == old(self).atomics_staging,
            final(self).edge_table == old(self).edge_table,
            final(self).tri_table == old(self).tri_table,
    {
        let bytes = crate::buffer::encode_elements(data);
        crate::buffer::copy_prefix(&mut self.voxels_staging, &bytes);
        crate::buffer::copy_prefix(&mut self.voxels, &self.voxels_staging);
        proof {
            assert(self.voxels_staging@ =~= encode_seq(data@));
            assert(self.voxels@ =~= encode_seq(data@));
        }
    }

    /// The height stage's read-back: the height kernel has left one sample
    /// per point in the device-side height buffer; copy them to staging,
    /// wait for the mapping, and refill the host mirror from the bytes.
    fn height_readback(&mut self, computed: &Vec<i32>)
        requires
            old(self).wf(),
            computed@.len() == CHUNK_SZ_2,
        ensures
            final(self).wf(),
            final(self).heights@ == computed@,
            final(self).points == old(self).points,
            final(self).vertices == old(self).vertices,
            final(self).normals == old(self).normals,
            final(self).uvs == old(self).uvs,
            final(self).indices == old(self).indices,
            final(self).atomics == old(self).atomics,
            final(self).voxels == old(self).voxels,
            final(self).voxels_staging == old(self).voxels_staging,
            final(self).atomics_staging == old(self).atomics_staging,
            final(self).edge_table == old(self).edge_table,
            final(self).tri_table == old(self).tri_table,
    {
        self.heights.device_store(computed);
        proof {
            lemma_encode_seq_len::<i32>(computed@);
            assert(self.heights.device_bytes() =~= encode_seq(computed@));
        }
        self.heights.encode_read(POINT_COUNT);
        self.heights.map_buffer(POINT_COUNT);
        self.heights.read_and_unmap_buffer(POINT_COUNT);
        proof {
            assert(self.heights.staging_bytes().subrange(0, 4096) =~= encode_seq(computed@));
            lemma_decode_encode::<i32>(computed@, self.heights.staging_bytes());
        }
    }

    /// The kernel's final counter writes and the counter read-back: the
    /// counter pair lands in the device buffer, is copied to staging, and
    /// is read into the host mirror.
    fn counter_readback(&mut self, vc: u32, ic: u32)
        requires
            old(self).wf(),
        ensures
            final(self).wf(),
            final(self).atomics@ =~= seq![vc, ic],
            final(self).points == old(self).points,
            final(self).heights == old(self).heights,
            final(self).vertices == old(self).vertices,
            final(self).normals == old(self).normals,
            final(self).uvs == old(self).uvs,
            final(self).indices == old(self).indices,
            final(self).voxels == old(self).voxels,
            final(self).voxels_staging == old(self).voxels_staging,
            final(self).atomics_staging == old(self).atomics_staging,
            final(self).edge_table == old(self).edge_table,
            final(self).tri_table == old(self).tri_table,
    {
        let mut counter_pair: Vec<u32> = Vec::new();
        counter_pair.push(vc);
        counter_pair.push(ic);
        self.atomics.device_store(&counter_pair);
        proof {
            lemma_encode_seq_len::<u32>(counter_pair@);
            assert(self.atomics.device_bytes() =~= encode_seq(counter_pair@));
        }
        self.atomics.encode_read(2);
        self.atomics.map_buffer(2);
        self.atomics.read_and_unmap_buffer(2);
        proof {
            assert(self.atomics.staging_bytes().subrange(0, 8) =~= encode_seq(counter_pair@));
            lemma_decode_encode::<u32>(counter_pair@, self.atomics.staging_bytes());
            assert(self.atomics@ =~= seq![vc, ic]);
        }
    }

    /// The payload read-back, sized exactly to the counters: copies the
    /// counted prefix of each output buffer to its staging buffer, waits
    /// for the mappings, and reinterprets the bytes into the host mirrors.
    fn payload_readback(&mut self, mesh: &MeshData)
        requires
            old(self).wf(),
            mesh.vertices@.len() <= VERTEX_CAP,
            mesh.normals@.len() == mesh.vertices@.len(),
            mesh.uvs@.len() == mesh.vertices@.len(),
            mesh.indices@.len() <= INDEX_CAP,
            old(self).vertices.device_bytes().subrange(
                0,
                (mesh.vertices@.len() * 16) as int,
            ) == encode_seq(mesh.vertices@),
            old(self).normals.device_bytes().subrange(
                0,
                (mesh.normals@.len() * 16) as int,
            ) == encode_seq(mesh.normals@),
            old(self).uvs.device_bytes().subrange(0, (mesh.uvs@.len() * 8) as int)
                == encode_seq(mesh.uvs@),
            old(self).indices.device_bytes().subrange(0, (mesh.indices@.len() * 4) as int)
                == encode_seq(mesh.indices@),
        ensures
            final(self).wf(),
            final(self).vertices@ == mesh.vertices@,
            final(self).normals@ == mesh.normals@,
            final(self).uvs@ == mesh.uvs@,
            final(self).indices@ == mesh.indices@,
            final(self).points == old(self).points,
            final(self).heights == old(self).heights,
            final(self).atomics == old(self).atomics,
            final(self).voxels == old(self).voxels,
            final(self).voxels_staging == old(self).voxels_staging,
            final(self).atomics_staging == old(self).atomics_staging,
            final(self).edge_table == old(self).edge_table,
            final(self).tri_table == old(self).tri_table,
    {
        let vertex_count = mesh.vertices.len();
        let index_count = mesh.indices.len();
        self.vertices.encode_read(vertex_count);
        self.normals.encode_read(vertex_count);
        self.uvs.encode_read(vertex_count);
        self.indices.encode_read(index_count);
        self.vertices.map_buffer(vertex_count);
        self.normals.map_buffer(vertex_count);
        self.uvs.map_buffer(vertex_count);
        self.indices.map_buffer(index_count);
        self.vertices.read_and_unmap_buffer(vertex_count);
        self.normals.read_and_unmap_buffer(vertex_count);
        self.uvs.read_and_unmap_buffer(vertex_count);
        self.indices.read_and_unmap_buffer(index_count);
        proof {
            lemma_encode_seq_len::<FxVec4>(mesh.vertices@);
            assert(self.vertices.staging_bytes().subrange(
                0,
                (mesh.vertices@.len() * 16) as int,
            ) =~= encode_seq(mesh.vertices@));
            lemma_decode_encode::<FxVec4>(mesh.vertices@, self.vertices.staging_bytes());
            assert(self.vertices@ == mesh.vertices@);

            lemma_encode_seq_len::<FxVec4>(mesh.normals@);
            assert(self.normals.staging_bytes().subrange(
                0,
                (mesh.normals@.len() * 16) as int,
            ) =~= encode_seq(mesh.normals@));
            lemma_decode_encode::<FxVec4>(mesh.normals@, self.normals.staging_bytes());
            assert(self.normals@ == mesh.normals@);

            lemma_encode_seq_len::<FxVec2>(mesh.uvs@);
            assert(self.uvs.staging_bytes().subrange(0, (mesh.uvs@.len() * 8) as int)
                =~= encode_seq(mesh.uvs@));
            lemma_decode_encode::<FxVec2>(mesh.uvs@, self.uvs.staging_bytes());
            assert(self.uvs@ == mesh.uvs@);

            lemma_encode_seq_len::<u32>(mesh.indices@);
            assert(self.indices.staging_bytes().subrange(0, (mesh.indices@.len() * 4) as int)
                =~= encode_seq(mesh.indices@));
            lemma_decode_encode::<u32>(mesh.indices@, self.indices.staging_bytes());
            assert(self.indices@ == mesh.indices@);
        }
    }

    /// One full tick for one chunk. The caller has already run the height
    /// kernel over the uploaded sample points; `computed_heights` is what
    /// that kernel left in the height buffer, one fixed-point sample per
    /// column. The tick reads the heights back through the staging round
    /// trip, recomputes the chunk's densities on the host, uploads the
    /// voxels, resets the counters, dispatches polygonization, reads the
    /// counters back, and — unless the vertex counter is zero, when the
    /// payload read-back is skipped and the mesh comes back empty — reads
    /// back exactly the counted vertices and indices and assembles the mesh.
    #[verifier::rlimit(100)]
    pub fn polygonize(&mut self, chunk: &mut Chunk, computed_heights: &Vec<i32>) -> (m:
        MeshAssembly)
        requires
            old(self).wf(),
            old(chunk).wf(),
            computed_heights@.len() == CHUNK_SZ_2,
        ensures
            final(self).wf(),
            final(chunk).wf(),
            final(chunk).position == old(chunk).position,
            final(self).heights_view() == computed_heights@,
            forall|x: int, y: int, z: int|
                0 <= x < CHUNK_SZ && 0 <= y < CHUNK_SZ && 0 <= z < CHUNK_SZ
                    ==> #[trigger] voxel_at(final(chunk).voxels@, x, y, z) == updated_voxel(
                    computed_heights@[x + z * CHUNK_SZ],
                    y,
                ),
            final(self).counters_view() =~= seq![
                spec_vertex_count(final(chunk).voxels@) as u32,
                spec_index_count(final(chunk).voxels@) as u32,
            ],
            m.indices@ == mesh_indices(final(chunk).voxels@),
            m.uvs@ == mesh_uvs(final(chunk).voxels@),
            m.positions@.len() == spec_vertex_count(final(chunk).voxels@),
            m.normals@.len() == m.positions@.len(),
            m.uvs@.len() == m.positions@.len(),
            forall|i: int|
                0 <= i < m.positions@.len() ==> #[trigger] m.positions@[i]
                    == FxVec3::spec_of_vec4(mesh_positions(final(chunk).voxels@)[i]),
            forall|i: int|
                0 <= i < m.normals@.len() ==> #[trigger] m.normals@[i] == FxVec3::spec_of_vec4(
                    mesh_normals(final(chunk).voxels@)[i],
                ),
            m.indices@.len() % 3 == 0,
            forall|i: int| 0 <= i < m.indices@.len() ==> #[trigger] m.indices@[i]
                < m.positions@.len(),
    {
        // Height read-back, then the density update on the host.
        self.height_readback(computed_heights);
        update_density(chunk, self.heights.values());

        // Voxel upload and counter reset.
        self.write_voxels(&chunk.voxels);
        self.atomics.copy_to_buffer(&self.atomics_staging);

        // Polygonization dispatch: the kernel consumes the device-side
        // voxel bytes — proven identical to the chunk's voxels — and
        // leaves its output and final counters in the device buffers.
        let device_field = parse_elements::<Voxel>(&self.voxels, CHUNK_SZ_3);
        proof {
            lemma_encode_seq_len::<Voxel>(chunk.voxels@);
            assert(self.voxels@.subrange(0, 262144) =~= encode_seq(chunk.voxels@));
            lemma_decode_encode::<Voxel>(chunk.voxels@, self.voxels@);
            assert(device_field@ == chunk.voxels@);
        }
        let mesh = polygonize_field(&device_field);
        self.vertices.device_store(&mesh.vertices);
        self.normals.device_store(&mesh.normals);
        self.uvs.device_store(&mesh.uvs);
        self.indices.device_store(&mesh.indices);

        // Counter read-back.
        self.counter_readback(mesh.vertices.len() as u32, mesh.indices.len() as u32);
        let av = self.atomics.values();
        let vertex_count = av[0] as usize;
        let index_count = av[1] as usize;
        proof {
            assert(vertex_count == mesh.vertices@.len());
            assert(index_count == mesh.indices@.len());
        }

        if vertex_count == 0 {
            // Degenerate chunk: skip the payload read-back entirely.
            proof {
                assert(mesh.indices@.len() == 0) by {
                    if mesh.indices@.len() > 0 {
                        assert(mesh.indices@[0] < 0);
                    }
                }
                assert(mesh.uvs@ =~= mesh_uvs(chunk.voxels@));
            }
            return MeshAssembly {
                positions: Vec::new(),
                normals: Vec::new(),
                uvs: Vec::new(),
                indices: Vec::new(),
            };
        }

        // Payload read-back, sized exactly to the counters.
        proof {
            lemma_encode_seq_len::<FxVec4>(mesh.vertices@);
            lemma_encode_seq_len::<FxVec4>(mesh.normals@);
            lemma_encode_seq_len::<FxVec2>(mesh.uvs@);
            lemma_encode_seq_len::<u32>(mesh.indices@);
            assert(self.vertices.device_bytes().subrange(
                0,
                (mesh.vertices@.len() * 16) as int,
            ) =~= encode_seq(mesh.vertices@));
            assert(self.normals.device_bytes().subrange(
                0,
                (mesh.normals@.len() * 16) as int,
            ) =~= encode_seq(mesh.normals@));
            assert(self.uvs.device_bytes().subrange(0, (mesh.uvs@.len() * 8) as int)
                =~= encode_seq(mesh.uvs@));
            assert(self.indices.device_bytes().subrange(0, (mesh.indices@.len() * 4) as int)
                =~= encode_seq(mesh.indices@));
        }
        self.payload_readback(&mesh);

        // Mesh assembly: 4-component device vertices and normals become the
        // consumer's 3-component format; texture coordinates and indices
        // carry over as they are.
        let positions = vec3_of_vec4(self.vertices.values());
        let normals_out = vec3_of_vec4(self.normals.values());
        let uvs_out = clone_values(self.uvs.values());
        let indices_out = clone_values(self.indices.values());
        MeshAssembly { positions, normals: normals_out, uvs: uvs_out, indices: indices_out }
    }
}

/// Drops the fourth component of every vector.
fn vec3_of_vec4(src: &Vec<FxVec4>) -> (r: Vec<FxVec3>)
    ensures
        r@.len() == src@.len(),
        forall|i: int| 0 <= i < src@.len() ==> #[trigger] r@[i] == FxVec3::spec_of_vec4(src@[i]),
{
    let n = src.len();
    let mut r: Vec<FxVec3> = Vec::new();
    let mut i: usize = 0;
    while i < n
        invariant
            i <= n,
            n == src@.len(),
            r@.len() == i,
            forall|j: int| 0 <= j < i ==> #[trigger] r@[j] == FxVec3::spec_of_vec4(src@[j]),
        decreases n - i,
    {
        r.push(FxVec3::of_vec4(&src[i]));
        i = i + 1;
    }
    r
}

/// Copies a vector of plain elements.
fn clone_values<T: Copy>(src: &Vec<T>) -> (r: Vec<T>)
    ensures
        r@ == src@,
{
    let n = src.len();
    let mut r: Vec<T> = Vec::new();
    let mut i: usize = 0;
    while i < n
        invariant
            i <= n,
            n == src@.len(),
            r@ == src@.take(i as int),
        decreases n - i,
    {
        r.push(src[i]);
        proof {
            assert(r@ =~= src@.take(i + 1));
        }
        i = i + 1;
    }
    proof {
        assert(src@.take(n as int) =~= src@);
    }
    r
}

} // verus!
