//! Meshes whose GPU buffers grow when more vertices or indices arrive than
//! they were made for. The GPU work (making, freeing and filling a buffer) is
//! handed in by the caller; the decisions of when to replace a buffer and
//! what the mesh then holds are made here.
use vstd::prelude::*;

use crate::ris_error::RisResult;

verus! {

/// Puts `items` into the buffer `*buffer` made for `*capacity` items: when
/// there are more items than that, a buffer made for `items` takes its place
/// (the old one is freed) and the capacity becomes their number; the buffer
/// is then filled with `items`.
fn grow_and_write<B, T>(
    buffer: &mut B,
    capacity: &mut usize,
    items: &[T],
    alloc_buffer: &impl Fn(&[T]) -> RisResult<B>,
    free_buffer: &impl Fn(B),
    write_buffer: &impl Fn(&B, &[T]) -> RisResult<()>,
) -> (res: RisResult<()>)
    requires
        call_requires(*alloc_buffer, (items,)),
        call_requires(*free_buffer, (*old(buffer),)),
        forall|b: &B| call_requires(*write_buffer, (b, items)),
    ensures
        grown(
            *old(buffer),
            *old(capacity),
            items,
            *alloc_buffer,
            *free_buffer,
            *write_buffer,
            *final(buffer),
            *final(capacity),
            res,
        ),
{
    if *capacity < items.len() {
        let new_buffer = match alloc_buffer(items) {
            Ok(b) => b,
            Err(e) => return Err(e),
        };
        *capacity = items.len();
        let mut old_buffer = new_buffer;
        std::mem::swap(buffer, &mut old_buffer);
        free_buffer(old_buffer);
    }
    write_buffer(buffer, items)
}

/// What [`grow_and_write`] leaves behind: with no more items than the
/// capacity, the buffer and capacity are kept and the result is the write's;
/// otherwise a failed allocation is handed back with nothing changed, and a
/// made buffer takes the old one's place with the items' number as capacity,
/// the old buffer being handed to `free_buffer`, before the write.
pub open spec fn grown<B, T>(
    old_buffer: B,
    old_capacity: usize,
    items: &[T],
    alloc_buffer: impl Fn(&[T]) -> RisResult<B>,
    free_buffer: impl Fn(B),
    write_buffer: impl Fn(&B, &[T]) -> RisResult<()>,
    new_buffer: B,
    new_capacity: usize,
    res: RisResult<()>,
) -> bool {
    if old_capacity < items@.len() {
        ||| (res matches Err(e) && call_ensures(alloc_buffer, (items,), Err(e)) && new_buffer
            == old_buffer && new_capacity == old_capacity)
        ||| (call_ensures(alloc_buffer, (items,), Ok(new_buffer)) && new_capacity == items@.len()
            && call_ensures(free_buffer, (old_buffer,), ()) && call_ensures(
            write_buffer,
            (&new_buffer, items),
            res,
        ))
    } else {
        &&& new_buffer == old_buffer
        &&& new_capacity == old_capacity
        &&& call_ensures(write_buffer, (&old_buffer, items), res)
    }
}

/// The segments of the debug gizmos, kept in one vertex buffer.
pub struct GizmoSegmentMesh<B> {
    pub vertices: B,
    /// The number of vertices the buffer was made for.
    pub vertex_count: usize,
}

impl<B> GizmoSegmentMesh<B> {
    /// A mesh for `vertices`: a buffer made for them and filled with them.
    pub fn allocate<V>(
        vertices: &[V],
        alloc_buffer: impl Fn(&[V]) -> RisResult<B>,
        write_buffer: impl Fn(&B, &[V]) -> RisResult<()>,
    ) -> (res: RisResult<Self>)
        requires
            call_requires(alloc_buffer, (vertices,)),
            forall|b: &B| call_requires(write_buffer, (b, vertices)),
        ensures
            match res {
                Ok(mesh) => mesh.vertex_count == vertices@.len() && call_ensures(
                    alloc_buffer,
                    (vertices,),
                    Ok(mesh.vertices),
                ) && call_ensures(write_buffer, (&mesh.vertices, vertices), Ok(())),
                Err(e) => call_ensures(alloc_buffer, (vertices,), Err(e)) || exists|b: B|
                    call_ensures(alloc_buffer, (vertices,), Ok(b)) && call_ensures(
                        write_buffer,
                        (&b, vertices),
                        Err(e),
                    ),
            },
    {
        let buffer = match alloc_buffer(vertices) {
            Ok(b) => b,
            Err(e) => return Err(e),
        };
        let written = write_buffer(&buffer, vertices);
        if let Err(e) = written {
            return Err(e);
        }
        assert(written->Ok_0 == ());
        Ok(Self { vertices: buffer, vertex_count: vertices.len() })
    }

    /// Puts `vertices` into the mesh, first replacing the buffer by a larger
    /// one when it was made for fewer vertices.
    pub fn update<V>(
        &mut self,
        vertices: &[V],
        alloc_buffer: impl Fn(&[V]) -> RisResult<B>,
        free_buffer: impl Fn(B),
        write_buffer: impl Fn(&B, &[V]) -> RisResult<()>,
    ) -> (res: RisResult<()>)
        requires
            call_requires(alloc_buffer, (vertices,)),
            call_requires(free_buffer, (old(self).vertices,)),
            forall|b: &B| call_requires(write_buffer, (b, vertices)),
        ensures
            grown(
                old(self).vertices,
                old(self).vertex_count,
                vertices,
                alloc_buffer,
                free_buffer,
                write_buffer,
                final(self).vertices,
                final(self).vertex_count,
                res,
            ),
    {
        grow_and_write(
            &mut self.vertices,
            &mut self.vertex_count,
            vertices,
            &alloc_buffer,
            &free_buffer,
            &write_buffer,
        )
    }
}

/// A mesh of the scene: a vertex buffer and an index buffer.
pub struct Mesh<B> {
    pub vertices: B,
    /// The number of vertices the vertex buffer was made for.
    pub vertex_count: usize,
    pub indices: B,
    /// The number of indices the index buffer was made for.
    pub index_count: usize,
}

/// How allocating a mesh for `vertices` and `indices` ended: on success the
/// vertex buffer was made for and filled with the vertices, the index buffer
/// made with the vertices' size and handed the indices; on failure, the first
/// of those steps that failed gave the error.
pub open spec fn allocate_outcome<B, V>(
    vertices: &[V],
    indices: &[u32],
    alloc_vertex_buffer: impl Fn(&[V]) -> RisResult<B>,
    alloc_index_buffer: impl Fn(&[V]) -> RisResult<B>,
    write_vertices: impl Fn(&B, &[V]) -> RisResult<()>,
    write_indices: impl Fn(&B, &[u32]) -> RisResult<()>,
    res: RisResult<Mesh<B>>,
) -> bool {
    match res {
        Ok(mesh) => {
            &&& mesh.vertex_count == vertices@.len()
            &&& mesh.index_count == indices@.len()
            &&& call_ensures(alloc_vertex_buffer, (vertices,), Ok(mesh.vertices))
            &&& call_ensures(write_vertices, (&mesh.vertices, vertices), Ok(()))
            &&& call_ensures(alloc_index_buffer, (vertices,), Ok(mesh.indices))
            &&& exists|w: RisResult<()>| call_ensures(write_indices, (&mesh.indices, indices), w)
        },
        Err(e) => {
            ||| call_ensures(alloc_vertex_buffer, (vertices,), Err(e))
            ||| exists|b: B|
                call_ensures(alloc_vertex_buffer, (vertices,), Ok(b)) && call_ensures(
                    write_vertices,
                    (&b, vertices),
                    Err(e),
                )
            ||| exists|b: B|
                call_ensures(alloc_vertex_buffer, (vertices,), Ok(b)) && call_ensures(
                    write_vertices,
                    (&b, vertices),
                    Ok(()),
                ) && call_ensures(alloc_index_buffer, (vertices,), Err(e))
        },
    }
}

/// How putting `vertices` and `indices` into the mesh `before` ended, with
/// `after` the mesh afterwards: the vertices first, each buffer replaced by a
/// larger one when it was made for fewer items; a failure with the vertices
/// leaves the indices untouched.
pub open spec fn update_outcome<B, V>(
    before: Mesh<B>,
    after: Mesh<B>,
    vertices: &[V],
    indices: &[u32],
    alloc_vertex_buffer: impl Fn(&[V]) -> RisResult<B>,
    alloc_index_buffer: impl Fn(&[u32]) -> RisResult<B>,
    free_buffer: impl Fn(B),
    write_vertices: impl Fn(&B, &[V]) -> RisResult<()>,
    write_indices: impl Fn(&B, &[u32]) -> RisResult<()>,
    res: RisResult<()>,
) -> bool {
    exists|vertex_res: RisResult<()>|
        {
            &&& grown(
                before.vertices,
                before.vertex_count,
                vertices,
                alloc_vertex_buffer,
                free_buffer,
                write_vertices,
                after.vertices,
                after.vertex_count,
                vertex_res,
            )
            &&& vertex_res is Err ==> res == vertex_res && after.indices == before.indices
                && after.index_count == before.index_count
            &&& vertex_res is Ok ==> grown(
                before.indices,
                before.index_count,
                indices,
                alloc_index_buffer,
                free_buffer,
                write_indices,
                after.indices,
                after.index_count,
                res,
            )
        }
}

impl<B> Mesh<B> {
    /// A mesh for `vertices` and `indices`. The vertex buffer is made for the
    /// vertices and filled with them; the index buffer is made with the
    /// vertices' size too, and filled with the indices without looking at
    /// whether that write failed.
    pub fn allocate<V>(
        vertices: &[V],
        indices: &[u32],
        alloc_vertex_buffer: impl Fn(&[V]) -> RisResult<B>,
        alloc_index_buffer: impl Fn(&[V]) -> RisResult<B>,
        write_vertices: impl Fn(&B, &[V]) -> RisResult<()>,
        write_indices: impl Fn(&B, &[u32]) -> RisResult<()>,
    ) -> (res: RisResult<Self>)
        requires
            call_requires(alloc_vertex_buffer, (vertices,)),
            call_requires(alloc_index_buffer, (vertices,)),
            forall|b: &B| call_requires(write_vertices, (b, vertices)),
            forall|b: &B| call_requires(write_indices, (b, indices)),
        ensures
            allocate_outcome(
                vertices,
                indices,
                alloc_vertex_buffer,
                alloc_index_buffer,
                write_vertices,
                write_indices,
                res,
            ),
    {
        let vertex_buffer = match alloc_vertex_buffer(vertices) {
            Ok(b) => b,
            Err(e) => return Err(e),
        };
        let written = write_vertices(&vertex_buffer, vertices);
        if let Err(e) = written {
            return Err(e);
        }
        assert(written->Ok_0 == ());
        let index_buffer = match alloc_index_buffer(vertices) {
            Ok(b) => b,
            Err(e) => return Err(e),
        };
        let index_written = write_indices(&index_buffer, indices);
        assert(call_ensures(write_indices, (&index_buffer, indices), index_written));
        Ok(
            Self {
                vertices: vertex_buffer,
                vertex_count: vertices.len(),
                indices: index_buffer,
                index_count: indices.len(),
            },
        )
    }

    /// Puts `vertices` and then `indices` into the mesh, each time first
    /// replacing the buffer by a larger one when it was made for fewer items;
    /// a failure with the vertices leaves the indices untouched.
    pub fn update<V>(
        &mut self,
        vertices: &[V],
        indices: &[u32],
        alloc_vertex_buffer: impl Fn(&[V]) -> RisResult<B>,
        alloc_index_buffer: impl Fn(&[u32]) -> RisResult<B>,
        free_buffer: impl Fn(B),
        write_vertices: impl Fn(&B, &[V]) -> RisResult<()>,
        write_indices: impl Fn(&B, &[u32]) -> RisResult<()>,
    ) -> (res: RisResult<()>)
        requires
            call_requires(alloc_vertex_buffer, (vertices,)),
            call_requires(alloc_index_buffer, (indices,)),
            call_requires(free_buffer, (old(self).vertices,)),
            call_requires(free_buffer, (old(self).indices,)),
            forall|b: &B| call_requires(write_vertices, (b, vertices)),
            forall|b: &B| call_requires(write_indices, (b, indices)),
        ensures
            update_outcome(
                *old(self),
                *final(self),
                vertices,
                indices,
                alloc_vertex_buffer,
                alloc_index_buffer,
                free_buffer,
                write_vertices,
                write_indices,
                res,
            ),
    {
        let vertex_res = grow_and_write(
            &mut self.vertices,
            &mut self.vertex_count,
            vertices,
            &alloc_vertex_buffer,
            &free_buffer,
            &write_vertices,
        );
        let ghost after_vertices = self.vertices;
        let ghost after_vertex_count = self.vertex_count;
        proof {
            assert(grown(
                old(self).vertices,
                old(self).vertex_count,
                vertices,
                alloc_vertex_buffer,
                free_buffer,
                write_vertices,
                after_vertices,
                after_vertex_count,
                vertex_res,
            ));
        }
        if vertex_res.is_err() {
            return vertex_res;
        }
        let res = grow_and_write(
            &mut self.indices,
            &mut self.index_count,
            indices,
            &alloc_index_buffer,
            &free_buffer,
            &write_indices,
        );
        assert(self.vertices == after_vertices && self.vertex_count == after_vertex_count);
        res
    }
}

/// The larger of two counts.
pub open spec fn larger(a: usize, b: int) -> int {
    if a >= b {
        a as int
    } else {
        b
    }
}

/// What a successful [`Mesh::update`] leaves: each count is the larger of the
/// old count and the number of new items; a buffer is kept when its new items
/// fit in the old count, and otherwise it is one made for the new items, the
/// old one having been handed to `free_buffer`; each buffer was filled with
/// its new items.
pub proof fn lemma_update_succeeded<B, V>(
    before: Mesh<B>,
    after: Mesh<B>,
    vertices: &[V],
    indices: &[u32],
    alloc_vertex_buffer: impl Fn(&[V]) -> RisResult<B>,
    alloc_index_buffer: impl Fn(&[u32]) -> RisResult<B>,
    free_buffer: impl Fn(B),
    write_vertices: impl Fn(&B, &[V]) -> RisResult<()>,
    write_indices: impl Fn(&B, &[u32]) -> RisResult<()>,
)
    requires
        update_outcome(
            before,
            after,
            vertices,
            indices,
            alloc_vertex_buffer,
            alloc_index_buffer,
            free_buffer,
            write_vertices,
            write_indices,
            Ok(()),
        ),
    ensures
        after.vertex_count == larger(before.vertex_count, vertices@.len() as int),
        after.index_count == larger(before.index_count, indices@.len() as int),
        vertices@.len() <= before.vertex_count ==> after.vertices == before.vertices,
        indices@.len() <= before.index_count ==> after.indices == before.indices,
        vertices@.len() > before.vertex_count ==> call_ensures(
            alloc_vertex_buffer,
            (vertices,),
            Ok(after.vertices),
        ) && call_ensures(free_buffer, (before.vertices,), ()),
        indices@.len() > before.index_count ==> call_ensures(
            alloc_index_buffer,
            (indices,),
            Ok(after.indices),
        ) && call_ensures(free_buffer, (before.indices,), ()),
        call_ensures(write_vertices, (&after.vertices, vertices), Ok(())),
        call_ensures(write_indices, (&after.indices, indices), Ok(())),
{
    let vertex_res = choose|vertex_res: RisResult<()>|
        {
            &&& grown(
                before.vertices,
                before.vertex_count,
                vertices,
                alloc_vertex_buffer,
                free_buffer,
                write_vertices,
                after.vertices,
                after.vertex_count,
                vertex_res,
            )
            &&& vertex_res is Err ==> Ok::<(), crate::ris_error::RisError>(()) == vertex_res
                && after.indices == before.indices && after.index_count == before.index_count
            &&& vertex_res is Ok ==> grown(
                before.indices,
                before.index_count,
                indices,
                alloc_index_buffer,
                free_buffer,
                write_indices,
                after.indices,
                after.index_count,
                Ok(()),
            )
        };
    assert(vertex_res is Ok);
    assert(vertex_res->Ok_0 == ());
}

/// The mesh a frame draws from: the frame's mesh, updated with `vertices`
/// and `indices`, when it has one; otherwise a mesh newly allocated for
/// them, which the frame keeps when the allocation succeeded.
pub fn prepare_frame_mesh<B, V>(
    slot: &mut Option<Mesh<B>>,
    vertices: &[V],
    indices: &[u32],
    alloc_vertex_buffer: impl Fn(&[V]) -> RisResult<B>,
    alloc_first_index_buffer: impl Fn(&[V]) -> RisResult<B>,
    alloc_index_buffer: impl Fn(&[u32]) -> RisResult<B>,
    free_buffer: impl Fn(B),
    write_vertices: impl Fn(&B, &[V]) -> RisResult<()>,
    write_indices: impl Fn(&B, &[u32]) -> RisResult<()>,
) -> (res: RisResult<()>)
    requires
        call_requires(alloc_vertex_buffer, (vertices,)),
        call_requires(alloc_first_index_buffer, (vertices,)),
        call_requires(alloc_index_buffer, (indices,)),
        *old(slot) matches Some(mesh) ==> call_requires(free_buffer, (mesh.vertices,))
            && call_requires(free_buffer, (mesh.indices,)),
        forall|b: &B| call_requires(write_vertices, (b, vertices)),
        forall|b: &B| call_requires(write_indices, (b, indices)),
    ensures
        match *old(slot) {
            Some(before) => *final(slot) matches Some(after) && update_outcome(
                before,
                after,
                vertices,
                indices,
                alloc_vertex_buffer,
                alloc_index_buffer,
                free_buffer,
                write_vertices,
                write_indices,
                res,
            ),
            None => match res {
                Ok(_) => *final(slot) matches Some(mesh) && allocate_outcome(
                    vertices,
                    indices,
                    alloc_vertex_buffer,
                    alloc_first_index_buffer,
                    write_vertices,
                    write_indices,
                    Ok(mesh),
                ),
                Err(e) => *final(slot) is None && allocate_outcome(
                    vertices,
                    indices,
                    alloc_vertex_buffer,
                    alloc_first_index_buffer,
                    write_vertices,
                    write_indices,
                    Err(e),
                ),
            },
        },
{
    match slot.take() {
        Some(mut mesh) => {
            let res = mesh.update(
                vertices,
                indices,
                alloc_vertex_buffer,
                alloc_index_buffer,
                free_buffer,
                write_vertices,
                write_indices,
            );
            *slot = Some(mesh);
            res
        },
        None => {
            match Mesh::allocate(
                vertices,
                indices,
                alloc_vertex_buffer,
                alloc_first_index_buffer,
                write_vertices,
                write_indices,
            ) {
                Ok(mesh) => {
                    *slot = Some(mesh);
                    Ok(())
                },
                Err(e) => Err(e),
            }
        },
    }
}

} // verus!
