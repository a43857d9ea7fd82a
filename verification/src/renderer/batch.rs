//! Batching of draw calls: consecutive draws of the same kind and texture share one
//! buffer, which is flushed when the kind or the texture changes.
use vstd::prelude::*;

verus! {

/// Kind of primitives that a batch holds.
#[derive(Copy, Clone, Debug, PartialEq, Eq, Structural)]
pub enum BufferContentType {
    Sprite,
    Shape,
}

/// What the batch being filled holds: the kind of primitives and their texture.
#[derive(Copy, Clone, Debug, PartialEq, Eq, Structural)]
pub struct BufferMetadata {
    pub content_type: BufferContentType,
    pub texture_id: Option<usize>,
}

impl BufferMetadata {
    /// Metadata of a batch of the given kind and texture.
    pub fn new(content_type: BufferContentType, texture_id: Option<usize>) -> (metadata: Self)
        ensures
            metadata.content_type == content_type,
            metadata.texture_id == texture_id,
    {
        BufferMetadata { content_type, texture_id }
    }
}

/// Whether drawing a primitive of a kind and texture must first flush the current batch.
pub open spec fn needs_flush(
    current: Option<BufferMetadata>,
    content_type: BufferContentType,
    texture_id: Option<usize>,
) -> bool {
    match current {
        Some(metadata) => metadata.content_type != content_type || metadata.texture_id != texture_id,
        None => false,
    }
}

/// Tracks the batch being filled.
pub struct BatchState {
    pub metadata: Option<BufferMetadata>,
}

impl BatchState {
    /// No batch is being filled.
    pub fn new() -> (state: Self)
        ensures
            state.metadata is None,
    {
        BatchState { metadata: None }
    }

    /// Prepares drawing a primitive of a kind and texture: returns whether the current batch
    /// must be flushed first; the batch then holds that kind and texture.
    pub fn begin_draw(&mut self, content_type: BufferContentType, texture_id: Option<usize>) -> (flush:
        bool)
        ensures
            flush == needs_flush(old(self).metadata, content_type, texture_id),
            final(self).metadata == Some(BufferMetadata { content_type, texture_id }),
    {
        let flush = match &self.metadata {
            Some(metadata) => metadata.content_type != content_type || metadata.texture_id
                != texture_id,
            None => false,
        };
        self.metadata = Some(BufferMetadata::new(content_type, texture_id));
        flush
    }

    /// Prepares drawing a primitive of a kind and texture, and returns the batch that must
    /// be drawn before it: the current one when its kind or texture differs, else `None`.
    /// The batch then holds that kind and texture.
    pub fn switch_batch(&mut self, content_type: BufferContentType, texture_id: Option<usize>) -> (to_flush:
        Option<BufferMetadata>)
        ensures
            to_flush == if needs_flush(old(self).metadata, content_type, texture_id) {
                old(self).metadata
            } else {
                None
            },
            final(self).metadata == Some(BufferMetadata { content_type, texture_id }),
    {
        let current = self.metadata;
        if self.begin_draw(content_type, texture_id) {
            current
        } else {
            None
        }
    }

    /// The batch was flushed: no batch is being filled.
    pub fn end_batch(&mut self)
        ensures
            final(self).metadata is None,
    {
        self.metadata = None;
    }
}

/// Drawing twice in a row with the same kind and texture never flushes in between.
pub proof fn lemma_same_batch_no_flush(content_type: BufferContentType, texture_id: Option<usize>)
    ensures
        !needs_flush(Some(BufferMetadata { content_type, texture_id }), content_type, texture_id),
        !needs_flush(None, content_type, texture_id),
{
}

/// Number of words that describe one sprite.
pub const SPRITE_WORDS: usize = 12;

/// Queue of sprite words waiting to be drawn.
pub struct SpriteBuffer {
    pub vertices_queue: Vec<u32>,
    pub vertices_count: usize,
    pub count: usize,
    pub resized: bool,
}

impl SpriteBuffer {
    /// The queued words fit the queue.
    pub open spec fn wf(&self) -> bool {
        &&& self.vertices_count <= self.vertices_queue@.len()
        &&& self.vertices_count == self.count * SPRITE_WORDS
    }

    /// Empty queue of `capacity` words.
    pub fn new(capacity: usize) -> (buffer: Self)
        ensures
            buffer.wf(),
            buffer.vertices_queue@.len() == capacity,
            buffer.count == 0,
            !buffer.resized,
    {
        let mut vertices_queue: Vec<u32> = Vec::new();
        vertices_queue.resize(capacity, 0);
        SpriteBuffer { vertices_queue, vertices_count: 0, count: 0, resized: false }
    }

    /// Queues the words of one sprite; the queue doubles when they would not leave room.
    pub fn push_sprite(&mut self, words: &[u32])
        requires
            old(self).wf(),
            words@.len() == SPRITE_WORDS,
            old(self).vertices_count + SPRITE_WORDS < 2 * old(self).vertices_queue@.len(),
            2 * old(self).vertices_queue@.len() <= usize::MAX,
        ensures
            final(self).wf(),
            final(self).count == old(self).count + 1,
            final(self).vertices_queue@.subrange(0, old(self).vertices_count as int) == old(
                self,
            ).vertices_queue@.subrange(0, old(self).vertices_count as int),
            final(self).vertices_queue@.subrange(
                old(self).vertices_count as int,
                final(self).vertices_count as int,
            ) == words@,
            final(self).vertices_queue@.len() == if old(self).vertices_count + SPRITE_WORDS
                >= old(self).vertices_queue@.len() {
                2 * old(self).vertices_queue@.len()
            } else {
                old(self).vertices_queue@.len()
            },
            final(self).resized == (old(self).resized || old(self).vertices_count + SPRITE_WORDS
                >= old(self).vertices_queue@.len()),
    {
        let ghost before = self.vertices_queue@;
        if self.vertices_count + SPRITE_WORDS >= self.vertices_queue.len() {
            let doubled = self.vertices_queue.len() * 2;
            self.vertices_queue.resize(doubled, 0);
            self.resized = true;
        }
        let ghost grown_len = self.vertices_queue@.len();
        let ghost resized_now = self.resized;
        let start = self.vertices_count;
        let mut k: usize = 0;
        while k < SPRITE_WORDS
            invariant
                self.vertices_queue@.len() == grown_len,
                self.resized == resized_now,
                k <= SPRITE_WORDS,
                words@.len() == SPRITE_WORDS,
                start + SPRITE_WORDS <= self.vertices_queue@.len(),
                start + SPRITE_WORDS <= usize::MAX,
                start <= before.len(),
                start == self.vertices_count,
                start == self.count * SPRITE_WORDS,
                self.count == old(self).count,
                self.vertices_queue@.len() >= before.len(),
                forall|j: int| 0 <= j < start ==> self.vertices_queue@[j] == before[j],
                forall|j: int| 0 <= j < k ==> self.vertices_queue@[start + j] == words@[j],
            decreases SPRITE_WORDS - k,
        {
            self.vertices_queue.set(start + k, words[k]);
            k = k + 1;
        }
        self.vertices_count = start + SPRITE_WORDS;
        self.count = self.count + 1;
        assert(self.vertices_queue@.subrange(0, start as int) =~= before.subrange(0, start as int));
        assert(self.vertices_queue@.subrange(start as int, self.vertices_count as int) =~= words@);
    }

    /// The queue was drawn: it is empty again.
    pub fn clear(&mut self)
        ensures
            final(self).wf(),
            final(self).count == 0,
            final(self).vertices_queue == old(self).vertices_queue,
            final(self).resized == old(self).resized,
    {
        self.count = 0;
        self.vertices_count = 0;
    }
}

/// Queues of shape vertex words and indices waiting to be drawn.
pub struct ShapeBuffer {
    pub vertices_queue: Vec<u32>,
    pub indices_queue: Vec<u32>,
    pub vertices_count: usize,
    pub indices_count: usize,
    pub indices_max: u32,
    pub resized: bool,
}

/// Largest value of `base + index + 1` over the indices of a shape, at least `current`.
pub open spec fn indices_bound(current: u32, base: u32, indices: Seq<u32>) -> int
    decreases indices.len(),
{
    if indices.len() == 0 {
        current as int
    } else {
        let rest = indices_bound(current, base, indices.drop_last());
        let candidate = base + indices.last() + 1;
        if candidate > rest {
            candidate
        } else {
            rest
        }
    }
}

/// A length doubled `times` times.
pub open spec fn doubled(length: nat, times: nat) -> nat
    decreases times,
{
    if times == 0 {
        length
    } else {
        2 * doubled(length, (times - 1) as nat)
    }
}

impl ShapeBuffer {
    /// The queued data fit the queues, the queues are not empty, and every queued index is
    /// below `indices_max`.
    pub open spec fn wf(&self) -> bool {
        &&& 0 < self.vertices_queue@.len()
        &&& 0 < self.indices_queue@.len()
        &&& self.vertices_count <= self.vertices_queue@.len()
        &&& self.indices_count <= self.indices_queue@.len()
        &&& forall|i: int| 0 <= i < self.indices_count ==> #[trigger] self.indices_queue@[i] < self.indices_max
    }

    /// Empty queues of the given sizes.
    pub fn new(vertices_capacity: usize, indices_capacity: usize) -> (buffer: Self)
        requires
            0 < vertices_capacity,
            0 < indices_capacity,
        ensures
            buffer.wf(),
            buffer.vertices_queue@.len() == vertices_capacity,
            buffer.indices_queue@.len() == indices_capacity,
            buffer.vertices_count == 0,
            buffer.indices_count == 0,
            buffer.indices_max == 0,
            !buffer.resized,
    {
        let mut vertices_queue: Vec<u32> = Vec::new();
        vertices_queue.resize(vertices_capacity, 0);
        let mut indices_queue: Vec<u32> = Vec::new();
        indices_queue.resize(indices_capacity, 0);
        ShapeBuffer {
            vertices_queue,
            indices_queue,
            vertices_count: 0,
            indices_count: 0,
            indices_max: 0,
            resized: false,
        }
    }

    /// Queues a shape: its vertex words, and its indices shifted past the vertices queued
    /// before. The queues double until the shape leaves room in both.
    pub fn push_shape(&mut self, vertices: &[u32], indices: &[u32])
        requires
            old(self).wf(),
            old(self).vertices_count + vertices@.len() < usize::MAX / 4,
            old(self).indices_count + indices@.len() < usize::MAX / 4,
            forall|i: int|
                0 <= i < indices@.len() ==> old(self).indices_max + #[trigger] indices@[i] + 1
                    <= u32::MAX,
        ensures
            final(self).wf(),
            final(self).vertices_count == old(self).vertices_count + vertices@.len(),
            final(self).indices_count == old(self).indices_count + indices@.len(),
            final(self).vertices_queue@.subrange(0, old(self).vertices_count as int) == old(
                self,
            ).vertices_queue@.subrange(0, old(self).vertices_count as int),
            final(self).vertices_queue@.subrange(
                old(self).vertices_count as int,
                final(self).vertices_count as int,
            ) == vertices@,
            final(self).indices_queue@.subrange(0, old(self).indices_count as int) == old(
                self,
            ).indices_queue@.subrange(0, old(self).indices_count as int),
            forall|i: int|
                0 <= i < indices@.len() ==> #[trigger] final(self).indices_queue@[old(
                    self,
                ).indices_count + i] == old(self).indices_max + indices@[i],
            final(self).indices_max == indices_bound(old(self).indices_max, old(self).indices_max, indices@),
            final(self).vertices_count < final(self).vertices_queue@.len(),
            final(self).indices_count < final(self).indices_queue@.len(),
            exists|times: nat|
                final(self).vertices_queue@.len() == doubled(
                    old(self).vertices_queue@.len() as nat,
                    times,
                ),
            exists|times: nat|
                final(self).indices_queue@.len() == doubled(
                    old(self).indices_queue@.len() as nat,
                    times,
                ),
            final(self).vertices_queue@.len() == old(self).vertices_queue@.len()
                || final(self).vertices_queue@.len() <= 2 * final(self).vertices_count + 1,
            final(self).indices_queue@.len() == old(self).indices_queue@.len()
                || final(self).indices_queue@.len() <= 2 * final(self).indices_count + 1,
            final(self).resized == (old(self).resized || final(self).vertices_queue@.len() != old(
                self,
            ).vertices_queue@.len() || final(self).indices_queue@.len() != old(
                self,
            ).indices_queue@.len()),
    {
        let ghost old_vertices = self.vertices_queue@;
        let ghost old_indices = self.indices_queue@;
        let ghost mut vertex_doublings: nat = 0;
        let ghost mut index_doublings: nat = 0;
        loop
            invariant
                0 < self.vertices_queue@.len(),
                0 < self.indices_queue@.len(),
                self.vertices_count <= self.vertices_queue@.len(),
                self.indices_count <= self.indices_queue@.len(),
                self.vertices_count + vertices@.len() < usize::MAX / 4,
                self.indices_count + indices@.len() < usize::MAX / 4,
                self.vertices_queue@.len() < 2 * (self.vertices_count + vertices@.len()) + 2
                    || self.vertices_queue@.len() == old_vertices.len(),
                self.indices_queue@.len() < 2 * (self.indices_count + indices@.len()) + 2
                    || self.indices_queue@.len() == old_indices.len(),
                self.vertices_queue@.len() >= old_vertices.len(),
                self.indices_queue@.len() >= old_indices.len(),
                forall|j: int| 0 <= j < old_vertices.len() ==> self.vertices_queue@[j] == old_vertices[j],
                forall|j: int| 0 <= j < old_indices.len() ==> self.indices_queue@[j] == old_indices[j],
                self.vertices_count == old(self).vertices_count,
                self.indices_count == old(self).indices_count,
                self.indices_max == old(self).indices_max,
                old_vertices == old(self).vertices_queue@,
                old_indices == old(self).indices_queue@,
                self.vertices_queue@.len() == doubled(old_vertices.len() as nat, vertex_doublings),
                self.indices_queue@.len() == doubled(old_indices.len() as nat, index_doublings),
                self.resized == (old(self).resized || self.vertices_queue@.len() != old_vertices.len()
                    || self.indices_queue@.len() != old_indices.len()),
            ensures
                self.vertices_queue@.len() == doubled(old_vertices.len() as nat, vertex_doublings),
                self.indices_queue@.len() == doubled(old_indices.len() as nat, index_doublings),
                self.resized == (old(self).resized || self.vertices_queue@.len() != old_vertices.len()
                    || self.indices_queue@.len() != old_indices.len()),
                self.vertices_queue@.len() < 2 * (self.vertices_count + vertices@.len()) + 2
                    || self.vertices_queue@.len() == old_vertices.len(),
                self.indices_queue@.len() < 2 * (self.indices_count + indices@.len()) + 2
                    || self.indices_queue@.len() == old_indices.len(),
                self.vertices_count + vertices@.len() < self.vertices_queue@.len(),
                self.indices_count + indices@.len() < self.indices_queue@.len(),
                self.vertices_queue@.len() >= old_vertices.len(),
                self.indices_queue@.len() >= old_indices.len(),
                forall|j: int| 0 <= j < old_vertices.len() ==> self.vertices_queue@[j] == old_vertices[j],
                forall|j: int| 0 <= j < old_indices.len() ==> self.indices_queue@[j] == old_indices[j],
                self.vertices_count == old(self).vertices_count,
                self.indices_count == old(self).indices_count,
                self.indices_max == old(self).indices_max,
            decreases (usize::MAX - self.vertices_queue@.len()) + (usize::MAX - self.indices_queue@.len()),
        {
            let mut sufficient_space = true;
            if self.vertices_count + vertices.len() >= self.vertices_queue.len() {
                let length = self.vertices_queue.len() * 2;
                self.vertices_queue.resize(length, 0);
                self.resized = true;
                sufficient_space = false;
                proof {
                    vertex_doublings = vertex_doublings + 1;
                }
            }
            if self.indices_count + indices.len() >= self.indices_queue.len() {
                let length = self.indices_queue.len() * 2;
                self.indices_queue.resize(length, 0);
                self.resized = true;
                sufficient_space = false;
                proof {
                    index_doublings = index_doublings + 1;
                }
            }
            if sufficient_space {
                break;
            }
        }
        let ghost grown_indices = self.indices_queue@;
        let ghost grown_vertex_length = self.vertices_queue@.len();
        let ghost resized_after = self.resized;
        let vertices_start = self.vertices_count;
        let mut k: usize = 0;
        while k < vertices.len()
            invariant
                k <= vertices@.len(),
                vertices_start == old(self).vertices_count,
                vertices_start + vertices@.len() < usize::MAX / 4,
                vertices_start + vertices@.len() < self.vertices_queue@.len(),
                self.vertices_queue@.len() >= old_vertices.len(),
                forall|j: int| 0 <= j < vertices_start ==> self.vertices_queue@[j] == old_vertices[j],
                vertices_start <= old_vertices.len(),
                old_vertices == old(self).vertices_queue@,
                forall|j: int| 0 <= j < k ==> self.vertices_queue@[vertices_start + j] == vertices@[j],
                self.vertices_queue@.len() == grown_vertex_length,
                self.resized == resized_after,
                self.indices_queue@ == grown_indices,
                self.vertices_count == old(self).vertices_count,
                self.indices_count == old(self).indices_count,
                self.indices_max == old(self).indices_max,
            decreases vertices@.len() - k,
        {
            self.vertices_queue.set(vertices_start + k, vertices[k]);
            k = k + 1;
        }
        let ghost vertices_after = self.vertices_queue@;
        let base = self.indices_max;
        let indices_start = self.indices_count;
        let mut max = self.indices_max;
        let mut i: usize = 0;
        while i < indices.len()
            invariant
                i <= indices@.len(),
                base == old(self).indices_max,
                indices_start == old(self).indices_count,
                indices_start + indices@.len() < self.indices_queue@.len(),
                indices_start + indices@.len() < usize::MAX / 4,
                indices_start <= old_indices.len(),
                old_indices == old(self).indices_queue@,
                self.indices_queue@.len() == grown_indices.len(),
                self.resized == resized_after,
                self.vertices_queue@ == vertices_after,
                forall|j: int| 0 <= j < indices_start ==> self.indices_queue@[j] == old_indices[j],
                forall|j: int| 0 <= j < i ==> #[trigger] self.indices_queue@[indices_start + j] == base + indices@[j],
                forall|j: int| 0 <= j < indices@.len() ==> base + #[trigger] indices@[j] + 1 <= u32::MAX,
                max == indices_bound(base, base, indices@.take(i as int)),
                max >= base,
                forall|j: int| 0 <= j < i ==> base + #[trigger] indices@[j] < max,
            decreases indices@.len() - i,
        {
            let index = base + indices[i];
            self.indices_queue.set(indices_start + i, index);
            proof {
                assert(indices@.take(i + 1).drop_last() =~= indices@.take(i as int));
                assert(indices@.take(i + 1).last() == indices@[i as int]);
            }
            if index + 1 > max {
                max = index + 1;
            }
            i = i + 1;
        }
        self.indices_max = max;
        self.vertices_count = vertices_start + vertices.len();
        self.indices_count = indices_start + indices.len();
        proof {
            assert(self.vertices_queue@.len() == doubled(old_vertices.len() as nat, vertex_doublings));
            assert(self.indices_queue@.len() == doubled(old_indices.len() as nat, index_doublings));
            assert(indices@.take(indices@.len() as int) =~= indices@);
            assert(self.vertices_queue@.subrange(0, vertices_start as int) =~= old_vertices.subrange(
                0,
                vertices_start as int,
            ));
            assert(self.vertices_queue@.subrange(
                vertices_start as int,
                self.vertices_count as int,
            ) =~= vertices@);
            assert(self.indices_queue@.subrange(0, indices_start as int) =~= old_indices.subrange(
                0,
                indices_start as int,
            ));
            assert forall|j: int| 0 <= j < self.indices_count implies #[trigger] self.indices_queue@[j]
                < self.indices_max by {
                if j < indices_start {
                    assert(self.indices_queue@[j] == old_indices[j]);
                } else {
                    assert(self.indices_queue@[indices_start + (j - indices_start)] == base
                        + indices@[j - indices_start]);
                }
            }
        }
    }

    /// The queues were drawn: they are empty again.
    pub fn clear(&mut self)
        ensures
            final(self).vertices_count == 0,
            final(self).indices_count == 0,
            final(self).indices_max == 0,
            final(self).vertices_queue == old(self).vertices_queue,
            final(self).indices_queue == old(self).indices_queue,
            final(self).resized == old(self).resized,
            old(self).wf() ==> final(self).wf(),
    {
        self.vertices_count = 0;
        self.indices_count = 0;
        self.indices_max = 0;
    }
}

} // verus!
