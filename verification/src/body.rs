//! Reading the body of a request.
use vstd::prelude::*;

verus! {

/// What the stream of a request's body yields.
pub enum Chunk {
    /// The next bytes.
    Bytes(Vec<u8>),
    /// The body is complete.
    End,
    /// The body cannot be read any further.
    Failed,
}

/// What the stream of a request's body yields, as contracts speak of it.
pub enum ChunkView {
    Bytes(Seq<u8>),
    End,
    Failed,
}

impl View for Chunk {
    type V = ChunkView;

    open spec fn view(&self) -> ChunkView {
        match self {
            Chunk::Bytes(bytes) => ChunkView::Bytes(bytes@),
            Chunk::End => ChunkView::End,
            Chunk::Failed => ChunkView::Failed,
        }
    }
}

/// The body of a request could not be read.
#[derive(Debug, PartialEq, Eq, Structural)]
pub struct BodyError;

/// How far a body has been read.
pub enum Progress {
    /// These bytes so far; there may be more.
    More(Vec<u8>),
    /// As far as it goes.
    Done(Result<Vec<u8>, BodyError>),
}

/// How far a body has been read, as contracts speak of it.
pub enum ProgressView {
    More(Seq<u8>),
    Done(Result<Seq<u8>, BodyError>),
}

impl View for Progress {
    type V = ProgressView;

    open spec fn view(&self) -> ProgressView {
        match self {
            Progress::More(bytes) => ProgressView::More(bytes@),
            Progress::Done(body) => ProgressView::Done(body_of(*body)),
        }
    }
}

/// A body as contracts speak of it.
pub open spec fn body_of(body: Result<Vec<u8>, BodyError>) -> Result<Seq<u8>, BodyError> {
    match body {
        Ok(bytes) => Ok(bytes@),
        Err(error) => Err(error),
    }
}

/// What has been read of a body once `chunk` has followed the bytes in `read`.
pub open spec fn read_on(read: Seq<u8>, chunk: ChunkView) -> ProgressView {
    match chunk {
        ChunkView::Bytes(bytes) => ProgressView::More(read + bytes),
        ChunkView::End => ProgressView::Done(Ok(read)),
        ChunkView::Failed => ProgressView::Done(Err(BodyError)),
    }
}

/// Takes up the next part of a body, of which `read` has been read.
pub fn concat(read: Vec<u8>, chunk: Chunk) -> (progress: Progress)
    ensures
        progress@ == read_on(read@, chunk@),
{
    match chunk {
        Chunk::Bytes(mut bytes) => {
            let mut read = read;
            read.append(&mut bytes);
            Progress::More(read)
        },
        Chunk::End => Progress::Done(Ok(read)),
        Chunk::Failed => Progress::Done(Err(BodyError)),
    }
}

/// The body that a stream yields: its bytes in order where it ends, no body where
/// it fails, and `None` where it does neither.
pub open spec fn streamed(read: Seq<u8>, chunks: Seq<ChunkView>) -> Option<
    Result<Seq<u8>, BodyError>,
>
    decreases chunks.len(),
{
    if chunks.len() == 0 {
        None
    } else {
        match read_on(read, chunks[0]) {
            ProgressView::More(bytes) => streamed(bytes, chunks.drop_first()),
            ProgressView::Done(body) => Some(body),
        }
    }
}

/// A stream of chunks that ends.
pub open spec fn ended(chunks: Seq<Seq<u8>>) -> Seq<ChunkView> {
    chunks.map_values(|bytes: Seq<u8>| ChunkView::Bytes(bytes)).push(ChunkView::End)
}

/// However a body is cut into chunks, it is read as the chunks put together.
pub proof fn law_chunks_are_put_together(read: Seq<u8>, chunks: Seq<Seq<u8>>)
    ensures
        streamed(read, ended(chunks)) == Some(Ok::<Seq<u8>, BodyError>(read + chunks.flatten())),
    decreases chunks.len(),
{
    if chunks.len() == 0 {
        assert(read + chunks.flatten() =~= read);
    } else {
        law_chunks_are_put_together(read + chunks[0], chunks.drop_first());
        assert(ended(chunks).drop_first() =~= ended(chunks.drop_first()));
        assert(ended(chunks)[0] == ChunkView::Bytes(chunks[0]));
        assert(read + chunks.flatten() =~= read + chunks[0] + chunks.drop_first().flatten());
    }
}

/// A body whose stream fails is not read at all, whatever came before.
pub proof fn law_broken_body_is_no_body(read: Seq<u8>, chunks: Seq<Seq<u8>>, rest: Seq<ChunkView>)
    ensures
        streamed(
            read,
            chunks.map_values(|bytes: Seq<u8>| ChunkView::Bytes(bytes)).push(ChunkView::Failed)
                + rest,
        ) == Some(Err::<Seq<u8>, BodyError>(BodyError)),
    decreases chunks.len(),
{
    let stream = chunks.map_values(|bytes: Seq<u8>| ChunkView::Bytes(bytes)).push(
        ChunkView::Failed,
    ) + rest;
    if chunks.len() == 0 {
        assert(stream[0] == ChunkView::Failed);
    } else {
        law_broken_body_is_no_body(read + chunks[0], chunks.drop_first(), rest);
        assert(stream[0] == ChunkView::Bytes(chunks[0]));
        assert(stream.drop_first() =~= chunks.drop_first().map_values(
            |bytes: Seq<u8>| ChunkView::Bytes(bytes),
        ).push(ChunkView::Failed) + rest);
    }
}

} // verus!
