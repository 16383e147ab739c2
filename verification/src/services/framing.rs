//! Line framing of an event stream: a byte stream is cut at each line feed
//! into complete lines and one trailing partial line.

use vstd::prelude::*;

verus! {

/// The byte that ends a line.
pub open spec fn line_feed() -> u8 {
    0x0a
}

/// The reading of `stream` one byte at a time, with `open` as the line
/// gathered before its first byte: a line feed closes the line gathered so
/// far, any other byte joins it. The result is the lines that were closed,
/// in order and without their line feeds, and the line left open.
pub open spec fn frames_after(open: Seq<u8>, stream: Seq<u8>) -> (Seq<Seq<u8>>, Seq<u8>)
    decreases stream.len(),
{
    if stream.len() == 0 {
        (Seq::empty(), open)
    } else {
        let before = frames_after(open, stream.drop_last());
        if stream.last() == line_feed() {
            (before.0.push(before.1), Seq::empty())
        } else {
            (before.0, before.1.push(stream.last()))
        }
    }
}

/// The complete lines of `stream`, in order and without their line feeds,
/// and the partial line after the last line feed.
pub open spec fn frames(stream: Seq<u8>) -> (Seq<Seq<u8>>, Seq<u8>) {
    frames_after(Seq::empty(), stream)
}

/// The lines of `stream` that a line feed has closed.
pub open spec fn complete_lines(stream: Seq<u8>) -> Seq<Seq<u8>> {
    frames(stream).0
}

/// What `stream` holds after its last line feed.
pub open spec fn partial_line(stream: Seq<u8>) -> Seq<u8> {
    frames(stream).1
}

/// `lines`, each followed by a line feed, one after the other.
pub open spec fn closed_lines(lines: Seq<Seq<u8>>) -> Seq<u8>
    decreases lines.len(),
{
    if lines.len() == 0 {
        Seq::empty()
    } else {
        closed_lines(lines.drop_last()) + lines.last().push(line_feed())
    }
}

/// Framing loses and adds nothing: the closed lines with their line feeds,
/// followed by the open line, are the bytes read.
pub proof fn lemma_frames_after_rebuild(open: Seq<u8>, stream: Seq<u8>)
    ensures
        closed_lines(frames_after(open, stream).0) + frames_after(open, stream).1 == open
            + stream,
    decreases stream.len(),
{
    let result = frames_after(open, stream);
    if stream.len() > 0 {
        let init = stream.drop_last();
        lemma_frames_after_rebuild(open, init);
        let before = frames_after(open, init);
        assert((open + init).push(stream.last()) =~= open + stream);
        if stream.last() == line_feed() {
            assert(result.0.drop_last() =~= before.0);
        }
    }
}

/// No line that framing closes holds a line feed, nor does the line that it
/// leaves open, where the line gathered before held none.
pub proof fn lemma_frames_after_clean(open: Seq<u8>, stream: Seq<u8>)
    requires
        !open.contains(line_feed()),
    ensures
        !frames_after(open, stream).1.contains(line_feed()),
        forall|i: int|
            0 <= i < frames_after(open, stream).0.len() ==> !(#[trigger] frames_after(
                open,
                stream,
            ).0[i]).contains(line_feed()),
    decreases stream.len(),
{
    if stream.len() > 0 {
        lemma_frames_after_clean(open, stream.drop_last());
    }
}

/// The complete lines of a stream with their line feeds, followed by its
/// partial line, are the stream; and no line holds a line feed.
pub proof fn lemma_frames_rebuild(stream: Seq<u8>)
    ensures
        closed_lines(complete_lines(stream)) + partial_line(stream) == stream,
        !partial_line(stream).contains(line_feed()),
        forall|i: int|
            0 <= i < complete_lines(stream).len() ==> !(#[trigger] complete_lines(
                stream,
            )[i]).contains(line_feed()),
{
    lemma_frames_after_rebuild(Seq::empty(), stream);
    lemma_frames_after_clean(Seq::empty(), stream);
}

/// Reading `head` and then `tail` is reading `head + tail`: the lines of
/// the whole are the lines of `head`, then the lines of `tail` read with
/// what `head` left open.
pub proof fn lemma_frames_resume(open: Seq<u8>, head: Seq<u8>, tail: Seq<u8>)
    ensures
        frames_after(open, head + tail).0 == frames_after(open, head).0 + frames_after(
            frames_after(open, head).1,
            tail,
        ).0,
        frames_after(open, head + tail).1 == frames_after(frames_after(open, head).1, tail).1,
    decreases tail.len(),
{
    if tail.len() > 0 {
        let init = tail.drop_last();
        lemma_frames_resume(open, head, init);
        assert((head + tail).drop_last() =~= head + init);
    }
}

} // verus!
