//! The frame drainer's decision: which scratch buffers hold the frames that
//! one drain call lifted out of a channel's ring buffer.
use vstd::prelude::*;
use crate::registry::ChannelError;

verus! {

/// The outcome of one drain call on the channel of `unit`: `read` is how
/// many frames the ring buffer reported as written into `buffers` (`None`
/// when it could not be read). Only the first `read` buffers hold frames of
/// this call; the others hold stale bytes and are ignored.
pub fn drained_frames(unit: u32, read: Option<usize>, buffers: &Vec<Vec<u8>>) -> (r: Result<
    Vec<Vec<u8>>,
    ChannelError,
>)
    ensures
        read is None ==> r == Err::<Vec<Vec<u8>>, ChannelError>(ChannelError::Read(unit)),
        read matches Some(n) ==> r matches Ok(frames) && frames.deep_view()
            == buffers.deep_view().take(
            if n < buffers@.len() {
                n as int
            } else {
                buffers@.len() as int
            },
        ),
{
    let n = match read {
        None => return Err(ChannelError::Read(unit)),
        Some(n) => n,
    };
    let count = if n < buffers.len() {
        n
    } else {
        buffers.len()
    };
    let mut frames: Vec<Vec<u8>> = Vec::new();
    let mut i: usize = 0;
    while i < count
        invariant
            count <= buffers@.len(),
            i <= count,
            frames.deep_view() =~= buffers.deep_view().take(i as int),
        decreases count - i,
    {
        let frame = vstd::slice::slice_to_vec(buffers[i].as_slice());
        assert(frame.deep_view() =~= buffers.deep_view()[i as int]);
        frames.push(frame);
        assert(frames.deep_view() =~= buffers.deep_view().take(i as int).push(frame.deep_view()));
        i = i + 1;
    }
    Ok(frames)
}

} // verus!
