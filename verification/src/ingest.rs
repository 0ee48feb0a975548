//! The ordered single-producer/single-consumer handoff between the
//! asynchronous file-picking task and the synchronous per-frame update.
//!
//! The queue is unbounded and strictly first-in-first-out: `send` appends at
//! the tail, and `try_receive` hands out at most one item per call, always
//! the oldest one, so the gallery's append order matches pick order.

use vstd::prelude::*;
use crate::files::{FileData, FileDataView};

verus! {

/// The buffer that carries pending imports from the file picker to the
/// per-frame poll, in send order.
pub struct FileIngestQueue {
    items: Vec<FileData>,
}

impl View for FileIngestQueue {
    type V = Seq<FileDataView>;

    closed spec fn view(&self) -> Seq<FileDataView> {
        self.items@.map_values(|fd: FileData| fd@)
    }
}

impl FileIngestQueue {
    /// An empty queue.
    pub fn new() -> (q: Self)
        ensures
            q@ == Seq::<FileDataView>::empty(),
    {
        let q = FileIngestQueue { items: Vec::new() };
        proof {
            assert(q@ =~= Seq::<FileDataView>::empty());
        }
        q
    }

    /// How many items wait in the queue.
    pub fn len(&self) -> (n: usize)
        ensures
            n == self@.len(),
    {
        self.items.len()
    }

    /// Appends one item at the tail; nothing already queued moves.
    pub fn send(&mut self, item: FileData)
        ensures
            final(self)@ == old(self)@.push(item@),
    {
        let ghost it = item@;
        self.items.push(item);
        proof {
            assert(self@ =~= old(self)@.push(it));
        }
    }

    /// Hands out the oldest queued item, or nothing when the queue is
    /// empty; at most one item leaves per call, and the rest keep their
    /// order.
    pub fn try_receive(&mut self) -> (r: Option<FileData>)
        ensures
            old(self)@.len() == 0 ==> r is None && final(self)@ == old(self)@,
            old(self)@.len() > 0 ==> r is Some && r->Some_0@ == old(self)@[0] && final(self)@
                == old(self)@.skip(1),
    {
        if self.items.len() == 0 {
            None
        } else {
            let fd = self.items.remove(0);
            proof {
                assert(self@ =~= old(self)@.skip(1));
            }
            Some(fd)
        }
    }

    /// Queues one file read by the picker, unless the read came back
    /// empty: an empty read is discarded and the queue stays as it is.
    pub fn send_picked(&mut self, name: String, bytes: Vec<u8>) -> (sent: bool)
        ensures
            bytes@.len() == 0 ==> !sent && final(self)@ == old(self)@,
            bytes@.len() > 0 ==> sent && final(self)@ == old(self)@.push(
                (FileDataView { name: name@, bytes: bytes@, mime: None }),
            ),
    {
        if bytes.len() == 0 {
            false
        } else {
            self.send(FileData { name, bytes, mime: None });
            true
        }
    }
}

/// Items come out of the queue exactly in send order: after a run of sends
/// has left the queue holding `s`, the item that the i-th `try_receive`
/// hands out is `s[i]` (each call removes the head, leaving `s.skip(i + 1)`),
/// and once all of `s` is drained a further call finds the queue empty.
pub proof fn lemma_fifo_order(s: Seq<FileDataView>, i: int)
    requires
        0 <= i < s.len(),
    ensures
        s.skip(i)[0] == s[i],
        s.skip(i).skip(1) == s.skip(i + 1),
        s.skip(s.len() as int).len() == 0,
{
    assert(s.skip(i).skip(1) =~= s.skip(i + 1));
}

} // verus!
