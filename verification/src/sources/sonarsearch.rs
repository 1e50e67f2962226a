use vstd::prelude::*;
use vstd::string::StrSliceExecFns;

use crate::error::VitaError;
use crate::text::{clone_strings, string_views};
use crate::QUEUE_SIZE;

verus! {

broadcast use
    vstd::prelude::Seq::lemma_flatten_push,
    vstd::prelude::Seq::lemma_take_succ_push,
    vstd::prelude::Seq::push_distributes_over_add;

/// Gathers streamed names into batches of a fixed size, so one full
/// batch at a time travels over the aggregation channel.
pub struct Batcher {
    buf: Vec<String>,
    cap: usize,
}

impl Batcher {
    /// The names gathered and not yet handed out.
    pub closed spec fn buffered(&self) -> Seq<Seq<char>> {
        string_views(self.buf@)
    }

    /// The batch size.
    pub closed spec fn capacity(&self) -> nat {
        self.cap as nat
    }

    /// The buffer always has room for one more name.
    pub open spec fn wf(&self) -> bool {
        self.capacity() >= 1 && self.buffered().len() < self.capacity()
    }

    /// An empty batcher for batches of `cap` names.
    pub fn new(cap: usize) -> (r: Self)
        requires
            cap >= 1,
        ensures
            r.wf(),
            r.capacity() == cap,
            r.buffered() == Seq::<Seq<char>>::empty(),
    {
        let r = Batcher { buf: Vec::new(), cap };
        proof {
            assert(r.buffered() =~= Seq::<Seq<char>>::empty());
        }
        r
    }

    /// An empty batcher for batches of the aggregation queue's size.
    pub fn with_queue_size() -> (r: Self)
        ensures
            r.wf(),
            r.capacity() == QUEUE_SIZE,
            r.buffered() == Seq::<Seq<char>>::empty(),
    {
        Self::new(QUEUE_SIZE)
    }

    /// Takes one name in; a full batch comes out once it is complete.
    pub fn push(&mut self, item: String) -> (out: Option<Vec<String>>)
        requires
            old(self).wf(),
        ensures
            final(self).wf(),
            final(self).capacity() == old(self).capacity(),
            old(self).buffered().len() + 1 == old(self).capacity() ==> (out matches Some(b)
                && string_views(b@) == old(self).buffered().push(item@) && final(self).buffered()
                == Seq::<Seq<char>>::empty()),
            old(self).buffered().len() + 1 < old(self).capacity() ==> out is None
                && final(self).buffered() == old(self).buffered().push(item@),
    {
        let ghost pre = string_views(self.buf@);
        let ghost iv = item@;
        self.buf.push(item);
        proof {
            assert(string_views(self.buf@) =~= pre.push(iv));
        }
        if self.buf.len() == self.cap {
            let full = clone_strings(&self.buf);
            self.buf.clear();
            proof {
                assert(string_views(self.buf@) =~= Seq::<Seq<char>>::empty());
            }
            Some(full)
        } else {
            None
        }
    }

    /// Hands out what remains, unless nothing does.
    pub fn flush(&mut self) -> (out: Option<Vec<String>>)
        requires
            old(self).wf(),
        ensures
            final(self).wf(),
            final(self).capacity() == old(self).capacity(),
            final(self).buffered() == Seq::<Seq<char>>::empty(),
            old(self).buffered().len() > 0 ==> (out matches Some(b) && string_views(b@)
                == old(self).buffered()),
            old(self).buffered().len() == 0 ==> out is None,
    {
        if self.buf.len() > 0 {
            let rest = clone_strings(&self.buf);
            self.buf.clear();
            proof {
                assert(string_views(self.buf@) =~= Seq::<Seq<char>>::empty());
            }
            Some(rest)
        } else {
            proof {
                assert(string_views(self.buf@) =~= Seq::<Seq<char>>::empty());
            }
            None
        }
    }
}

/// Handles one bulk answer once it has streamed in, the names taken
/// here as plain values: they travel onwards in order, chunked into
/// full batches of the queue size plus one final smaller batch, and the
/// invocation succeeds exactly when at least one name came.
pub fn batch_stream(names: Vec<String>, host: &str) -> (r: (
    Vec<Vec<String>>,
    Result<(), VitaError>,
))
    ensures
        r.0@.map_values(|b: Vec<String>| string_views(b@)).flatten() == string_views(names@),
        forall|k: int| 0 <= k < r.0@.len() ==> 0 < (#[trigger] r.0@[k])@.len() <= QUEUE_SIZE,
        forall|k: int| 0 <= k < r.0@.len() - 1 ==> (#[trigger] r.0@[k])@.len() == QUEUE_SIZE,
        names@.len() > 0 <==> r.1 is Ok,
        r.1 matches Err(e) ==> (e matches VitaError::SourceError(s, h) && s@ == "SonarSearch"@
            && h@ == host@),
{
    let ghost nv = string_views(names@);
    let ghost fv = |b: Vec<String>| string_views(b@);
    let mut batches: Vec<Vec<String>> = Vec::new();
    let mut batcher = Batcher::with_queue_size();
    proof {
        assert(batches@.map_values(fv).flatten() + batcher.buffered() =~= nv.take(0));
    }
    let mut i: usize = 0;
    while i < names.len()
        invariant
            fv == (|b: Vec<String>| string_views(b@)),
            nv == string_views(names@),
            i <= names.len(),
            batcher.wf(),
            batcher.capacity() == QUEUE_SIZE,
            batches@.map_values(fv).flatten() + batcher.buffered() =~= nv.take(i as int),
            forall|k: int| 0 <= k < batches@.len() ==> (#[trigger] batches@[k])@.len()
                == QUEUE_SIZE,
        decreases names.len() - i,
    {
        let item = names[i].clone();
        let ghost itv = item@;
        proof {
            assert(itv == nv[i as int]);
        }
        let ghost flat_pre = batches@.map_values(fv).flatten();
        let ghost buf_pre = batcher.buffered();
        match batcher.push(item) {
            Some(full) => {
                let ghost pre = batches@;
                batches.push(full);
                proof {
                    assert(string_views(full@) == buf_pre.push(itv));
                    assert(full@.len() == QUEUE_SIZE);
                    assert(batches@.map_values(fv) =~= pre.map_values(fv).push(
                        string_views(full@),
                    ));
                    assert(batches@.map_values(fv).flatten() =~= flat_pre + buf_pre.push(itv));
                    assert(batches@.map_values(fv).flatten() + batcher.buffered() =~= nv.take(
                        i + 1,
                    ));
                }
            },
            None => {
                proof {
                    assert(batches@.map_values(fv).flatten() + batcher.buffered() =~= nv.take(
                        i + 1,
                    ));
                }
            },
        }
        i += 1;
    }
    proof {
        assert(nv.take(names@.len() as int) =~= nv);
    }
    match batcher.flush() {
        Some(rest) => {
            let ghost pre = batches@;
            proof {
                assert(string_views(rest@).len() > 0);
            }
            batches.push(rest);
            proof {
                assert(batches@.map_values(fv) =~= pre.map_values(fv).push(
                    string_views(batches@.last()@),
                ));
                assert(batches@.map_values(fv).flatten() =~= nv);
            }
        },
        None => {
            proof {
                assert(batches@.map_values(fv).flatten() =~= nv);
            }
        },
    }
    let outcome = if names.len() > 0 {
        Ok(())
    } else {
        Err(VitaError::SourceError("SonarSearch".to_owned(), host.to_owned()))
    };
    (batches, outcome)
}

/// The SonarSearch source, answered over a streaming bulk interface.
#[derive(Clone, Copy, Debug, Default)]
pub struct SonarSearch;

impl SonarSearch {
    /// A fresh handle on this source.
    pub fn new() -> Self {
        SonarSearch
    }
}

} // verus!
