use vstd::prelude::*;

verus! {

/// Which standard stream of a supervised subprocess a chunk was read from.
#[derive(Clone, Copy, PartialEq, Eq, Structural, Debug)]
pub enum Stream {
    Stderr,
    Stdout,
}

/// Ordered log of everything read from a subprocess's standard output and
/// standard error: one entry per read chunk, tagged by its source stream.
/// Two concurrent reader threads append to it under one lock; once the
/// process has exited and both readers are joined it is only read.
pub struct Output {
    output: Vec<(Stream, Vec<u8>)>,
}

/// The chunks of `log` tagged `tag`, concatenated in arrival order.
pub open spec fn stream_concat(log: Seq<(Stream, Seq<u8>)>, tag: Stream) -> Seq<u8>
    decreases log.len(),
{
    if log.len() == 0 {
        Seq::empty()
    } else {
        stream_concat(log.drop_last(), tag) + (if log.last().0 == tag {
            log.last().1
        } else {
            Seq::empty()
        })
    }
}

impl Output {
    /// Abstract view: the tagged chunk log, each chunk as its byte sequence.
    pub closed spec fn log(&self) -> Seq<(Stream, Seq<u8>)> {
        self.output@.map_values(|c: (Stream, Vec<u8>)| (c.0, c.1@))
    }

    /// An empty log, ready to accumulate chunks.
    pub fn new() -> (out: Output)
        ensures
            out.log() =~= Seq::<(Stream, Seq<u8>)>::empty(),
    {
        Output { output: Vec::new() }
    }

    /// Record one chunk read from `stream`.
    pub fn push(&mut self, stream: Stream, data: Vec<u8>)
        ensures
            final(self).log() == old(self).log().push((stream, data@)),
    {
        self.output.push((stream, data));
        proof {
            assert(self.log() =~= old(self).log().push((stream, data@)));
        }
    }

    /// All bytes read from the process's standard output, in arrival order,
    /// byte for byte, whatever the interleaving with standard-error chunks.
    pub fn stdout(&self) -> (r: Vec<u8>)
        ensures
            r@ == stream_concat(self.log(), Stream::Stdout),
    {
        self.stream_bytes(Stream::Stdout)
    }

    /// All bytes read from the process's standard error, in arrival order:
    /// the diagnostic text reported when the process fails.
    pub fn stderr(&self) -> (r: Vec<u8>)
        ensures
            r@ == stream_concat(self.log(), Stream::Stderr),
    {
        self.stream_bytes(Stream::Stderr)
    }

    /// Concatenation of the chunks tagged `tag`, in arrival order.
    fn stream_bytes(&self, tag: Stream) -> (r: Vec<u8>)
        ensures
            r@ == stream_concat(self.log(), tag),
    {
        let mut val: Vec<u8> = Vec::new();
        let mut i: usize = 0;
        while i < self.output.len()
            invariant
                i <= self.output.len(),
                val@ == stream_concat(self.log().take(i as int), tag),
            decreases self.output.len() - i,
        {
            proof {
                assert(self.log()[i as int] == (self.output@[i as int].0, self.output@[i as int].1@));
            }
            if self.output[i].0 == tag {
                let chunk = &self.output[i].1;
                let mut j: usize = 0;
                while j < chunk.len()
                    invariant
                        j <= chunk.len(),
                        val@ == stream_concat(self.log().take(i as int), tag) + chunk@.take(j as int),
                        i < self.output.len(),
                        chunk@ == self.output@[i as int].1@,
                    decreases chunk.len() - j,
                {
                    val.push(chunk[j]);
                    proof {
                        assert(chunk@.take(j + 1) =~= chunk@.take(j as int).push(chunk@[j as int]));
                        assert(val@ =~= stream_concat(self.log().take(i as int), tag) + chunk@.take(
                            j + 1,
                        ));
                    }
                    j += 1;
                }
                proof {
                    assert(chunk@.take(chunk@.len() as int) =~= chunk@);
                }
            }
            proof {
                let l = self.log();
                assert(l.take(i + 1).drop_last() =~= l.take(i as int));
                assert(l.take(i + 1).last() == l[i as int]);
                if l[i as int].0 != tag {
                    assert(val@ =~= stream_concat(l.take(i as int), tag) + Seq::<u8>::empty());
                }
            }
            i += 1;
        }
        proof {
            assert(self.log().take(self.output.len() as int) =~= self.log());
        }
        val
    }

    /// Verdict of a supervised run, taken only after both readers have been
    /// joined: on success the accumulated standard-output bytes, on a
    /// non-zero exit the accumulated standard-error bytes as diagnostics.
    pub fn verdict(&self, exit_success: bool) -> (r: Result<Vec<u8>, Vec<u8>>)
        ensures
            r is Ok <==> exit_success,
            r is Ok ==> r->Ok_0@ == stream_concat(self.log(), Stream::Stdout),
            r is Err ==> r->Err_0@ == stream_concat(self.log(), Stream::Stderr),
    {
        if exit_success {
            Ok(self.stdout())
        } else {
            Err(self.stderr())
        }
    }
}

/// Whether diagnostic output should be colored: an explicit
/// always-color override wins, then an explicit no-color veto, and
/// otherwise color is used exactly when standard error is a terminal.
pub fn color_choice(always_color: bool, no_color: bool, stderr_is_terminal: bool) -> (r: bool)
    ensures
        r == (always_color || (!no_color && stderr_is_terminal)),
{
    if always_color {
        true
    } else if no_color {
        false
    } else {
        stderr_is_terminal
    }
}

} // verus!
