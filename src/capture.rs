use vstd::prelude::*;

verus! {

/// The append-only buffer that a capture stream fills with converted
/// samples. Its owner drains it once, at finalize, by taking the whole
/// contents out.
pub struct SampleBuffer {
    samples: Vec<i16>,
}

impl View for SampleBuffer {
    type V = Seq<i16>;

    closed spec fn view(&self) -> Seq<i16> {
        self.samples@
    }
}

impl SampleBuffer {
    pub fn new() -> (r: SampleBuffer)
        ensures
            r@ == Seq::<i16>::empty(),
    {
        SampleBuffer { samples: Vec::new() }
    }

    /// Appends one sample at the end.
    pub fn push(&mut self, sample: i16)
        ensures
            final(self)@ == old(self)@.push(sample),
    {
        self.samples.push(sample);
    }

    /// Appends a run of samples at the end, in order.
    pub fn extend(&mut self, chunk: &[i16])
        ensures
            final(self)@ == old(self)@ + chunk@,
    {
        let mut i: usize = 0;
        while i < chunk.len()
            invariant
                0 <= i <= chunk@.len(),
                self@ == old(self)@ + chunk@.take(i as int),
            decreases chunk@.len() - i,
        {
            self.samples.push(chunk[i]);
            i = i + 1;
            assert(chunk@.take(i as int) =~= chunk@.take(i - 1).push(chunk@[i - 1]));
        }
        assert(chunk@.take(i as int) =~= chunk@);
    }

    pub fn len(&self) -> (r: usize)
        ensures
            r == self@.len(),
    {
        self.samples.len()
    }

    pub fn is_empty(&self) -> (r: bool)
        ensures
            r == (self@.len() == 0),
    {
        self.samples.len() == 0
    }

    /// Takes the whole contents out, leaving the buffer empty. Nothing is copied.
    pub fn take(&mut self) -> (r: Vec<i16>)
        ensures
            r@ == old(self)@,
            final(self)@ == Seq::<i16>::empty(),
    {
        let mut out: Vec<i16> = Vec::new();
        std::mem::swap(&mut self.samples, &mut out);
        out
    }
}

} // verus!
