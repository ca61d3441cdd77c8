use vstd::prelude::*;

verus! {

/// `std::io::Error`, named so that a writer's results can carry it. Nothing
/// is said of what is inside; the writer here never makes one.
#[verifier::external_type_specification]
#[verifier::external_body]
pub struct ExIoError(std::io::Error);

/// A byte sink over a borrowed vector: whatever is written is appended to it.
///
/// The view of a writer is the vector's contents as they stand.
pub struct VecWriter<'a>(pub &'a mut Vec<u8>);

impl<'a> VecWriter<'a> {
    pub open spec fn view(&self) -> Seq<u8> {
        (*self.0)@
    }

    /// Starts writing behind what `vec` already holds. Once the writer is
    /// gone, `vec` holds what the writer held last.
    pub fn new(vec: &'a mut Vec<u8>) -> (w: VecWriter<'a>)
        ensures
            w@ == old(vec)@,
            final(w.0)@ == final(vec)@,
    {
        VecWriter(vec)
    }
}

impl<'a> std::io::Write for VecWriter<'a> {
    /// Appends all of `buf` and reports its length; never fails.
    fn write(&mut self, buf: &[u8]) -> (r: Result<usize, std::io::Error>)
        ensures
            r matches Ok(n) && n == buf@.len(),
            final(self)@ == old(self)@ + buf@,
            final(final(self).0)@ == final(old(self).0)@,
    {
        self.0.extend_from_slice(buf);
        Ok(buf.len())
    }

    /// Nothing is buffered, so there is nothing to do; never fails.
    fn flush(&mut self) -> (r: Result<(), std::io::Error>)
        ensures
            r is Ok,
            final(self)@ == old(self)@,
            final(final(self).0)@ == final(old(self).0)@,
    {
        Ok(())
    }
}

} // verus!
