//! The symbol channel an Emmental program reads from and writes to.

use vstd::prelude::*;
use vstd::slice::{slice_index_get, slice_subrange};

use crate::emmental::{Error, Symbol};

verus! {

/// The byte a string-backed channel hands out once its input is exhausted
/// (the ASCII end-of-transmission character).
pub const EOT: Symbol = 4;

/// A channel of symbols.  `sio_input` is the sequence of symbols still to be
/// read, `sio_output` the symbols written so far; `sio_infallible` says that
/// the channel never fails, which lets callers rule out `IOError` results.
///
/// Reading past the end of the input either yields the `EOT` sentinel and
/// leaves the input empty, or fails; which of the two a channel does is the
/// channel's own business.
pub trait SymbolIO: Sized {
    /// The symbols still to be read.
    spec fn sio_input(&self) -> Seq<Symbol>;

    /// The symbols written so far.
    spec fn sio_output(&self) -> Seq<Symbol>;

    /// Whether this channel is known never to fail.
    spec fn sio_infallible(&self) -> bool;

    /// Reads one symbol.
    fn read_symbol(&mut self) -> (r: Result<Symbol, Error>)
        ensures
            final(self).sio_infallible() == old(self).sio_infallible(),
            final(self).sio_output() == old(self).sio_output(),
            r matches Ok(s) ==> ({
                if old(self).sio_input().len() > 0 {
                    s == old(self).sio_input().first()
                        && final(self).sio_input() == old(self).sio_input().drop_first()
                } else {
                    s == EOT && final(self).sio_input() == old(self).sio_input()
                }
            }),
            r matches Err(e) ==> e == Error::IOError
                && final(self).sio_input() == old(self).sio_input(),
            old(self).sio_infallible() ==> r is Ok,
        ;

    /// Writes one symbol.
    fn write_symbol(&mut self, sym: Symbol) -> (r: Result<(), Error>)
        ensures
            final(self).sio_infallible() == old(self).sio_infallible(),
            final(self).sio_input() == old(self).sio_input(),
            r matches Ok(u) ==> final(self).sio_output() == old(self).sio_output().push(sym),
            r matches Err(e) ==> e == Error::IOError
                && final(self).sio_output() == old(self).sio_output(),
            old(self).sio_infallible() ==> r is Ok,
        ;
}

/// A channel backed by in-memory buffers: reads walk a fixed input string and
/// yield `EOT` forever once it is spent; writes append to an output string.
/// It never fails.
pub struct StringIO<'s> {
    input: &'s [Symbol],
    output: Vec<Symbol>,
}

impl<'s> StringIO<'s> {
    /// A channel that will read the given symbols, with nothing written yet.
    pub fn new(input: &'s [Symbol]) -> (r: Self)
        ensures
            r.sio_input() == input@,
            r.sio_output() == Seq::<Symbol>::empty(),
            r.sio_infallible(),
    {
        StringIO { input, output: Vec::new() }
    }

    /// Hands the written symbols out.
    pub fn into_output(self) -> (r: Vec<Symbol>)
        ensures
            r@ == self.sio_output(),
    {
        self.output
    }
}

impl<'s> SymbolIO for StringIO<'s> {
    closed spec fn sio_input(&self) -> Seq<Symbol> {
        self.input@
    }

    closed spec fn sio_output(&self) -> Seq<Symbol> {
        self.output@
    }

    closed spec fn sio_infallible(&self) -> bool {
        true
    }

    fn read_symbol(&mut self) -> (r: Result<Symbol, Error>) {
        if self.input.len() == 0 {
            Ok(EOT)
        } else {
            let s = *slice_index_get(self.input, 0);
            self.input = slice_drop_first(self.input);
            Ok(s)
        }
    }

    fn write_symbol(&mut self, sym: Symbol) -> (r: Result<(), Error>) {
        self.output.push(sym);
        Ok(())
    }
}

/// The slice without its first element.
fn slice_drop_first(s: &[Symbol]) -> (r: &[Symbol])
    requires
        s@.len() > 0,
    ensures
        r@ == s@.drop_first(),
{
    let r = slice_subrange(s, 1, s.len());
    proof {
        assert(r@ =~= s@.drop_first());
    }
    r
}

} // verus!
