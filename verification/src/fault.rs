//! Domain errors carried through the runtime, and the append-only sink
//! that records non-fatal outcomes.

use vstd::prelude::*;

verus! {

/// A wrapped domain error: whatever a unit's own logic reports when a
/// step, a handler or a routine poll fails.
#[derive(Debug)]
pub struct Fault {
    message: String,
}

impl Fault {
    /// Wraps a description of what went wrong.
    pub fn new(message: String) -> (f: Fault)
        ensures
            f@ == message@,
    {
        Fault { message }
    }

    /// The recorded description.
    pub fn message(&self) -> (m: &String)
        ensures
            m@ == self@,
    {
        &self.message
    }
}

impl View for Fault {
    type V = Seq<char>;

    closed spec fn view(&self) -> Seq<char> {
        self.message@
    }
}

/// An append-only sink of outcomes of internal runtime operations.
/// Recording never halts execution; the owner inspects the sink after
/// the runtime terminates.
pub struct Failures {
    faults: Vec<Fault>,
}

impl View for Failures {
    type V = Seq<Seq<char>>;

    closed spec fn view(&self) -> Seq<Seq<char>> {
        self.faults@.map_values(|f: Fault| f@)
    }
}

impl Failures {
    /// An empty sink.
    pub fn new() -> (fs: Failures)
        ensures
            fs@ == Seq::<Seq<char>>::empty(),
    {
        Failures { faults: Vec::new() }
    }

    /// Records the outcome of an operation: a success leaves the sink
    /// unchanged, a failure is appended and never raised again. The
    /// record is append-only: what the sink held before is a prefix of
    /// what it holds after.
    pub fn put(&mut self, res: Result<(), Fault>)
        ensures
            match res {
                Ok(()) => final (self)@ == old(self)@,
                Err(f) => final (self)@ == old(self)@.push(f@),
            },
            old(self)@.is_prefix_of(final (self)@),
    {
        match res {
            Ok(()) => {}
            Err(f) => {
                let ghost prior = self.faults@;
                self.faults.push(f);
                proof {
                    assert(self.faults@.map_values(|x: Fault| x@) =~= prior.map_values(
                        |x: Fault| x@,
                    ).push(self.faults@.last()@));
                }
            }
        }
        proof {
            lemma_prefix_extends(old(self)@, self@);
        }
    }

    /// How many failures have been recorded so far.
    pub fn count(&self) -> (n: usize)
        ensures
            n == self@.len(),
    {
        let n = self.faults.len();
        proof {
            assert(self@.len() == self.faults@.len());
        }
        n
    }

    /// Whether nothing has failed yet.
    pub fn is_empty(&self) -> (b: bool)
        ensures
            b == (self@.len() == 0),
    {
        self.count() == 0
    }

    /// The recorded failure at a position, oldest first.
    pub fn get(&self, i: usize) -> (f: &Fault)
        requires
            i < self@.len(),
        ensures
            f@ == self@[i as int],
    {
        &self.faults[i]
    }
}

impl Default for Failures {
    /// An empty sink.
    fn default() -> (fs: Failures)
        ensures
            fs@ == Seq::<Seq<char>>::empty(),
    {
        Failures::new()
    }
}

/// A record that only ever grows keeps its past: a sequence is a
/// prefix of itself and of itself extended by anything.
pub proof fn lemma_prefix_extends<A>(a: Seq<A>, b: Seq<A>)
    requires
        a == b || (b.len() == a.len() + 1 && (exists|x: A| b == a.push(x))),
    ensures
        a.is_prefix_of(b),
{
    if a == b {
        assert(a =~= b.subrange(0, a.len() as int));
    } else {
        let x = choose|x: A| b == a.push(x);
        assert(a =~= a.push(x).subrange(0, a.len() as int));
    }
}

/// Prefixes chain: the start of the start of a record is a start of
/// the record.
pub proof fn lemma_prefix_trans<A>(a: Seq<A>, b: Seq<A>, c: Seq<A>)
    requires
        a.is_prefix_of(b),
        b.is_prefix_of(c),
    ensures
        a.is_prefix_of(c),
{
    assert(a =~= c.subrange(0, a.len() as int)) by {
        assert(forall|i: int|
            0 <= i < a.len() ==> a[i] == #[trigger] b.subrange(0, a.len() as int)[i]);
    }
}


} // verus!
