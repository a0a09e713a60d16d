//! The set of file descriptors the network task waits on.

use vstd::prelude::*;
use crate::initd::util::{AutoCloseFD, FD};

verus! {

/// Descriptors to wait on for reading, each once, in the order added.
pub struct Select<'a> {
    read_fds: Vec<&'a AutoCloseFD>,
}

impl<'a> View for Select<'a> {
    type V = Seq<i32>;

    closed spec fn view(&self) -> Seq<i32> {
        self.read_fds@.map_values(|f: &AutoCloseFD| f@)
    }
}

impl<'a> Select<'a> {
    #[verifier::type_invariant]
    closed spec fn distinct(&self) -> bool {
        self@.no_duplicates()
    }

    pub fn new() -> (s: Self)
        ensures
            s@.len() == 0,
    {
        Self { read_fds: Vec::new() }
    }

    /// Adds `fd` unless a descriptor with the same number is there already.
    pub fn add_read_fd(&mut self, fd: &'a AutoCloseFD)
        ensures
            old(self)@.contains(fd@) ==> final(self)@ == old(self)@,
            !old(self)@.contains(fd@) ==> final(self)@ == old(self)@.push(fd@),
            final(self)@.no_duplicates(),
    {
        proof {
            use_type_invariant(&*self);
        }
        let ghost before = self@;
        let mut i: usize = 0;
        while i < self.read_fds.len()
            invariant
                i <= self.read_fds@.len(),
                before == self.read_fds@.map_values(|f: &AutoCloseFD| f@),
                before.no_duplicates(),
                forall|j: int| 0 <= j < i ==> self.read_fds@[j]@ != fd@,
            decreases self.read_fds@.len() - i,
        {
            if self.read_fds[i].get() == fd.get() {
                proof {
                    assert(before[i as int] == fd@);
                }
                return;
            }
            i = i + 1;
        }
        proof {
            if before.contains(fd@) {
                let j = choose|j: int| 0 <= j < before.len() && before[j] == fd@;
                assert(self.read_fds@[j]@ == fd@);
            }
        }
        let mut fds: Vec<&'a AutoCloseFD> = Vec::new();
        std::mem::swap(&mut fds, &mut self.read_fds);
        fds.push(fd);
        proof {
            assert(fds@.map_values(|f: &AutoCloseFD| f@) =~= before.push(fd@));
        }
        self.read_fds = fds;
    }

    /// Waits for one of the descriptors to become readable; the task does
    /// not wait yet, so this returns at once.
    pub fn poll(&self) {
    }
}

/// Adding a descriptor twice is the same as adding it once.
pub proof fn lemma_add_read_fd_idempotent(s0: Seq<i32>, s1: Seq<i32>, s2: Seq<i32>, fd: i32)
    requires
        !s0.contains(fd) ==> s1 == s0.push(fd),
        s0.contains(fd) ==> s1 == s0,
        s1.contains(fd) ==> s2 == s1,
        !s1.contains(fd) ==> s2 == s1.push(fd),
    ensures
        s2 == s1,
        s2.contains(fd),
{
    if !s0.contains(fd) {
        assert(s1[s0.len() as int] == fd);
    }
}

} // verus!
