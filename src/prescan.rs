//! Pre-scans: cheap whole-file checks that let the search skip, before any
//! line-by-line work, the files that cannot hold a definition.
use crate::pattern::{regex_finds, regex_source};
use regex::Regex;
use vstd::prelude::*;
use vstd::utf8::encode_utf8;

verus! {

/// `needle` occurs in `haystack` starting at index `i`.
pub open spec fn occurs_at(haystack: Seq<u8>, needle: Seq<u8>, i: int) -> bool {
    0 <= i && i + needle.len() <= haystack.len() && haystack.subrange(i, i + needle.len())
        == needle
}

/// `needle` occurs somewhere in `haystack`.
pub open spec fn occurs_in(haystack: Seq<u8>, needle: Seq<u8>) -> bool {
    exists|i: int| occurs_at(haystack, needle, i)
}

/// Relies on memchr::memmem::find: the index of the first occurrence of
/// `needle` in `haystack`, or `None` when there is none.
pub assume_specification[ memchr::memmem::find ](haystack: &[u8], needle: &[u8]) -> (r: Option<
    usize,
>)
    ensures
        r is Some <==> occurs_in(haystack@, needle@),
        r matches Some(i) ==> occurs_at(haystack@, needle@, i as int) && forall|j: int|
            0 <= j < i ==> !occurs_at(haystack@, needle@, j),
;

/// The pre-scan on the whole file read as text, with the line pattern
/// `pattern`: `None` stands for a file that could not be read as text.
pub open spec fn whole_text_may_match(pattern: Seq<char>, text: Option<Seq<char>>) -> bool {
    match text {
        Some(t) => t.len() > 0 && regex_finds(pattern, t),
        None => false,
    }
}

/// Pre-scan on a file held in memory as text: false for an unreadable or
/// empty file, else whether `re` matches anywhere in it.
pub fn does_file_match_regexp(text: &Option<String>, re: &Regex) -> (r: bool)
    ensures
        r == whole_text_may_match(regex_source(*re), match text {
            Some(t) => Some(t@),
            None => None,
        }),
{
    match text {
        Some(t) => {
            if t.as_str().is_empty() {
                false
            } else {
                re.is_match(t.as_str())
            }
        },
        None => false,
    }
}

/// A literal search for the query over a file read in chunks.
///
/// Between chunks only the last `len(query) - 1` bytes read are kept: an
/// occurrence that straddles two chunks is still found, and the memory held
/// does not grow with the file.
pub struct QueryFinder {
    needle: Vec<u8>,
    tail: Vec<u8>,
    found: bool,
    seen: Ghost<Seq<u8>>,
}

impl QueryFinder {
    /// The bytes searched for.
    pub closed spec fn needle(&self) -> Seq<u8> {
        self.needle@
    }

    /// Every byte fed so far, in order.
    pub closed spec fn seen(&self) -> Seq<u8> {
        self.seen@
    }

    /// The finder's internal consistency.
    pub closed spec fn wf(&self) -> bool {
        let n = self.needle@.len();
        let s = self.seen@;
        let start = s.len() - self.tail@.len();
        &&& self.found == occurs_in(s, self.needle@)
        &&& !self.found ==> {
            &&& self.tail@.len() <= s.len()
            &&& self.tail@ == s.subrange(start, s.len() as int)
            &&& (start == 0 || start + n <= s.len() + 1)
        }
    }

    /// A finder for the bytes of `query` that has seen nothing yet.
    pub fn new(query: &str) -> (r: QueryFinder)
        ensures
            r.wf(),
            r.needle() == encode_utf8(query@),
            r.seen() == Seq::<u8>::empty(),
    {
        let bytes = query.as_bytes();
        let mut needle: Vec<u8> = Vec::new();
        let mut i: usize = 0;
        while i < bytes.len()
            invariant
                i <= bytes@.len(),
                needle@ == bytes@.subrange(0, i as int),
            decreases bytes@.len() - i,
        {
            needle.push(bytes[i]);
            i += 1;
        }
        assert(needle@ == bytes@);
        let found = needle.len() == 0;
        proof {
            let e = Seq::<u8>::empty();
            if found {
                assert(occurs_at(e, needle@, 0));
            } else {
                assert forall|j: int| !occurs_at(e, needle@, j) by {}
            }
        }
        let tail: Vec<u8> = Vec::new();
        assert(tail@ == Seq::<u8>::empty().subrange(0, 0));
        QueryFinder { needle, tail, found, seen: Ghost(Seq::empty()) }
    }

    /// Whether the query occurs in everything fed so far.
    pub fn found(&self) -> (r: bool)
        requires
            self.wf(),
        ensures
            r == occurs_in(self.seen(), self.needle()),
    {
        self.found
    }

    /// Feeds the next chunk of the file; returns whether the query occurs in
    /// everything fed so far.
    pub fn feed(&mut self, chunk: &[u8]) -> (r: bool)
        requires
            old(self).wf(),
        ensures
            final(self).wf(),
            final(self).needle() == old(self).needle(),
            final(self).seen() == old(self).seen() + chunk@,
            r == occurs_in(final(self).seen(), final(self).needle()),
    {
        let ghost old_seen = self.seen@;
        let ghost new_seen = old_seen + chunk@;
        if self.found {
            self.seen = Ghost(new_seen);
            proof {
                let i = choose|i: int| occurs_at(old_seen, self.needle@, i);
                assert(new_seen.subrange(i, i + self.needle@.len()) == old_seen.subrange(
                    i,
                    i + self.needle@.len(),
                ));
                assert(occurs_at(new_seen, self.needle@, i));
            }
            return true;
        }
        let ghost old_tail = self.tail@;
        let k = retention_start(&self.tail, self.needle.len());
        let mut window = self.tail.split_off(k);
        let mut j: usize = 0;
        while j < chunk.len()
            invariant
                j <= chunk@.len(),
                window@ == old_tail.subrange(k as int, old_tail.len() as int) + chunk@.subrange(
                    0,
                    j as int,
                ),
            decreases chunk@.len() - j,
        {
            window.push(chunk[j]);
            j += 1;
        }
        let ghost n = self.needle@;
        let ghost start = old_seen.len() - old_tail.len() + k;
        assert(chunk@.subrange(0, chunk@.len() as int) == chunk@);
        assert(window@ == new_seen.subrange(start, new_seen.len() as int));
        let hit = memchr::memmem::find(window.as_slice(), self.needle.as_slice());
        let found = hit.is_some();
        proof {
            if found {
                let i = hit->Some_0 as int;
                assert(window@.subrange(i, i + n.len()) == new_seen.subrange(
                    start + i,
                    start + i + n.len(),
                ));
                assert(occurs_at(new_seen, n, start + i));
            } else {
                assert forall|i: int| !occurs_at(new_seen, n, i) by {
                    if occurs_at(new_seen, n, i) {
                        if i >= start {
                            assert(new_seen.subrange(i, i + n.len()) == window@.subrange(
                                i - start,
                                i - start + n.len(),
                            ));
                            assert(occurs_at(window@, n, i - start));
                        } else {
                            assert(i + n.len() <= old_seen.len());
                            assert(new_seen.subrange(i, i + n.len()) == old_seen.subrange(
                                i,
                                i + n.len(),
                            ));
                            assert(occurs_at(old_seen, n, i));
                        }
                    }
                }
            }
        }
        self.tail = window;
        self.found = found;
        self.seen = Ghost(new_seen);
        found
    }
}

/// Where the kept part of `tail` starts: its last `needle_len - 1` bytes
/// are kept (all of it where it is shorter), which is as much as an
/// occurrence straddling the next chunk can need.
fn retention_start(tail: &Vec<u8>, needle_len: usize) -> (k: usize)
    ensures
        k <= tail@.len(),
        k == 0 || k + needle_len <= tail@.len() + 1,
{
    let overlap: usize = if needle_len == 0 {
        0
    } else {
        needle_len - 1
    };
    if tail.len() < overlap {
        0
    } else {
        tail.len() - overlap
    }
}

} // verus!
