use vstd::prelude::*;
use crate::json::text_eq;
use crate::lookup::{lemma_named_absent, lemma_named_at, named};

verus! {

/// A byte stream under a name.
#[derive(Clone, Debug, PartialEq)]
pub struct Entry {
    pub name: String,
    pub bytes: Vec<u8>,
}

/// The named byte streams among which the documents of a map are looked up: the files of a
/// directory, or the entries of an archive.
#[derive(Clone, Debug, PartialEq)]
pub struct DocumentSource {
    pub entries: Vec<Entry>,
}

impl View for DocumentSource {
    type V = Seq<(Seq<char>, Seq<u8>)>;

    open spec fn view(&self) -> Seq<(Seq<char>, Seq<u8>)> {
        Seq::new(self.entries@.len(), |i: int| (self.entries@[i].name@, self.entries@[i].bytes@))
    }
}

impl DocumentSource {
    /// A source without entries.
    pub fn new() -> (s: DocumentSource)
        ensures
            s@ == Seq::<(Seq<char>, Seq<u8>)>::empty(),
    {
        let s = DocumentSource { entries: Vec::new() };
        assert(s@ =~= Seq::<(Seq<char>, Seq<u8>)>::empty());
        s
    }

    /// Adds an entry behind those that are there.
    pub fn add(&mut self, name: String, bytes: Vec<u8>)
        ensures
            final(self)@ == old(self)@.push((name@, bytes@)),
    {
        self.entries.push(Entry { name, bytes });
        assert(self@ =~= old(self)@.push((name@, bytes@)));
    }

    /// The bytes of the first entry whose name is exactly `name`.
    pub fn open(&self, name: &str) -> (r: Option<&Vec<u8>>)
        ensures
            r is Some <==> named(self@, name@) is Some,
            r matches Some(bytes) ==> named(self@, name@) == Some(bytes@),
    {
        let mut i: usize = 0;
        while i < self.entries.len()
            invariant
                i <= self.entries.len(),
                forall|j: int| 0 <= j < i ==> (#[trigger] self@[j]).0 != name@,
            decreases self.entries.len() - i,
        {
            if text_eq(self.entries[i].name.as_str(), name) {
                proof {
                    lemma_named_at(self@, name@, i as int);
                }
                return Some(&self.entries[i].bytes);
            }
            i += 1;
        }
        proof {
            lemma_named_absent(self@, name@);
        }
        None
    }
}

} // verus!
