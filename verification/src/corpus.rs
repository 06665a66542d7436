//! The descriptor corpus and its loader: file contents in, validated
//! descriptors with their identifiers out.

use vstd::prelude::*;
use crate::header::{is_readable, readable};
use crate::names::{identifier_of, is_descriptor_file, is_descriptor_name, stem};

verus! {

/// The length of every descriptor, in bytes.
pub const DESCRIPTOR_LEN: usize = 32;

/// `std::io::Error`: what `npyz` reports where it cannot read an array.
#[verifier::external_type_specification]
#[verifier::external_body]
pub struct ExIoError(std::io::Error);

/// The array of unsigned bytes that an `npy` file holds, flat and in stored
/// order: what `npyz::NpyFile::new`, then `into_vec::<u8>`, make of the whole
/// content of the file. `None` where either of them reports an error.
pub uninterp spec fn npy_payload(content: Seq<u8>) -> Option<Seq<u8>>;

/// Why a file was rejected.
#[derive(Debug, Clone, Copy, PartialEq, Eq)]
pub enum LoadErrorKind {
    /// The content is no `npy` array of unsigned bytes that the loader
    /// reads: it does not hold a whole header of a known version, the
    /// numbers of its header could multiply beyond 64 bits, the header opens
    /// too many brackets, or `npyz` finds a fault in it.
    Malformed,
    /// The array holds `found` bytes, not `DESCRIPTOR_LEN`.
    WrongLength { found: usize },
}

/// A rejected file: its name and the reason.
#[derive(Debug, PartialEq, Eq)]
pub struct LoadError {
    pub file: String,
    pub kind: LoadErrorKind,
}

/// One descriptor with the identifier of its sample.
struct Entry {
    id: String,
    descriptor: Vec<u8>,
}

impl View for Entry {
    type V = (Seq<char>, Seq<u8>);

    closed spec fn view(&self) -> (Seq<char>, Seq<u8>) {
        (self.id@, self.descriptor@)
    }
}

/// The corpus: descriptors of `DESCRIPTOR_LEN` bytes, in the order in which
/// they were added.
pub struct Corpus {
    entries: Vec<Entry>,
}

impl View for Corpus {
    type V = Seq<(Seq<char>, Seq<u8>)>;

    closed spec fn view(&self) -> Seq<(Seq<char>, Seq<u8>)> {
        Seq::new(self.entries@.len(), |i: int| self.entries@[i]@)
    }
}

/// Whether every descriptor of a corpus has the length of a descriptor.
pub open spec fn uniform(entries: Seq<(Seq<char>, Seq<u8>)>) -> bool {
    forall|i: int| 0 <= i < entries.len() ==> (#[trigger] entries[i]).1.len() == DESCRIPTOR_LEN
}

/// What is wrong with the array that a file holds, if anything.
pub open spec fn payload_fault(payload: Option<Seq<u8>>) -> Option<LoadErrorKind> {
    match payload {
        None => Some(LoadErrorKind::Malformed),
        Some(bytes) => if bytes.len() == DESCRIPTOR_LEN {
            None
        } else {
            Some(LoadErrorKind::WrongLength { found: bytes.len() as usize })
        },
    }
}

/// What is wrong with the content of a descriptor file, if anything: it is
/// not readable, or the array it holds is at fault.
pub open spec fn descriptor_fault(content: Seq<u8>) -> Option<LoadErrorKind> {
    if readable(content) {
        payload_fault(npy_payload(content))
    } else {
        Some(LoadErrorKind::Malformed)
    }
}

/// Whether file `k` is a descriptor file that must be rejected.
pub open spec fn rejected(files: Seq<(Seq<char>, Seq<u8>)>, k: int) -> bool {
    is_descriptor_name(files[k].0) && descriptor_fault(files[k].1) is Some
}

/// The entries that the descriptor files among `files` give, in order: for
/// each, the stem of its name and the array it holds.
pub open spec fn loaded(files: Seq<(Seq<char>, Seq<u8>)>) -> Seq<(Seq<char>, Seq<u8>)>
    decreases files.len(),
{
    if files.len() == 0 {
        Seq::empty()
    } else {
        let before = loaded(files.drop_last());
        let file = files.last();
        if is_descriptor_name(file.0) {
            before.push((stem(file.0), npy_payload(file.1)->0))
        } else {
            before
        }
    }
}

/// Names and contents of files, as sequences.
pub open spec fn file_views(files: Seq<(String, Vec<u8>)>) -> Seq<(Seq<char>, Seq<u8>)> {
    Seq::new(files.len(), |i: int| (files[i].0@, files[i].1@))
}

impl Corpus {
    #[verifier::type_invariant]
    spec fn well_formed(&self) -> bool {
        forall|i: int|
            0 <= i < self.entries@.len() ==> (#[trigger] self.entries@[i]).descriptor@.len()
                == DESCRIPTOR_LEN
    }

    /// A corpus without entries.
    pub fn new() -> (corpus: Corpus)
        ensures
            corpus@ == Seq::<(Seq<char>, Seq<u8>)>::empty(),
    {
        Corpus { entries: Vec::new() }
    }

    /// The number of entries, each of which has `DESCRIPTOR_LEN` bytes.
    pub fn len(&self) -> (n: usize)
        ensures
            n == self@.len(),
            uniform(self@),
    {
        proof {
            use_type_invariant(self);
            assert forall|i: int| 0 <= i < self@.len() implies (#[trigger] self@[i]).1.len()
                == DESCRIPTOR_LEN by {
                assert(self.entries@[i].descriptor@.len() == DESCRIPTOR_LEN);
            }
        }
        self.entries.len()
    }

    /// The identifier of entry `i`.
    pub fn id(&self, i: usize) -> (id: &str)
        requires
            i < self@.len(),
        ensures
            id@ == self@[i as int].0,
    {
        self.entries[i].id.as_str()
    }

    /// The descriptor of entry `i`.
    pub fn descriptor(&self, i: usize) -> (descriptor: &[u8])
        requires
            i < self@.len(),
        ensures
            descriptor@ == self@[i as int].1,
            descriptor@.len() == DESCRIPTOR_LEN,
    {
        proof {
            use_type_invariant(self);
        }
        self.entries[i].descriptor.as_slice()
    }

    /// Adds a descriptor under an identifier, where it has the length of a
    /// descriptor; rejects it with its length where it has not.
    pub fn insert(&mut self, id: String, descriptor: Vec<u8>) -> (r: Result<(), LoadErrorKind>)
        ensures
            match r {
                Ok(()) => descriptor@.len() == DESCRIPTOR_LEN && final(self)@ == old(self)@.push(
                    (id@, descriptor@),
                ),
                Err(kind) => descriptor@.len() != DESCRIPTOR_LEN && kind
                    == (LoadErrorKind::WrongLength { found: descriptor@.len() as usize })
                    && final(self)@ == old(self)@,
            },
    {
        proof {
            use_type_invariant(&*self);
        }
        let found = descriptor.len();
        if found != DESCRIPTOR_LEN {
            return Err(LoadErrorKind::WrongLength { found });
        }
        let ghost before = self@;
        let ghost entry = (id@, descriptor@);
        let mut taken = Corpus { entries: Vec::new() };
        std::mem::swap(self, &mut taken);
        let Corpus { entries } = taken;
        let mut entries = entries;
        entries.push(Entry { id, descriptor });
        *self = Corpus { entries };
        proof {
            assert(self@ =~= before.push(entry));
        }
        Ok(())
    }
}

/// Accepts the array read from a file where it has the length of a
/// descriptor.
pub fn check_length(payload: Vec<u8>) -> (r: Result<Vec<u8>, LoadErrorKind>)
    ensures
        match r {
            Ok(bytes) => bytes == payload && payload@.len() == DESCRIPTOR_LEN,
            Err(kind) => Some(kind) == payload_fault(Some(payload@)),
        },
{
    let found = payload.len();
    if found == DESCRIPTOR_LEN {
        Ok(payload)
    } else {
        Err(LoadErrorKind::WrongLength { found })
    }
}

/// Reads one descriptor from the content of an `npy` file.
///
/// The header is looked at first: a content that is not readable is
/// rejected as it stands, and only a readable one is handed on to be parsed.
pub fn load_descriptor(content: &[u8]) -> (r: Result<Vec<u8>, LoadErrorKind>)
    ensures
        match r {
            Ok(bytes) => {
                &&& readable(content@)
                &&& npy_payload(content@) == Some(bytes@)
                &&& bytes@.len() == DESCRIPTOR_LEN
            },
            Err(kind) => Some(kind) == descriptor_fault(content@),
        },
{
    if !is_readable(content) {
        return Err(LoadErrorKind::Malformed);
    }
    match read_npy(content) {
        Ok(payload) => check_length(payload),
        Err(_) => Err(LoadErrorKind::Malformed),
    }
}

/// Loads the corpus from files given by name and content, in their order.
///
/// A file whose extension is not that of a descriptor is passed over. The
/// first descriptor file that holds no array of `DESCRIPTOR_LEN` unsigned
/// bytes ends the load: the error names it, and no corpus is returned.
pub fn load_all(files: &Vec<(String, Vec<u8>)>) -> (r: Result<Corpus, LoadError>)
    ensures
        match r {
            Ok(corpus) => {
                &&& forall|k: int| 0 <= k < files@.len() ==> !rejected(file_views(files@), k)
                &&& corpus@ == loaded(file_views(files@))
            },
            Err(e) => exists|k: int|
                {
                    &&& 0 <= k < files@.len()
                    &&& #[trigger] rejected(file_views(files@), k)
                    &&& forall|j: int| 0 <= j < k ==> !rejected(file_views(files@), j)
                    &&& e.file@ == files@[k].0@
                    &&& Some(e.kind) == descriptor_fault(files@[k].1@)
                },
        },
{
    let ghost views = file_views(files@);
    let mut corpus = Corpus::new();
    let mut i: usize = 0;
    while i < files.len()
        invariant
            i <= files@.len(),
            views == file_views(files@),
            corpus@ == loaded(views.take(i as int)),
            forall|k: int| 0 <= k < i ==> !rejected(views, k),
        decreases files@.len() - i,
    {
        let name = files[i].0.as_str();
        proof {
            assert(views.take(i + 1).drop_last() =~= views.take(i as int));
            assert(views.take(i + 1).last() == views[i as int]);
        }
        if is_descriptor_file(name) {
            match load_descriptor(files[i].1.as_slice()) {
                Ok(bytes) => {
                    let inserted = corpus.insert(identifier_of(name), bytes);
                    assert(inserted is Ok);
                },
                Err(kind) => {
                    assert(rejected(views, i as int));
                    return Err(LoadError { file: name.to_owned(), kind });
                },
            }
        }
        i = i + 1;
    }
    proof {
        assert(views.take(i as int) =~= views);
    }
    Ok(corpus)
}

/// Calls `npyz::NpyFile::new` on the bytes, then `NpyFile::into_vec::<u8>`.
/// Both read from the slice alone, so the outcome is a function of the bytes:
/// the flat array, or an error where the header does not parse, the element
/// type is not an unsigned byte, or the data end early.
///
/// `npyz` allocates the header at its declared length before it reads it,
/// and multiplies the dimensions of the shape without a check, which panics
/// where overflow checks are compiled in. A readable content leaves both out:
/// its header lies within it, and every dimension is a sum of numbers of one
/// group of the header, so that no product of dimensions exceeds the bound
/// on its numbers.
///
/// The parser of the header text descends once for each value that stands
/// within another, and gives up where the stack runs short, which depends on
/// the thread and not on the bytes. In a readable content no value is nested
/// deeper than `MAX_BRACKETS`, so the header is parsed on a stack of bounded
/// depth, and the outcome is that of the bytes.
#[verifier::external_body]
fn read_npy(content: &[u8]) -> (r: Result<Vec<u8>, std::io::Error>)
    requires
        readable(content@),
    ensures
        match r {
            Ok(payload) => npy_payload(content@) == Some(payload@),
            Err(_) => npy_payload(content@) is None,
        },
{
    match npyz::NpyFile::new(content) {
        Ok(file) => file.into_vec::<u8>(),
        Err(e) => Err(e),
    }
}

} // verus!
