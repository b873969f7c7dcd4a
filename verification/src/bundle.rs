//! The inbound payload of a save request: named source files.
//!
//! A `SourceBundle` maps logical filenames to source text. It is viewed as a
//! `Map<Seq<char>, Seq<char>>`; when the same name is added twice, the later
//! text wins, as an insertion into that map.

use vstd::prelude::*;

verus! {

/// One named source file of a bundle.
pub struct SourceFile {
    pub name: String,
    pub text: String,
}

/// The inbound request payload: a mapping from logical filename to source
/// text. Ephemeral — it exists only for the duration of one request.
pub struct SourceBundle {
    files: Vec<SourceFile>,
}

/// The mapping that a sequence of named files denotes, later entries winning.
pub open spec fn bundle_map(files: Seq<SourceFile>) -> Map<Seq<char>, Seq<char>>
    decreases files.len(),
{
    if files.len() == 0 {
        Map::empty()
    } else {
        bundle_map(files.drop_last()).insert(files.last().name@, files.last().text@)
    }
}

impl View for SourceBundle {
    type V = Map<Seq<char>, Seq<char>>;

    closed spec fn view(&self) -> Map<Seq<char>, Seq<char>> {
        bundle_map(self.files@)
    }
}

impl SourceBundle {
    /// Creates an empty bundle.
    pub fn new() -> (b: SourceBundle)
        ensures
            b@ == Map::<Seq<char>, Seq<char>>::empty(),
    {
        SourceBundle { files: Vec::new() }
    }

    /// Adds one named file; a file added later under the same name shadows
    /// this one.
    pub fn add_file(&mut self, name: String, text: String)
        ensures
            final(self)@ == old(self)@.insert(name@, text@),
    {
        let ghost before = self.files@;
        let entry = SourceFile { name, text };
        let ghost added = entry;
        self.files.push(entry);
        proof {
            assert(self.files@.drop_last() =~= before);
            assert(self.files@.last() == added);
        }
    }

    /// Looks the text of a file up by name.
    pub fn lookup<'a>(&'a self, name: &String) -> (r: Option<&'a String>)
        ensures
            match r {
                Some(text) => self@.contains_key(name@) && text@ == self@[name@],
                None => !self@.contains_key(name@),
            },
    {
        let mut i: usize = self.files.len();
        while i > 0
            invariant
                i <= self.files@.len(),
                forall|j: int| i <= j < self.files@.len() ==> self.files@[j].name@ != name@,
            decreases i,
        {
            i = i - 1;
            if self.files[i].name == *name {
                proof {
                    lemma_bundle_map_found(self.files@, i as int, name@);
                }
                return Some(&self.files[i].text);
            }
        }
        proof {
            lemma_bundle_map_absent(self.files@, name@);
        }
        None
    }
}

/// The entry that wins a lookup is the last one of its name.
proof fn lemma_bundle_map_found(files: Seq<SourceFile>, i: int, n: Seq<char>)
    requires
        0 <= i < files.len(),
        files[i].name@ == n,
        forall|j: int| i < j < files.len() ==> files[j].name@ != n,
    ensures
        bundle_map(files).contains_key(n),
        bundle_map(files)[n] == files[i].text@,
    decreases files.len(),
{
    if i == files.len() - 1 {
    } else {
        lemma_bundle_map_found(files.drop_last(), i, n);
    }
}

/// A name carried by no entry is not in the mapping.
proof fn lemma_bundle_map_absent(files: Seq<SourceFile>, n: Seq<char>)
    requires
        forall|j: int| 0 <= j < files.len() ==> files[j].name@ != n,
    ensures
        !bundle_map(files).contains_key(n),
    decreases files.len(),
{
    if files.len() > 0 {
        lemma_bundle_map_absent(files.drop_last(), n);
    }
}

} // verus!
