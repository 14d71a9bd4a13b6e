use vstd::prelude::*;

verus! {

/// A pre-registered operation: its identifier, its text and, when known, its
/// operation name.
pub struct PersistedDocumentEntry {
    pub id: String,
    pub document: String,
    pub operation_name: Option<String>,
}

/// One complete copy of the registry's state, replaced whole on refresh.
pub struct RegistrySnapshot {
    /// The schema artifact, kept as delivered.
    pub schema: Vec<u8>,
    pub documents: Vec<PersistedDocumentEntry>,
    /// When the fetch that produced this snapshot completed.
    pub fetched_at: u64,
    /// The version token the registry attached to this state.
    pub version: String,
}

/// No two entries share an identifier.
pub open spec fn ids_unique(docs: Seq<PersistedDocumentEntry>) -> bool {
    forall|i: int, j: int|
        0 <= i < docs.len() && 0 <= j < docs.len() && i != j ==> docs[i].id@ != docs[j].id@
}

pub open spec fn holds_id(docs: Seq<PersistedDocumentEntry>, id: Seq<char>) -> bool {
    exists|i: int| 0 <= i < docs.len() && docs[i].id@ == id
}

/// The text stored under `id`, if any.
pub open spec fn stored_document(docs: Seq<PersistedDocumentEntry>, id: Seq<char>) -> Option<Seq<char>> {
    if holds_id(docs, id) {
        Some(docs[choose|i: int| 0 <= i < docs.len() && docs[i].id@ == id].document@)
    } else {
        None
    }
}

/// Why a table cannot become a snapshot.
#[derive(Debug)]
pub enum SnapshotError {
    /// Two entries carry this identifier.
    DuplicateId(String),
}

impl RegistrySnapshot {
    pub open spec fn wf(&self) -> bool {
        ids_unique(self.documents@)
    }

    /// The text stored under `id` in this snapshot.
    pub open spec fn document_of(&self, id: Seq<char>) -> Option<Seq<char>> {
        stored_document(self.documents@, id)
    }

    /// Builds a snapshot from a fetched table, refusing one whose identifiers
    /// repeat.
    pub fn new(schema: Vec<u8>, documents: Vec<PersistedDocumentEntry>, fetched_at: u64, version: String) -> (r: Result<RegistrySnapshot, SnapshotError>)
        ensures
            r is Ok <==> ids_unique(documents@),
            r matches Ok(s) ==> s.wf() && s.schema == schema && s.documents == documents
                && s.fetched_at == fetched_at && s.version == version,
            r matches Err(SnapshotError::DuplicateId(d)) ==> exists|i: int, j: int|
                0 <= i < j < documents@.len() && documents@[i].id@ == d@ && documents@[j].id@ == d@,
    {
        let n = documents.len();
        let mut j: usize = 0;
        while j < n
            invariant
                n == documents@.len(),
                j <= n,
                forall|a: int, b: int| 0 <= a < j && 0 <= b < j && a != b ==> documents@[a].id@ != documents@[b].id@,
            decreases n - j,
        {
            let mut i: usize = 0;
            while i < j
                invariant
                    n == documents@.len(),
                    i <= j < n,
                    forall|a: int| 0 <= a < i ==> documents@[a].id@ != documents@[j as int].id@,
                decreases j - i,
            {
                if documents[i].id == documents[j].id {
                    return Err(SnapshotError::DuplicateId(documents[j].id.clone()));
                }
                i = i + 1;
            }
            j = j + 1;
        }
        Ok(RegistrySnapshot { schema, documents, fetched_at, version })
    }

    /// Finds the entry stored under `id`.
    pub fn find(&self, id: &String) -> (r: Option<&PersistedDocumentEntry>)
        requires
            self.wf(),
        ensures
            r is Some <==> holds_id(self.documents@, id@),
            r matches Some(e) ==> e.id@ == id@ && self.document_of(id@) == Some(e.document@),
            r is None ==> self.document_of(id@) is None,
    {
        let n = self.documents.len();
        let mut i: usize = 0;
        while i < n
            invariant
                self.wf(),
                n == self.documents@.len(),
                i <= n,
                forall|a: int| 0 <= a < i ==> self.documents@[a].id@ != id@,
            decreases n - i,
        {
            if self.documents[i].id == *id {
                let e = &self.documents[i];
                proof {
                    assert(self.documents@[i as int].id@ == id@);
                    let k = choose|k: int| 0 <= k < self.documents@.len() && self.documents@[k].id@ == id@;
                    if k != i {
                        assert(self.documents@[k].id@ != self.documents@[i as int].id@);
                    }
                }
                return Some(e);
            }
            i = i + 1;
        }
        None
    }

    /// The version token of this snapshot.
    pub fn version_token(&self) -> (r: &str)
        ensures
            r@ == self.version@,
    {
        self.version.as_str()
    }

    pub fn document_count(&self) -> (r: usize)
        ensures
            r == self.documents@.len(),
    {
        self.documents.len()
    }
}

} // verus!
