//! Folder trees. A listing yields one tree that owns all its nodes; the folders obtained
//! from it are views that borrow the tree, so dropping a view frees nothing and a tree
//! goes away only with its owner.
use vstd::prelude::*;

use crate::error::{decode_device_text, failure_of, Error, ErrorStack};
use vstd::string::StringSliceAdditionalSpecFns;
use vstd::utf8::{decode_utf8, valid_utf8};
use crate::object::AsObjectId;

verus! {

/// One node of a folder tree, with the index of its first child and of its next sibling.
#[derive(Debug, Clone)]
pub struct FolderRecord {
    pub folder_id: u32,
    pub parent_id: u32,
    pub storage_id: u32,
    pub name: String,
    pub child: Option<usize>,
    pub sibling: Option<usize>,
}

/// Every link points to a later node of the list (as a depth-first listing of the tree
/// gives them), so the links form no cycle; a child's parent is the folder that links to
/// it, and siblings share their parent.
pub open spec fn links_forward(nodes: Seq<FolderRecord>) -> bool {
    forall|i: int|
        #![trigger nodes[i]]
        0 <= i < nodes.len() ==> (match nodes[i].child {
            Some(c) => i < c < nodes.len() && nodes[c as int].parent_id == nodes[i].folder_id,
            None => true,
        }) && (match nodes[i].sibling {
            Some(s) => i < s < nodes.len() && nodes[s as int].parent_id == nodes[i].parent_id,
            None => true,
        })
}

/// The node that a search for `id` from node `i` finds: `i` itself if it has that id,
/// else the first found among its later siblings, else among its children.
pub open spec fn find_from(nodes: Seq<FolderRecord>, i: int, id: u32) -> Option<int>
    decreases nodes.len() - i,
{
    if !(0 <= i < nodes.len()) {
        None
    } else if nodes[i].folder_id == id {
        Some(i)
    } else {
        let by_sibling = match nodes[i].sibling {
            Some(s) => if i < s && s < nodes.len() {
                find_from(nodes, s as int, id)
            } else {
                None
            },
            None => None,
        };
        if by_sibling is Some {
            by_sibling
        } else {
            match nodes[i].child {
                Some(c) => if i < c && c < nodes.len() {
                    find_from(nodes, c as int, id)
                } else {
                    None
                },
                None => None,
            }
        }
    }
}

/// What a search finds has the id searched for, and lies in the list.
pub proof fn lemma_find_has_id(nodes: Seq<FolderRecord>, i: int, id: u32)
    ensures
        match find_from(nodes, i, id) {
            Some(k) => 0 <= k < nodes.len() && nodes[k].folder_id == id,
            None => true,
        },
    decreases nodes.len() - i,
{
    if 0 <= i < nodes.len() && nodes[i].folder_id != id {
        match nodes[i].sibling {
            Some(s) => if i < s && s < nodes.len() {
                lemma_find_has_id(nodes, s as int, id);
            },
            None => {},
        }
        match nodes[i].child {
            Some(c) => if i < c && c < nodes.len() {
                lemma_find_has_id(nodes, c as int, id);
            },
            None => {},
        }
    }
}

/// A whole folder tree as one listing returned it; node 0 is the first top-level folder.
#[derive(Debug)]
pub struct FolderTree {
    nodes: Vec<FolderRecord>,
}

impl FolderTree {
    /// The nodes of the tree.
    pub closed spec fn nodes(&self) -> Seq<FolderRecord> {
        self.nodes@
    }

    /// A tree has a first node and its links point forward.
    pub open spec fn wf(&self) -> bool {
        self.nodes().len() > 0 && links_forward(self.nodes())
    }

    /// Takes the nodes of a native folder listing. `None` where the listing is empty (the
    /// device gave no tree: list folder by folder instead), or its links are not those of
    /// a depth-first listing, or disagree with the parent ids.
    pub fn from_native(nodes: Vec<FolderRecord>) -> (r: Option<FolderTree>)
        ensures
            r is Some <==> nodes@.len() > 0 && links_forward(nodes@),
            match r {
                Some(t) => t.nodes() == nodes@ && t.wf(),
                None => true,
            },
    {
        if nodes.len() == 0 {
            return None;
        }
        let mut i: usize = 0;
        while i < nodes.len()
            invariant
                i <= nodes@.len(),
                forall|k: int|
                    #![trigger nodes@[k]]
                    0 <= k < i ==> (match nodes@[k].child {
                        Some(c) => k < c < nodes@.len() && nodes@[c as int].parent_id
                            == nodes@[k].folder_id,
                        None => true,
                    }) && (match nodes@[k].sibling {
                        Some(s) => k < s < nodes@.len() && nodes@[s as int].parent_id
                            == nodes@[k].parent_id,
                        None => true,
                    }),
            decreases nodes@.len() - i,
        {
            let child_ok = match nodes[i].child {
                Some(c) => i < c && c < nodes.len() && nodes[c].parent_id == nodes[i].folder_id,
                None => true,
            };
            let sibling_ok = match nodes[i].sibling {
                Some(s) => i < s && s < nodes.len() && nodes[s].parent_id == nodes[i].parent_id,
                None => true,
            };
            if !(child_ok && sibling_ok) {
                return None;
            }
            i += 1;
        }
        Some(FolderTree { nodes })
    }

    /// Number of nodes.
    pub fn len(&self) -> (r: usize)
        ensures
            r == self.nodes().len(),
    {
        self.nodes.len()
    }

    /// The record of node `index`, if the tree has one.
    pub fn node(&self, index: usize) -> (r: Option<&FolderRecord>)
        ensures
            index < self.nodes().len() ==> r == Some(&self.nodes()[index as int]),
            index >= self.nodes().len() ==> r is None,
    {
        if index < self.nodes.len() {
            Some(&self.nodes[index])
        } else {
            None
        }
    }

    /// The view of the first top-level folder.
    pub fn root(&self) -> (r: Folder<'_>)
        requires
            self.wf(),
        ensures
            r.tree() == *self,
            r.index() == 0,
            r.wf(),
    {
        Folder { tree: self, index: 0 }
    }

    /// Reads the outcome of renaming node `index` to `new_name`: on success the node
    /// takes the new name.
    pub fn rename(
        &mut self,
        index: usize,
        new_name: &str,
        errors: &mut ErrorStack,
        res: i32,
    ) -> (r: Result<(), Error>)
        requires
            old(self).wf(),
            index < old(self).nodes().len(),
        ensures
            final(self).wf(),
            final(self).nodes().len() == old(self).nodes().len(),
            final(errors)@.len() == 0,
            res == 0 ==> r is Ok && final(self).nodes()[index as int].name@ == new_name@,
            res != 0 ==> final(self).nodes() == old(self).nodes() && match r {
                Err(e) => failure_of(old(errors)@, e),
                Ok(_) => false,
            },
            forall|k: int|
                #![trigger final(self).nodes()[k]]
                0 <= k < old(self).nodes().len() ==> final(self).nodes()[k].folder_id == old(
                    self,
                ).nodes()[k].folder_id && final(self).nodes()[k].parent_id == old(
                    self,
                ).nodes()[k].parent_id && final(self).nodes()[k].child == old(self).nodes()[k].child
                    && final(self).nodes()[k].sibling == old(self).nodes()[k].sibling,
    {
        let r = errors.status(res);
        if r.is_ok() {
            let node = FolderRecord {
                folder_id: self.nodes[index].folder_id,
                parent_id: self.nodes[index].parent_id,
                storage_id: self.nodes[index].storage_id,
                name: new_name.to_owned(),
                child: self.nodes[index].child,
                sibling: self.nodes[index].sibling,
            };
            let ghost before = self.nodes@;
            self.nodes.set(index, node);
            proof {
                assert forall|k: int|
                    #![trigger self.nodes@[k]]
                    0 <= k < self.nodes@.len() implies (match self.nodes@[k].child {
                        Some(c) => k < c < self.nodes@.len() && self.nodes@[c as int].parent_id
                            == self.nodes@[k].folder_id,
                        None => true,
                    }) && (match self.nodes@[k].sibling {
                        Some(s) => k < s < self.nodes@.len() && self.nodes@[s as int].parent_id
                            == self.nodes@[k].parent_id,
                        None => true,
                    }) by {
                    assert(links_forward(before));
                    assert(self.nodes@[k].child == before[k].child);
                    match before[k].child {
                        Some(c) => {
                            assert(self.nodes@[c as int].parent_id == before[c as int].parent_id);
                        },
                        None => {},
                    }
                    match before[k].sibling {
                        Some(c) => {
                            assert(self.nodes@[c as int].parent_id == before[c as int].parent_id);
                        },
                        None => {},
                    }
                }
            }
        }
        r
    }
}

/// A view of one folder of a tree. It borrows the tree and owns nothing.
#[derive(Debug, Clone, Copy)]
pub struct Folder<'a> {
    tree: &'a FolderTree,
    index: usize,
}

impl<'a> Folder<'a> {
    #[verifier::type_invariant]
    spec fn inv(&self) -> bool {
        self.tree.wf() && self.index < self.tree.nodes@.len()
    }

    /// The tree that this view shows.
    pub closed spec fn tree(&self) -> FolderTree {
        *self.tree
    }

    /// The node that this view shows.
    pub closed spec fn index(&self) -> nat {
        self.index as nat
    }

    /// The record of the node.
    pub open spec fn node(&self) -> FolderRecord {
        self.tree().nodes()[self.index() as int]
    }

    /// Well formed: a node of a well formed tree.
    pub open spec fn wf(&self) -> bool {
        self.tree().wf() && self.index() < self.tree().nodes().len()
    }

    /// Position of the node in its tree.
    pub fn position(&self) -> (r: usize)
        ensures
            r == self.index(),
    {
        self.index
    }

    /// Object id of the folder.
    pub fn id(&self) -> (r: u32)
        ensures
            r == self.node().folder_id,
    {
        proof {
            use_type_invariant(self);
        }
        self.tree.nodes[self.index].folder_id
    }

    /// Id of the parent folder (zero at the top level).
    pub fn parent_id(&self) -> (r: u32)
        ensures
            r == self.node().parent_id,
    {
        proof {
            use_type_invariant(self);
        }
        self.tree.nodes[self.index].parent_id
    }

    /// Name of the folder.
    pub fn name(&self) -> (r: &'a str)
        ensures
            r@ == self.node().name@,
    {
        proof {
            use_type_invariant(self);
        }
        self.tree.nodes[self.index].name.as_str()
    }

    /// The view of the next folder at the same level, if there is one.
    pub fn sibling(&self) -> (r: Option<Folder<'a>>)
        ensures
            self.wf(),
            match self.node().sibling {
                Some(s) => r is Some && r->0.tree() == self.tree() && r->0.index() == s
                    && r->0.wf() && r->0.node().parent_id == self.node().parent_id,
                None => r is None,
            },
    {
        proof {
            use_type_invariant(self);
            assert(self.tree.nodes@[self.index as int] == self.node());
        }
        match self.tree.nodes[self.index].sibling {
            Some(s) => Some(Folder { tree: self.tree, index: s }),
            None => None,
        }
    }

    /// The view of the first sub-folder, if there is one.
    pub fn child(&self) -> (r: Option<Folder<'a>>)
        ensures
            self.wf(),
            match self.node().child {
                Some(c) => r is Some && r->0.tree() == self.tree() && r->0.index() == c
                    && r->0.wf() && r->0.node().parent_id == self.node().folder_id,
                None => r is None,
            },
    {
        proof {
            use_type_invariant(self);
            assert(self.tree.nodes@[self.index as int] == self.node());
        }
        match self.tree.nodes[self.index].child {
            Some(c) => Some(Folder { tree: self.tree, index: c }),
            None => None,
        }
    }

    /// Searches for the folder with id `folder_id`, from this folder on: the folder
    /// itself, then its later siblings, then its sub-folders, depth first.
    pub fn find(&self, folder_id: u32) -> (r: Option<Folder<'a>>)
        ensures
            self.wf(),
            find_from(self.tree().nodes(), self.index() as int, folder_id) is None <==> r is None,
            r is Some ==> r->0.tree() == self.tree(),
            r is Some ==> r->0.index() == find_from(self.tree().nodes(), self.index() as int, folder_id)->0,
            r is Some ==> r->0.node().folder_id == folder_id,
    {
        proof {
            use_type_invariant(self);
            lemma_find_has_id(self.tree.nodes@, self.index as int, folder_id);
        }
        let found = find_index(&self.tree.nodes, self.index, folder_id);
        match found {
            Some(k) => {
                let r = Folder { tree: self.tree, index: k };
                assert(r.node() == self.tree.nodes@[k as int]);
                Some(r)
            },
            None => None,
        }
    }
}

fn find_index(nodes: &Vec<FolderRecord>, i: usize, id: u32) -> (r: Option<usize>)
    requires
        links_forward(nodes@),
        i < nodes@.len(),
    ensures
        find_from(nodes@, i as int, id) is None <==> r is None,
        r is Some ==> r->0 as int == find_from(nodes@, i as int, id)->0 && r->0 < nodes@.len(),
    decreases nodes@.len() - i,
{
    proof {
        lemma_find_has_id(nodes@, i as int, id);
    }
    let node = &nodes[i];
    if node.folder_id == id {
        return Some(i);
    }
    let by_sibling = match node.sibling {
        Some(s) => find_index(nodes, s, id),
        None => None,
    };
    if by_sibling.is_some() {
        return by_sibling;
    }
    match node.child {
        Some(c) => find_index(nodes, c, id),
        None => None,
    }
}

impl<'a> AsObjectId for Folder<'a> {
    open spec fn object_id(&self) -> u32 {
        self.node().folder_id
    }

    fn as_id(&self) -> (r: u32) {
        self.id()
    }
}

/// The name of a new folder: the requested one where the device took it byte for byte,
/// else the one the device assigned.
#[derive(Debug, Clone)]
pub enum FolderName<'b> {
    Requested(&'b str),
    Assigned(String),
}

impl<'b> FolderName<'b> {
    /// The name as text.
    pub fn as_str(&self) -> (r: &str)
        ensures
            r@ == match self {
                FolderName::Requested(s) => s@,
                FolderName::Assigned(s) => s@,
            },
    {
        match self {
            FolderName::Requested(s) => s,
            FolderName::Assigned(s) => s.as_str(),
        }
    }
}

/// Whether two byte strings are equal.
fn same_bytes(a: &[u8], b: &[u8]) -> (r: bool)
    ensures
        r == (a@ == b@),
{
    if a.len() != b.len() {
        return false;
    }
    let mut i: usize = 0;
    while i < a.len()
        invariant
            i <= a@.len(),
            a@.len() == b@.len(),
            forall|k: int| 0 <= k < i ==> a@[k] == b@[k],
        decreases a@.len() - i,
    {
        if a[i] != b[i] {
            return false;
        }
        i += 1;
    }
    proof {
        assert(a@ =~= b@);
    }
    true
}

/// Reads the outcome of creating a folder named `requested`: the native result (the new
/// id, zero on failure) and the bytes of the name the device assigned. The name reported
/// is the requested one if the device kept its bytes exactly, else the device's (which
/// must be UTF-8); never a third. The error stack is cleared either way.
pub fn create_folder_outcome<'b>(
    errors: &mut ErrorStack,
    requested: &'b str,
    assigned: Vec<u8>,
    folder_id: u32,
) -> (r: Result<(u32, FolderName<'b>), Error>)
    ensures
        final(errors)@.len() == 0,
        folder_id == 0 ==> match r {
            Err(e) => failure_of(old(errors)@, e),
            Ok(_) => false,
        },
        folder_id != 0 ==> match r {
            Ok((id, FolderName::Requested(s))) => id == folder_id && s == requested
                && assigned@ == requested.spec_bytes(),
            Ok((id, FolderName::Assigned(s))) => id == folder_id && assigned@
                != requested.spec_bytes() && valid_utf8(assigned@) && s@ == decode_utf8(
                assigned@,
            ),
            Err(Error::Utf8Error { bytes }) => assigned@ != requested.spec_bytes() && !valid_utf8(
                assigned@,
            ) && bytes@ == assigned@,
            Err(_) => false,
        },
{
    if folder_id == 0 {
        return Err(errors.failure());
    }
    errors.clear();
    if same_bytes(assigned.as_slice(), requested.as_bytes()) {
        Ok((folder_id, FolderName::Requested(requested)))
    } else {
        match decode_device_text(assigned) {
            Ok(text) => Ok((folder_id, FolderName::Assigned(text))),
            Err(e) => Err(e),
        }
    }
}

} // verus!
