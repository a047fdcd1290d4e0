use vstd::prelude::*;

verus! {

/// The name shown for a node whose name could not be determined.
pub const NO_NAME: &'static str = "Could not find file name";

/// The name given to a path that has no last component and no resolvable form.
pub const NO_NAME_OR_PATH: &'static str = "Could not get file name or path.";

/// The mathematical value of a node: what it shows and what it holds.
pub struct NodeModel {
    pub name: Option<Seq<char>>,
    pub size: Option<u64>,
    pub children: Seq<NodeModel>,
    pub expanded: bool,
}

/// A tree of measured filesystem entries, owned through its root.
pub struct FileTree {
    pub root: FileTreeNode,
}

impl FileTree {
    pub fn new(root: FileTreeNode) -> (r: Self)
        ensures
            r.root == root,
    {
        Self { root }
    }
}

/// The last component of a path, as far as it names a node.
pub enum PathTail {
    /// The last component, valid UTF-8.
    Name(String),
    /// The last component is not valid UTF-8.
    NotUtf8,
    /// The path has no last component; holds the path's resolved form where it has one.
    NoName(Option<String>),
}

/// One file or directory, with its size and its children in enumeration order.
pub struct FileTreeNode {
    name: Option<String>,
    size: Option<u64>,
    children: Vec<FileTreeNode>,
    expanded: bool,
}

/// The models of a sequence of nodes, in order.
pub open spec fn models(ns: Seq<FileTreeNode>) -> Seq<NodeModel>
    decreases ns,
{
    if ns.len() == 0 {
        Seq::empty()
    } else {
        models(ns.drop_last()).push(ns.last().view())
    }
}

pub open spec fn name_text(name: Option<Seq<char>>) -> Seq<char> {
    match name {
        Some(n) => n,
        None => NO_NAME@,
    }
}

pub open spec fn name_of_tail(tail: PathTail) -> Option<Seq<char>> {
    match tail {
        PathTail::Name(s) => Some(s@),
        PathTail::NotUtf8 => None,
        PathTail::NoName(Some(p)) => Some(p@),
        PathTail::NoName(None) => Some(NO_NAME_OR_PATH@),
    }
}

pub proof fn lemma_models_index(ns: Seq<FileTreeNode>)
    ensures
        models(ns).len() == ns.len(),
        forall|i: int| 0 <= i < ns.len() ==> #[trigger] models(ns)[i] == ns[i].view(),
    decreases ns.len(),
{
    if ns.len() > 0 {
        let init = ns.drop_last();
        lemma_models_index(init);
        assert(models(ns) == models(init).push(ns.last().view()));
        assert forall|i: int| 0 <= i < ns.len() implies #[trigger] models(ns)[i] == ns[i].view() by {
            if i < ns.len() - 1 {
                assert(init[i] == ns[i]);
            }
        }
    }
}

impl View for FileTreeNode {
    type V = NodeModel;

    closed spec fn view(&self) -> NodeModel
        decreases self,
    {
        NodeModel {
            name: match self.name {
                Some(n) => Some(n@),
                None => None,
            },
            size: self.size,
            children: models(self.children@),
            expanded: self.expanded,
        }
    }
}

impl FileTreeNode {
    /// A collapsed node with no children.
    pub fn new(name: Option<String>, size: Option<u64>) -> (r: Self)
        ensures
            r@.name == (match name {
                Some(n) => Some(n@),
                None => None,
            }),
            r@.size == size,
            r@.children == Seq::<NodeModel>::empty(),
            !r@.expanded,
    {
        Self { name, size, children: Vec::new(), expanded: false }
    }

    pub fn expand(&mut self)
        ensures
            final(self)@ == (NodeModel { expanded: true, ..old(self)@ }),
    {
        self.expanded = true;
    }

    pub fn collapse(&mut self)
        ensures
            final(self)@ == (NodeModel { expanded: false, ..old(self)@ }),
    {
        self.expanded = false;
    }

    pub fn is_expanded(&self) -> (r: bool)
        ensures
            r == self@.expanded,
    {
        self.expanded
    }

    /// Appends a child after the existing ones.
    pub fn add_child(&mut self, child: FileTreeNode)
        ensures
            final(self)@ == (NodeModel { children: old(self)@.children.push(child@), ..old(self)@ }),
    {
        let ghost before = self.children@;
        self.children.push(child);
        assert(self.children@.drop_last() == before);
    }

    pub fn get_children(&self) -> (r: &Vec<FileTreeNode>)
        ensures
            models(r@) == self@.children,
    {
        &self.children
    }

    /// Records a measured size.
    pub fn update_size(&mut self, size: u64)
        ensures
            final(self)@ == (NodeModel { size: Some(size), ..old(self)@ }),
    {
        self.size = Some(size);
    }

    /// The name shown for this node.
    pub fn name(&self) -> (r: &str)
        ensures
            r@ == name_text(self@.name),
    {
        match &self.name {
            Some(n) => n.as_str(),
            None => NO_NAME,
        }
    }

    pub fn size(&self) -> (r: Option<u64>)
        ensures
            r == self@.size,
    {
        self.size
    }

    /// The name of the node for a path, from the path's last component.
    pub fn file_name(tail: PathTail) -> (r: Option<String>)
        ensures
            (match r {
                Some(s) => Some(s@),
                None => None,
            }) == name_of_tail(tail),
    {
        match tail {
            PathTail::Name(s) => Some(s),
            PathTail::NotUtf8 => None,
            PathTail::NoName(Some(p)) => Some(p),
            PathTail::NoName(None) => Some(NO_NAME_OR_PATH.to_string()),
        }
    }
}

} // verus!
