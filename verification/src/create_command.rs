//! The create operation: scaffolding a new project root.
//!
//! Creating a project means creating the root directory, four fixed
//! subdirectories, and three root files — a README and a scoping document
//! with the project-name token replaced, and the zero-byte marker written
//! verbatim. This module holds the logic of those steps: which paths are
//! created and what each file holds. The filesystem calls themselves, and the
//! routing of their failures through the classifier, live in the binary.

use vstd::prelude::*;
use vstd::string::StringExecFns;

use crate::paths;
use crate::placeholders;
use crate::templates;
use crate::tree::TreeNode;

verus! {

/// The input of the create operation: the root directory to create, and
/// whether missing ancestors are created with it.
pub struct Create {
    pub name: String,
    pub parents: bool,
}

impl Create {
    /// A root template with every project-name token replaced by this
    /// project's base name.
    pub open spec fn spec_updated(self, file_contents: Seq<char>) -> Seq<char> {
        placeholders::substituted(
            file_contents,
            templates::PROJECT_NAME_TOKEN@,
            paths::base_name(self.name@),
        )
    }

    /// Replaces every project-name token in `file_contents` with the root
    /// directory's own base name.
    pub fn _update_placeholders(&self, file_contents: &str) -> (r: String)
        ensures
            r@ == self.spec_updated(file_contents@),
    {
        proof {
            templates::lemma_tokens_nonempty();
        }
        let base = paths::base_name_of(self.name.as_str());
        placeholders::replace_all(file_contents, templates::PROJECT_NAME_TOKEN, base.as_str())
    }

    /// This root's path followed by one path segment and a trailing
    /// separator.
    fn child_dir_path(&self, segment: &str) -> (r: String)
        ensures
            r@ == self.name@ + "/"@ + segment@ + "/"@,
    {
        let mut s = self.name.clone();
        s.append("/");
        s.append(segment);
        s.append("/");
        s
    }

    /// This root's path followed by one file name.
    fn child_file_path(&self, file_name: &str) -> (r: String)
        ensures
            r@ == self.name@ + "/"@ + file_name@,
    {
        let mut s = self.name.clone();
        s.append("/");
        s.append(file_name);
        s
    }

    /// The paths of the four fixed subdirectories beneath this root, in the
    /// order they are created.
    pub fn subdirectory_paths(&self) -> (r: Vec<String>)
        ensures
            r@.len() == 4,
            r@[0]@ == self.name@ + "/"@ + "data_sources"@ + "/"@,
            r@[1]@ == self.name@ + "/"@ + "explorations"@ + "/"@,
            r@[2]@ == self.name@ + "/"@ + "models"@ + "/"@,
            r@[3]@ == self.name@ + "/"@ + "products"@ + "/"@,
    {
        let mut v: Vec<String> = Vec::new();
        v.push(self.child_dir_path("data_sources"));
        v.push(self.child_dir_path("explorations"));
        v.push(self.child_dir_path("models"));
        v.push(self.child_dir_path("products"));
        v
    }

    /// The three root files, in the order they are written: each path beneath
    /// this root paired with its full contents. The README and the scoping
    /// document have the project-name token replaced; the marker is written
    /// verbatim, empty.
    pub fn root_file_entries(&self) -> (r: Vec<(String, String)>)
        ensures
            r@.len() == 3,
            r@[0].0@ == self.name@ + "/"@ + "README.md"@,
            r@[0].1@ == self.spec_updated(templates::README_TEMPLATE@),
            r@[1].0@ == self.name@ + "/"@ + "project_scoping.md"@,
            r@[1].1@ == self.spec_updated(templates::PROJECT_SCOPING_TEMPLATE@),
            r@[2].0@ == self.name@ + "/"@ + ".geoff"@,
            r@[2].1@ == templates::GEOFF_MARKER_TEMPLATE@,
    {
        let mut v: Vec<(String, String)> = Vec::new();
        v.push(
            (self.child_file_path("README.md"), self._update_placeholders(
                templates::README_TEMPLATE,
            )),
        );
        v.push(
            (self.child_file_path("project_scoping.md"), self._update_placeholders(
                templates::PROJECT_SCOPING_TEMPLATE,
            )),
        );
        v.push(
            (self.child_file_path(".geoff"), String::from_str(templates::GEOFF_MARKER_TEMPLATE)),
        );
        v
    }

    /// The summary shown after a create: the root over the four
    /// subdirectories and the two visible documents, the marker left out.
    pub fn create_tree(&self) -> (r: TreeNode)
        ensures
            r.text@ == self.name@,
            r.children@.len() == 6,
            r.children@[0].text@ == "\u{1F5BF} data_sources"@,
            r.children@[1].text@ == "\u{1F5BF} explorations"@,
            r.children@[2].text@ == "\u{1F5BF} models"@,
            r.children@[3].text@ == "\u{1F5BF} products"@,
            r.children@[4].text@ == "\u{1F5CE} README.md"@,
            r.children@[5].text@ == "\u{1F5CE} project_scoping.md"@,
            forall|k: int| 0 <= k < 6 ==> #[trigger] r.children@[k].children@.len() == 0,
    {
        let mut children: Vec<TreeNode> = Vec::new();
        children.push(TreeNode::leaf(String::from_str("\u{1F5BF} data_sources")));
        children.push(TreeNode::leaf(String::from_str("\u{1F5BF} explorations")));
        children.push(TreeNode::leaf(String::from_str("\u{1F5BF} models")));
        children.push(TreeNode::leaf(String::from_str("\u{1F5BF} products")));
        children.push(TreeNode::leaf(String::from_str("\u{1F5CE} README.md")));
        children.push(TreeNode::leaf(String::from_str("\u{1F5CE} project_scoping.md")));
        TreeNode { text: self.name.clone(), children }
    }
}

} // verus!
