//! The add operation: scaffolding a data source inside an existing project.
//!
//! Adding a data source means checking that the current directory carries the
//! project marker, creating `data_sources/<name>`, selecting one of four
//! metadata templates from the selector flags, replacing the name token in
//! it, and writing the result to `data_sources/<name>/metadata.md`. This
//! module holds the decisions and the texts; the filesystem calls live in the
//! binary.

use vstd::prelude::*;
use vstd::string::StringExecFns;

use crate::paths;
use crate::placeholders;
use crate::templates;
use crate::tree::TreeNode;

verus! {

/// The add operation: a grouping of the sub-entities that can be added to an
/// existing project.
pub struct Add {
    pub command: Option<AddCommands>,
}

/// The sub-entities the add operation knows.
pub enum AddCommands {
    DataSource(DataSource),
}

/// The input of the add data-source operation: the data source's name and
/// the three mutually exclusive selector flags.
pub struct DataSource {
    pub name: String,
    pub database: bool,
    pub extract: bool,
    pub web: bool,
}

impl DataSource {
    /// At most one of the three selector flags is set.
    pub open spec fn spec_flags_exclusive(self) -> bool {
        &&& !(self.database && self.extract)
        &&& !(self.database && self.web)
        &&& !(self.extract && self.web)
    }

    /// Decides whether this input sets at most one selector flag. The input
    /// layer must refuse inputs that set two before any filesystem mutation
    /// happens; this function is that refusal's test.
    pub fn selector_flags_exclusive(&self) -> (r: bool)
        ensures
            r == self.spec_flags_exclusive(),
    {
        !(self.database && self.extract) && !(self.database && self.web) && !(self.extract
            && self.web)
    }

    /// The membership gate of the add operation: given whether the marker
    /// file exists in the current directory, either passes or yields the
    /// fatal message that the directory is not managed by the tool.
    pub fn _geoff_check(&self, marker_exists: bool) -> (r: Result<(), String>)
        ensures
            marker_exists <==> r is Ok,
            !marker_exists ==> (r matches Err(m) && m@
                == "This directory is not managed by geoff. Please change to a directory that is"@),
    {
        if marker_exists {
            Ok(())
        } else {
            Err(
                String::from_str(
                    "This directory is not managed by geoff. Please change to a directory that is",
                ),
            )
        }
    }

    /// The directory created for this data source.
    pub fn data_source_path(&self) -> (r: String)
        ensures
            r@ == "data_sources/"@ + self.name@,
    {
        let mut s = String::from_str("data_sources/");
        s.append(self.name.as_str());
        s
    }

    /// The path of this data source's metadata file.
    pub fn metadata_path(&self) -> (r: String)
        ensures
            r@ == "data_sources/"@ + self.name@ + "/metadata.md"@,
    {
        let mut s = String::from_str("data_sources/");
        s.append(self.name.as_str());
        s.append("/metadata.md");
        s
    }

    /// The metadata template this input selects, by flag priority.
    pub open spec fn spec_metadata_contents(self) -> Seq<char> {
        if self.database {
            templates::DATABASE_METADATA@
        } else if self.extract {
            templates::EXTRACT_METADATA@
        } else if self.web {
            templates::WEB_METADATA@
        } else {
            templates::DEFAULT_METADATA@
        }
    }

    /// Selects the metadata template for this data source: the database,
    /// extract or web body when the matching flag is set, and the default
    /// body when none is. Selection is total: some branch always matches.
    pub fn retrieve_metadata_contents(&self) -> (r: &'static str)
        ensures
            r@ == self.spec_metadata_contents(),
    {
        if self.database {
            templates::DATABASE_METADATA
        } else if self.extract {
            templates::EXTRACT_METADATA
        } else if self.web {
            templates::WEB_METADATA
        } else {
            templates::DEFAULT_METADATA
        }
    }

    /// A metadata template with every data-source-name token replaced by
    /// this data source's base name.
    pub open spec fn spec_updated(self, text: Seq<char>) -> Seq<char> {
        placeholders::substituted(
            text,
            templates::DATA_SOURCE_NAME_TOKEN@,
            paths::base_name(self.name@),
        )
    }

    /// Replaces every data-source-name token in `text` with this data
    /// source's base name.
    pub fn update_placeholders(&self, text: &str) -> (r: String)
        ensures
            r@ == self.spec_updated(text@),
    {
        proof {
            templates::lemma_tokens_nonempty();
        }
        let base = paths::base_name_of(self.name.as_str());
        placeholders::replace_all(text, templates::DATA_SOURCE_NAME_TOKEN, base.as_str())
    }

    /// The summary shown after an add: the data-sources folder over the new
    /// data source and its metadata file.
    pub fn create_tree(&self) -> (r: TreeNode)
        ensures
            r.text@ == "\u{1F5BF} data_sources"@,
            r.children@.len() == 1,
            r.children@[0].text@ == "\u{1F5BF} "@ + self.name@,
            r.children@[0].children@.len() == 1,
            r.children@[0].children@[0].text@ == "\u{1F5CE} metadata.md"@,
            r.children@[0].children@[0].children@.len() == 0,
    {
        let mut label = String::from_str("\u{1F5BF} ");
        label.append(self.name.as_str());
        let mut inner: Vec<TreeNode> = Vec::new();
        inner.push(TreeNode::leaf(String::from_str("\u{1F5CE} metadata.md")));
        let middle = TreeNode { text: label, children: inner };
        let mut children: Vec<TreeNode> = Vec::new();
        children.push(middle);
        TreeNode { text: String::from_str("\u{1F5BF} data_sources"), children }
    }
}

} // verus!
