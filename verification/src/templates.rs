//! The static document bodies that scaffolding writes.
//!
//! Each body is a fixed markdown document; the name tokens inside it are
//! replaced before the file is written. The marker body is empty and is
//! written verbatim.

use vstd::prelude::*;

verus! {

/// The token replaced with the project's name in root documents.
pub const PROJECT_NAME_TOKEN: &'static str = "<<<project_name>>>";

/// The token replaced with the data source's name in metadata documents.
pub const DATA_SOURCE_NAME_TOKEN: &'static str = "<<<data_source_name>>>";

/// The README document written at a new project's root.
pub const README_TEMPLATE: &'static str = "# <<<project_name>>>\n\nA data science project managed by geoff.\n";

/// The project scoping document written at a new project's root.
pub const PROJECT_SCOPING_TEMPLATE: &'static str = "# <<<project_name>>> scoping\n\n## Background\n\n## Objectives\n\n## Deliverables\n";

/// The zero-byte marker body: its presence alone says that a directory is
/// managed by geoff.
pub const GEOFF_MARKER_TEMPLATE: &'static str = "";

/// The metadata document for a data source added without a selector flag.
pub const DEFAULT_METADATA: &'static str = "# <<<data_source_name>>>\n";

/// The metadata document for a database data source.
pub const DATABASE_METADATA: &'static str = "# <<<data_source_name>>>\n\n## Database details\n\n| database name(s) | tables accessed | tables_created |\n| :--------------- | :-------------- | :------------- |\n| *e.g datasets* | *e.g iris* | *e.g iris_transformed* |\n\n## Data dictionary\n\n| data field | data type | description |\n| :--------- | :-------- | :---------- |\n| *e.g ID* | *e.g INT* | *e.g A unique identifier for each record* |\n| *e.g sepal_width* | *e.g FLOAT* | *e.g The width of the sepal part of the plant* |\n\n## Key people\n\n| name | details |\n| :--- | :------ |\n| *e.g Ronald Fisher* | *Gathered the data and is the subject metter expert* |\n";

/// The metadata document for an extract data source.
pub const EXTRACT_METADATA: &'static str = "# <<<data_source_name>>>\n\n## Extract details\n\n| extract file | extract query | extractor | date received |\n| :----------- | :------------ | :-------- | :------------ |\n| *e.g iris.csv* | *e.g SELECT * FROM iris_table* | *e.g Ronald Fisher - data collection team* | *e.g 2022-04-01* |\n\n## Data dictionary\n\n| data field | data type | description |\n| :--------- | :-------- | :---------- |\n| *e.g ID* | *e.g INT* | *e.g A unique identifier for each record* |\n| *e.g sepal_width* | *e.g FLOAT* | *e.g The width of the sepal part of the plant* |\n\n## Key people\n\n| name | details |\n| :--- | :------ |\n| *e.g Ronald Fisher* | *Gathered the data and is the subject metter expert. Ron and the data collection team have access to the database and extracted it to a csv* |\n";

/// The metadata document for a web data source.
pub const WEB_METADATA: &'static str = "# <<<data_source_name>>>\n\n## Website details\n\n| download file | donwload link | donwloaded on | additional details |\n| :------------ | :------------ | :------------ | :----------------- |\n| *e.g iris.data* | *e.g https://archive.ics.uci.edu/ml/machine-learning-databases/iris/iris.data* | *e.g 2022-01-01* | *e.g https://archive.ics.uci.edu/ml/datasets/iris* |\n\n## Data dictionary\n\n| data field | data type | description |\n| :--------- | :-------- | :---------- |\n| *e.g ID* | *e.g INT* | *e.g A unique identifier for each record* |\n| *e.g sepal_width* | *e.g FLOAT* | *e.g The width of the sepal part of the plant* |\n\n## Key people\n\n| name | details |\n| :--- | :------ |\n| *e.g Ronald Fisher* | *Gathered the data and is the subject metter expert* |\n| *e.g Michael Marshall* | *(MARSHALL%PLU@io.arc.nasa.gov) Donated the dataset to the UCI machine learning repository* |\n";

/// The name tokens are never empty: substitution with them terminates and
/// can change a text.
pub proof fn lemma_tokens_nonempty()
    ensures
        PROJECT_NAME_TOKEN@.len() > 0,
        DATA_SOURCE_NAME_TOKEN@.len() > 0,
{
    reveal_strlit("<<<project_name>>>");
    reveal_strlit("<<<data_source_name>>>");
}

} // verus!
