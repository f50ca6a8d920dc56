//! The add data-source operation: gate, template selection, substitution and
//! summary.

use geoffrey::add_command::DataSource;
use geoffrey::pleasant_error::validate_create_folder_result;
use geoffrey::pleasant_error::FsError;
use geoffrey::pleasant_error::FsErrorKind;

fn data_source(database: bool, extract: bool, web: bool) -> DataSource {
    DataSource {
        name: String::from("test_data_source"),
        database,
        extract,
        web,
    }
}

const FLAG_CASES: [(bool, bool, bool); 4] = [
    (false, false, false),
    (true, false, false),
    (false, true, false),
    (false, false, true),
];

#[test]
fn check_not_managed_by_geoff() {
    for (db_opt, extract_opt, web_opt) in FLAG_CASES {
        let ds = data_source(db_opt, extract_opt, web_opt);
        let gate = ds._geoff_check(false);
        let message = gate.err().expect("a directory without the marker must be refused");
        assert!(message.contains("This directory is not managed by geoff"));
    }
}

#[test]
fn check_managed_by_geoff() {
    for (db_opt, extract_opt, web_opt) in FLAG_CASES {
        let ds = data_source(db_opt, extract_opt, web_opt);
        assert!(ds._geoff_check(true).is_ok());
    }
}

#[test]
fn gets_correct_metadata_no_options() {
    let ds = data_source(false, false, false);
    let metadata: &str = ds.retrieve_metadata_contents();
    assert!(metadata.contains("# <<<data_source_name>>>"));
}

#[test]
fn gets_correct_metadata_database() {
    let ds = data_source(true, false, false);
    let metadata: &str = ds.retrieve_metadata_contents();
    let expected_contents = String::from(
        "# <<<data_source_name>>>\n\
        \n\
        ## Database details\n\
        \n\
        | database name(s) | tables accessed | tables_created |\n\
        | :--------------- | :-------------- | :------------- |\n\
        | *e.g datasets* | *e.g iris* | *e.g iris_transformed* |\n\
        \n\
        ## Data dictionary\n\
        \n\
        | data field | data type | description |\n\
        | :--------- | :-------- | :---------- |\n\
        | *e.g ID* | *e.g INT* | *e.g A unique identifier for each record* |\n\
        | *e.g sepal_width* | *e.g FLOAT* | *e.g The width of the sepal part of the plant* |\n\
        \n\
        ## Key people\n\
        \n\
        | name | details |\n\
        | :--- | :------ |\n\
        | *e.g Ronald Fisher* | *Gathered the data and is the subject metter expert* |",
    );
    assert!(metadata.contains(&expected_contents));
}

#[test]
fn gets_correct_metadata_extract() {
    let ds = data_source(false, true, false);
    let metadata: &str = ds.retrieve_metadata_contents();
    let expected_contents = String::from(
        "# <<<data_source_name>>>\n\
        \n\
        ## Extract details\n\
        \n\
        | extract file | extract query | extractor | date received |\n\
        | :----------- | :------------ | :-------- | :------------ |\n\
        | *e.g iris.csv* | *e.g SELECT * FROM iris_table* | *e.g Ronald Fisher - data collection team* | *e.g 2022-04-01* |\n\
        \n\
        ## Data dictionary\n\
        \n\
        | data field | data type | description |\n\
        | :--------- | :-------- | :---------- |\n\
        | *e.g ID* | *e.g INT* | *e.g A unique identifier for each record* |\n\
        | *e.g sepal_width* | *e.g FLOAT* | *e.g The width of the sepal part of the plant* |\n\
        \n\
        ## Key people\n\
        \n\
        | name | details |\n\
        | :--- | :------ |\n\
        | *e.g Ronald Fisher* | *Gathered the data and is the subject metter expert. Ron and the data collection team have access to the database and extracted it to a csv* |\n\
    ",
    );
    assert!(metadata.contains(&expected_contents));
}

#[test]
fn gets_correct_metadata_web() {
    let ds = data_source(false, false, true);
    let metadata: &str = ds.retrieve_metadata_contents();
    let expected_contents = String::from(
        "# <<<data_source_name>>>\n\
        \n\
        ## Website details\n\
        \n\
        | download file | donwload link | donwloaded on | additional details |\n\
        | :------------ | :------------ | :------------ | :----------------- |\n\
        | *e.g iris.data* | *e.g https://archive.ics.uci.edu/ml/machine-learning-databases/iris/iris.data* | *e.g 2022-01-01* | *e.g https://archive.ics.uci.edu/ml/datasets/iris* |\n\
        \n\
        ## Data dictionary\n\
        \n\
        | data field | data type | description |\n\
        | :--------- | :-------- | :---------- |\n\
        | *e.g ID* | *e.g INT* | *e.g A unique identifier for each record* |\n\
        | *e.g sepal_width* | *e.g FLOAT* | *e.g The width of the sepal part of the plant* |\n\
        \n\
        ## Key people\n\
        \n\
        | name | details |\n\
        | :--- | :------ |\n\
        | *e.g Ronald Fisher* | *Gathered the data and is the subject metter expert* |\n\
        | *e.g Michael Marshall* | *(MARSHALL%PLU@io.arc.nasa.gov) Donated the dataset to the UCI machine learning repository* |\n\
    ",
    );
    assert!(metadata.contains(&expected_contents));
}

#[test]
fn replace_placeholder_tags() {
    for (db_opt, extract_opt, web_opt) in FLAG_CASES {
        let ds = data_source(db_opt, extract_opt, web_opt);
        let replaced_str = ds.update_placeholders("# <<<data_source_name>>>");
        assert_eq!(replaced_str, "# test_data_source");
    }
}

#[test]
fn replace_placeholder_tags_with_path_like_name() {
    let ds = DataSource {
        name: String::from("nested/foo"),
        database: false,
        extract: false,
        web: false,
    };
    let replaced_str = ds.update_placeholders("# <<<data_source_name>>>");
    assert_eq!(replaced_str, "# foo");
}

#[test]
fn default_metadata_has_only_title() {
    let ds = data_source(false, false, false);
    let contents = ds.update_placeholders(ds.retrieve_metadata_contents());
    assert_eq!(contents, "# test_data_source\n");
}

#[test]
fn database_source_has_its_sections_only() {
    let ds = DataSource {
        name: String::from("foo"),
        database: true,
        extract: false,
        web: false,
    };
    let contents = ds.update_placeholders(ds.retrieve_metadata_contents());
    assert!(contents.contains("# foo"));
    assert!(contents.contains("## Database details"));
    assert!(contents.contains("## Data dictionary"));
    assert!(contents.contains("## Key people"));
    assert!(!contents.contains("## Extract details"));
    assert!(!contents.contains("## Website details"));
    assert_eq!(ds.metadata_path(), "data_sources/foo/metadata.md");
}

#[test]
fn extract_metadata_contents_correct() {
    let ds = data_source(false, true, false);
    let contents = ds.update_placeholders(ds.retrieve_metadata_contents());
    assert!(contents.contains("# test_data_source"));
    assert!(contents.contains("## Extract details"));
    assert!(contents.contains("## Data dictionary"));
    assert!(contents.contains("## Key people"));
}

#[test]
fn web_metadata_contents_correct() {
    let ds = data_source(false, false, true);
    let contents = ds.update_placeholders(ds.retrieve_metadata_contents());
    assert!(contents.contains("# test_data_source"));
    assert!(contents.contains("## Website details"));
    assert!(contents.contains("## Data dictionary"));
    assert!(contents.contains("## Key people"));
}

#[test]
fn data_source_paths_name_the_source() {
    let ds = data_source(false, false, false);
    assert_eq!(ds.data_source_path(), "data_sources/test_data_source");
    assert_eq!(ds.metadata_path(), "data_sources/test_data_source/metadata.md");
}

#[test]
fn errors_on_data_source_already_exists() {
    // Adding a data source whose directory already exists (for example as a
    // plain file) fails before any metadata is written.
    for (db_opt, extract_opt, web_opt) in FLAG_CASES {
        let ds = data_source(db_opt, extract_opt, web_opt);
        let failure = FsError {
            kind: FsErrorKind::AlreadyExists,
            detail: String::from("File exists (os error 17)"),
        };
        let e = validate_create_folder_result(ds.name.as_str(), &Err(failure))
            .err()
            .expect("an existing data source must classify as an error");
        assert!(e.fatal.contains("test_data_source exists"));
    }
}

#[test]
fn multiple_options_should_error() {
    let conflicting = vec![
        (true, true, false),
        (true, false, true),
        (false, true, true),
        (true, true, true),
    ];
    for (db_opt, extract_opt, web_opt) in conflicting {
        let ds = data_source(db_opt, extract_opt, web_opt);
        assert!(!ds.selector_flags_exclusive());
    }
    for (db_opt, extract_opt, web_opt) in FLAG_CASES {
        let ds = data_source(db_opt, extract_opt, web_opt);
        assert!(ds.selector_flags_exclusive());
    }
}

#[test]
fn creates_data_source_tree() {
    for (db_opt, extract_opt, web_opt) in FLAG_CASES {
        let ds = data_source(db_opt, extract_opt, web_opt);
        let tree = ds.create_tree();
        assert_eq!(tree.text, "\u{1F5BF} data_sources");
        assert_eq!(tree.children.len(), 1);
        assert_eq!(tree.children[0].text, "\u{1F5BF} test_data_source");
        assert_eq!(tree.children[0].children.len(), 1);
        assert_eq!(tree.children[0].children[0].text, "\u{1F5CE} metadata.md");
        assert!(tree.children[0].children[0].children.is_empty());
    }
}
