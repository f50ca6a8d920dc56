//! Classification of failed filesystem operations into user-facing messages.
//!
//! Every operation of the tool treats a filesystem failure as fatal. The
//! failure's kind is mapped to one of four fixed message templates: a friendly
//! explanation for the error stream, and the fatal message the invocation
//! stops with.

use vstd::prelude::*;
use vstd::string::StringExecFns;

verus! {

/// The coarse kinds of filesystem failure that the tool tells apart.
#[derive(Clone, Copy)]
pub enum FsErrorKind {
    AlreadyExists,
    NotFound,
    PermissionDenied,
    Other,
}

/// A failed filesystem operation: its kind and the host's own description.
pub struct FsError {
    pub kind: FsErrorKind,
    pub detail: String,
}

/// A classified failure: a friendly explanation for the error stream, and the
/// fatal message that ends the invocation.
pub struct PleasantError {
    pub explanation: String,
    pub fatal: String,
}

/// The friendly explanation for each failure kind.
pub open spec fn spec_explanation(name: Seq<char>, kind: FsErrorKind) -> Seq<char> {
    match kind {
        FsErrorKind::AlreadyExists => name + " already exists, please pick a different name"@,
        FsErrorKind::NotFound => "One or more parents of "@ + name
            + " doesn't exist. Please create the parent directories\nor pass the `--parents` option\n\nFor example:\ngeoff create --parents test_project"@,
        FsErrorKind::PermissionDenied => "You don't have permission to create "@ + name
            + " . Please change your permissions or choose a\ndifferent directory to create this project in"@,
        FsErrorKind::Other => "There was an unknown error creating the directory,\nif you need help with this you can raise an issue here: https://github.com/stats-student/geoffrey-rs/issues"@,
    }
}

/// The fatal message for each failure kind.
pub open spec fn spec_fatal(name: Seq<char>, kind: FsErrorKind, detail: Seq<char>) -> Seq<char> {
    match kind {
        FsErrorKind::AlreadyExists => name + " exists\n"@ + detail,
        FsErrorKind::NotFound => "Parents don't exist\n"@ + detail,
        FsErrorKind::PermissionDenied => "Invalid permissions\n"@ + detail,
        FsErrorKind::Other => "Unknown error\n"@ + detail,
    }
}

/// Builds the messages for a failure whose target already exists.
pub fn already_exists_err_msg(name: &str, detail: &str) -> (e: PleasantError)
    ensures
        e.explanation@ == spec_explanation(name@, FsErrorKind::AlreadyExists),
        e.fatal@ == spec_fatal(name@, FsErrorKind::AlreadyExists, detail@),
{
    let mut explanation = String::new();
    explanation.append(name);
    explanation.append(" already exists, please pick a different name");
    let mut fatal = String::new();
    fatal.append(name);
    fatal.append(" exists\n");
    fatal.append(detail);
    PleasantError { explanation, fatal }
}

/// Builds the messages for a failure whose target has a missing parent.
pub fn not_found_err_msg(name: &str, detail: &str) -> (e: PleasantError)
    ensures
        e.explanation@ == spec_explanation(name@, FsErrorKind::NotFound),
        e.fatal@ == spec_fatal(name@, FsErrorKind::NotFound, detail@),
{
    let mut explanation = String::new();
    explanation.append("One or more parents of ");
    explanation.append(name);
    explanation.append(
        " doesn't exist. Please create the parent directories\nor pass the `--parents` option\n\nFor example:\ngeoff create --parents test_project",
    );
    let mut fatal = String::new();
    fatal.append("Parents don't exist\n");
    fatal.append(detail);
    PleasantError { explanation, fatal }
}

/// Builds the messages for a failure caused by missing permissions.
pub fn permission_denied_err_msg(name: &str, detail: &str) -> (e: PleasantError)
    ensures
        e.explanation@ == spec_explanation(name@, FsErrorKind::PermissionDenied),
        e.fatal@ == spec_fatal(name@, FsErrorKind::PermissionDenied, detail@),
{
    let mut explanation = String::new();
    explanation.append("You don't have permission to create ");
    explanation.append(name);
    explanation.append(
        " . Please change your permissions or choose a\ndifferent directory to create this project in",
    );
    let mut fatal = String::new();
    fatal.append("Invalid permissions\n");
    fatal.append(detail);
    PleasantError { explanation, fatal }
}

/// Builds the messages for any other failure.
pub fn generic_err_msg(detail: &str) -> (e: PleasantError)
    ensures
        e.explanation@ == spec_explanation(Seq::<char>::empty(), FsErrorKind::Other),
        e.fatal@ == spec_fatal(Seq::<char>::empty(), FsErrorKind::Other, detail@),
{
    let mut explanation = String::new();
    explanation.append(
        "There was an unknown error creating the directory,\nif you need help with this you can raise an issue here: https://github.com/stats-student/geoffrey-rs/issues",
    );
    let mut fatal = String::new();
    fatal.append("Unknown error\n");
    fatal.append(detail);
    PleasantError { explanation, fatal }
}

/// Classifies the outcome of a directory creation. A success passes through
/// untouched; a failure is mapped to the message pair of its kind.
pub fn validate_create_folder_result(name: &str, result: &Result<(), FsError>) -> (r: Result<
    (),
    PleasantError,
>)
    ensures
        result is Ok <==> r is Ok,
        result matches Err(f) ==> r matches Err(e) && e.explanation@ == spec_explanation(
            name@,
            f.kind,
        ) && e.fatal@ == spec_fatal(name@, f.kind, f.detail@),
{
    match result {
        Ok(_) => Ok(()),
        Err(f) => match f.kind {
            FsErrorKind::AlreadyExists => Err(already_exists_err_msg(name, f.detail.as_str())),
            FsErrorKind::NotFound => Err(not_found_err_msg(name, f.detail.as_str())),
            FsErrorKind::PermissionDenied => Err(
                permission_denied_err_msg(name, f.detail.as_str()),
            ),
            FsErrorKind::Other => Err(generic_err_msg(f.detail.as_str())),
        },
    }
}

/// Holds exactly when `needle` occurs somewhere inside `hay`.
pub open spec fn contains_sub(hay: Seq<char>, needle: Seq<char>) -> bool {
    exists|i: int|
        0 <= i && i + needle.len() <= hay.len() && #[trigger] hay.subrange(
            i,
            i + needle.len(),
        ) == needle
}

/// `needle` occurs in `hay` at position `i`.
pub proof fn lemma_contains_sub_at(hay: Seq<char>, needle: Seq<char>, i: int)
    requires
        0 <= i,
        i + needle.len() <= hay.len(),
        hay.subrange(i, i + needle.len() as int) == needle,
    ensures
        contains_sub(hay, needle),
{
}

/// Classifying a failure of any kind, on any path, yields a fatal message
/// that contains the fixed substring of that kind.
pub proof fn lemma_fatal_message_names_kind(
    name: Seq<char>,
    kind: FsErrorKind,
    detail: Seq<char>,
)
    ensures
        kind is AlreadyExists ==> contains_sub(spec_fatal(name, kind, detail), "exists"@)
            && contains_sub(spec_fatal(name, kind, detail), name),
        kind is NotFound ==> contains_sub(spec_fatal(name, kind, detail), "Parents don't exist"@),
        kind is PermissionDenied ==> contains_sub(
            spec_fatal(name, kind, detail),
            "Invalid permissions"@,
        ),
        kind is Other ==> contains_sub(spec_fatal(name, kind, detail), "Unknown error"@),
{
    let m = spec_fatal(name, kind, detail);
    match kind {
        FsErrorKind::AlreadyExists => {
            reveal_strlit(" exists\n");
            reveal_strlit("exists");
            let i = name.len() as int + 1;
            assert(m.subrange(i, i + "exists"@.len() as int) =~= "exists"@);
            lemma_contains_sub_at(m, "exists"@, i);
            assert(m.subrange(0, name.len() as int) =~= name);
            lemma_contains_sub_at(m, name, 0);
        },
        FsErrorKind::NotFound => {
            reveal_strlit("Parents don't exist\n");
            reveal_strlit("Parents don't exist");
            assert(m.subrange(0, "Parents don't exist"@.len() as int) =~= "Parents don't exist"@);
            lemma_contains_sub_at(m, "Parents don't exist"@, 0);
        },
        FsErrorKind::PermissionDenied => {
            reveal_strlit("Invalid permissions\n");
            reveal_strlit("Invalid permissions");
            assert(m.subrange(0, "Invalid permissions"@.len() as int) =~= "Invalid permissions"@);
            lemma_contains_sub_at(m, "Invalid permissions"@, 0);
        },
        FsErrorKind::Other => {
            reveal_strlit("Unknown error\n");
            reveal_strlit("Unknown error");
            assert(m.subrange(0, "Unknown error"@.len() as int) =~= "Unknown error"@);
            lemma_contains_sub_at(m, "Unknown error"@, 0);
        },
    }
}

} // verus!
