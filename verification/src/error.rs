use vstd::prelude::*;
use vstd::string::StringExecFns;

verus! {

/// The failures a generation pass can end with.
#[derive(Debug)]
pub enum GenerateError {
    /// A definition file was rejected by the schema-language parser.
    /// The payload is the file stem.
    ParseFailed(String),
    /// The named query file does not exist.  The payload is the file name.
    QueryDoesNotExist(String),
    /// The named mutation file does not exist.  The payload is the file name.
    MutationDoesNotExist(String),
    /// The named event file does not exist.  The payload is the file name.
    EventDoesNotExist(String),
    /// The named schema file does not exist.  The payload is the file name.
    SchemaDoesNotExist(String),
}

/// The mathematical shape of a `GenerateError`.
pub enum GenerateErrorV {
    ParseFailed(Seq<char>),
    QueryDoesNotExist(Seq<char>),
    MutationDoesNotExist(Seq<char>),
    EventDoesNotExist(Seq<char>),
    SchemaDoesNotExist(Seq<char>),
}

pub open spec fn view_gen_error(e: GenerateError) -> GenerateErrorV {
    match e {
        GenerateError::ParseFailed(stem) => GenerateErrorV::ParseFailed(stem@),
        GenerateError::QueryDoesNotExist(f) => GenerateErrorV::QueryDoesNotExist(f@),
        GenerateError::MutationDoesNotExist(f) => GenerateErrorV::MutationDoesNotExist(f@),
        GenerateError::EventDoesNotExist(f) => GenerateErrorV::EventDoesNotExist(f@),
        GenerateError::SchemaDoesNotExist(f) => GenerateErrorV::SchemaDoesNotExist(f@),
    }
}

pub open spec fn spec_error_message(e: GenerateError) -> Seq<char> {
    match e {
        GenerateError::ParseFailed(stem) => "Cannot parse file '"@ + stem@ + "'"@,
        GenerateError::QueryDoesNotExist(f) => "Query '"@ + f@ + "' does not exist"@,
        GenerateError::MutationDoesNotExist(f) => "Mutation '"@ + f@ + "' does not exist"@,
        GenerateError::EventDoesNotExist(f) => "Event '"@ + f@ + "' does not exist"@,
        GenerateError::SchemaDoesNotExist(f) => "Schema '"@ + f@ + "' does not exist"@,
    }
}

impl GenerateError {
    /// The human-readable message for this error.
    pub fn message(&self) -> (r: String)
        ensures
            r@ == spec_error_message(*self),
    {
        let mut out = String::new();
        match self {
            GenerateError::ParseFailed(stem) => {
                out.append("Cannot parse file '");
                out.append(stem.as_str());
                out.append("'");
            },
            GenerateError::QueryDoesNotExist(f) => {
                out.append("Query '");
                out.append(f.as_str());
                out.append("' does not exist");
            },
            GenerateError::MutationDoesNotExist(f) => {
                out.append("Mutation '");
                out.append(f.as_str());
                out.append("' does not exist");
            },
            GenerateError::EventDoesNotExist(f) => {
                out.append("Event '");
                out.append(f.as_str());
                out.append("' does not exist");
            },
            GenerateError::SchemaDoesNotExist(f) => {
                out.append("Schema '");
                out.append(f.as_str());
                out.append("' does not exist");
            },
        }
        out
    }
}

} // verus!
