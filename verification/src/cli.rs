use vstd::prelude::*;

verus! {

/// The command-line surface of the tool.  The binary crate carries a
/// copy of these types with the argument-parser attributes; this is the
/// bare shape the library works with.
pub struct Args {
    pub command: Option<Action>,
    /// Open the browser when the application is launched.
    pub open: bool,
}

/// The project templates a new project can be cloned from.
pub enum UltimeProjectTemplate {
    Empty,
    Blog,
}

/// A top-level subcommand.
pub enum Action {
    /// Create a new project from a template.
    New { name: String, template: Option<UltimeProjectTemplate> },
    /// Generate files from the definition directories.
    Generate { command: GenerateAction },
}

/// A generation subcommand.
pub enum GenerateAction {
    /// Generate the typed access layer, optionally watching for changes.
    Db { watch: bool },
    /// Generate a new view component.
    Component { name: String },
    /// Generate a new page.
    Page { name: String },
    /// Generate a new server endpoint.
    Endpoint {
        name: String,
        from_query: Option<String>,
        from_mutation: Option<String>,
        from_event: Option<String>,
    },
}

/// The access method a schema-derived endpoint wraps.
#[derive(Clone, Copy)]
pub enum GenerateEndpointFromSchemaMethod {
    List,
    Get,
    Find,
    Create,
    Update,
    Delete,
    DeleteAll,
}

} // verus!
