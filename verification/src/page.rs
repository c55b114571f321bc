use vstd::prelude::*;
use vstd::string::StringExecFns;

use crate::casing::{pascal_of, to_pascal_case, to_snake_case};
use crate::component::spec_generated_file_name;
use crate::render::{render_component_text, spec_component_text};

verus! {

/// Derive the output file name and content of a new page: the file is
/// named after the snake-cased page name and the body carries the
/// Pascal-cased name with a `Page` suffix.  The caller writes the file
/// under the pages directory.
pub fn generate_page(name: &str) -> (r: (String, String))
    ensures
        r.0@ == spec_generated_file_name(name@),
        r.1@ == spec_component_text(pascal_of(name@ + "-page"@)),
{
    let mut page_base = String::from_str(name);
    page_base.append("-page");
    let page_name = to_pascal_case(page_base.as_str());
    let content = render_component_text(page_name.as_str());
    let mut file_name = to_snake_case(name);
    file_name.append(".rs");
    (file_name, content)
}

} // verus!
