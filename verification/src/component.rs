use vstd::prelude::*;
use vstd::string::StringExecFns;

use crate::casing::{pascal_of, snake_of, to_pascal_case, to_snake_case};
use crate::render::{render_component_text, spec_component_text};

verus! {

/// The snake-cased output file name for a generated component or page.
pub open spec fn spec_generated_file_name(name: Seq<char>) -> Seq<char> {
    snake_of(name) + ".rs"@
}

/// Derive the output file name and content of a new view component:
/// the file is named after the snake-cased component name and the body
/// carries the Pascal-cased name.  The caller writes the file under the
/// components directory.
pub fn generate_component(name: &str) -> (r: (String, String))
    ensures
        r.0@ == spec_generated_file_name(name@),
        r.1@ == spec_component_text(pascal_of(name@)),
{
    let component_name = to_pascal_case(name);
    let content = render_component_text(component_name.as_str());
    let mut file_name = to_snake_case(name);
    file_name.append(".rs");
    (file_name, content)
}

} // verus!
