use vstd::prelude::*;

use crate::cli::UltimeProjectTemplate;

verus! {

/// The directory a project template is cloned from, one per template.
/// Cloning itself copies a bundled asset tree and is left to the
/// binary; the library only fixes the name.
pub fn get_template_name(template: &UltimeProjectTemplate) -> (r: &'static str)
    ensures
        r@ == (match *template {
            UltimeProjectTemplate::Empty => "empty"@,
            UltimeProjectTemplate::Blog => "blog"@,
        }),
{
    match template {
        UltimeProjectTemplate::Empty => "empty",
        UltimeProjectTemplate::Blog => "blog",
    }
}

} // verus!
