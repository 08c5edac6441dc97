//! Finding the page element that a script asks for by class.

use vstd::prelude::*;

verus! {

/// What the lookup knows of a page tag: its CSS classes.
pub struct PageTag {
    pub classes: Vec<String>,
}

/// Whether a list of classes holds the given class.
pub open spec fn has_class(classes: Seq<String>, class: Seq<char>) -> bool {
    exists|k: int| 0 <= k < classes.len() && (#[trigger] classes[k])@ == class
}

/// Whether a tag holds the given class.
pub open spec fn tag_has_class(tag: PageTag, class: Seq<char>) -> bool {
    has_class(tag.classes@, class)
}

/// A lookup that found nothing.
#[derive(Debug, PartialEq, Eq, Structural)]
pub enum LookupError {
    TagNotFound,
}

impl LookupError {
    /// The error that the script sees.
    pub fn message(&self) -> (r: &'static str)
        ensures
            r@ == "Tag not found"@,
    {
        "Tag not found"
    }
}

/// Whether a list of classes holds the given class.
pub fn classes_contain(classes: &Vec<String>, class: &String) -> (r: bool)
    ensures
        r == has_class(classes@, class@),
{
    let mut k: usize = 0;
    while k < classes.len()
        invariant
            k <= classes.len(),
            forall|j: int| 0 <= j < k ==> (#[trigger] classes@[j])@ != class@,
        decreases classes.len() - k,
    {
        if classes[k] == *class {
            assert(classes@[k as int]@ == class@);
            return true;
        }
        k += 1;
    }
    false
}

/// The first tag, in page order, that holds the class; `TagNotFound` when
/// none does.
pub fn get(tags: &Vec<PageTag>, class: &String) -> (r: Result<usize, LookupError>)
    ensures
        r matches Ok(i) ==> i < tags.len() && tag_has_class(tags@[i as int], class@) && forall|
            j: int,
        |
            0 <= j < i ==> !tag_has_class(#[trigger] tags@[j], class@),
        r is Err <==> forall|j: int|
            0 <= j < tags.len() ==> !tag_has_class(#[trigger] tags@[j], class@),
{
    let mut i: usize = 0;
    while i < tags.len()
        invariant
            i <= tags.len(),
            forall|j: int| 0 <= j < i ==> !tag_has_class(#[trigger] tags@[j], class@),
        decreases tags.len() - i,
    {
        if classes_contain(&tags[i].classes, class) {
            return Ok(i);
        }
        i += 1;
    }
    Err(LookupError::TagNotFound)
}

/// A tag holds a class exactly when one of its class names is that class,
/// whole: the class names, as text, contain it.
pub proof fn law_has_class(classes: Seq<String>, class: Seq<char>)
    ensures
        has_class(classes, class) <==> classes.map_values(|c: String| c@).contains(class),
{
    let names = classes.map_values(|c: String| c@);
    if has_class(classes, class) {
        let k = choose|k: int| 0 <= k < classes.len() && (#[trigger] classes[k])@ == class;
        assert(names[k] == class);
    }
    if names.contains(class) {
        let k = choose|k: int| 0 <= k < names.len() && names[k] == class;
        assert(classes[k]@ == class);
    }
}

} // verus!
