use vstd::prelude::*;

use crate::seq_util::{filtered, lemma_filtered_membership, lemma_filtered_two_matches};

verus! {

/// The data a page is compiled from: what to display in the title tag, the
/// name of the component used as the entry point, and the pieces of code to
/// add to the page.
pub struct PageTemplate {
    pub title: String,
    pub page_component_name: String,
    pub components: Vec<String>,
}

/// A React element (component or page) that needs to be imported to a page,
/// by name.
pub enum ReactElement {
    COMPONENT(String),
    PAGE(String),
}

/// Holds of the elements that are pages.
pub open spec fn page_pred() -> spec_fn(ReactElement) -> bool {
    |e: ReactElement| e is PAGE
}

/// The position of the page element; meaningful only when one exists, and
/// unique when exactly one does.
pub open spec fn page_index(elements: Seq<ReactElement>) -> int {
    choose|i: int| 0 <= i < elements.len() && elements[i] is PAGE
}

impl ReactElement {
    /// The name of the element.
    pub open spec fn name_spec(self) -> Seq<char> {
        match self {
            ReactElement::COMPONENT(s) => s@,
            ReactElement::PAGE(s) => s@,
        }
    }

    /// Returns the name of the element.
    pub fn name(&self) -> (r: &str)
        ensures
            r@ == self.name_spec(),
    {
        match self {
            ReactElement::COMPONENT(s) => s.as_str(),
            ReactElement::PAGE(s) => s.as_str(),
        }
    }

    /// Determines whether a component is a page or not.
    pub fn is_page(&self) -> (r: bool)
        ensures
            r == (*self is PAGE),
    {
        match self {
            ReactElement::COMPONENT(_) => false,
            ReactElement::PAGE(_) => true,
        }
    }
}

/// Gathers the data a page is compiled from: the title, the name of the one
/// page element among `elements`, and the code handed over for the elements.
/// The caller supplies exactly one page element.
pub fn create_template(title: String, elements: &Vec<ReactElement>, components: Vec<String>) -> (r:
    PageTemplate)
    requires
        filtered(elements@, page_pred()).len() == 1,
    ensures
        r.title == title,
        r.page_component_name@ == elements@[page_index(elements@)].name_spec(),
        r.components == components,
{
    let mut i: usize = 0;
    while i < elements.len()
        invariant
            i <= elements@.len(),
            filtered(elements@, page_pred()).len() == 1,
            forall|k: int| 0 <= k < i ==> !((#[trigger] elements@[k]) is PAGE),
        decreases elements@.len() - i,
    {
        if elements[i].is_page() {
            let page_component_name = elements[i].name().to_owned();
            proof {
                let w = page_index(elements@);
                assert(0 <= w < elements@.len() && elements@[w] is PAGE);
                if w < i as int {
                    lemma_filtered_two_matches(elements@, page_pred(), w, i as int);
                } else if (i as int) < w {
                    lemma_filtered_two_matches(elements@, page_pred(), i as int, w);
                }
            }
            return PageTemplate { title, page_component_name, components };
        }
        i = i + 1;
    }
    proof {
        lemma_filtered_membership(elements@, page_pred());
        assert(page_pred()(filtered(elements@, page_pred())[0]));
        let k = choose|k: int|
            0 <= k < elements@.len() && elements@[k] == filtered(elements@, page_pred())[0];
        assert(false);
    }
    PageTemplate { title, page_component_name: String::new(), components }
}

} // verus!
