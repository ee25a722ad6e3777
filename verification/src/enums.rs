//! The closed set of message categories and its text forms.
use vstd::prelude::*;
use vstd::string::StringExecFns;
use crate::exceptions::DomainError;
use crate::text::{equal_ignoring_ascii_case, folded, folded_is_stable};

verus! {

/// What a contact message is about.
#[allow(clippy::upper_case_acronyms)]
#[derive(Clone, Copy, Debug, PartialEq, Eq, Structural)]
pub enum ContactMessageCategory {
    ERROR,
    IDEA,
    TESTIMONIAL,
    OTHER,
}

/// The category that a text names, letters compared without regard to ASCII
/// case; `None` where it names no category.
pub open spec fn category_named(s: Seq<char>) -> Option<ContactMessageCategory> {
    if folded(s) == folded("ERROR"@) {
        Some(ContactMessageCategory::ERROR)
    } else if folded(s) == folded("IDEA"@) {
        Some(ContactMessageCategory::IDEA)
    } else if folded(s) == folded("TESTIMONIAL"@) {
        Some(ContactMessageCategory::TESTIMONIAL)
    } else if folded(s) == folded("OTHER"@) {
        Some(ContactMessageCategory::OTHER)
    } else {
        None
    }
}

impl ContactMessageCategory {
    /// The canonical spelling of the category.
    pub open spec fn name(self) -> Seq<char> {
        match self {
            ContactMessageCategory::ERROR => "ERROR"@,
            ContactMessageCategory::IDEA => "IDEA"@,
            ContactMessageCategory::TESTIMONIAL => "TESTIMONIAL"@,
            ContactMessageCategory::OTHER => "OTHER"@,
        }
    }

    /// Reads a category from text supplied by a caller. The comparison
    /// ignores ASCII case; a text that names no category is an error that
    /// carries the text.
    pub fn from_str(s: &str) -> (r: Result<ContactMessageCategory, DomainError>)
        ensures
            match category_named(s@) {
                Some(c) => r == Ok::<ContactMessageCategory, DomainError>(c),
                None => r matches Err(DomainError::InvalidCategory(t)) && t@ == s@,
            },
    {
        if equal_ignoring_ascii_case(s, "ERROR") {
            Ok(ContactMessageCategory::ERROR)
        } else if equal_ignoring_ascii_case(s, "IDEA") {
            Ok(ContactMessageCategory::IDEA)
        } else if equal_ignoring_ascii_case(s, "TESTIMONIAL") {
            Ok(ContactMessageCategory::TESTIMONIAL)
        } else if equal_ignoring_ascii_case(s, "OTHER") {
            Ok(ContactMessageCategory::OTHER)
        } else {
            Err(DomainError::InvalidCategory(String::from_str(s)))
        }
    }

    /// The canonical spelling, as stored with a record.
    pub fn to_string(&self) -> (r: String)
        ensures
            r@ == self.name(),
    {
        match self {
            ContactMessageCategory::ERROR => String::from_str("ERROR"),
            ContactMessageCategory::IDEA => String::from_str("IDEA"),
            ContactMessageCategory::TESTIMONIAL => String::from_str("TESTIMONIAL"),
            ContactMessageCategory::OTHER => String::from_str("OTHER"),
        }
    }
}

/// Two texts that differ only in the case of ASCII letters name the same
/// category, or both name none.
pub proof fn category_ignores_case(a: Seq<char>, b: Seq<char>)
    requires
        folded(a) == folded(b),
    ensures
        category_named(a) == category_named(b),
{
}

/// The upper-case form of a text names what the text names.
pub proof fn upper_case_names_the_same(s: Seq<char>)
    ensures
        category_named(folded(s)) == category_named(s),
{
    folded_is_stable(s);
}

/// Every category is named by its canonical spelling, and by any text that
/// folds to it.
pub proof fn canonical_name_is_recognised(c: ContactMessageCategory, s: Seq<char>)
    requires
        folded(s) == folded(c.name()),
    ensures
        category_named(s) == Some(c),
        category_named(c.name()) == Some(c),
{
    reveal_strlit("ERROR");
    reveal_strlit("IDEA");
    reveal_strlit("TESTIMONIAL");
    reveal_strlit("OTHER");
    assert(folded("ERROR"@).len() == 5);
    assert(folded("IDEA"@).len() == 4);
    assert(folded("TESTIMONIAL"@).len() == 11);
    assert(folded("OTHER"@).len() == 5);
    assert(folded("ERROR"@)[0] == 'E');
    assert(folded("OTHER"@)[0] == 'O');
}

/// A text names a category exactly when it folds to one of the four
/// canonical spellings; then the category is the one so spelled.
pub proof fn category_named_exactly(s: Seq<char>)
    ensures
        category_named(s) is Some <==> exists|c: ContactMessageCategory|
            folded(s) == folded(c.name()),
        forall|c: ContactMessageCategory|
            category_named(s) == Some(c) ==> folded(s) == folded(c.name()),
{
    if category_named(s) is Some {
        let c = category_named(s).unwrap();
        assert(folded(s) == folded(c.name()));
    }
    if exists|c: ContactMessageCategory| folded(s) == folded(c.name()) {
        let c = choose|c: ContactMessageCategory| folded(s) == folded(c.name());
        canonical_name_is_recognised(c, s);
    }
}

} // verus!
