//! Sanity checks on package identifiers.

use crate::text::{concat_str, contains_char, texts};
use crate::utils::error::{Error, ErrorView};
use vstd::prelude::*;
use vstd::string::*;

verus! {

/// Checks package identifiers before they are handed to a tool.
pub struct PackageValidator;

/// A white-space character: one with the Unicode property `White_Space`.
pub open spec fn is_space(c: char) -> bool {
    let code = c as u32;
    ||| 0x09 <= code <= 0x0D
    ||| code == 0x20
    ||| code == 0x85
    ||| code == 0xA0
    ||| code == 0x1680
    ||| 0x2000 <= code <= 0x200A
    ||| code == 0x2028
    ||| code == 0x2029
    ||| code == 0x202F
    ||| code == 0x205F
    ||| code == 0x3000
}

/// A name with nothing in it but white space; the empty name is blank.
pub open spec fn is_blank(name: Seq<char>) -> bool {
    forall|i: int| 0 <= i < name.len() ==> is_space(#[trigger] name[i])
}

/// A name that begins with a bare dot: a dot followed by something other
/// than a slash.
pub open spec fn has_bare_dot(name: Seq<char>) -> bool {
    name.len() > 1 && name[0] == '.' && name[1] != '/'
}

/// What is added to a name that is refused for its leading dot.
pub open spec fn bare_dot_note() -> Seq<char> {
    " (cannot start with '.')"@
}

/// The error a name is refused with, if it is refused.
pub open spec fn rejection(name: Seq<char>) -> Option<ErrorView> {
    if is_blank(name) {
        Some(ErrorView::InvalidPackageName { name })
    } else if has_bare_dot(name) {
        Some(ErrorView::InvalidPackageName { name: name + bare_dot_note() })
    } else {
        None
    }
}

/// The error of the first name in a list that is refused, if one is.
pub open spec fn first_rejection(names: Seq<Seq<char>>) -> Option<ErrorView>
    decreases names.len(),
{
    if names.len() == 0 {
        None
    } else if rejection(names[0]) is Some {
        rejection(names[0])
    } else {
        first_rejection(names.drop_first())
    }
}

/// Names that all pass add nothing to what comes after them.
pub proof fn lemma_first_rejection_skip(names: Seq<Seq<char>>, passed: int)
    requires
        0 <= passed <= names.len(),
        forall|i: int| 0 <= i < passed ==> rejection(#[trigger] names[i]) is None,
    ensures
        first_rejection(names) == first_rejection(names.skip(passed)),
    decreases passed,
{
    if passed == 0 {
        assert(names.skip(0) =~= names);
    } else {
        let rest = names.drop_first();
        assert forall|i: int| 0 <= i < passed - 1 implies rejection(#[trigger] rest[i]) is None by {
            assert(rest[i] == names[i + 1]);
        }
        lemma_first_rejection_skip(rest, passed - 1);
        assert(rest.skip(passed - 1) =~= names.skip(passed));
    }
}

fn char_is_space(c: char) -> (yes: bool)
    ensures
        yes == is_space(c),
{
    let code: u32 = c as u32;
    (0x09 <= code && code <= 0x0D) || code == 0x20 || code == 0x85 || code == 0xA0 || code
        == 0x1680 || (0x2000 <= code && code <= 0x200A) || code == 0x2028 || code == 0x2029
        || code == 0x202F || code == 0x205F || code == 0x3000
}

fn name_is_blank(name: &str) -> (yes: bool)
    ensures
        yes == is_blank(name@),
{
    let mut blank = true;
    for c in it: name.chars()
        invariant
            it.seq() == name@,
            blank == (forall|i: int| 0 <= i < it.index() ==> is_space(#[trigger] name@[i])),
    {
        if !char_is_space(c) {
            blank = false;
        }
    }
    blank
}

fn name_has_bare_dot(name: &str) -> (yes: bool)
    ensures
        yes == has_bare_dot(name@),
{
    let mut it = name.chars();
    match it.next() {
        Some(first) => {
            if first == '.' {
                match it.next() {
                    Some(second) => second != '/',
                    None => false,
                }
            } else {
                false
            }
        },
        None => false,
    }
}

impl PackageValidator {
    /// Accepts a name unless it is blank or begins with a bare dot.
    pub fn validate_package_name(name: &str) -> (checked: Result<(), Error>)
        ensures
            checked is Ok <==> rejection(name@) is None,
            checked matches Err(e) ==> rejection(name@) == Some(e@),
    {
        if name_is_blank(name) {
            return Err(Error::InvalidPackageName { name: name.to_owned() });
        }
        if name_has_bare_dot(name) {
            return Err(
                Error::InvalidPackageName { name: concat_str(name, " (cannot start with '.')") },
            );
        }
        Ok(())
    }

    /// Accepts a list of names if each one passes; otherwise fails with the
    /// error of the first name that does not.
    pub fn validate_packages(packages: &[String]) -> (checked: Result<(), Error>)
        ensures
            match checked {
                Ok(_) => first_rejection(texts(packages@)) is None,
                Err(e) => first_rejection(texts(packages@)) == Some(e@),
            },
            checked is Ok <==> forall|i: int|
                0 <= i < packages@.len() ==> rejection(#[trigger] packages@[i]@) is None,
            checked matches Err(e) ==> exists|i: int|
                0 <= i < packages@.len() && rejection(#[trigger] packages@[i]@) == Some(e@)
                    && forall|k: int| 0 <= k < i ==> rejection(#[trigger] packages@[k]@) is None,
    {
        let mut i: usize = 0;
        while i < packages.len()
            invariant
                i <= packages.len(),
                forall|k: int| 0 <= k < i ==> rejection(#[trigger] packages@[k]@) is None,
            decreases packages.len() - i,
        {
            match Self::validate_package_name(packages[i].as_str()) {
                Ok(_) => {},
                Err(e) => {
                    proof {
                        let names = texts(packages@);
                        assert(rejection(packages@[i as int]@) == Some(e@));
                        assert forall|k: int| 0 <= k < i implies rejection(
                            #[trigger] names[k],
                        ) is None by {
                            assert(names[k] == packages@[k]@);
                        }
                        lemma_first_rejection_skip(names, i as int);
                        assert(names.skip(i as int)[0] == packages@[i as int]@);
                    }
                    return Err(e);
                },
            }
            i += 1;
        }
        proof {
            let names = texts(packages@);
            assert forall|k: int| 0 <= k < names.len() implies rejection(#[trigger] names[k])
                is None by {
                assert(names[k] == packages@[k]@);
            }
            lemma_first_rejection_skip(names, names.len() as int);
        }
        Ok(())
    }

    /// Whether a name carries a version specifier: an `@`, a `^` or a `~`.
    pub fn has_version_specifier(name: &str) -> (yes: bool)
        ensures
            yes == (name@.contains('@') || name@.contains('^') || name@.contains('~')),
    {
        contains_char(name, '@') || contains_char(name, '^') || contains_char(name, '~')
    }
}

} // verus!
