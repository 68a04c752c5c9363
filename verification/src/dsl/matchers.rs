//! The matcher catalogue: equality, containment, and the boolean-, Option-
//! and Result-shape matchers.
//!
//! Each matcher implements the `Matcher` trait of the parent module. The
//! predicates are specified exactly; diagnostic messages are specified up to
//! the rendering of the embedded values, which comes from `Debug` and is not
//! modelled beyond its fixed surrounding text.

use crate::dsl::Matcher;
use vstd::prelude::*;
use vstd::std_specs::cmp::PartialEqSpec;

verus! {

/// Relies on `format!` with `core::fmt::Debug` to render a value for a
/// diagnostic message; nothing is assumed about the rendered text.
#[verifier::external_body]
fn debug_repr<T: core::fmt::Debug>(t: &T) -> String {
    format!("{:?}", t)
}

/// Relies on core's `Debug` implementation for `Option`: `None` renders as
/// `"None"` and `Some(x)` as `"Some("`, then the rendering of `x`, then `")"`.
#[verifier::external_body]
fn option_debug_repr<T: core::fmt::Debug>(t: &Option<T>) -> (r: String)
    ensures
        t is None ==> r@ == "None"@,
        t is Some ==> exists|mid: Seq<char>| r@ == "Some("@ + mid + ")"@,
{
    format!("{:?}", t)
}

/// Relies on core's `Debug` implementation for `Result`: `Ok(x)` renders as
/// `"Ok("`, the rendering of `x`, `")"`, and `Err(e)` likewise with `"Err("`.
#[verifier::external_body]
fn result_debug_repr<O: core::fmt::Debug, E: core::fmt::Debug>(t: &Result<O, E>) -> (r: String)
    ensures
        t is Ok ==> exists|mid: Seq<char>| r@ == "Ok("@ + mid + ")"@,
        t is Err ==> exists|mid: Seq<char>| r@ == "Err("@ + mid + ")"@,
{
    format!("{:?}", t)
}

/// The rendering of a `bool`, which `Debug` fixes exactly.
pub open spec fn spec_bool_chars(b: bool) -> Seq<char> {
    if b {
        "true"@
    } else {
        "false"@
    }
}

/// How a rendered `Option` value may read: `"None"` for `None`, and
/// `"Some(...)"` for `Some`.
pub open spec fn option_repr_shape<T>(t: &Option<T>, s: Seq<char>) -> bool {
    match t {
        Option::None => s == "None"@,
        Option::Some(_) => exists|mid: Seq<char>| s == "Some("@ + mid + ")"@,
    }
}

/// How a rendered `Result` value may read: `"Ok(...)"` for `Ok`, and
/// `"Err(...)"` for `Err`.
pub open spec fn result_repr_shape<O, E>(t: &Result<O, E>, s: Seq<char>) -> bool {
    match t {
        Result::Ok(_) => exists|mid: Seq<char>| s == "Ok("@ + mid + ")"@,
        Result::Err(_) => exists|mid: Seq<char>| s == "Err("@ + mid + ")"@,
    }
}

/// Equality matcher: matches when the actual value equals the expected one.
pub struct Equals<'a, E> {
    expected: &'a E,
}

impl<'a, E> Equals<'a, E> {
    /// The expected value this matcher compares against.
    pub closed spec fn spec_expected(&self) -> E {
        *self.expected
    }

    /// Builds an equality matcher around the expected value.
    pub fn new(expected: &'a E) -> (r: Equals<'a, E>)
        ensures
            r.spec_expected() == *expected,
    {
        Equals { expected }
    }
}

impl<'a, E: core::fmt::Debug + PartialEq> Matcher<E> for Equals<'a, E> {
    open spec fn spec_matches(&self, actual: &E) -> bool {
        self.spec_expected().eq_spec(actual)
    }

    open spec fn obeys_match_spec(&self) -> bool {
        <E as PartialEqSpec>::obeys_eq_spec()
    }

    open spec fn failure_message_shape(&self, actual: &E, msg: Seq<char>) -> bool {
        exists|e: Seq<char>, a: Seq<char>| msg == "expected "@ + e + " to equal "@ + a
    }

    open spec fn negated_failure_message_shape(&self, actual: &E, msg: Seq<char>) -> bool {
        exists|e: Seq<char>, a: Seq<char>| msg == "expected "@ + e + " not to equal "@ + a
    }

    fn matches(&self, actual: &E) -> (r: bool) {
        self.expected == actual
    }

    fn failure_message(&self, actual: &E) -> (r: String) {
        let e = debug_repr(self.expected);
        let a = debug_repr(actual);
        String::from_str("expected ").concat(e.as_str()).concat(" to equal ").concat(a.as_str())
    }

    fn negated_failure_message(&self, actual: &E) -> (r: String) {
        let e = debug_repr(self.expected);
        let a = debug_repr(actual);
        String::from_str("expected ").concat(e.as_str()).concat(" not to equal ").concat(
            a.as_str(),
        )
    }
}

/// Containment matcher: matches when the expected element occurs in the
/// actual vector.
pub struct Contain<'a, E> {
    expected: &'a E,
}

impl<'a, E> Contain<'a, E> {
    /// The element this matcher looks for.
    pub closed spec fn spec_expected(&self) -> E {
        *self.expected
    }

    /// Builds a containment matcher around the element to look for.
    pub fn new(expected: &'a E) -> (r: Contain<'a, E>)
        ensures
            r.spec_expected() == *expected,
    {
        Contain { expected }
    }
}

impl<'a, E: core::fmt::Debug + PartialEq> Matcher<Vec<E>> for Contain<'a, E> {
    open spec fn spec_matches(&self, actual: &Vec<E>) -> bool {
        exists|j: int|
            0 <= j < actual@.len() && (#[trigger] self.spec_expected().eq_spec(&actual@[j]))
    }

    open spec fn obeys_match_spec(&self) -> bool {
        <E as PartialEqSpec>::obeys_eq_spec()
    }

    open spec fn failure_message_shape(&self, actual: &Vec<E>, msg: Seq<char>) -> bool {
        exists|e: Seq<char>| msg == "expected to find "@ + e + " in iterator"@
    }

    open spec fn negated_failure_message_shape(&self, actual: &Vec<E>, msg: Seq<char>) -> bool {
        exists|e: Seq<char>| msg == "expected not to find "@ + e + " in iterator"@
    }

    fn matches(&self, actual: &Vec<E>) -> (r: bool) {
        let mut i: usize = 0;
        while i < actual.len()
            invariant
                i <= actual.len(),
                <E as PartialEqSpec>::obeys_eq_spec() ==> forall|j: int|
                    0 <= j < i ==> !(#[trigger] self.spec_expected().eq_spec(&actual@[j])),
            decreases actual.len() - i,
        {
            if self.expected == &actual[i] {
                proof {
                    if <E as PartialEqSpec>::obeys_eq_spec() {
                        assert(self.spec_expected().eq_spec(&actual@[i as int]));
                    }
                }
                return true;
            }
            i += 1;
        }
        false
    }

    fn failure_message(&self, actual: &Vec<E>) -> (r: String) {
        let e = debug_repr(self.expected);
        String::from_str("expected to find ").concat(e.as_str()).concat(" in iterator")
    }

    fn negated_failure_message(&self, actual: &Vec<E>) -> (r: String) {
        let e = debug_repr(self.expected);
        String::from_str("expected not to find ").concat(e.as_str()).concat(" in iterator")
    }
}

/// Boolean-shape matcher: matches `true` or matches `false`.
#[derive(Debug)]
pub enum BooleanMatcher {
    /// Matches when the actual value is true.
    TrueMatch,
    /// Matches when the actual value is false.
    FalseMatch,
}

impl Matcher<bool> for BooleanMatcher {
    open spec fn spec_matches(&self, actual: &bool) -> bool {
        match self {
            BooleanMatcher::TrueMatch => *actual,
            BooleanMatcher::FalseMatch => !*actual,
        }
    }

    open spec fn obeys_match_spec(&self) -> bool {
        true
    }

    open spec fn failure_message_shape(&self, actual: &bool, msg: Seq<char>) -> bool {
        match self {
            BooleanMatcher::TrueMatch => msg == "expected true, found "@ + spec_bool_chars(
                *actual,
            ),
            BooleanMatcher::FalseMatch => msg == "expected false, found "@ + spec_bool_chars(
                *actual,
            ),
        }
    }

    open spec fn negated_failure_message_shape(&self, actual: &bool, msg: Seq<char>) -> bool {
        match self {
            BooleanMatcher::TrueMatch => msg == "expected false, found "@ + spec_bool_chars(
                *actual,
            ),
            BooleanMatcher::FalseMatch => msg == "expected true, found "@ + spec_bool_chars(
                *actual,
            ),
        }
    }

    fn matches(&self, actual: &bool) -> (r: bool) {
        match self {
            BooleanMatcher::TrueMatch => *actual,
            BooleanMatcher::FalseMatch => !*actual,
        }
    }

    fn failure_message(&self, actual: &bool) -> (r: String) {
        let prefix = match self {
            BooleanMatcher::TrueMatch => "expected true, found ",
            BooleanMatcher::FalseMatch => "expected false, found ",
        };
        let rendered = if *actual {
            "true"
        } else {
            "false"
        };
        String::from_str(prefix).concat(rendered)
    }

    fn negated_failure_message(&self, actual: &bool) -> (r: String) {
        let prefix = match self {
            BooleanMatcher::TrueMatch => "expected false, found ",
            BooleanMatcher::FalseMatch => "expected true, found ",
        };
        let rendered = if *actual {
            "true"
        } else {
            "false"
        };
        String::from_str(prefix).concat(rendered)
    }
}

/// Option-shape matcher: matches a `Some` variant or matches a `None` variant.
#[derive(Debug)]
pub enum OptionMatcher {
    /// Matches when the actual value is a Some variant.
    SomeMatch,
    /// Matches when the actual value is a None variant.
    NoneMatch,
}

impl<E: core::fmt::Debug> Matcher<Option<E>> for OptionMatcher {
    open spec fn spec_matches(&self, actual: &Option<E>) -> bool {
        match self {
            OptionMatcher::SomeMatch => actual is Some,
            OptionMatcher::NoneMatch => actual is None,
        }
    }

    open spec fn obeys_match_spec(&self) -> bool {
        true
    }

    open spec fn failure_message_shape(&self, actual: &Option<E>, msg: Seq<char>) -> bool {
        exists|s: Seq<char>|
            #[trigger] option_repr_shape(actual, s) && msg == (match self {
                OptionMatcher::SomeMatch => "expected Some variant, found "@,
                OptionMatcher::NoneMatch => "expected None variant, found "@,
            }) + s
    }

    open spec fn negated_failure_message_shape(&self, actual: &Option<E>, msg: Seq<char>) -> bool {
        exists|s: Seq<char>|
            #[trigger] option_repr_shape(actual, s) && msg == (match self {
                OptionMatcher::SomeMatch => "expected None variant, found "@,
                OptionMatcher::NoneMatch => "expected Some variant, found "@,
            }) + s
    }

    fn matches(&self, actual: &Option<E>) -> (r: bool) {
        match self {
            OptionMatcher::SomeMatch => actual.is_some(),
            OptionMatcher::NoneMatch => actual.is_none(),
        }
    }

    fn failure_message(&self, actual: &Option<E>) -> (r: String) {
        let prefix = match self {
            OptionMatcher::SomeMatch => "expected Some variant, found ",
            OptionMatcher::NoneMatch => "expected None variant, found ",
        };
        let rendered = option_debug_repr(actual);
        let out = String::from_str(prefix).concat(rendered.as_str());
        proof {
            assert(option_repr_shape(actual, rendered@));
        }
        out
    }

    fn negated_failure_message(&self, actual: &Option<E>) -> (r: String) {
        let prefix = match self {
            OptionMatcher::SomeMatch => "expected None variant, found ",
            OptionMatcher::NoneMatch => "expected Some variant, found ",
        };
        let rendered = option_debug_repr(actual);
        let out = String::from_str(prefix).concat(rendered.as_str());
        proof {
            assert(option_repr_shape(actual, rendered@));
        }
        out
    }
}

/// Result-shape matcher: matches an `Ok` variant or matches an `Err` variant.
#[derive(Debug)]
pub enum ResultMatcher {
    /// Matches when the actual value is an Ok variant.
    OkMatch,
    /// Matches when the actual value is an Err variant.
    ErrMatch,
}

impl<O: core::fmt::Debug, E: core::fmt::Debug> Matcher<Result<O, E>> for ResultMatcher {
    open spec fn spec_matches(&self, actual: &Result<O, E>) -> bool {
        match self {
            ResultMatcher::OkMatch => actual is Ok,
            ResultMatcher::ErrMatch => actual is Err,
        }
    }

    open spec fn obeys_match_spec(&self) -> bool {
        true
    }

    open spec fn failure_message_shape(&self, actual: &Result<O, E>, msg: Seq<char>) -> bool {
        exists|s: Seq<char>|
            #[trigger] result_repr_shape(actual, s) && msg == (match self {
                ResultMatcher::OkMatch => "expected Ok variant, found "@,
                ResultMatcher::ErrMatch => "expected Err variant, found "@,
            }) + s
    }

    open spec fn negated_failure_message_shape(
        &self,
        actual: &Result<O, E>,
        msg: Seq<char>,
    ) -> bool {
        exists|s: Seq<char>|
            #[trigger] result_repr_shape(actual, s) && msg == (match self {
                ResultMatcher::OkMatch => "expected Err variant, found "@,
                ResultMatcher::ErrMatch => "expected Ok variant, found "@,
            }) + s
    }

    fn matches(&self, actual: &Result<O, E>) -> (r: bool) {
        match self {
            ResultMatcher::OkMatch => actual.is_ok(),
            ResultMatcher::ErrMatch => actual.is_err(),
        }
    }

    fn failure_message(&self, actual: &Result<O, E>) -> (r: String) {
        let prefix = match self {
            ResultMatcher::OkMatch => "expected Ok variant, found ",
            ResultMatcher::ErrMatch => "expected Err variant, found ",
        };
        let rendered = result_debug_repr(actual);
        let out = String::from_str(prefix).concat(rendered.as_str());
        proof {
            assert(result_repr_shape(actual, rendered@));
        }
        out
    }

    fn negated_failure_message(&self, actual: &Result<O, E>) -> (r: String) {
        let prefix = match self {
            ResultMatcher::OkMatch => "expected Err variant, found ",
            ResultMatcher::ErrMatch => "expected Ok variant, found ",
        };
        let rendered = result_debug_repr(actual);
        let out = String::from_str(prefix).concat(rendered.as_str());
        proof {
            assert(result_repr_shape(actual, rendered@));
        }
        out
    }
}

} // verus!
