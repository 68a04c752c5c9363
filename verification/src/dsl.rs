//! The assertion DSL: the `Matcher` and `Assertion` contracts, the matcher
//! factories, and the entry points that build synchronous and polling
//! assertions.
//!
//! A typical use reads
//!
//! ```text
//! expect(&1).to(equal(&1))
//! ```
//!
//! where `to` returns `Ok(())` on success and `Err(message)` on failure.

use vstd::prelude::*;

mod assertions;
mod matchers;

pub use assertions::Async;
pub use assertions::AsyncType;
pub use assertions::Expect;
pub use assertions::DEFAULT_POLLING_INTERVAL_MS;
pub use assertions::async_not_to_post;
pub use assertions::async_to_post;
pub use assertions::lemma_async_assert_pre;
pub use assertions::lemma_async_not_to_post;
pub use assertions::lemma_async_to_post;
pub use matchers::BooleanMatcher;
pub use matchers::Contain;
pub use matchers::Equals;
pub use matchers::OptionMatcher;
pub use matchers::ResultMatcher;

verus! {

/// Trait that must be implemented by any matcher type.
///
/// A matcher is a predicate over an actual value together with two
/// diagnostic-message producers: one explaining a failed positive assertion,
/// one explaining a failed negative assertion.
pub trait Matcher<A> {
    /// Whether `actual` satisfies this matcher, at the specification level.
    spec fn spec_matches(&self, actual: &A) -> bool;

    /// Whether the executable `matches` is known to agree with
    /// `spec_matches`. For matchers that compare with `PartialEq` this is
    /// vstd's `obeys_eq_spec`, which holds for the primitive types; for
    /// matchers that only inspect a variant it is always true.
    spec fn obeys_match_spec(&self) -> bool;

    /// The strings that `failure_message` may return for `actual`.
    spec fn failure_message_shape(&self, actual: &A, msg: Seq<char>) -> bool;

    /// The strings that `negated_failure_message` may return for `actual`.
    spec fn negated_failure_message_shape(&self, actual: &A, msg: Seq<char>) -> bool;

    /// Defines whether or not the actual value matches the expected value.
    fn matches(&self, actual: &A) -> (r: bool)
        ensures
            self.obeys_match_spec() ==> r == self.spec_matches(actual),
    ;

    /// The positive failure message: shown when the value was required to
    /// match and did not.
    fn failure_message(&self, actual: &A) -> (r: String)
        ensures
            self.failure_message_shape(actual, r@),
    ;

    /// The negative failure message: shown when the value was required not to
    /// match and did.
    fn negated_failure_message(&self, actual: &A) -> (r: String)
        ensures
            self.negated_failure_message_shape(actual, r@),
    ;
}

/// Trait for assertion types.
///
/// `to_post` and `not_to_post` are the per-implementation contracts of `to`
/// and `not_to`. They receive the matcher's predicate, the shape of the
/// relevant diagnostic message, and whether the matcher's executable
/// `matches` is known to agree with its specification.
pub trait Assertion<A>: Sized {
    /// What an assertion needs before it can run; for the polling assertion,
    /// that its operation may be invoked.
    spec fn assert_pre(&self) -> bool;

    /// The contract of `to`.
    spec fn to_post(
        &self,
        matches_p: spec_fn(A) -> bool,
        shape_p: spec_fn(A, Seq<char>) -> bool,
        obeys: bool,
        r: Result<(), String>,
    ) -> bool;

    /// The contract of `not_to`.
    spec fn not_to_post(
        &self,
        matches_p: spec_fn(A) -> bool,
        shape_p: spec_fn(A, Seq<char>) -> bool,
        obeys: bool,
        r: Result<(), String>,
    ) -> bool;

    /// Positive assertion with the given matcher.
    fn to<M: Matcher<A>>(self, matcher: M) -> (r: Result<(), String>)
        requires
            self.assert_pre(),
        ensures
            self.to_post(
                |v: A| matcher.spec_matches(&v),
                |v: A, s: Seq<char>| matcher.failure_message_shape(&v, s),
                matcher.obeys_match_spec(),
                r,
            ),
    ;

    /// Negative assertion with the given matcher.
    fn not_to<M: Matcher<A>>(self, matcher: M) -> (r: Result<(), String>)
        requires
            self.assert_pre(),
        ensures
            self.not_to_post(
                |v: A| matcher.spec_matches(&v),
                |v: A, s: Seq<char>| matcher.negated_failure_message_shape(&v, s),
                matcher.obeys_match_spec(),
                r,
            ),
    ;
}

/// Trait mapping to/not_to to should/should_not for better readability.
pub trait AsyncAssertion<A>: Sized {
    /// What the assertion needs before it can run; see `Assertion::assert_pre`.
    spec fn should_pre(&self) -> bool;

    /// The contract of `should`; see `Assertion::to_post`.
    spec fn should_post(
        &self,
        matches_p: spec_fn(A) -> bool,
        shape_p: spec_fn(A, Seq<char>) -> bool,
        obeys: bool,
        r: Result<(), String>,
    ) -> bool;

    /// The contract of `should_not`; see `Assertion::not_to_post`.
    spec fn should_not_post(
        &self,
        matches_p: spec_fn(A) -> bool,
        shape_p: spec_fn(A, Seq<char>) -> bool,
        obeys: bool,
        r: Result<(), String>,
    ) -> bool;

    /// Positive assertion with the given matcher.
    fn should<M: Matcher<A>>(self, matcher: M) -> (r: Result<(), String>)
        requires
            self.should_pre(),
        ensures
            self.should_post(
                |v: A| matcher.spec_matches(&v),
                |v: A, s: Seq<char>| matcher.failure_message_shape(&v, s),
                matcher.obeys_match_spec(),
                r,
            ),
    ;

    /// Negative assertion with the given matcher.
    fn should_not<M: Matcher<A>>(self, matcher: M) -> (r: Result<(), String>)
        requires
            self.should_pre(),
        ensures
            self.should_not_post(
                |v: A| matcher.spec_matches(&v),
                |v: A, s: Seq<char>| matcher.negated_failure_message_shape(&v, s),
                matcher.obeys_match_spec(),
                r,
            ),
    ;
}

impl<A, B: Assertion<A>> AsyncAssertion<A> for B {
    open spec fn should_pre(&self) -> bool {
        self.assert_pre()
    }

    open spec fn should_post(
        &self,
        matches_p: spec_fn(A) -> bool,
        shape_p: spec_fn(A, Seq<char>) -> bool,
        obeys: bool,
        r: Result<(), String>,
    ) -> bool {
        self.to_post(matches_p, shape_p, obeys, r)
    }

    open spec fn should_not_post(
        &self,
        matches_p: spec_fn(A) -> bool,
        shape_p: spec_fn(A, Seq<char>) -> bool,
        obeys: bool,
        r: Result<(), String>,
    ) -> bool {
        self.not_to_post(matches_p, shape_p, obeys, r)
    }

    fn should<M: Matcher<A>>(self, matcher: M) -> (r: Result<(), String>) {
        self.to(matcher)
    }

    fn should_not<M: Matcher<A>>(self, matcher: M) -> (r: Result<(), String>) {
        self.not_to(matcher)
    }
}

/// `should` is `to`: its precondition and contract are those of the
/// underlying assertion.
pub proof fn lemma_should_is_to<A, B: Assertion<A>>(
    b: &B,
    matches_p: spec_fn(A) -> bool,
    shape_p: spec_fn(A, Seq<char>) -> bool,
    obeys: bool,
    r: Result<(), String>,
)
    ensures
        b.should_pre() == b.assert_pre(),
        b.should_post(matches_p, shape_p, obeys, r) == b.to_post(matches_p, shape_p, obeys, r),
{
}

/// `should_not` is `not_to`: its precondition and contract are those of the
/// underlying assertion.
pub proof fn lemma_should_not_is_not_to<A, B: Assertion<A>>(
    b: &B,
    matches_p: spec_fn(A) -> bool,
    shape_p: spec_fn(A, Seq<char>) -> bool,
    obeys: bool,
    r: Result<(), String>,
)
    ensures
        b.should_pre() == b.assert_pre(),
        b.should_not_post(matches_p, shape_p, obeys, r) == b.not_to_post(
            matches_p,
            shape_p,
            obeys,
            r,
        ),
{
}

/// Message duality, negative direction: if a matcher accepts a value, a
/// negative assertion on that value fails, and the message it carries is one
/// that the matcher's `negated_failure_message` produces for that value.
pub proof fn lemma_negated_message_duality<'a, A, M: Matcher<A>>(
    e: &Expect<'a, A>,
    m: &M,
    r: Result<(), String>,
)
    requires
        m.obeys_match_spec(),
        m.spec_matches(&e.spec_actual()),
        e.not_to_post(
            |v: A| m.spec_matches(&v),
            |v: A, s: Seq<char>| m.negated_failure_message_shape(&v, s),
            m.obeys_match_spec(),
            r,
        ),
    ensures
        r is Err,
        r matches Err(msg) ==> m.negated_failure_message_shape(&e.spec_actual(), msg@),
{
}

/// Message duality, positive direction: if a matcher rejects a value, a
/// positive assertion on that value fails, and the message it carries is one
/// that the matcher's `failure_message` produces for that value.
pub proof fn lemma_failure_message_duality<'a, A, M: Matcher<A>>(
    e: &Expect<'a, A>,
    m: &M,
    r: Result<(), String>,
)
    requires
        m.obeys_match_spec(),
        !m.spec_matches(&e.spec_actual()),
        e.to_post(
            |v: A| m.spec_matches(&v),
            |v: A, s: Seq<char>| m.failure_message_shape(&v, s),
            m.obeys_match_spec(),
            r,
        ),
    ensures
        r is Err,
        r matches Err(msg) ==> m.failure_message_shape(&e.spec_actual(), msg@),
{
}

/// Eventual positive: a successful `to` on an `Eventual` polling assertion
/// observed a value of the operation that the matcher accepts.
pub proof fn lemma_eventual_success_observed_match<A, F: Fn() -> A, M: Matcher<A>>(
    a: &Async<A, F>,
    m: &M,
    r: Result<(), String>,
)
    requires
        a.spec_mode() is Eventual,
        m.obeys_match_spec(),
        a.to_post(
            |v: A| m.spec_matches(&v),
            |v: A, s: Seq<char>| m.failure_message_shape(&v, s),
            m.obeys_match_spec(),
            r,
        ),
        r is Ok,
    ensures
        exists|v: A| #[trigger] call_ensures(a.spec_op(), (), v) && m.spec_matches(&v),
{
    lemma_async_to_post(
        a,
        |v: A| m.spec_matches(&v),
        |v: A, s: Seq<char>| m.failure_message_shape(&v, s),
        m.obeys_match_spec(),
        r,
    );
}

/// Eventual positive timeout: an `Eventual` `to` over an operation none of
/// whose possible values the matcher accepts fails, and the message it
/// carries is one the matcher's `failure_message` produces for a value the
/// operation returned.
pub proof fn lemma_eventual_never_matching_fails<A, F: Fn() -> A, M: Matcher<A>>(
    a: &Async<A, F>,
    m: &M,
    r: Result<(), String>,
)
    requires
        a.spec_mode() is Eventual,
        m.obeys_match_spec(),
        forall|v: A| #[trigger] call_ensures(a.spec_op(), (), v) ==> !m.spec_matches(&v),
        a.to_post(
            |v: A| m.spec_matches(&v),
            |v: A, s: Seq<char>| m.failure_message_shape(&v, s),
            m.obeys_match_spec(),
            r,
        ),
    ensures
        r is Err,
        r matches Err(msg) ==> exists|v: A|
            #[trigger] call_ensures(a.spec_op(), (), v) && m.failure_message_shape(&v, msg@),
{
    lemma_async_to_post(
        a,
        |v: A| m.spec_matches(&v),
        |v: A, s: Seq<char>| m.failure_message_shape(&v, s),
        m.obeys_match_spec(),
        r,
    );
}

/// Consistent positive violation: when a `Consistent` `to` fails, the
/// operation returned a value the matcher rejects, and the message is one
/// the matcher's `failure_message` produces for that value.
pub proof fn lemma_consistent_failure_observed_mismatch<A, F: Fn() -> A, M: Matcher<A>>(
    a: &Async<A, F>,
    m: &M,
    r: Result<(), String>,
)
    requires
        a.spec_mode() is Consistent,
        m.obeys_match_spec(),
        a.to_post(
            |v: A| m.spec_matches(&v),
            |v: A, s: Seq<char>| m.failure_message_shape(&v, s),
            m.obeys_match_spec(),
            r,
        ),
    ensures
        r matches Err(msg) ==> exists|v: A|
            #[trigger] call_ensures(a.spec_op(), (), v) && !m.spec_matches(&v)
                && m.failure_message_shape(&v, msg@),
{
    lemma_async_to_post(
        a,
        |v: A| m.spec_matches(&v),
        |v: A, s: Seq<char>| m.failure_message_shape(&v, s),
        m.obeys_match_spec(),
        r,
    );
}

/// Consistent positive survival: a `Consistent` `to` over an operation all
/// of whose possible values the matcher accepts cannot fail.
pub proof fn lemma_consistent_survival<A, F: Fn() -> A, M: Matcher<A>>(
    a: &Async<A, F>,
    m: &M,
    r: Result<(), String>,
)
    requires
        a.spec_mode() is Consistent,
        m.obeys_match_spec(),
        forall|v: A| #[trigger] call_ensures(a.spec_op(), (), v) ==> m.spec_matches(&v),
        a.to_post(
            |v: A| m.spec_matches(&v),
            |v: A, s: Seq<char>| m.failure_message_shape(&v, s),
            m.obeys_match_spec(),
            r,
        ),
    ensures
        r is Ok,
{
    lemma_async_to_post(
        a,
        |v: A| m.spec_matches(&v),
        |v: A, s: Seq<char>| m.failure_message_shape(&v, s),
        m.obeys_match_spec(),
        r,
    );
}

/// Negation mirror of the eventual success law: a successful `not_to` on an
/// `Eventual` polling assertion observed a value the matcher rejects.
pub proof fn lemma_eventual_negated_success_observed_mismatch<A, F: Fn() -> A, M: Matcher<A>>(
    a: &Async<A, F>,
    m: &M,
    r: Result<(), String>,
)
    requires
        a.spec_mode() is Eventual,
        m.obeys_match_spec(),
        a.not_to_post(
            |v: A| m.spec_matches(&v),
            |v: A, s: Seq<char>| m.negated_failure_message_shape(&v, s),
            m.obeys_match_spec(),
            r,
        ),
        r is Ok,
    ensures
        exists|v: A| #[trigger] call_ensures(a.spec_op(), (), v) && !m.spec_matches(&v),
{
    lemma_async_not_to_post(
        a,
        |v: A| m.spec_matches(&v),
        |v: A, s: Seq<char>| m.negated_failure_message_shape(&v, s),
        m.obeys_match_spec(),
        r,
    );
}

/// Negation mirror of the eventual timeout law: an `Eventual` `not_to` over
/// an operation all of whose possible values the matcher accepts fails, and
/// the message is one `negated_failure_message` produces for a value the
/// operation returned.
pub proof fn lemma_eventual_negated_always_matching_fails<A, F: Fn() -> A, M: Matcher<A>>(
    a: &Async<A, F>,
    m: &M,
    r: Result<(), String>,
)
    requires
        a.spec_mode() is Eventual,
        m.obeys_match_spec(),
        forall|v: A| #[trigger] call_ensures(a.spec_op(), (), v) ==> m.spec_matches(&v),
        a.not_to_post(
            |v: A| m.spec_matches(&v),
            |v: A, s: Seq<char>| m.negated_failure_message_shape(&v, s),
            m.obeys_match_spec(),
            r,
        ),
    ensures
        r is Err,
        r matches Err(msg) ==> exists|v: A|
            #[trigger] call_ensures(a.spec_op(), (), v) && m.negated_failure_message_shape(
                &v,
                msg@,
            ),
{
    lemma_async_not_to_post(
        a,
        |v: A| m.spec_matches(&v),
        |v: A, s: Seq<char>| m.negated_failure_message_shape(&v, s),
        m.obeys_match_spec(),
        r,
    );
}

/// Negation mirror of the consistent violation law: when a `Consistent`
/// `not_to` fails, the operation returned a value the matcher accepts, and
/// the message is one `negated_failure_message` produces for that value.
pub proof fn lemma_consistent_negated_failure_observed_match<A, F: Fn() -> A, M: Matcher<A>>(
    a: &Async<A, F>,
    m: &M,
    r: Result<(), String>,
)
    requires
        a.spec_mode() is Consistent,
        m.obeys_match_spec(),
        a.not_to_post(
            |v: A| m.spec_matches(&v),
            |v: A, s: Seq<char>| m.negated_failure_message_shape(&v, s),
            m.obeys_match_spec(),
            r,
        ),
    ensures
        r matches Err(msg) ==> exists|v: A|
            #[trigger] call_ensures(a.spec_op(), (), v) && m.spec_matches(&v)
                && m.negated_failure_message_shape(&v, msg@),
{
    lemma_async_not_to_post(
        a,
        |v: A| m.spec_matches(&v),
        |v: A, s: Seq<char>| m.negated_failure_message_shape(&v, s),
        m.obeys_match_spec(),
        r,
    );
}

/// Negation mirror of the survival law: a `Consistent` `not_to` over an
/// operation none of whose possible values the matcher accepts cannot fail.
pub proof fn lemma_consistent_negated_survival<A, F: Fn() -> A, M: Matcher<A>>(
    a: &Async<A, F>,
    m: &M,
    r: Result<(), String>,
)
    requires
        a.spec_mode() is Consistent,
        m.obeys_match_spec(),
        forall|v: A| #[trigger] call_ensures(a.spec_op(), (), v) ==> !m.spec_matches(&v),
        a.not_to_post(
            |v: A| m.spec_matches(&v),
            |v: A, s: Seq<char>| m.negated_failure_message_shape(&v, s),
            m.obeys_match_spec(),
            r,
        ),
    ensures
        r is Ok,
{
    lemma_async_not_to_post(
        a,
        |v: A| m.spec_matches(&v),
        |v: A, s: Seq<char>| m.negated_failure_message_shape(&v, s),
        m.obeys_match_spec(),
        r,
    );
}

/// The default total timeout of a polling assertion, in milliseconds.
pub const DEFAULT_TIMEOUT_MS: u64 = 1000;

/// Simple expectation assertion.
pub fn expect<'a, A>(actual: &'a A) -> (r: Expect<'a, A>)
    ensures
        r.spec_actual() == *actual,
{
    Expect::new(actual)
}

/// Asynchronous assertion that asserts the given closure **eventually**
/// returns a value that satisfies the given matcher, within the default
/// timeout.
pub fn eventually<A, F: Fn() -> A>(f: F) -> (r: Async<A, F>)
    ensures
        r.spec_mode() is Eventual,
        r.spec_timeout_ms() == DEFAULT_TIMEOUT_MS,
        r.spec_interval_ms() == DEFAULT_POLLING_INTERVAL_MS,
        r.spec_op() == f,
{
    eventually_with_timeout(DEFAULT_TIMEOUT_MS, f)
}

/// Asynchronous eventual assertion with user-defined timeout, in
/// milliseconds.
pub fn eventually_with_timeout<A, F: Fn() -> A>(timeout_ms: u64, f: F) -> (r: Async<A, F>)
    ensures
        r.spec_mode() is Eventual,
        r.spec_timeout_ms() == timeout_ms,
        r.spec_interval_ms() == DEFAULT_POLLING_INTERVAL_MS,
        r.spec_op() == f,
{
    Async::new(AsyncType::Eventual, timeout_ms, f)
}

/// Asynchronous assertion that asserts the given closure **consistently**
/// returns a value that satisfies the given matcher, for the whole default
/// timeout window.
pub fn consistently<A, F: Fn() -> A>(f: F) -> (r: Async<A, F>)
    ensures
        r.spec_mode() is Consistent,
        r.spec_timeout_ms() == DEFAULT_TIMEOUT_MS,
        r.spec_interval_ms() == DEFAULT_POLLING_INTERVAL_MS,
        r.spec_op() == f,
{
    consistently_with_timeout(DEFAULT_TIMEOUT_MS, f)
}

/// Asynchronous consistent assertion with user-defined timeout, in
/// milliseconds.
pub fn consistently_with_timeout<A, F: Fn() -> A>(timeout_ms: u64, f: F) -> (r: Async<A, F>)
    ensures
        r.spec_mode() is Consistent,
        r.spec_timeout_ms() == timeout_ms,
        r.spec_interval_ms() == DEFAULT_POLLING_INTERVAL_MS,
        r.spec_op() == f,
{
    Async::new(AsyncType::Consistent, timeout_ms, f)
}

/// Simple equality matcher.
///
/// Uses the PartialEq trait.
pub fn equal<'a, E>(expected: &'a E) -> (r: Equals<'a, E>)
    ensures
        r.spec_expected() == *expected,
{
    Equals::new(expected)
}

/// Container matcher that asserts a given element exists within a vector.
///
/// Uses the PartialEq trait.
pub fn contain<'a, E>(expected: &'a E) -> (r: Contain<'a, E>)
    ensures
        r.spec_expected() == *expected,
{
    Contain::new(expected)
}

/// Matcher that asserts a value is true.
pub fn be_true() -> (r: BooleanMatcher)
    ensures
        r is TrueMatch,
{
    BooleanMatcher::TrueMatch
}

/// Matcher that asserts a value is false.
pub fn be_false() -> (r: BooleanMatcher)
    ensures
        r is FalseMatch,
{
    BooleanMatcher::FalseMatch
}

/// Matcher that asserts a value is a Some variant.
pub fn be_some() -> (r: OptionMatcher)
    ensures
        r is SomeMatch,
{
    OptionMatcher::SomeMatch
}

/// Matcher that asserts a value is a None variant.
pub fn be_none() -> (r: OptionMatcher)
    ensures
        r is NoneMatch,
{
    OptionMatcher::NoneMatch
}

/// Matcher that asserts a value is a Ok variant.
pub fn be_ok() -> (r: ResultMatcher)
    ensures
        r is OkMatch,
{
    ResultMatcher::OkMatch
}

/// Matcher that asserts a value is a Err variant.
pub fn be_err() -> (r: ResultMatcher)
    ensures
        r is ErrMatch,
{
    ResultMatcher::ErrMatch
}

} // verus!
