//! The experiment core: a string held in one of the two representations under
//! comparison, the clone workload that repeatedly duplicates it, and the
//! per-experiment setup (random source string and per-task handles).

use vstd::prelude::*;
use crate::cli::StrType;
use std::sync::Arc;

verus! {

/// Holds when `c` is one of the characters an alphanumeric source string may
/// contain: an ASCII letter or digit.
pub open spec fn is_alnum(c: char) -> bool {
    ('a' <= c && c <= 'z') || ('A' <= c && c <= 'Z') || ('0' <= c && c <= '9')
}

/// Holds when every character of `s` is an ASCII letter or digit.
pub open spec fn all_alnum(s: Seq<char>) -> bool {
    forall|i: int| 0 <= i < s.len() ==> is_alnum(s[i])
}

/// A source string wrapped in one of the two representations under
/// comparison. Cloning the owned variant copies every byte; cloning the
/// shared variant only bumps a reference count.
pub enum BenchStr {
    /// The exclusively owned representation.
    Owned(String),
    /// The shared reference-counted immutable representation.
    Shared(Arc<String>),
}

impl BenchStr {
    /// The character sequence the handle gives access to.
    pub open spec fn chars(&self) -> Seq<char> {
        match self {
            BenchStr::Owned(s) => s@,
            BenchStr::Shared(a) => (**a)@,
        }
    }

    /// Which representation this handle uses.
    pub open spec fn variant(&self) -> StrType {
        match self {
            BenchStr::Owned(_) => StrType::OwnedString,
            BenchStr::Shared(_) => StrType::ArcStr,
        }
    }

    /// Wraps a source string in the requested representation. For the shared
    /// variant this performs the one-time conversion into the
    /// reference-counted form, which the caller times together with the
    /// clones so that the reported cost covers adopting the representation
    /// end to end.
    pub fn wrap(s: String, t: StrType) -> (b: BenchStr)
        ensures
            b.chars() == s@,
            b.variant() == t,
    {
        match t {
            StrType::OwnedString => BenchStr::Owned(s),
            StrType::ArcStr => BenchStr::Shared(Arc::new(s)),
        }
    }

    /// The clone operation being measured: a full byte copy for the owned
    /// representation, a reference-count bump for the shared one. Either way
    /// the duplicate holds the same characters as its source.
    pub fn dup(&self) -> (r: BenchStr)
        ensures
            r.chars() == self.chars(),
            r.variant() == self.variant(),
    {
        match self {
            BenchStr::Owned(s) => BenchStr::Owned(s.clone()),
            BenchStr::Shared(a) => BenchStr::Shared(clone_shared(a)),
        }
    }

    /// Decides whether two handles hold the same character sequence.
    pub fn value_eq(&self, other: &BenchStr) -> (r: bool)
        ensures
            r == (self.chars() == other.chars()),
    {
        let a: &String = self.contents();
        let b: &String = other.contents();
        *a == *b
    }

    /// Borrows the underlying string, whichever representation holds it.
    pub fn contents(&self) -> (r: &String)
        ensures
            r@ == self.chars(),
    {
        match self {
            BenchStr::Owned(s) => s,
            BenchStr::Shared(a) => &**a,
        }
    }
}

/// Relies on std's `Arc::clone`: returns a handle to the same allocation,
/// bumping the reference count and copying no string bytes.
#[verifier::external_body]
fn clone_shared(a: &Arc<String>) -> (r: Arc<String>)
    ensures
        r == *a,
{
    Arc::clone(a)
}

/// Relies on std's `hint::black_box`: returns its argument unchanged while
/// staying opaque to the optimizer, so the equality check whose result flows
/// through it cannot be eliminated as dead code.
#[verifier::external_body]
fn opaque_use(b: bool) -> (r: bool)
    ensures
        r == b,
{
    std::hint::black_box(b)
}

/// The unit of concurrent work: clones the handle `clone_ct` times, checking
/// each duplicate for value equality with its source and discarding it. The
/// equality result is routed through an optimizer-opaque barrier into the
/// returned tally, so the clones cannot be removed as dead code. Every check
/// succeeds — the duplicate of a handle always holds the same characters —
/// so the workload never fails, and with a clone count of zero it performs
/// no equality check at all.
pub fn clone_workload(s: &BenchStr, clone_ct: usize) -> (checks: usize)
    ensures
        checks == clone_ct,
{
    let mut checks: usize = 0;
    let mut i: usize = 0;
    while i < clone_ct
        invariant
            checks == i,
            i <= clone_ct,
        decreases clone_ct - i,
    {
        let duplicate = s.dup();
        let ok = duplicate.value_eq(s);
        assert(ok);
        if opaque_use(ok) {
            checks = checks + 1;
        }
        i = i + 1;
    }
    checks
}

/// rand's thread-local generator, the entropy source behind the random
/// alphanumeric strings; opaque here.
#[verifier::external_type_specification]
#[verifier::external_body]
pub struct ExThreadRng(rand::rngs::ThreadRng);

/// Relies on rand's `DistString::sample_string` for `Alphanumeric`: returns a
/// string of exactly `len` characters, each drawn from the ASCII letters and
/// digits.
#[verifier::external_body]
fn sample_alphanumeric(rng: &mut rand::rngs::ThreadRng, len: usize) -> (r: String)
    ensures
        r@.len() == len,
        all_alnum(r@),
{
    rand::distributions::DistString::sample_string(&rand::distributions::Alphanumeric, rng, len)
}

/// Generates the random alphanumeric source string for one experiment run.
/// Generation happens before the timed region begins, so its cost never
/// enters a measurement.
pub fn generate_source(rng: &mut rand::rngs::ThreadRng, string_len: usize) -> (s: String)
    ensures
        s@.len() == string_len,
        all_alnum(s@),
{
    sample_alphanumeric(rng, string_len)
}

/// Produces one handle per workload instance, each a clone of the wrapped
/// source string: a deep copy under the owned representation, a cheap
/// reference-count bump under the shared one. With a task count of zero no
/// handle is produced and no workload will be spawned.
pub fn task_handles(b: &BenchStr, task_ct: usize) -> (v: Vec<BenchStr>)
    ensures
        v@.len() == task_ct,
        forall|i: int|
            0 <= i < task_ct ==> (#[trigger] v@[i]).chars() == b.chars() && v@[i].variant()
                == b.variant(),
{
    let mut v: Vec<BenchStr> = Vec::new();
    let mut i: usize = 0;
    while i < task_ct
        invariant
            i <= task_ct,
            v@.len() == i,
            forall|j: int|
                0 <= j < i ==> (#[trigger] v@[j]).chars() == b.chars() && v@[j].variant()
                    == b.variant(),
        decreases task_ct - i,
    {
        v.push(b.dup());
        i = i + 1;
    }
    v
}

} // verus!
