//! Structured errors (`BookError`), their classification (`ErrorKind`),
//! conversion from underlying failures with a causal chain (`Failure`),
//! and an order-preserving collection of errors (`ErrorList`).

use vstd::prelude::*;
use vstd::string::StringExecFns;

verus! {

/// Closed classification tag for a `BookError`.
#[derive(Debug, Clone, Copy, PartialEq, Eq)]
pub enum ErrorKind {
    FileNotFound,
    PermissionError,
    ParsingError,
    Unknown,
}

/// A single structured error: classification, primary message, and a
/// newline-joined accumulator of contextual detail lines.
#[derive(Debug, Clone)]
pub struct BookError {
    pub kind: ErrorKind,
    pub message: String,
    pub details: String,
}

/// The single newline character that separates detail lines.
pub open spec fn newline() -> Seq<char> {
    "\n"@
}

/// The detail text after one `add_details(d)` call on a value whose
/// details were `details`: a newline is prepended before the new line.
pub open spec fn with_detail(details: Seq<char>, d: Seq<char>) -> Seq<char> {
    details + newline() + d
}

/// An underlying failure value as seen by this library: its own
/// descriptive text, and optionally the next failure in its causal
/// chain ("caused by"), each cause exposing the same two things.
#[derive(Debug)]
pub struct Failure {
    pub description: String,
    pub cause: Option<Box<Failure>>,
}

/// The detail text produced by flattening a failure's causal chain:
/// one line per cause, ordered from the immediate cause outward to the
/// root cause, each line preceded by a newline. The failure's own
/// description is not part of it (that becomes the message).
pub open spec fn chain_details(f: Failure) -> Seq<char>
    decreases f,
{
    match f.cause {
        None => Seq::<char>::empty(),
        Some(c) => newline() + c.description@ + chain_details(*c),
    }
}

impl BookError {
    /// Direct construction with all three fields supplied explicitly.
    /// No validation: any string values, including empty ones, are accepted.
    pub fn new(message: &str, details: &str, kind: ErrorKind) -> (r: Self)
        ensures
            r.message@ == message@,
            r.details@ == details@,
            r.kind == kind,
    {
        BookError { kind, message: message.to_owned(), details: details.to_owned() }
    }

    /// Base conversion from a plain text message: the text becomes the
    /// message, the details start empty and the kind is `Unknown`.
    pub fn from_message(s: &str) -> (r: Self)
        ensures
            r.message@ == s@,
            r.details@ == Seq::<char>::empty(),
            r.kind == ErrorKind::Unknown,
    {
        BookError { kind: ErrorKind::Unknown, message: s.to_owned(), details: String::new() }
    }

    /// Replaces the entire detail text (overwrite, not accumulation) and
    /// returns the modified error for fluent chaining.
    pub fn set_details(self, details: &str) -> (r: Self)
        ensures
            r.details@ == details@,
            r.message == self.message,
            r.kind == self.kind,
    {
        BookError { details: details.to_owned(), ..self }
    }

    /// Replaces the classification and returns the modified error for
    /// fluent chaining.
    pub fn set_kind(self, kind: ErrorKind) -> (r: Self)
        ensures
            r.kind == kind,
            r.message == self.message,
            r.details == self.details,
    {
        BookError { kind, ..self }
    }

    /// Appends a newline followed by the given text to the existing
    /// details, in place. This is the accumulation primitive, distinct
    /// from `set_details`'s overwrite semantics.
    pub fn add_details(&mut self, details: &str)
        ensures
            final(self).details@ == with_detail(old(self).details@, details@),
            final(self).message == old(self).message,
            final(self).kind == old(self).kind,
    {
        self.details.append("\n");
        self.details.append(details);
    }

    /// The textual rendering of a `BookError` is exactly its message;
    /// the details are not included.
    pub fn display(&self) -> (r: String)
        ensures
            r@ == self.message@,
    {
        self.message.clone()
    }

    /// The short description of this error when it serves as an
    /// underlying failure: its message.
    pub fn description(&self) -> (r: &str)
        ensures
            r@ == self.message@,
    {
        self.message.as_str()
    }

    /// A `BookError` is a terminal node in a causal chain: it reports no
    /// further cause.
    pub fn cause(&self) -> (r: Option<&BookError>)
        ensures
            r is None,
    {
        None
    }

    /// Conversion from an underlying failure: the failure's own
    /// description becomes the message, the kind defaults to `Unknown`,
    /// and the causal chain is flattened into the details line by line,
    /// from the immediate cause outward to the root cause.
    pub fn from_failure(f: &Failure) -> (r: Self)
        ensures
            r.message@ == f.description@,
            r.details@ == chain_details(*f),
            r.kind == ErrorKind::Unknown,
    {
        let mut error = BookError::from_message(f.description.as_str());
        append_chain(&mut error, f);
        proof {
            assert(error.details@ =~= chain_details(*f));
        }
        error
    }
}

/// Walks the causal chain below `cur` and appends each cause's
/// description to the error's details, immediate cause first.
fn append_chain(error: &mut BookError, cur: &Failure)
    ensures
        final(error).message == old(error).message,
        final(error).kind == old(error).kind,
        final(error).details@ == old(error).details@ + chain_details(*cur),
    decreases *cur,
{
    match &cur.cause {
        None => {
            proof {
                assert(old(error).details@ + chain_details(*cur) =~= old(error).details@);
            }
        },
        Some(c) => {
            error.add_details(c.description.as_str());
            append_chain(error, &**c);
            proof {
                assert(old(error).details@ + chain_details(*cur) =~= (old(
                    error,
                ).details@ + newline() + c.description@) + chain_details(**c));
            }
        },
    }
}

/// The detail text after `add_details` has been called once per element
/// of `ds`, in order, on a value whose details were `details`.
pub open spec fn details_after_adds(details: Seq<char>, ds: Seq<Seq<char>>) -> Seq<char>
    decreases ds.len(),
{
    if ds.len() == 0 {
        details
    } else {
        details_after_adds(with_detail(details, ds.first()), ds.drop_first())
    }
}

/// The newline-joined text of the lines `ds`: a newline before each
/// line, in order. Empty when `ds` is empty.
pub open spec fn joined_details(ds: Seq<Seq<char>>) -> Seq<char>
    decreases ds.len(),
{
    if ds.len() == 0 {
        Seq::<char>::empty()
    } else {
        newline() + ds.first() + joined_details(ds.drop_first())
    }
}

/// `add_details` is append-only: calling it once per element of `ds`,
/// in order, extends the existing details by exactly the newline-joined
/// text of `ds` — in particular, starting from empty details, any number
/// of calls (zero included) leaves the newline-joined text itself.
pub proof fn lemma_add_details_append_only(details: Seq<char>, ds: Seq<Seq<char>>)
    ensures
        details_after_adds(details, ds) == details + joined_details(ds),
    decreases ds.len(),
{
    if ds.len() == 0 {
        assert(details + joined_details(ds) =~= details);
    } else {
        lemma_add_details_append_only(with_detail(details, ds.first()), ds.drop_first());
        assert(with_detail(details, ds.first()) + joined_details(ds.drop_first()) =~= details
            + joined_details(ds));
    }
}

/// The detail text after `set_details` has been called once per element
/// of `ds`, in order, on a value whose details were `details`.
pub open spec fn details_after_sets(details: Seq<char>, ds: Seq<Seq<char>>) -> Seq<char>
    decreases ds.len(),
{
    if ds.len() == 0 {
        details
    } else {
        details_after_sets(ds.first(), ds.drop_first())
    }
}

/// `set_details` overwrites rather than accumulates: after any
/// non-empty sequence of calls, the details equal the argument of the
/// last call only, whatever they held before.
pub proof fn lemma_set_details_overwrites(details: Seq<char>, ds: Seq<Seq<char>>)
    requires
        ds.len() > 0,
    ensures
        details_after_sets(details, ds) == ds.last(),
    decreases ds.len(),
{
    if ds.len() > 1 {
        lemma_set_details_overwrites(ds.first(), ds.drop_first());
        assert(ds.drop_first().last() == ds.last());
    } else {
        assert(details_after_sets(ds.first(), ds.drop_first()) == ds.first());
        assert(ds.first() == ds.last());
    }
}

/// An ordered collection of `BookError` values: insertion order is
/// preserved, duplicates are permitted, and consumption is one-shot.
#[derive(Debug, Clone)]
pub struct ErrorList {
    errors: Vec<BookError>,
}

impl View for ErrorList {
    type V = Seq<BookError>;

    closed spec fn view(&self) -> Seq<BookError> {
        self.errors@
    }
}

impl ErrorList {
    /// Creates an empty list.
    pub fn new() -> (r: Self)
        ensures
            r@ == Seq::<BookError>::empty(),
    {
        ErrorList { errors: Vec::new() }
    }

    /// Creates a singleton list containing exactly the given error.
    pub fn from(error: BookError) -> (r: Self)
        ensures
            r@ == seq![error],
    {
        let mut errors: Vec<BookError> = Vec::new();
        errors.push(error);
        proof {
            assert(errors@ =~= seq![error]);
        }
        ErrorList { errors }
    }

    /// Appends all of the other list's errors, in their original order,
    /// to the end of this one; the other list is consumed.
    pub fn join(&mut self, error_list: ErrorList)
        ensures
            final(self)@ == old(self)@ + error_list@,
    {
        let mut other = error_list;
        self.errors.append(&mut other.errors);
    }

    /// Appends one error at the end, preserving the prior order.
    pub fn add(&mut self, error: BookError)
        ensures
            final(self)@ == old(self)@.push(error),
    {
        self.errors.push(error);
    }

    /// True iff the list holds no errors.
    pub fn is_empty(&self) -> (r: bool)
        ensures
            r <==> self@.len() == 0,
    {
        self.errors.is_empty()
    }

    /// The current count of held errors.
    pub fn len(&self) -> (r: usize)
        ensures
            r == self@.len(),
    {
        self.errors.len()
    }

    /// Consumes the list, yielding its errors exactly once, in insertion
    /// order.
    pub fn into_vec(self) -> (r: Vec<BookError>)
        ensures
            r@ == self@,
    {
        self.errors
    }
}

/// Merging never reshuffles: after `join`, whose result is the
/// concatenation `a + b` of the two lists' contents, the first list's
/// errors stand first in their original order, then the second list's in
/// theirs, and nothing else; draining then yields exactly that sequence.
pub proof fn lemma_join_preserves_order(a: Seq<BookError>, b: Seq<BookError>)
    ensures
        (a + b).len() == a.len() + b.len(),
        forall|i: int| 0 <= i < a.len() ==> (a + b)[i] == a[i],
        forall|i: int| a.len() <= i < a.len() + b.len() ==> (a + b)[i] == b[i - a.len()],
{
}

} // verus!
