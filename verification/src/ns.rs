//! Foundation and application-kit bindings: shared scalar types, error
//! values, and the pasteboard model.

use vstd::prelude::*;

pub mod pasteboard;

pub use pasteboard::Pasteboard;

verus! {

/// The platform's signed integer type.
pub type Integer = isize;

/// What an [`Error`] value holds: the domain that names the reporting
/// framework, and the framework's numeric code.
pub ghost struct ErrorView {
    pub domain: Seq<char>,
    pub code: int,
}

/// An error as the native frameworks report one: a domain naming the
/// framework and a numeric code within that domain.
#[derive(Debug)]
pub struct Error {
    domain: String,
    code: Integer,
}

impl View for Error {
    type V = ErrorView;

    closed spec fn view(&self) -> ErrorView {
        ErrorView { domain: self.domain@, code: self.code as int }
    }
}

impl Error {
    /// Builds the error of the given domain and code.
    pub fn with_domain(domain: &str, code: Integer) -> (r: Error)
        ensures
            r@.domain == domain@,
            r@.code == code as int,
    {
        Error { domain: domain.to_owned(), code }
    }

    /// The domain that names the framework which reported the error.
    pub fn domain(&self) -> (r: &String)
        ensures
            r@ == self@.domain,
    {
        &self.domain
    }

    /// The error's numeric code within its domain.
    pub fn code(&self) -> (r: Integer)
        ensures
            r as int == self@.code,
    {
        self.code
    }
}

impl Clone for Error {
    fn clone(&self) -> (r: Self)
        ensures
            r@ == self@,
    {
        Error { domain: self.domain.clone(), code: self.code }
    }
}

/// Copies an array of strings, value for value.
pub fn copy_string_array(v: &Vec<String>) -> (r: Vec<String>)
    ensures
        r.deep_view() == v.deep_view(),
{
    let mut out: Vec<String> = Vec::new();
    let mut i: usize = 0;
    while i < v.len()
        invariant
            i <= v@.len(),
            out@.len() == i,
            out.deep_view() =~= v.deep_view().take(i as int),
        decreases v@.len() - i,
    {
        let ghost prev_elems = out@;
        let ghost prev_deep = out.deep_view();
        let copied = v[i].clone();
        out.push(copied);
        proof {
            assert forall|j: int| 0 <= j <= i as int implies out.deep_view()[j]
                == v.deep_view().take(i as int + 1)[j] by {
                if j < i as int {
                    assert(out@[j] == prev_elems[j]);
                    assert(out.deep_view()[j] == prev_deep[j]);
                } else {
                    assert(out@[j]@ == v@[i as int]@);
                }
            }
            assert(out.deep_view() =~= v.deep_view().take(i as int + 1));
        }
        i += 1;
    }
    proof {
        assert(v.deep_view().take(v@.len() as int) =~= v.deep_view());
    }
    out
}

/// Copies a data value, byte for byte.
pub fn copy_data(v: &Vec<u8>) -> (r: Vec<u8>)
    ensures
        r@ == v@,
{
    let mut out: Vec<u8> = Vec::new();
    let mut i: usize = 0;
    while i < v.len()
        invariant
            i <= v@.len(),
            out@.len() == i,
            out@ =~= v@.take(i as int),
        decreases v@.len() - i,
    {
        out.push(v[i]);
        i += 1;
        proof {
            assert(out@ =~= v@.take(i as int));
        }
    }
    proof {
        assert(v@.take(v@.len() as int) =~= v@);
    }
    out
}

/// Copies an optional string.
pub fn copy_opt_string(v: &Option<String>) -> (r: Option<String>)
    ensures
        r.deep_view() == v.deep_view(),
{
    match v {
        Some(s) => Some(s.clone()),
        None => None,
    }
}

} // verus!
