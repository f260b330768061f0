//! Sets of request methods.

use vstd::prelude::*;

verus! {

/// A request method.
#[derive(Clone, Copy, Debug, PartialEq, Eq, Structural)]
pub enum Method {
    Connect,
    Delete,
    Get,
    Head,
    Options,
    Patch,
    Post,
    Put,
    Trace,
    /// Any method that is none of the above.
    Other,
}

/// A set of request methods.
#[derive(Clone, Copy, Debug, PartialEq, Eq, Structural)]
pub struct MethodFilter {
    pub connect: bool,
    pub delete: bool,
    pub get: bool,
    pub head: bool,
    pub options: bool,
    pub patch: bool,
    pub post: bool,
    pub put: bool,
    pub trace: bool,
}

impl MethodFilter {
    /// Whether `method` is in the set. A method without a name of its own is
    /// in no set.
    pub open spec fn contains(self, method: Method) -> bool {
        match method {
            Method::Connect => self.connect,
            Method::Delete => self.delete,
            Method::Get => self.get,
            Method::Head => self.head,
            Method::Options => self.options,
            Method::Patch => self.patch,
            Method::Post => self.post,
            Method::Put => self.put,
            Method::Trace => self.trace,
            Method::Other => false,
        }
    }

    /// The empty set.
    pub fn empty() -> (f: MethodFilter)
        ensures
            forall|m: Method| !f.contains(m),
            !f.connect && !f.delete && !f.get && !f.head && !f.options,
            !f.patch && !f.post && !f.put && !f.trace,
    {
        MethodFilter {
            connect: false,
            delete: false,
            get: false,
            head: false,
            options: false,
            patch: false,
            post: false,
            put: false,
            trace: false,
        }
    }

    /// The set of all methods that have a name.
    pub fn all() -> (f: MethodFilter)
        ensures
            forall|m: Method| f.contains(m) <==> m != Method::Other,
    {
        MethodFilter {
            connect: true,
            delete: true,
            get: true,
            head: true,
            options: true,
            patch: true,
            post: true,
            put: true,
            trace: true,
        }
    }

    /// The set that holds `method` and nothing else.
    pub fn only(method: Method) -> (f: MethodFilter)
        ensures
            forall|m: Method| f.contains(m) <==> m == method && m != Method::Other,
    {
        let mut f = MethodFilter::empty();
        match method {
            Method::Connect => {
                f.connect = true;
            },
            Method::Delete => {
                f.delete = true;
            },
            Method::Get => {
                f.get = true;
            },
            Method::Head => {
                f.head = true;
            },
            Method::Options => {
                f.options = true;
            },
            Method::Patch => {
                f.patch = true;
            },
            Method::Post => {
                f.post = true;
            },
            Method::Put => {
                f.put = true;
            },
            Method::Trace => {
                f.trace = true;
            },
            Method::Other => {},
        }
        f
    }

    /// The union of two sets.
    pub fn or(self, other: MethodFilter) -> (f: MethodFilter)
        ensures
            forall|m: Method| f.contains(m) <==> self.contains(m) || other.contains(m),
    {
        MethodFilter {
            connect: self.connect || other.connect,
            delete: self.delete || other.delete,
            get: self.get || other.get,
            head: self.head || other.head,
            options: self.options || other.options,
            patch: self.patch || other.patch,
            post: self.post || other.post,
            put: self.put || other.put,
            trace: self.trace || other.trace,
        }
    }

    /// Whether `method` is in the set.
    pub fn matches(&self, method: Method) -> (b: bool)
        ensures
            b == self.contains(method),
    {
        match method {
            Method::Connect => self.connect,
            Method::Delete => self.delete,
            Method::Get => self.get,
            Method::Head => self.head,
            Method::Options => self.options,
            Method::Patch => self.patch,
            Method::Post => self.post,
            Method::Put => self.put,
            Method::Trace => self.trace,
            Method::Other => false,
        }
    }
}

} // verus!
