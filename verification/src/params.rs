//! The query-parameter collector: an ordered accumulator of
//! `(name, rendered value)` pairs, insertion order significant.

use vstd::prelude::*;
use vstd::string::*;
use crate::render::dec_str;

verus! {

/// A value with a canonical query-string rendering: an enumeration renders
/// to its wire tag, an integer to decimal digits, a boolean to `"true"` or
/// `"false"`, a timestamp to RFC 3339.
pub trait Render: Sized {
    /// The character sequence this value renders to.
    spec fn rendered(&self) -> Seq<char>;

    /// Renders the value; the result is exactly `rendered()`.
    fn render(&self) -> (s: String)
        ensures
            s@ == self.rendered(),
    ;
}

impl Render for u8 {
    open spec fn rendered(&self) -> Seq<char> {
        dec_str(*self as nat)
    }

    fn render(&self) -> (s: String) {
        let mut s = String::new();
        crate::render::push_dec_u32(&mut s, *self as u32);
        proof {
            assert(s@ =~= dec_str(*self as nat));
        }
        s
    }
}

impl Render for u32 {
    open spec fn rendered(&self) -> Seq<char> {
        dec_str(*self as nat)
    }

    fn render(&self) -> (s: String) {
        let mut s = String::new();
        crate::render::push_dec_u32(&mut s, *self);
        proof {
            assert(s@ =~= dec_str(*self as nat));
        }
        s
    }
}

impl Render for bool {
    open spec fn rendered(&self) -> Seq<char> {
        if *self {
            "true"@
        } else {
            "false"@
        }
    }

    fn render(&self) -> (s: String) {
        if *self {
            String::from_str("true")
        } else {
            String::from_str("false")
        }
    }
}

impl Render for String {
    open spec fn rendered(&self) -> Seq<char> {
        self@
    }

    fn render(&self) -> (s: String) {
        self.clone()
    }
}

/// An ordered sequence of `(name, rendered value)` pairs destined for a
/// URL query string.  The collector enforces no uniqueness of names: a
/// caller that pushes the same name twice gets a repeated key, passed
/// through as-is.  It has no fallible operation.
pub struct QueryParams {
    pairs: Vec<(String, String)>,
}

impl View for QueryParams {
    type V = Seq<(Seq<char>, Seq<char>)>;

    closed spec fn view(&self) -> Seq<(Seq<char>, Seq<char>)> {
        self.pairs@.map_values(|p: (String, String)| (p.0@, p.1@))
    }
}

impl QueryParams {
    /// An empty collector.
    pub fn new() -> (q: QueryParams)
        ensures
            q@ == Seq::<(Seq<char>, Seq<char>)>::empty(),
    {
        let q = QueryParams { pairs: Vec::new() };
        proof {
            assert(q@ =~= Seq::<(Seq<char>, Seq<char>)>::empty());
        }
        q
    }

    /// Appends `(name, value.render())` unconditionally.
    pub fn push<T: Render>(&mut self, name: &str, value: T)
        ensures
            final(self)@ == old(self)@.push((name@, value.rendered())),
    {
        let rendered = value.render();
        self.pairs.push((name.to_owned(), rendered));
        proof {
            assert(self@ =~= old(self)@.push((name@, value.rendered())));
        }
    }

    /// Appends nothing when `value` is absent; otherwise behaves as `push`.
    /// With an absent value this is a no-op: the collector's contents
    /// before and after are identical.
    pub fn push_opt<T: Render>(&mut self, name: &str, value: Option<T>)
        ensures
            final(self)@ == match value {
                Some(v) => old(self)@.push((name@, v.rendered())),
                None => old(self)@,
            },
    {
        match value {
            Some(v) => self.push(name, v),
            None => (),
        }
    }

    /// The number of collected pairs.
    pub fn len(&self) -> (n: usize)
        ensures
            n == self@.len(),
    {
        self.pairs.len()
    }

    /// The name of the pair at `i`.
    pub fn name_at(&self, i: usize) -> (r: &String)
        requires
            i < self@.len(),
        ensures
            r@ == self@[i as int].0,
    {
        &self.pairs[i].0
    }

    /// The rendered value of the pair at `i`.
    pub fn value_at(&self, i: usize) -> (r: &String)
        requires
            i < self@.len(),
        ensures
            r@ == self@[i as int].1,
    {
        &self.pairs[i].1
    }
}

impl Default for QueryParams {
    /// A fresh, empty collector.
    fn default() -> (q: QueryParams)
        ensures
            q@ == Seq::<(Seq<char>, Seq<char>)>::empty(),
    {
        QueryParams::new()
    }
}

} // verus!
