//! The wire document model: a field-name keyed document whose values are the
//! scalars of the protocol, a list of subject strings, or a nested document.
//! Records encode to and decode from this shape; absent optional fields are
//! omitted entirely, never written as an explicit null.

use vstd::prelude::*;
use vstd::string::StringExecFns;

verus! {

/// A scalar or structured value standing in one field of a wire document.
#[derive(Debug)]
pub enum Entry {
    Bool(bool),
    Num(i128),
    Str(String),
    StrList(Vec<String>),
    Obj(Doc),
}

/// A field-name keyed wire document.
#[derive(Debug)]
pub struct Doc {
    pub entries: Vec<(String, Entry)>,
}

/// The first entry stored under `key`, if any. Later duplicates are shadowed.
pub open spec fn lookup(s: Seq<(String, Entry)>, key: Seq<char>) -> Option<Entry>
    decreases s.len(),
{
    if s.len() == 0 {
        None
    } else if s[0].0@ == key {
        Some(s[0].1)
    } else {
        lookup(s.drop_first(), key)
    }
}

/// Appending a field leaves every earlier key's lookup unchanged and makes the
/// new key found exactly when it was absent before.
pub broadcast proof fn lemma_lookup_push(s: Seq<(String, Entry)>, p: (String, Entry), key: Seq<char>)
    ensures
        #[trigger] lookup(s.push(p), key) == (if lookup(s, key) is Some {
            lookup(s, key)
        } else if p.0@ == key {
            Some(p.1)
        } else {
            None::<Entry>
        }),
    decreases s.len(),
{
    if s.len() == 0 {
        assert(s.push(p)[0] == p);
        assert(s.push(p).drop_first() =~= Seq::<(String, Entry)>::empty());
        if p.0@ == key {
            assert(lookup(s.push(p), key) == Some(p.1));
        } else {
            assert(lookup(s.push(p), key) == lookup(s.push(p).drop_first(), key));
            assert(lookup(s.push(p), key) is None);
        }
    } else {
        assert(s.push(p)[0] == s[0]);
        assert(s.push(p).drop_first() =~= s.drop_first().push(p));
        lemma_lookup_push(s.drop_first(), p, key);
        if s[0].0@ == key {
            assert(lookup(s.push(p), key) == Some(s[0].1));
            assert(lookup(s, key) == Some(s[0].1));
        } else {
            assert(lookup(s.push(p), key) == lookup(s.drop_first().push(p), key));
            assert(lookup(s, key) == lookup(s.drop_first(), key));
        }
    }
}

/// Relies on str's PartialEq: two string slices are equal exactly when their
/// character sequences are equal.
#[verifier::external_body]
pub(crate) fn str_eq(a: &str, b: &str) -> (r: bool)
    ensures
        r == (a@ == b@),
{
    a == b
}

/// A numeric field read: absent, present within bounds, or ill-shaped.
pub open spec fn sget_num(s: Seq<(String, Entry)>, key: Seq<char>, lo: int, hi: int) -> Result<
    Option<i128>,
    (),
> {
    match lookup(s, key) {
        None => Ok(None),
        Some(Entry::Num(n)) => if lo <= n as int && n as int <= hi {
            Ok(Some(n))
        } else {
            Err(())
        },
        Some(_) => Err(()),
    }
}

/// A boolean field read: absent, present, or ill-shaped.
pub open spec fn sget_bool(s: Seq<(String, Entry)>, key: Seq<char>) -> Result<Option<bool>, ()> {
    match lookup(s, key) {
        None => Ok(None),
        Some(Entry::Bool(b)) => Ok(Some(b)),
        Some(_) => Err(()),
    }
}

/// A text field read: absent, present, or ill-shaped.
pub open spec fn sget_str(s: Seq<(String, Entry)>, key: Seq<char>) -> Result<Option<String>, ()> {
    match lookup(s, key) {
        None => Ok(None),
        Some(Entry::Str(t)) => Ok(Some(t)),
        Some(_) => Err(()),
    }
}

/// A string-list field read, as the sequence of its strings.
pub open spec fn sget_strl(s: Seq<(String, Entry)>, key: Seq<char>) -> Result<
    Option<Seq<String>>,
    (),
> {
    match lookup(s, key) {
        None => Ok(None),
        Some(Entry::StrList(l)) => Ok(Some(l@)),
        Some(_) => Err(()),
    }
}

/// A nested-document field read: absent, present, or ill-shaped.
pub open spec fn sget_obj(s: Seq<(String, Entry)>, key: Seq<char>) -> Result<Option<Doc>, ()> {
    match lookup(s, key) {
        None => Ok(None),
        Some(Entry::Obj(d)) => Ok(Some(d)),
        Some(_) => Err(()),
    }
}

impl Doc {
    /// An empty document.
    pub fn new() -> (d: Doc)
        ensures
            d.entries@ == Seq::<(String, Entry)>::empty(),
    {
        Doc { entries: Vec::new() }
    }

    /// A borrow of the first entry stored under `key`.
    pub fn get<'a>(&'a self, key: &str) -> (r: Option<&'a Entry>)
        ensures
            match r {
                Some(e) => lookup(self.entries@, key@) == Some(*e),
                None => lookup(self.entries@, key@) is None,
            },
    {
        proof {
            assert(self.entries@.skip(0) =~= self.entries@);
        }
        let mut i: usize = 0;
        while i < self.entries.len()
            invariant
                i <= self.entries.len(),
                lookup(self.entries@, key@) == lookup(self.entries@.skip(i as int), key@),
            decreases self.entries.len() - i,
        {
            if str_eq(self.entries[i].0.as_str(), key) {
                return Some(&self.entries[i].1);
            }
            proof {
                assert(self.entries@.skip(i as int).drop_first() =~= self.entries@.skip(
                    i as int + 1,
                ));
            }
            i += 1;
        }
        None
    }

    /// Appends a field; earlier fields keep their place.
    pub fn put(&mut self, key: &str, e: Entry)
        ensures
            final(self).entries@.len() == old(self).entries@.len() + 1,
            final(self).entries@ == old(self).entries@.push(final(self).entries@.last()),
            final(self).entries@.last().0@ == key@,
            final(self).entries@.last().1 == e,
    {
        self.entries.push((String::from_str(key), e));
    }

    /// Reads a numeric field, requiring it to lie within `lo ..= hi`.
    pub fn get_num(&self, key: &str, lo: i128, hi: i128) -> (r: Result<Option<i128>, ()>)
        ensures
            r == sget_num(self.entries@, key@, lo as int, hi as int),
    {
        match self.get(key) {
            None => Ok(None),
            Some(e) => match e {
                Entry::Num(n) => if lo <= *n && *n <= hi {
                    Ok(Some(*n))
                } else {
                    Err(())
                },
                _ => Err(()),
            },
        }
    }

    /// Reads a boolean field.
    pub fn get_bool(&self, key: &str) -> (r: Result<Option<bool>, ()>)
        ensures
            r == sget_bool(self.entries@, key@),
    {
        match self.get(key) {
            None => Ok(None),
            Some(e) => match e {
                Entry::Bool(b) => Ok(Some(*b)),
                _ => Err(()),
            },
        }
    }

    /// Reads a text field, handing back an owned copy of the text.
    pub fn get_str(&self, key: &str) -> (r: Result<Option<String>, ()>)
        ensures
            r == sget_str(self.entries@, key@),
    {
        match self.get(key) {
            None => Ok(None),
            Some(e) => match e {
                Entry::Str(t) => Ok(Some(t.clone())),
                _ => Err(()),
            },
        }
    }

    /// Reads a string-list field, handing back an owned copy of the list.
    pub fn get_strl(&self, key: &str) -> (r: Result<Option<Vec<String>>, ()>)
        ensures
            match r {
                Ok(Some(l)) => sget_strl(self.entries@, key@) == Ok::<_, ()>(Some(l@)),
                Ok(None) => sget_strl(self.entries@, key@) == Ok::<_, ()>(None::<Seq<String>>),
                Err(()) => sget_strl(self.entries@, key@) is Err,
            },
    {
        match self.get(key) {
            None => Ok(None),
            Some(e) => match e {
                Entry::StrList(l) => Ok(Some(clone_strings(l))),
                _ => Err(()),
            },
        }
    }

    /// Borrows a nested-document field.
    pub fn get_obj<'a>(&'a self, key: &str) -> (r: Result<Option<&'a Doc>, ()>)
        ensures
            match r {
                Ok(Some(d)) => sget_obj(self.entries@, key@) == Ok::<_, ()>(Some(*d)),
                Ok(None) => sget_obj(self.entries@, key@) == Ok::<_, ()>(None::<Doc>),
                Err(()) => sget_obj(self.entries@, key@) is Err,
            },
    {
        match self.get(key) {
            None => Ok(None),
            Some(e) => match e {
                Entry::Obj(d) => Ok(Some(d)),
                _ => Err(()),
            },
        }
    }
}

/// An element-for-element copy of a list of strings.
pub fn clone_strings(v: &Vec<String>) -> (r: Vec<String>)
    ensures
        r@ == v@,
{
    let mut r: Vec<String> = Vec::new();
    let mut i: usize = 0;
    while i < v.len()
        invariant
            i <= v.len(),
            r@ =~= v@.subrange(0, i as int),
        decreases v.len() - i,
    {
        r.push(v[i].clone());
        i += 1;
    }
    proof {
        assert(r@ =~= v@);
    }
    r
}

} // verus!
