//! Filling a bucket with objects: a fixed number of workers, each of which
//! puts the same number of objects under fresh random keys.
use vstd::prelude::*;

verus! {

/// How many workers fill a bucket side by side.
pub const CREATION_WORKERS: usize = 16;

pub open spec fn is_hex_digit(c: char) -> bool {
    ('0' <= c && c <= '9') || ('a' <= c && c <= 'f')
}

/// `s` is a UUID in its usual text form: 36 characters, lowercase hexadecimal
/// digits in groups of 8, 4, 4, 4 and 12, joined by hyphens.
pub open spec fn is_uuid_text(s: Seq<char>) -> bool {
    &&& s.len() == 36
    &&& forall|i: int|
        0 <= i < 36 ==> if i == 8 || i == 13 || i == 18 || i == 23 {
            s[i] == '-'
        } else {
            is_hex_digit(#[trigger] s[i])
        }
}

/// Relies on uuid::Uuid::new_v4, a random version-4 UUID, written out by its
/// `Display`: the hyphenated lowercase form. new_v4 panics only when the
/// system's random source fails.
#[verifier::external_body]
fn random_uuid_text() -> (r: String)
    ensures
        is_uuid_text(r@),
{
    uuid::Uuid::new_v4().to_string()
}

/// A fresh random name, for a new bucket or a new object.
pub fn fresh_name() -> (r: String)
    ensures
        is_uuid_text(r@),
{
    random_uuid_text()
}

/// One request to store an object.
pub struct PutRequest {
    pub bucket: String,
    pub key: String,
    pub body: String,
}

pub struct CreatorView {
    pub bucket: String,
    /// How many objects the worker puts in all.
    pub total: nat,
    /// How many put requests it has issued.
    pub issued: nat,
}

/// One worker: puts `total` objects into a bucket, each under a fresh random
/// key and holding that key as its body.
pub struct ObjectCreator {
    bucket: String,
    total: u32,
    issued: u32,
}

impl View for ObjectCreator {
    type V = CreatorView;

    closed spec fn view(&self) -> CreatorView {
        CreatorView { bucket: self.bucket, total: self.total as nat, issued: self.issued as nat }
    }
}

impl ObjectCreator {
    pub closed spec fn wf(&self) -> bool {
        self.issued <= self.total
    }

    pub fn new(bucket: String, total: u32) -> (c: ObjectCreator)
        ensures
            c.wf(),
            c@ == (CreatorView { bucket, total: total as nat, issued: 0 }),
    {
        ObjectCreator { bucket, total, issued: 0 }
    }

    /// The next object to put, or `None` once `total` requests were issued.
    pub fn next_put(&mut self) -> (r: Option<PutRequest>)
        requires
            old(self).wf(),
        ensures
            final(self).wf(),
            old(self)@.issued < old(self)@.total ==> {
                &&& final(self)@ == (CreatorView { issued: old(self)@.issued + 1, ..old(self)@ })
                &&& r matches Some(q) && q.bucket == old(self)@.bucket && is_uuid_text(q.key@)
                    && q.body == q.key
            },
            old(self)@.issued == old(self)@.total ==> r is None && final(self)@ == old(self)@,
    {
        if self.issued < self.total {
            let key = random_uuid_text();
            let body = key.clone();
            self.issued = self.issued + 1;
            Some(PutRequest { bucket: self.bucket.clone(), key, body })
        } else {
            None
        }
    }
}

/// The workers that put `count` objects each into `bucket`.
pub fn object_creators(bucket: &String, count: u32) -> (r: Vec<ObjectCreator>)
    ensures
        r@.len() == CREATION_WORKERS,
        forall|i: int|
            0 <= i < r@.len() ==> (#[trigger] r@[i]).wf() && r@[i]@ == (CreatorView {
                bucket: *bucket,
                total: count as nat,
                issued: 0,
            }),
{
    let mut r: Vec<ObjectCreator> = Vec::new();
    while r.len() < CREATION_WORKERS
        invariant
            r@.len() <= CREATION_WORKERS,
            forall|i: int|
                0 <= i < r@.len() ==> (#[trigger] r@[i]).wf() && r@[i]@ == (CreatorView {
                    bucket: *bucket,
                    total: count as nat,
                    issued: 0,
                }),
        decreases CREATION_WORKERS - r@.len(),
    {
        r.push(ObjectCreator::new(bucket.clone(), count));
    }
    r
}

} // verus!
