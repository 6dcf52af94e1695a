//! A single value kept for a limited time. It reads no clock itself: every
//! operation that depends on time is told the current time, in milliseconds.

use vstd::prelude::*;

verus! {

pub struct SimpleCache<T> {
    value: Option<T>,
    ttl_ms: u64,
    created_ms: Option<u64>,
}

impl<T> SimpleCache<T> {
    pub closed spec fn stored(&self) -> Option<T> {
        self.value
    }

    pub closed spec fn ttl(&self) -> u64 {
        self.ttl_ms
    }

    /// When the value was stored, if one was.
    pub closed spec fn created(&self) -> Option<u64> {
        self.created_ms
    }

    /// A value stored at `created` is fresh at `now` while less than the
    /// time to live has passed.
    pub open spec fn fresh_at(&self, now: u64) -> bool {
        match self.created() {
            Some(c) => (if now >= c {
                now - c
            } else {
                0int
            }) < self.ttl(),
            None => false,
        }
    }

    /// An empty cache whose values live `ttl_ms` milliseconds.
    pub fn new(ttl_ms: u64) -> (r: SimpleCache<T>)
        ensures
            r.stored() is None,
            r.created() is None,
            r.ttl() == ttl_ms,
    {
        SimpleCache { value: None, ttl_ms, created_ms: None }
    }

    /// The value, while it is fresh.
    pub fn get(&self, now: u64) -> (r: Option<&T>)
        ensures
            match r {
                Some(v) => self.fresh_at(now) && self.stored() == Some(*v),
                None => !self.fresh_at(now) || self.stored() is None,
            },
    {
        if self.valid(now) {
            match &self.value {
                Some(v) => Some(v),
                None => None,
            }
        } else {
            None
        }
    }

    /// Stores `value` at `now`.
    pub fn set(&mut self, value: T, now: u64)
        ensures
            final(self).stored() == Some(value),
            final(self).created() == Some(now),
            final(self).ttl() == old(self).ttl(),
    {
        self.value = Some(value);
        self.created_ms = Some(now);
    }

    /// Forgets the value.
    pub fn clear(&mut self)
        ensures
            final(self).stored() is None,
            final(self).created() is None,
            final(self).ttl() == old(self).ttl(),
    {
        self.value = None;
        self.created_ms = None;
    }

    fn valid(&self, now: u64) -> (r: bool)
        ensures
            r == self.fresh_at(now),
    {
        match self.created_ms {
            Some(created) => {
                let elapsed = if now >= created {
                    now - created
                } else {
                    0
                };
                elapsed < self.ttl_ms
            },
            None => false,
        }
    }
}

} // verus!
