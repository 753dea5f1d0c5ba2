//! The model of a decoder at work: a reader over a message, the record it
//! has filled so far, and the failure that stopped it, if any.

use vstd::prelude::*;
use crate::errors::Error;
use crate::errors::ErrorView;
use crate::messages::MessageView;

verus! {

/// A decoder part-way through a message.
pub struct Reading<T> {
    /// The fields and the reader's position among them.
    pub message: MessageView,
    /// The record as far as it has been filled.
    pub value: T,
    /// The error that stopped the decoder; `None` while it is reading.
    pub failure: Option<ErrorView>,
}

impl<T> Reading<T> {
    /// A decoder that has read nothing yet.
    pub open spec fn start(message: MessageView, value: T) -> Reading<T> {
        Reading { message, value, failure: None }
    }

    /// Goes on with `next` unless the decoder has failed: a failure stops
    /// everything behind it.
    pub open spec fn and(self, next: spec_fn(Reading<T>) -> Reading<T>) -> Reading<T> {
        if self.failure is Some {
            self
        } else {
            next(self)
        }
    }

    /// The reader moved over one field, which is not looked at.
    pub open spec fn skip(self) -> Reading<T> {
        Reading { message: self.message.skip(), ..self }
    }

    /// The reader moved over one field and the record replaced.
    pub open spec fn stored(self, value: T) -> Reading<T> {
        Reading { message: self.message.skip(), value, failure: self.failure }
    }

    /// The reader moved over one field, which stopped the decoder.
    pub open spec fn failed(self, e: ErrorView) -> Reading<T> {
        Reading { message: self.message.skip(), value: self.value, failure: Some(e) }
    }

    /// Stops the decoder where it stands.
    pub open spec fn stopped(self, e: ErrorView) -> Reading<T> {
        Reading { failure: Some(e), ..self }
    }

    /// Reads one field as an integer into the record.
    pub open spec fn put_int(self, set: spec_fn(T, int) -> T) -> Reading<T> {
        match self.message.read_int() {
            Ok(v) => self.stored(set(self.value, v)),
            Err(e) => self.failed(e),
        }
    }

    /// Reads one field as an integer that may be unset into the record.
    pub open spec fn put_optional_int(self, set: spec_fn(T, Option<int>) -> T) -> Reading<T> {
        match self.message.read_optional_int() {
            Ok(v) => self.stored(set(self.value, v)),
            Err(e) => self.failed(e),
        }
    }

    /// Reads one field as a long integer that may be unset into the record.
    pub open spec fn put_optional_long(self, set: spec_fn(T, Option<int>) -> T) -> Reading<T> {
        match self.message.read_optional_long() {
            Ok(v) => self.stored(set(self.value, v)),
            Err(e) => self.failed(e),
        }
    }

    /// Reads one field as a decimal into the record.
    pub open spec fn put_double(self, set: spec_fn(T, Seq<char>) -> T) -> Reading<T> {
        match self.message.read_double() {
            Ok(v) => self.stored(set(self.value, v)),
            Err(e) => self.failed(e),
        }
    }

    /// Reads one field as a decimal that may be unset into the record.
    pub open spec fn put_optional_double(
        self,
        set: spec_fn(T, Option<Seq<char>>) -> T,
    ) -> Reading<T> {
        match self.message.read_optional_double() {
            Ok(v) => self.stored(set(self.value, v)),
            Err(e) => self.failed(e),
        }
    }

    /// Reads one field as a flag into the record.
    pub open spec fn put_bool(self, set: spec_fn(T, bool) -> T) -> Reading<T> {
        match self.message.read_bool() {
            Ok(v) => self.stored(set(self.value, v)),
            Err(e) => self.failed(e),
        }
    }

    /// Reads one field as text into the record.
    pub open spec fn put_string(self, set: spec_fn(T, Seq<char>) -> T) -> Reading<T> {
        match self.message.read_string() {
            Ok(v) => self.stored(set(self.value, v)),
            Err(e) => self.failed(e),
        }
    }

    /// Takes over what a decoder of a part has done: its reader, its failure
    /// and, if it did not fail, its record, which `set` puts into this one.
    pub open spec fn nested<U>(self, part: Reading<U>, set: spec_fn(T, U) -> T) -> Reading<T> {
        Reading {
            message: part.message,
            value: if part.failure is None {
                set(self.value, part.value)
            } else {
                self.value
            },
            failure: part.failure,
        }
    }

    /// Lets `read` decode a part from where the reader stands, and takes
    /// over what it has done.
    pub open spec fn part<U>(
        self,
        read: spec_fn(MessageView) -> Reading<U>,
        set: spec_fn(T, U) -> T,
    ) -> Reading<T> {
        self.nested(read(self.message), set)
    }

    /// The same decoder with its record seen through `f`.
    pub open spec fn converted<U>(self, f: spec_fn(T) -> U) -> Reading<U> {
        Reading { message: self.message, value: f(self.value), failure: self.failure }
    }

    /// What the caller of a finished decoder gets: the whole record, or the
    /// error that stopped it.
    pub open spec fn gives(self, result: Result<T, ErrorView>) -> bool {
        match result {
            Ok(value) => self.failure is None && self.value == value,
            Err(e) => self.failure == Some(e),
        }
    }

    /// What the caller of a finished decoder sees: the reader where it
    /// stopped, and either the whole record or the error.
    pub open spec fn yields(self, message: MessageView, result: Result<T, ErrorView>) -> bool {
        self.message == message && self.gives(result)
    }
}

/// A result seen through the views of its two sides.
pub open spec fn viewed<T: View>(r: Result<T, Error>) -> Result<T::V, ErrorView> {
    match r {
        Ok(value) => Ok(value@),
        Err(e) => Err(e@),
    }
}

} // verus!
