use vstd::prelude::*;

verus! {

/// The database dialects that the library knows by name.
#[derive(Debug, Clone, Copy, PartialEq, Eq, Structural)]
pub enum SupportDatabase {
    Dameng,
    Pg,
    Mysql,
}

/// Default capacity of one fetch batch, in rows.
pub const MAX_BATCH_SIZE: usize = 128;

/// Default bound of a text buffer, in bytes.
pub const MAX_STR_LEN: usize = 1024;

/// Default bound of a binary buffer, in bytes.
pub const MAX_BINARY_LEN: usize = 1048576;

/// Configuration of a connection.
#[derive(Debug, Clone, Copy, PartialEq, Eq, Structural)]
pub struct Options {
    pub database: SupportDatabase,
    pub max_batch_size: usize,
    pub max_str_len: usize,
    pub max_binary_len: usize,
    /// When false, column and table names are upper-cased.
    pub case_sensitive: bool,
}

/// The value a size field takes after normalization.
pub open spec fn normalized_size(value: usize, default: usize) -> usize {
    if value == 0 {
        default
    } else {
        value
    }
}

impl Options {
    /// Every size field is non-zero.
    pub open spec fn is_normalized(&self) -> bool {
        &&& self.max_batch_size > 0
        &&& self.max_str_len > 0
        &&& self.max_binary_len > 0
    }

    /// The options that normalization produces from `self`.
    pub open spec fn spec_check(self) -> Options {
        Options {
            database: self.database,
            max_batch_size: normalized_size(self.max_batch_size, MAX_BATCH_SIZE),
            max_str_len: normalized_size(self.max_str_len, MAX_STR_LEN),
            max_binary_len: normalized_size(self.max_binary_len, MAX_BINARY_LEN),
            case_sensitive: self.case_sensitive,
        }
    }

    /// Options for `database` with every default in place.
    pub fn new(database: SupportDatabase) -> (r: Self)
        ensures
            r.database == database,
            r.max_batch_size == MAX_BATCH_SIZE,
            r.max_str_len == MAX_STR_LEN,
            r.max_binary_len == MAX_BINARY_LEN,
            !r.case_sensitive,
            r.is_normalized(),
    {
        Options {
            database,
            max_batch_size: MAX_BATCH_SIZE,
            max_str_len: MAX_STR_LEN,
            max_binary_len: MAX_BINARY_LEN,
            case_sensitive: false,
        }
    }

    /// Replaces each zero size field by its default and keeps the rest.
    pub fn check(self) -> (r: Self)
        ensures
            r == self.spec_check(),
            r.is_normalized(),
            self.is_normalized() ==> r == self,
    {
        let mut o = self;
        if o.max_batch_size == 0 {
            o.max_batch_size = MAX_BATCH_SIZE;
        }
        if o.max_str_len == 0 {
            o.max_str_len = MAX_STR_LEN;
        }
        if o.max_binary_len == 0 {
            o.max_binary_len = MAX_BINARY_LEN;
        }
        o
    }
}

/// Normalizing options twice gives what normalizing them once gave, and the
/// result always has non-zero sizes.
pub proof fn lemma_check_idempotent(o: Options)
    ensures
        o.spec_check().is_normalized(),
        o.spec_check().spec_check() == o.spec_check(),
{
}

} // verus!
