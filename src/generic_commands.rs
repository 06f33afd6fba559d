use crate::command::{cmd, Command};
use crate::command_args::ToArgs;
use crate::to_args::SingleArgOrCollection;
use crate::decimal::{decimal, signed_decimal};
use vstd::prelude::*;
use vstd::utf8::encode_utf8;

verus! {

/// Builder for the copy command.
pub struct Copy {
    cmd: Command,
}

impl View for Copy {
    type V = (Seq<u8>, Seq<Seq<u8>>);

    closed spec fn view(&self) -> (Seq<u8>, Seq<Seq<u8>>) {
        self.cmd@
    }
}

impl Copy {
    /// Names another logical database for the destination key: appends
    /// `DB <destination_db>`.
    pub fn db(self, destination_db: usize) -> (r: Self)
        ensures
            r@.0 == self@.0,
            r@.1 == self@.1 + seq![encode_utf8("DB"@), decimal(destination_db as nat)],
    {
        let r = Copy { cmd: self.cmd.arg("DB").arg(destination_db) };
        assert(r@.1 =~= self@.1 + seq![encode_utf8("DB"@), decimal(destination_db as nat)]);
        r
    }

    /// Removes the destination key before copying: appends `REPLACE`.
    pub fn replace(self) -> (r: Self)
        ensures
            r@.0 == self@.0,
            r@.1 == self@.1.push(encode_utf8("REPLACE"@)),
    {
        let r = Copy { cmd: self.cmd.arg("REPLACE") };
        assert(r@.1 =~= self@.1.push(encode_utf8("REPLACE"@)));
        r
    }

    /// The finished request; its reply decodes as a `bool`, the success of
    /// the copy.
    pub fn execute(self) -> (r: Command)
        ensures
            r@ == self@,
    {
        self.cmd
    }
}


/// Builder for the expiry commands; each flag finishes the request.
pub struct Expire {
    cmd: Command,
}

impl View for Expire {
    type V = (Seq<u8>, Seq<Seq<u8>>);

    closed spec fn view(&self) -> (Seq<u8>, Seq<Seq<u8>>) {
        self.cmd@
    }
}

impl Expire {
    /// Sets the expiry only when the key has none: appends `NX`. The reply
    /// decodes as a `bool`.
    pub fn nx(self) -> (r: Command)
        ensures
            r@.0 == self@.0,
            r@.1 == self@.1.push(encode_utf8("NX"@)),
    {
        let r = self.cmd.arg("NX");
        assert(r@.1 =~= self@.1.push(encode_utf8("NX"@)));
        r
    }

    /// Sets the expiry only when the key has one: appends `XX`. The reply
    /// decodes as a `bool`.
    pub fn xx(self) -> (r: Command)
        ensures
            r@.0 == self@.0,
            r@.1 == self@.1.push(encode_utf8("XX"@)),
    {
        let r = self.cmd.arg("XX");
        assert(r@.1 =~= self@.1.push(encode_utf8("XX"@)));
        r
    }

    /// Sets the expiry only when it is greater than the current one: appends
    /// `GT`. The reply decodes as a `bool`.
    pub fn gt(self) -> (r: Command)
        ensures
            r@.0 == self@.0,
            r@.1 == self@.1.push(encode_utf8("GT"@)),
    {
        let r = self.cmd.arg("GT");
        assert(r@.1 =~= self@.1.push(encode_utf8("GT"@)));
        r
    }

    /// Sets the expiry only when it is less than the current one: appends
    /// `LT`. The reply decodes as a `bool`.
    pub fn lt(self) -> (r: Command)
        ensures
            r@.0 == self@.0,
            r@.1 == self@.1.push(encode_utf8("LT"@)),
    {
        let r = self.cmd.arg("LT");
        assert(r@.1 =~= self@.1.push(encode_utf8("LT"@)));
        r
    }

    /// The request with no flag. The reply decodes as a `bool`.
    pub fn execute(self) -> (r: Command)
        ensures
            r@ == self@,
    {
        self.cmd
    }
}

/// Builder for the restore command.
pub struct Restore {
    cmd: Command,
}

impl View for Restore {
    type V = (Seq<u8>, Seq<Seq<u8>>);

    closed spec fn view(&self) -> (Seq<u8>, Seq<Seq<u8>>) {
        self.cmd@
    }
}

impl Restore {
    /// Replaces the key if it exists: appends `REPLACE`.
    pub fn replace(self) -> (r: Self)
        ensures
            r@.0 == self@.0,
            r@.1 == self@.1.push(encode_utf8("REPLACE"@)),
    {
        let r = Restore { cmd: self.cmd.arg("REPLACE") };
        assert(r@.1 =~= self@.1.push(encode_utf8("REPLACE"@)));
        r
    }

    /// Reads the ttl as an absolute Unix time in milliseconds: appends
    /// `ABSTTL`.
    pub fn abs_ttl(self) -> (r: Self)
        ensures
            r@.0 == self@.0,
            r@.1 == self@.1.push(encode_utf8("ABSTTL"@)),
    {
        let r = Restore { cmd: self.cmd.arg("ABSTTL") };
        assert(r@.1 =~= self@.1.push(encode_utf8("ABSTTL"@)));
        r
    }

    /// Sets the idle time used for eviction: appends `IDLETIME <seconds>`.
    pub fn idle_time(self, seconds: i64) -> (r: Self)
        ensures
            r@.0 == self@.0,
            r@.1 == self@.1 + seq![encode_utf8("IDLETIME"@), signed_decimal(seconds as int)],
    {
        let r = Restore { cmd: self.cmd.arg("IDLETIME").arg(seconds) };
        assert(r@.1 =~= self@.1 + seq![encode_utf8("IDLETIME"@), signed_decimal(seconds as int)]);
        r
    }

    /// Sets the access frequency used for eviction, already written as
    /// decimal text: appends `FREQ <frequency>`.
    pub fn freq_decimal(self, frequency: &str) -> (r: Self)
        ensures
            r@.0 == self@.0,
            r@.1 == self@.1 + seq![encode_utf8("FREQ"@), encode_utf8(frequency@)],
    {
        let r = Restore { cmd: self.cmd.arg("FREQ").arg(frequency) };
        assert(r@.1 =~= self@.1 + seq![encode_utf8("FREQ"@), encode_utf8(frequency@)]);
        r
    }

    /// The finished request. The reply decodes as `()`.
    pub fn execute(self) -> (r: Command)
        ensures
            r@ == self@,
    {
        self.cmd
    }
}

/// Builder for the scan command.
pub struct Scan {
    cmd: Command,
}

impl View for Scan {
    type V = (Seq<u8>, Seq<Seq<u8>>);

    closed spec fn view(&self) -> (Seq<u8>, Seq<Seq<u8>>) {
        self.cmd@
    }
}

impl Scan {
    /// Keeps only keys that match `pattern`: appends `MATCH <pattern>`.
    pub fn match_<P: ToArgs>(self, pattern: P) -> (r: Self)
        ensures
            r@.0 == self@.0,
            r@.1 == self@.1.push(encode_utf8("MATCH"@)) + pattern.spec_args(),
    {
        let r = Scan { cmd: self.cmd.arg("MATCH").arg(pattern) };
        assert(r@.1 =~= self@.1.push(encode_utf8("MATCH"@)) + pattern.spec_args());
        r
    }

    /// Hints at the batch size: appends `COUNT <count>`.
    pub fn count(self, count: usize) -> (r: Self)
        ensures
            r@.0 == self@.0,
            r@.1 == self@.1 + seq![encode_utf8("COUNT"@), decimal(count as nat)],
    {
        let r = Scan { cmd: self.cmd.arg("COUNT").arg(count) };
        assert(r@.1 =~= self@.1 + seq![encode_utf8("COUNT"@), decimal(count as nat)]);
        r
    }

    /// Keeps only values of the given type: appends `TYPE <type_>`.
    pub fn type_<A: ToArgs>(self, type_: A) -> (r: Self)
        ensures
            r@.0 == self@.0,
            r@.1 == self@.1.push(encode_utf8("TYPE"@)) + type_.spec_args(),
    {
        let r = Scan { cmd: self.cmd.arg("TYPE").arg(type_) };
        assert(r@.1 =~= self@.1.push(encode_utf8("TYPE"@)) + type_.spec_args());
        r
    }

    /// The finished request. The reply decodes as a pair of the next cursor
    /// and a batch, `(u64, Vec<K>)`; see [`crate::decode_scan`].
    pub fn execute(self) -> (r: Command)
        ensures
            r@ == self@,
    {
        self.cmd
    }
}

/// Commands of the generic group: each method builds the request, or a
/// builder for it when it takes optional modifiers. The reply to a request
/// decodes with [`crate::decode`] into the type that each method names.
pub trait GenericCommands {
    /// Copies the value stored at `source` to `destination`; modifiers follow on
    /// the builder.
    fn copy<S: ToArgs, D: ToArgs>(&self, source: S, destination: D) -> (r: Copy)
        ensures
            r@.0 == encode_utf8("COPY"@),
            r@.1 == source.spec_args() + destination.spec_args(),
    {
        let r = Copy { cmd: cmd("COPY").arg(source).arg(destination) };
        assert(r@.1 =~= source.spec_args() + destination.spec_args());
        r
    }

    /// Removes the given keys. The reply decodes as a `usize`, the number removed.
    fn del<K: ToArgs>(&self, keys: SingleArgOrCollection<K>) -> (r: Command)
        ensures
            r@.0 == encode_utf8("DEL"@),
            r@.1 == keys.spec_args(),
    {
        let r = cmd("DEL").arg(keys);
        assert(r@.1 =~= keys.spec_args());
        r
    }

    /// Counts which of the given keys exist. The reply decodes as a `usize`.
    fn exists_<K: ToArgs>(&self, keys: SingleArgOrCollection<K>) -> (r: Command)
        ensures
            r@.0 == encode_utf8("EXISTS"@),
            r@.1 == keys.spec_args(),
    {
        let r = cmd("EXISTS").arg(keys);
        assert(r@.1 =~= keys.spec_args());
        r
    }

    /// Removes the given keys without blocking the store. The reply decodes as a
    /// `usize`, the number removed.
    fn unlink<K: ToArgs>(&self, keys: SingleArgOrCollection<K>) -> (r: Command)
        ensures
            r@.0 == encode_utf8("UNLINK"@),
            r@.1 == keys.spec_args(),
    {
        let r = cmd("UNLINK").arg(keys);
        assert(r@.1 =~= keys.spec_args());
        r
    }

    /// Serializes the value stored at `key`. The reply decodes with
    /// [`crate::decode_dump`].
    fn dump<K: ToArgs>(&self, key: K) -> (r: Command)
        ensures
            r@.0 == encode_utf8("DUMP"@),
            r@.1 == key.spec_args(),
    {
        let r = cmd("DUMP").arg(key);
        assert(r@.1 =~= key.spec_args());
        r
    }

    /// Sets a timeout on `key`, given as `seconds`; flags follow on the builder.
    fn expire<K: ToArgs>(&self, key: K, seconds: u64) -> (r: Expire)
        ensures
            r@.0 == encode_utf8("EXPIRE"@),
            r@.1 == key.spec_args() + seq![decimal(seconds as nat)],
    {
        let r = Expire { cmd: cmd("EXPIRE").arg(key).arg(seconds) };
        assert(r@.1 =~= key.spec_args() + seq![decimal(seconds as nat)]);
        r
    }

    /// Sets a timeout on `key`, given as `unix_time_seconds`; flags follow on the builder.
    fn expireat<K: ToArgs>(&self, key: K, unix_time_seconds: u64) -> (r: Expire)
        ensures
            r@.0 == encode_utf8("EXPIREAT"@),
            r@.1 == key.spec_args() + seq![decimal(unix_time_seconds as nat)],
    {
        let r = Expire { cmd: cmd("EXPIREAT").arg(key).arg(unix_time_seconds) };
        assert(r@.1 =~= key.spec_args() + seq![decimal(unix_time_seconds as nat)]);
        r
    }

    /// Sets a timeout on `key`, given as `milliseconds`; flags follow on the builder.
    fn pexpire<K: ToArgs>(&self, key: K, milliseconds: u64) -> (r: Expire)
        ensures
            r@.0 == encode_utf8("PEXPIRE"@),
            r@.1 == key.spec_args() + seq![decimal(milliseconds as nat)],
    {
        let r = Expire { cmd: cmd("PEXPIRE").arg(key).arg(milliseconds) };
        assert(r@.1 =~= key.spec_args() + seq![decimal(milliseconds as nat)]);
        r
    }

    /// Sets a timeout on `key`, given as `unix_time_milliseconds`; flags follow on the builder.
    fn pexpireat<K: ToArgs>(&self, key: K, unix_time_milliseconds: u64) -> (r: Expire)
        ensures
            r@.0 == encode_utf8("PEXPIREAT"@),
            r@.1 == key.spec_args() + seq![decimal(unix_time_milliseconds as nat)],
    {
        let r = Expire { cmd: cmd("PEXPIREAT").arg(key).arg(unix_time_milliseconds) };
        assert(r@.1 =~= key.spec_args() + seq![decimal(unix_time_milliseconds as nat)]);
        r
    }

    /// The absolute Unix time in seconds at which `key` expires. The reply
    /// decodes as an `i64`; -1 and -2 are passed through unchanged.
    fn expiretime<K: ToArgs>(&self, key: K) -> (r: Command)
        ensures
            r@.0 == encode_utf8("EXPIRETIME"@),
            r@.1 == key.spec_args(),
    {
        let r = cmd("EXPIRETIME").arg(key);
        assert(r@.1 =~= key.spec_args());
        r
    }

    /// The absolute Unix time in milliseconds at which `key` expires. The reply
    /// decodes as an `i64`; -1 and -2 are passed through unchanged.
    fn pexpiretime<K: ToArgs>(&self, key: K) -> (r: Command)
        ensures
            r@.0 == encode_utf8("PEXPIRETIME"@),
            r@.1 == key.spec_args(),
    {
        let r = cmd("PEXPIRETIME").arg(key);
        assert(r@.1 =~= key.spec_args());
        r
    }

    /// The remaining time to live of `key` in seconds. The reply decodes as an
    /// `i64`; -1 and -2 are passed through unchanged.
    fn ttl<K: ToArgs>(&self, key: K) -> (r: Command)
        ensures
            r@.0 == encode_utf8("TTL"@),
            r@.1 == key.spec_args(),
    {
        let r = cmd("TTL").arg(key);
        assert(r@.1 =~= key.spec_args());
        r
    }

    /// The remaining time to live of `key` in milliseconds. The reply decodes as
    /// an `i64`; -1 and -2 are passed through unchanged.
    fn pttl<K: ToArgs>(&self, key: K) -> (r: Command)
        ensures
            r@.0 == encode_utf8("PTTL"@),
            r@.1 == key.spec_args(),
    {
        let r = cmd("PTTL").arg(key);
        assert(r@.1 =~= key.spec_args());
        r
    }

    /// Removes the timeout of `key`. The reply decodes as a `bool`.
    fn persist<K: ToArgs>(&self, key: K) -> (r: Command)
        ensures
            r@.0 == encode_utf8("PERSIST"@),
            r@.1 == key.spec_args(),
    {
        let r = cmd("PERSIST").arg(key);
        assert(r@.1 =~= key.spec_args());
        r
    }

    /// The type of the value stored at `key`. The reply decodes as a `String`.
    fn type_<K: ToArgs>(&self, key: K) -> (r: Command)
        ensures
            r@.0 == encode_utf8("TYPE"@),
            r@.1 == key.spec_args(),
    {
        let r = cmd("TYPE").arg(key);
        assert(r@.1 =~= key.spec_args());
        r
    }

    /// All keys that match `pattern`. The reply decodes as a `Vec` of keys.
    fn keys<P: ToArgs>(&self, pattern: P) -> (r: Command)
        ensures
            r@.0 == encode_utf8("KEYS"@),
            r@.1 == pattern.spec_args(),
    {
        let r = cmd("KEYS").arg(pattern);
        assert(r@.1 =~= pattern.spec_args());
        r
    }

    /// Moves `key` to database `db`. The reply decodes as an `i64`.
    fn move_<K: ToArgs>(&self, key: K, db: usize) -> (r: Command)
        ensures
            r@.0 == encode_utf8("MOVE"@),
            r@.1 == key.spec_args() + seq![decimal(db as nat)],
    {
        let r = cmd("MOVE").arg(key).arg(db);
        assert(r@.1 =~= key.spec_args() + seq![decimal(db as nat)]);
        r
    }

    /// The internal encoding of the object at `key`. The reply decodes as an
    /// `Option<String>`.
    fn object_encoding<K: ToArgs>(&self, key: K) -> (r: Command)
        ensures
            r@.0 == encode_utf8("OBJECT"@),
            r@.1 == seq![encode_utf8("ENCODING"@)] + key.spec_args(),
    {
        let r = cmd("OBJECT").arg("ENCODING").arg(key);
        assert(r@.1 =~= seq![encode_utf8("ENCODING"@)] + key.spec_args());
        r
    }

    /// The access frequency counter of the object at `key`. The reply decodes
    /// as an `i64`.
    fn object_freq<K: ToArgs>(&self, key: K) -> (r: Command)
        ensures
            r@.0 == encode_utf8("OBJECT"@),
            r@.1 == seq![encode_utf8("FREQ"@)] + key.spec_args(),
    {
        let r = cmd("OBJECT").arg("FREQ").arg(key);
        assert(r@.1 =~= seq![encode_utf8("FREQ"@)] + key.spec_args());
        r
    }

    /// Seconds since the object at `key` was last accessed. The reply decodes
    /// as an `i64`.
    fn object_idle_time<K: ToArgs>(&self, key: K) -> (r: Command)
        ensures
            r@.0 == encode_utf8("OBJECT"@),
            r@.1 == seq![encode_utf8("IDLETIME"@)] + key.spec_args(),
    {
        let r = cmd("OBJECT").arg("IDLETIME").arg(key);
        assert(r@.1 =~= seq![encode_utf8("IDLETIME"@)] + key.spec_args());
        r
    }

    /// The reference count of the object at `key`. The reply decodes as an
    /// `i64`.
    fn object_refcount<K: ToArgs>(&self, key: K) -> (r: Command)
        ensures
            r@.0 == encode_utf8("OBJECT"@),
            r@.1 == seq![encode_utf8("REFCOUNT"@)] + key.spec_args(),
    {
        let r = cmd("OBJECT").arg("REFCOUNT").arg(key);
        assert(r@.1 =~= seq![encode_utf8("REFCOUNT"@)] + key.spec_args());
        r
    }

    /// A random key of the current database. The reply decodes as an
    /// `Option` of a key.
    fn randomkey(&self) -> (r: Command)
        ensures
            r@.0 == encode_utf8("RANDOMKEY"@),
            r@.1 == Seq::<Seq<u8>>::empty(),
    {
        let r = cmd("RANDOMKEY");
        assert(r@.1 =~= Seq::<Seq<u8>>::empty());
        r
    }

    /// Renames `key` to `new_key`. The reply decodes as `()`.
    fn rename<K1: ToArgs, K2: ToArgs>(&self, key: K1, new_key: K2) -> (r: Command)
        ensures
            r@.0 == encode_utf8("RENAME"@),
            r@.1 == key.spec_args() + new_key.spec_args(),
    {
        let r = cmd("RENAME").arg(key).arg(new_key);
        assert(r@.1 =~= key.spec_args() + new_key.spec_args());
        r
    }

    /// Renames `key` to `new_key` when `new_key` does not exist. The reply
    /// decodes as a `bool`.
    fn renamenx<K1: ToArgs, K2: ToArgs>(&self, key: K1, new_key: K2) -> (r: Command)
        ensures
            r@.0 == encode_utf8("RENAMENX"@),
            r@.1 == key.spec_args() + new_key.spec_args(),
    {
        let r = cmd("RENAMENX").arg(key).arg(new_key);
        assert(r@.1 =~= key.spec_args() + new_key.spec_args());
        r
    }

    /// One step of a scan of the key space from `cursor`; options follow on the
    /// builder.
    fn scan(&self, cursor: u64) -> (r: Scan)
        ensures
            r@.0 == encode_utf8("SCAN"@),
            r@.1 == seq![decimal(cursor as nat)],
    {
        let r = Scan { cmd: cmd("SCAN").arg(cursor) };
        assert(r@.1 =~= seq![decimal(cursor as nat)]);
        r
    }

    /// Creates `key` from a value serialized by a dump; the value is sent as raw
    /// bytes. Options follow on the builder.
    fn restore<K: ToArgs>(&self, key: K, ttl: u64, serialized_value: Vec<u8>) -> (r: Restore)
        ensures
            r@.0 == encode_utf8("RESTORE"@),
            r@.1 == key.spec_args() + seq![decimal(ttl as nat)] + seq![serialized_value@],
    {
        let r = Restore { cmd: cmd("RESTORE").arg(key).arg(ttl).arg(serialized_value) };
        assert(r@.1 =~= key.spec_args() + seq![decimal(ttl as nat)] + seq![serialized_value@]);
        r
    }
}

} // verus!
