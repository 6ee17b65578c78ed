//! The writes this library sends to the store, and a model of what each one
//! does to the store's live entries at the instant it is applied.
use vstd::prelude::*;

verus! {

/// The live entries of the store: each key holds at most one value.
pub type StoreContents = Map<Seq<char>, Seq<char>>;

/// A write as the model sees it.
pub enum StoreWrite {
    /// Store `value` under `key`, to expire after `seconds`.
    Put { key: Seq<char>, value: Seq<char>, seconds: nat },
    /// Drop whatever `key` holds.
    Remove { key: Seq<char> },
}

/// A write to be sent to the store.
#[derive(Clone, Debug, PartialEq, Eq)]
pub enum WriteCommand {
    /// `SETEX key seconds value`.
    SetEx { key: String, value: String, seconds: u64 },
    /// `DEL key`.
    Del { key: String },
}

impl View for WriteCommand {
    type V = StoreWrite;

    open spec fn view(&self) -> StoreWrite {
        match self {
            WriteCommand::SetEx { key, value, seconds } => StoreWrite::Put {
                key: key@,
                value: value@,
                seconds: *seconds as nat,
            },
            WriteCommand::Del { key } => StoreWrite::Remove { key: key@ },
        }
    }
}

pub open spec fn write_key(w: StoreWrite) -> Seq<char> {
    match w {
        StoreWrite::Put { key, .. } => key,
        StoreWrite::Remove { key } => key,
    }
}

/// The write that caches `value` under `key` for `ttl` seconds. A time-to-live
/// of zero means the entry expires at once: the key is left holding nothing.
pub open spec fn write_for(key: Seq<char>, value: Seq<char>, ttl: nat) -> StoreWrite {
    if ttl > 0 {
        StoreWrite::Put { key, value, seconds: ttl }
    } else {
        StoreWrite::Remove { key }
    }
}

/// The live entries right after `w` is applied, before any entry expires.
pub open spec fn apply_write(m: StoreContents, w: StoreWrite) -> StoreContents {
    match w {
        StoreWrite::Put { key, value, .. } => m.insert(key, value),
        StoreWrite::Remove { key } => m.remove(key),
    }
}

/// The live entries after `ws` are applied in order, starting from `m`.
pub open spec fn apply_writes(m: StoreContents, ws: Seq<StoreWrite>) -> StoreContents
    decreases ws.len(),
{
    if ws.len() == 0 {
        m
    } else {
        apply_write(apply_writes(m, ws.drop_last()), ws.last())
    }
}

/// What a read of `key` returns.
pub open spec fn read_entry(m: StoreContents, key: Seq<char>) -> Option<Seq<char>> {
    if m.contains_key(key) {
        Some(m[key])
    } else {
        None
    }
}

/// The write that caches `value` under `key` for `ttl_seconds` seconds.
pub fn write_command(key: &str, value: &str, ttl_seconds: usize) -> (c: WriteCommand)
    ensures
        c@ == write_for(key@, value@, ttl_seconds as nat),
{
    if ttl_seconds > 0 {
        WriteCommand::SetEx { key: key.to_owned(), value: value.to_owned(), seconds: ttl_seconds as u64 }
    } else {
        WriteCommand::Del { key: key.to_owned() }
    }
}

/// A write with a positive time-to-live can be read back at once, unchanged.
pub proof fn lemma_set_then_get(m: StoreContents, key: Seq<char>, value: Seq<char>, ttl: nat)
    requires
        ttl > 0,
    ensures
        read_entry(apply_write(m, write_for(key, value, ttl)), key) == Some(value),
{
}

/// A write with a time-to-live of zero leaves the key holding nothing.
pub proof fn lemma_zero_ttl_expires(m: StoreContents, key: Seq<char>, value: Seq<char>)
    ensures
        read_entry(apply_write(m, write_for(key, value, 0)), key) is None,
{
}

/// A key that no write has named reads as absent in a store that started empty.
pub proof fn lemma_never_written_is_absent(ws: Seq<StoreWrite>, key: Seq<char>)
    requires
        forall|i: int| 0 <= i < ws.len() ==> write_key(#[trigger] ws[i]) != key,
    ensures
        read_entry(apply_writes(Map::empty(), ws), key) is None,
    decreases ws.len(),
{
    if ws.len() > 0 {
        let p = ws.drop_last();
        assert forall|i: int| 0 <= i < p.len() implies write_key(#[trigger] p[i]) != key by {
            assert(p[i] == ws[i]);
        }
        lemma_never_written_is_absent(p, key);
        assert(write_key(ws[ws.len() - 1]) != key);
    }
}

} // verus!
