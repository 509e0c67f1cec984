use vstd::prelude::*;
use crate::order::{is_sorted, lex_le, sort_strings, views};
use vstd::string::StrSliceExecFns;
use std::io::{Read, Write};

verus! {

/// Where snapshots are kept: a store of byte blobs under keys made of path
/// segments. Users of the library supply their own (on disk, in memory).
pub trait PersistenceBackend {
    /// Stores `value` under `key`, replacing what was there.
    fn save(&self, key: &[&str], value: Vec<u8>);

    /// The blob under `key`, if there is one.
    fn load(&self, key: &[&str]) -> Option<Vec<u8>>;

    /// Removes the blob under `key`, if there is one.
    fn delete(&self, key: &[&str]);

    /// The names of the entries directly below `prefix`.
    fn list(&self, prefix: &[&str]) -> Vec<String>;
}

/// A backend that keeps nothing.
#[derive(Debug, Default)]
pub struct NullBackend;

impl PersistenceBackend for NullBackend {
    fn save(&self, key: &[&str], value: Vec<u8>) {
    }

    fn load(&self, key: &[&str]) -> (blob: Option<Vec<u8>>)
        ensures
            blob is None,
    {
        None
    }

    fn delete(&self, key: &[&str]) {
    }

    fn list(&self, prefix: &[&str]) -> (names: Vec<String>)
        ensures
            names@.len() == 0,
    {
        Vec::new()
    }
}

/// The directory of every world.
pub const WORLDS: &'static str = "worlds";

/// The directory of a world's automatic snapshots.
pub const AUTO: &'static str = "auto";

/// The key under which the automatic snapshots of world `id` are listed.
pub fn auto_ns<'a>(id: &'a str) -> (key: [&'a str; 3])
    ensures
        key@.len() == 3,
        key@[0] == WORLDS,
        key@[1] == id,
        key@[2] == AUTO,
{
    [WORLDS, id, AUTO]
}

/// The key of the automatic snapshot of world `id` taken at `stamp`.
pub fn auto_key<'a>(id: &'a str, stamp: &'a str) -> (key: [&'a str; 4])
    ensures
        key@.len() == 4,
        key@[0] == WORLDS,
        key@[1] == id,
        key@[2] == AUTO,
        key@[3] == stamp,
{
    [WORLDS, id, AUTO, stamp]
}

/// A snapshot's key lies under the namespace of its world.
pub proof fn lemma_auto_key_under_ns(ns: Seq<&str>, key: Seq<&str>, id: &str, stamp: &str)
    requires
        ns == seq![WORLDS, id, AUTO],
        key == seq![WORLDS, id, AUTO, stamp],
    ensures
        key.take(3) == ns,
        key.last() == stamp,
{
    assert(key.take(3) =~= ns);
}

/// How many of `n` snapshots rotation deletes to keep at most `max_count`.
pub open spec fn expired_count(n: nat, max_count: nat) -> nat {
    if n > max_count { (n - max_count) as nat } else { 0 }
}

/// The snapshots that rotation deletes: the oldest ones, in ascending order
/// of their stamps, beyond the newest `max_count`.
pub fn expired_snapshots(stamps: &Vec<String>, max_count: usize) -> (expired: Vec<String>)
    ensures
        exists|sorted: Seq<Seq<char>>|
            #![trigger is_sorted(sorted)]
            is_sorted(sorted) && sorted.to_multiset() == views(stamps@).to_multiset()
                && views(expired@) == sorted.take(expired_count(stamps@.len(), max_count as nat) as int),
{
    let sorted = sort_strings(stamps);
    let n = sorted.len();
    proof {
        vstd::seq_lib::to_multiset_len(views(sorted@));
        vstd::seq_lib::to_multiset_len(views(stamps@));
    }
    let remove = if n > max_count { n - max_count } else { 0 };
    let mut out: Vec<String> = Vec::new();
    let mut i: usize = 0;
    while i < remove
        invariant
            remove <= n == sorted@.len(),
            i <= remove,
            views(out@) =~= views(sorted@).take(i as int),
        decreases remove - i,
    {
        let ghost prev = out@;
        let s = sorted[i].clone();
        out.push(s);
        proof {
            assert(views(out@) =~= views(prev).push(s@));
            assert(views(sorted@).take(i + 1) =~= views(sorted@).take(i as int).push(views(sorted@)[i as int]));
        }
        i = i + 1;
    }
    proof {
        assert(is_sorted(views(sorted@)));
    }
    out
}

/// Rotation keeps the newest snapshots: every stamp it deletes sorts before
/// every stamp it keeps, and it keeps `max_count` of them, or all when there
/// are fewer.
pub proof fn lemma_rotation_keeps_newest(sorted: Seq<Seq<char>>, max_count: nat)
    requires
        is_sorted(sorted),
    ensures
        ({
            let k = expired_count(sorted.len(), max_count) as int;
            &&& sorted.len() - k == if sorted.len() > max_count { max_count } else { sorted.len() }
            &&& forall|i: int, j: int|
                0 <= i < k <= j < sorted.len() ==> lex_le(#[trigger] sorted.take(k)[i], #[trigger] sorted.skip(k)[j - k])
        }),
{
    let k = expired_count(sorted.len(), max_count) as int;
    assert forall|i: int, j: int| 0 <= i < k <= j < sorted.len() implies lex_le(
        #[trigger] sorted.take(k)[i],
        #[trigger] sorted.skip(k)[j - k],
    ) by {
        assert(sorted.take(k)[i] == sorted[i]);
        assert(sorted.skip(k)[j - k] == sorted[j]);
        assert(lex_le(sorted[i], sorted[j]));
    }
}

/// Extension of a stored snapshot file.
pub const SNAPSHOT_EXT: &'static str = ".dat";

/// Extension of a snapshot file still being written.
pub const TEMP_EXT: &'static str = ".tmp";

/// Whether `s` ends with `suffix`.
pub open spec fn ends_with(s: Seq<char>, suffix: Seq<char>) -> bool {
    s.len() >= suffix.len() && s.skip(s.len() - suffix.len()) == suffix
}

/// The entry a directory listing shows for a file: none for files still
/// being written, and a snapshot's key without its extension.
pub open spec fn spec_entry_name(file: Seq<char>) -> Option<Seq<char>> {
    if ends_with(file, TEMP_EXT@) {
        None
    } else if ends_with(file, SNAPSHOT_EXT@) {
        Some(file.take(file.len() - SNAPSHOT_EXT@.len()))
    } else {
        Some(file)
    }
}

fn has_suffix(s: &str, suffix: &str) -> (b: bool)
    ensures
        b == ends_with(s@, suffix@),
{
    let n = s.unicode_len();
    let m = suffix.unicode_len();
    if n < m {
        return false;
    }
    let mut i: usize = 0;
    while i < m
        invariant
            n == s@.len(),
            m == suffix@.len(),
            m <= n,
            i <= m,
            forall|j: int| 0 <= j < i ==> s@[n - m + j] == suffix@[j],
        decreases m - i,
    {
        if s.get_char(n - m + i) != suffix.get_char(i) {
            assert(s@.skip(n - m)[i as int] != suffix@[i as int]);
            return false;
        }
        i = i + 1;
    }
    assert(s@.skip(n - m) =~= suffix@);
    true
}

/// The key a listed file stands for.
pub fn entry_name(file: &str) -> (name: Option<String>)
    ensures
        match spec_entry_name(file@) {
            Some(n) => name matches Some(s) && s@ == n,
            None => name is None,
        },
{
    if has_suffix(file, TEMP_EXT) {
        return None;
    }
    if has_suffix(file, SNAPSHOT_EXT) {
        proof {
            reveal_strlit(".dat");
        }
        let n = file.unicode_len();
        return Some(String::from_str(file.substring_char(0, n - 4)));
    }
    Some(String::from_str(file))
}

/// The stamps of `listed`, newest (greatest) first: the same stamps, each as
/// often as in `listed`, in descending order.
pub fn newest_first(listed: &Vec<String>) -> (stamps: Vec<String>)
    ensures
        is_sorted(views(stamps@).reverse()),
        views(stamps@).to_multiset() == views(listed@).to_multiset(),
{
    let sorted = sort_strings(listed);
    let mut out: Vec<String> = Vec::new();
    let n = sorted.len();
    let mut i: usize = n;
    while i > 0
        invariant
            i <= n == sorted@.len(),
            views(out@) =~= views(sorted@).skip(i as int).reverse(),
        decreases i,
    {
        i = i - 1;
        let ghost prev = out@;
        let s = sorted[i].clone();
        out.push(s);
        proof {
            assert(views(out@) =~= views(prev).push(s@));
            assert(views(sorted@).skip(i as int) =~= seq![s@] + views(sorted@).skip(i + 1));
        }
    }
    proof {
        assert(views(sorted@).skip(0) =~= views(sorted@));
        assert(views(out@).reverse() =~= views(sorted@));
        assert(views(out@) =~= views(sorted@).reverse());
        views(sorted@).lemma_reverse_to_multiset();
    }
    out
}

/// The snapshots of one world in a backend.
pub struct WorldStore<'a, B: PersistenceBackend + ?Sized> {
    backend: &'a B,
}

impl<'a, B: PersistenceBackend + ?Sized> WorldStore<'a, B> {
    /// The backend that this store reads and writes.
    pub closed spec fn backend(&self) -> &'a B {
        self.backend
    }

    pub fn new(backend: &'a B) -> (store: WorldStore<'a, B>)
        ensures
            store.backend() == backend,
    {
        WorldStore { backend }
    }

    /// Stores a snapshot of world `id` taken at `stamp`, then deletes its
    /// oldest snapshots beyond the newest `max_count`.
    pub fn save_snapshot(&self, id: &str, stamp: &str, snapshot: Vec<u8>, max_count: usize) {
        self.backend.save(&auto_key(id, stamp), snapshot);
        self.rotate(id, max_count);
    }

    /// Deletes every snapshot of world `id`.
    pub fn delete(&self, id: &str) {
        let stamps = self.backend.list(&auto_ns(id));
        let mut i: usize = 0;
        while i < stamps.len()
            decreases stamps@.len() - i,
        {
            self.backend.delete(&auto_key(id, stamps[i].as_str()));
            i = i + 1;
        }
    }

    /// Deletes the oldest snapshots of world `id` beyond the newest `max_count`.
    pub fn rotate(&self, id: &str, max_count: usize) {
        let stamps = self.backend.list(&auto_ns(id));
        let expired = expired_snapshots(&stamps, max_count);
        let mut i: usize = 0;
        while i < expired.len()
            decreases expired@.len() - i,
        {
            self.backend.delete(&auto_key(id, expired[i].as_str()));
            i = i + 1;
        }
    }

    /// The stamps of world `id`'s snapshots, newest first. Which stamps there
    /// are is what the backend lists; `newest_first` states their order.
    pub fn stamps_newest_first(&self, id: &str) -> (stamps: Vec<String>)
        ensures
            is_sorted(views(stamps@).reverse()),
    {
        let listed = self.backend.list(&auto_ns(id));
        newest_first(&listed)
    }

    /// The newest snapshot of world `id` that `decode` accepts: the stamps
    /// listed under `auto_ns(id)`, newest first, each loaded from
    /// `auto_key(id, stamp)`, and the first of those blobs that decodes. Which
    /// stamps are listed and which bytes are loaded is left unsaid: they are
    /// what the backend holds.
    pub fn load_latest_with<T, F: Fn(&[u8]) -> Option<T>>(&self, id: &str, decode: F) -> (found: Option<T>)
        requires
            forall|b: &[u8]| decode.requires((b,)),
        ensures
            exists|stamps: Seq<Seq<char>>, blobs: Seq<Option<Seq<u8>>>|
                #[trigger] newest_decodable(decode, stamps, blobs, found),
    {
        let stamps = self.stamps_newest_first(id);
        let mut blobs: Vec<Option<Vec<u8>>> = Vec::new();
        let mut i: usize = 0;
        while i < stamps.len()
            invariant
                i <= stamps@.len(),
                blobs@.len() == i,
            decreases stamps@.len() - i,
        {
            blobs.push(self.backend.load(&auto_key(id, stamps[i].as_str())));
            i = i + 1;
        }
        let found = first_decodable(&blobs, decode);
        assert(newest_decodable(decode, views(stamps@), blob_views(blobs@), found));
        found
    }
}

/// The bytes of each blob, where there is one.
pub open spec fn blob_views(blobs: Seq<Option<Vec<u8>>>) -> Seq<Option<Seq<u8>>> {
    blobs.map_values(|o: Option<Vec<u8>>| match o {
        Some(v) => Some(v@),
        None => None,
    })
}

/// `decode` returned `out` on a slice holding `bytes`.
pub open spec fn decode_gave<T, F: Fn(&[u8]) -> Option<T>>(decode: F, bytes: Seq<u8>, out: Option<T>) -> bool {
    exists|b: &[u8]| b@ == bytes && #[trigger] decode.ensures((b,), out)
}

/// Every result that `decode` can give on `bytes` is a value.
pub open spec fn always_accepts<T, F: Fn(&[u8]) -> Option<T>>(decode: F, bytes: Seq<u8>) -> bool {
    forall|b: &[u8], r: Option<T>| b@ == bytes && #[trigger] decode.ensures((b,), r) ==> r is Some
}

/// Every result that `decode` can give on `bytes` is `None`.
pub open spec fn always_rejects<T, F: Fn(&[u8]) -> Option<T>>(decode: F, bytes: Seq<u8>) -> bool {
    forall|b: &[u8], r: Option<T>| b@ == bytes && #[trigger] decode.ensures((b,), r) ==> r is None
}

/// A blob that is there and that `decode` always turns into a value.
pub open spec fn sure_accept<T, F: Fn(&[u8]) -> Option<T>>(decode: F, blob: Option<Seq<u8>>) -> bool {
    match blob {
        Some(bytes) => always_accepts(decode, bytes),
        None => false,
    }
}

/// A blob that is missing, or that `decode` always rejects.
pub open spec fn sure_reject<T, F: Fn(&[u8]) -> Option<T>>(decode: F, blob: Option<Seq<u8>>) -> bool {
    match blob {
        Some(bytes) => always_rejects(decode, bytes),
        None => true,
    }
}

/// A blob that was tried and not taken: missing, or `decode` gave `None`.
pub open spec fn declined<T, F: Fn(&[u8]) -> Option<T>>(decode: F, blob: Option<Seq<u8>>) -> bool {
    match blob {
        Some(bytes) => decode_gave(decode, bytes, None::<T>),
        None => true,
    }
}

/// Trying `blobs` in order gives `found`: `None` when every blob was
/// declined; otherwise the value that `decode` gave for some blob `j`, every
/// blob before `j` having been declined.
pub open spec fn spec_first_decodable<T, F: Fn(&[u8]) -> Option<T>>(decode: F, blobs: Seq<Option<Seq<u8>>>, found: Option<T>) -> bool {
    match found {
        None => forall|i: int| 0 <= i < blobs.len() ==> #[trigger] declined(decode, blobs[i]),
        Some(t) => exists|j: int| {
            &&& 0 <= j < blobs.len()
            &&& #[trigger] blobs[j] matches Some(bytes) && decode_gave(decode, bytes, Some(t))
            &&& forall|i: int| 0 <= i < j ==> #[trigger] declined(decode, blobs[i])
        },
    }
}

/// `found` is the first decodable of `blobs`, one blob loaded for each of
/// `stamps`, which run newest first.
pub open spec fn newest_decodable<T, F: Fn(&[u8]) -> Option<T>>(
    decode: F,
    stamps: Seq<Seq<char>>,
    blobs: Seq<Option<Seq<u8>>>,
    found: Option<T>,
) -> bool {
    &&& is_sorted(stamps.reverse())
    &&& blobs.len() == stamps.len()
    &&& spec_first_decodable(decode, blobs, found)
}

/// The first of `blobs` that `decode` turns into a value, trying them in
/// order; `None` when every blob is missing or rejected. Where `decode`
/// always accepts some blob, the result is a value; where it rejects every
/// blob, the result is `None`.
pub fn first_decodable<T, F: Fn(&[u8]) -> Option<T>>(blobs: &Vec<Option<Vec<u8>>>, decode: F) -> (found: Option<T>)
    requires
        forall|b: &[u8]| decode.requires((b,)),
    ensures
        spec_first_decodable(decode, blob_views(blobs@), found),
        (exists|j: int| 0 <= j < blobs@.len() && #[trigger] sure_accept(decode, blob_views(blobs@)[j]))
            ==> found is Some,
        (forall|j: int| 0 <= j < blobs@.len() ==> #[trigger] sure_reject(decode, blob_views(blobs@)[j]))
            ==> found is None,
{
    let ghost views = blob_views(blobs@);
    let mut i: usize = 0;
    while i < blobs.len()
        invariant
            forall|b: &[u8]| decode.requires((b,)),
            i <= blobs@.len(),
            views == blob_views(blobs@),
            forall|k: int| 0 <= k < i ==> #[trigger] declined(decode, views[k]),
        decreases blobs@.len() - i,
    {
        match &blobs[i] {
            Some(bytes) => {
                let slice = bytes.as_slice();
                let decoded = decode(slice);
                assert(views[i as int] == Some(bytes@));
                match decoded {
                    Some(t) => {
                        proof {
                            assert(decode.ensures((slice,), Some(t)));
                            assert(decode_gave(decode, bytes@, Some(t)));
                            assert(spec_first_decodable(decode, views, Some(t)));
                            if forall|j: int| 0 <= j < blobs@.len() ==> #[trigger] sure_reject(decode, views[j]) {
                                assert(sure_reject(decode, views[i as int]));
                            }
                        }
                        return Some(t);
                    },
                    None => {
                        proof {
                            assert(decode.ensures((slice,), None::<T>));
                            assert(declined(decode, views[i as int]));
                        }
                    },
                }
            },
            None => {
                assert(views[i as int] is None);
            },
        }
        i = i + 1;
    }
    proof {
        if exists|j: int| 0 <= j < blobs@.len() && #[trigger] sure_accept(decode, views[j]) {
            let j = choose|j: int| 0 <= j < blobs@.len() && #[trigger] sure_accept(decode, views[j]);
            assert(declined(decode, views[j]));
        }
    }
    None
}

/// The I/O error of the standard library.
#[verifier::external_type_specification]
#[verifier::external_body]
pub struct ExIoError(std::io::Error);

/// The encoding error of `rmp_serde`.
#[verifier::external_type_specification]
#[verifier::external_body]
pub struct ExEncodeError(rmp_serde::encode::Error);

/// The decoding error of `rmp_serde`.
#[verifier::external_type_specification]
#[verifier::external_body]
pub struct ExDecodeError(rmp_serde::decode::Error);

/// Why a snapshot could not be written or read.
#[derive(Debug)]
pub enum Acos7Error {
    Encode(rmp_serde::encode::Error),
    Decode(rmp_serde::decode::Error),
    Io(std::io::Error),
}

/// What `brotli::Decompressor` reads from `stream` with a 4096-byte buffer:
/// the decoded bytes, or `None` where the stream is not valid brotli.
pub uninterp spec fn brotli_decompressed(stream: Seq<u8>) -> Option<Seq<u8>>;

/// Quality level of snapshot compression.
pub const COMPRESS_QUALITY: u32 = 9;

/// Window size (log2) of snapshot compression.
pub const COMPRESS_WINDOW: u32 = 22;

/// Buffer size of the compressor and the decompressor.
pub const COMPRESS_BUF: usize = 4096;

/// `brotli::CompressorWriter` writing `data` into a vector. Its errors come
/// only from the output, and a vector takes every write, so it succeeds;
/// brotli is lossless, so the stream decompresses to `data`. Which stream it
/// is, is left unsaid: the encoder's cost estimates use the platform's float
/// maths, so the bytes may differ between machines.
#[verifier::external_body]
fn brotli_compress(data: &[u8]) -> (res: Result<Vec<u8>, std::io::Error>)
    ensures
        res is Ok,
        res matches Ok(v) ==> brotli_decompressed(v@) == Some(data@),
{
    let mut out = Vec::new();
    {
        let mut w = brotli::CompressorWriter::new(&mut out, COMPRESS_BUF, COMPRESS_QUALITY, COMPRESS_WINDOW);
        w.write_all(data)?;
    }
    Ok(out)
}

/// `brotli::Decompressor` read to the end of `stream`: an error exactly where
/// the stream does not decode.
#[verifier::external_body]
fn brotli_decompress(stream: &[u8]) -> (res: Result<Vec<u8>, std::io::Error>)
    ensures
        res is Ok <==> brotli_decompressed(stream@) is Some,
        res matches Ok(v) ==> brotli_decompressed(stream@) == Some(v@),
{
    let mut out = Vec::new();
    brotli::Decompressor::new(stream, COMPRESS_BUF).read_to_end(&mut out)?;
    Ok(out)
}

/// Compresses a packed snapshot into a brotli stream that decompresses to it.
pub fn compress(packed: &[u8]) -> (res: Result<Vec<u8>, Acos7Error>)
    ensures
        res is Ok,
        res matches Ok(v) ==> brotli_decompressed(v@) == Some(packed@),
{
    match brotli_compress(packed) {
        Ok(v) => Ok(v),
        Err(e) => Err(Acos7Error::Io(e)),
    }
}

/// Decompresses a stored snapshot back to its packed form.
pub fn decompress(stream: &[u8]) -> (res: Result<Vec<u8>, Acos7Error>)
    ensures
        res is Ok <==> brotli_decompressed(stream@) is Some,
        res matches Ok(v) ==> brotli_decompressed(stream@) == Some(v@),
        res matches Err(e) ==> e is Io,
{
    match brotli_decompress(stream) {
        Ok(v) => Ok(v),
        Err(e) => Err(Acos7Error::Io(e)),
    }
}

} // verus!
