//! The specification store.
//!
//! A memoizing store of compressed specification documents keyed by
//! canonical architecture name. The first resolution of a name decompresses
//! its entry and caches the text; later resolutions return the cached text
//! without decompressing again, observable through `decompressions`. A name
//! outside the store's entries is `UnknownArchitecture`; an entry that fails
//! to decompress, whose plain bytes are not valid text, or whose compressed
//! bytes the decoder cannot be trusted to return on (see `xz_decompress`) is
//! `CorruptEmbeddedSpecification` — a packaging defect, never caller error.

use vstd::prelude::*;
use vstd::utf8::decode_utf8;
use vstd::utf8::valid_utf8;
use crate::SleighError;
use std::io::Cursor;

verus! {

/// One store entry: a canonical architecture name and the compressed
/// specification document filed under it.
pub struct SpecEntry {
    pub name: String,
    pub compressed: Vec<u8>,
}

/// What the compressed bytes decompress to: the plain bytes when the input
/// is a well-formed compressed stream, nothing otherwise. The result is a
/// function of the input bytes alone.
pub uninterp spec fn xz_plain_of(data: Seq<u8>) -> Option<Seq<u8>>;

/// Whether the bytes contain a window of four consecutive `0xFF` bytes.
pub open spec fn has_ff_quad(data: Seq<u8>) -> bool {
    exists|i: int|
        #![trigger data[i]]
        0 <= i && i + 4 <= data.len() && data[i] == 0xFFu8 && data[i + 1] == 0xFFu8 && data[i + 2]
            == 0xFFu8 && data[i + 3] == 0xFFu8
}

/// Relies on lzma_rs::xz_decompress: decompressing an in-memory stream
/// yields plain bytes determined by the input alone, or an error for a
/// malformed stream.
///
/// The decoder's footer parsing adds one to a 32-bit size field read
/// straight from the stream; an all-ones field makes that addition overflow,
/// which aborts in builds with overflow checks instead of returning. The
/// field's four bytes are consecutive input bytes, all `0xFF`, so an input
/// without such a window can never reach the overflow: on every admitted
/// input the call returns.
#[verifier::external_body]
fn xz_decompress(data: &Vec<u8>) -> (r: Option<Vec<u8>>)
    requires
        !has_ff_quad(data@),
    ensures
        r is Some <==> xz_plain_of(data@) is Some,
        r matches Some(v) ==> Some(v@) == xz_plain_of(data@),
{
    let mut input = Cursor::new(data.as_slice());
    let mut buf = vec![];
    let mut output = Cursor::new(&mut buf);
    match lzma_rs::xz_decompress(&mut input, &mut output) {
        Ok(()) => Some(buf),
        Err(_) => None,
    }
}

/// Relies on String::from_utf8: returns the string over the given bytes
/// exactly when they are valid UTF-8, and an error otherwise.
#[verifier::external_body]
fn string_from_utf8(bytes: Vec<u8>) -> (r: Option<String>)
    ensures
        r is Some <==> valid_utf8(bytes@),
        r matches Some(s) ==> s@ == decode_utf8(bytes@),
{
    String::from_utf8(bytes).ok()
}

/// The text a compressed entry decodes to: decompression followed by UTF-8
/// decoding, or nothing where either step fails.
pub open spec fn spec_decoded(data: Seq<u8>) -> Option<Seq<char>> {
    match xz_plain_of(data) {
        Option::None => Option::None,
        Option::Some(plain) => if valid_utf8(plain) {
            Option::Some(decode_utf8(plain))
        } else {
            Option::None
        },
    }
}

/// The mathematical state of a store: its entries as (name, compressed
/// bytes) pairs, the cache of decoded texts, and the number of decompression
/// attempts made so far.
pub struct StoreModel {
    pub entries: Seq<(Seq<char>, Seq<u8>)>,
    pub cache: Seq<Option<Seq<char>>>,
    pub decompress_count: nat,
}

/// The index of the first entry under `name`, if any.
pub open spec fn spec_find(entries: Seq<(Seq<char>, Seq<u8>)>, name: Seq<char>) -> Option<int>
    decreases entries.len(),
{
    if entries.len() == 0 {
        Option::None
    } else if entries[0].0 == name {
        Option::Some(0int)
    } else {
        match spec_find(entries.skip(1), name) {
            Option::None => Option::None,
            Option::Some(i) => Option::Some(i + 1),
        }
    }
}

/// A decompression-attempt count one higher, held within the counter's
/// machine range.
pub open spec fn spec_bump(c: nat) -> nat {
    if c < u64::MAX {
        c + 1
    } else {
        c
    }
}

/// A well-formed store: one cache slot per entry, and every filled slot
/// holds exactly the text its entry decodes to.
pub open spec fn store_wf(m: StoreModel) -> bool {
    &&& m.cache.len() == m.entries.len()
    &&& forall|i: int|
        0 <= i < m.cache.len() ==> (#[trigger] m.cache[i] matches Option::Some(t) ==> spec_decoded(
            m.entries[i].1,
        ) == Option::Some(t))
}

/// What one resolution does: the store's next state and the result.
/// An unknown name changes nothing; a cached name answers from the cache
/// and changes nothing. Otherwise the entry is decompressed once and, on
/// success, cached — except that an entry containing a window of four
/// `0xFF` bytes is rejected as corrupt without being handed to the decoder
/// at all (see `xz_decompress`: such a window is what could make the
/// decoder's footer arithmetic overflow instead of returning).
pub open spec fn spec_resolve(m: StoreModel, name: Seq<char>) -> (StoreModel, Result<
    Seq<char>,
    SleighError,
>) {
    match spec_find(m.entries, name) {
        Option::None => (m, Result::Err(SleighError::UnknownArchitecture)),
        Option::Some(i) => match m.cache[i] {
            Option::Some(t) => (m, Result::Ok(t)),
            Option::None => if has_ff_quad(m.entries[i].1) {
                (m, Result::Err(SleighError::CorruptEmbeddedSpecification))
            } else {
                match spec_decoded(m.entries[i].1) {
                    Option::Some(t) => (
                        StoreModel {
                            entries: m.entries,
                            cache: m.cache.update(i, Option::Some(t)),
                            decompress_count: spec_bump(m.decompress_count),
                        },
                        Result::Ok(t),
                    ),
                    Option::None => (
                        StoreModel {
                            entries: m.entries,
                            cache: m.cache,
                            decompress_count: spec_bump(m.decompress_count),
                        },
                        Result::Err(SleighError::CorruptEmbeddedSpecification),
                    ),
                }
            },
        },
    }
}


/// The canonical names of the fixed specification catalog, in its order.
pub open spec fn spec_catalog_names() -> Seq<Seq<char>> {
    seq![
        "6502"@,
        "68020"@,
        "68030"@,
        "68040"@,
        "6805"@,
        "6809"@,
        "80251"@,
        "80390"@,
        "8048"@,
        "8051"@,
        "8085"@,
        "AARCH64BE"@,
        "AARCH64"@,
        "ARM4_be"@,
        "ARM4_le"@,
        "ARM4t_be"@,
        "ARM4t_le"@,
        "ARM5_be"@,
        "ARM5_le"@,
        "ARM5t_be"@,
        "ARM5t_le"@,
        "ARM6_be"@,
        "ARM6_le"@,
        "ARM7_be"@,
        "ARM7_le"@,
        "ARM8_be"@,
        "ARM8_le"@,
        "avr32a"@,
        "avr8eind"@,
        "avr8e"@,
        "avr8"@,
        "avr8xmega"@,
        "coldfire"@,
        "CP1600"@,
        "CR16B"@,
        "CR16C"@,
        "Dalvik"@,
        "data-be-64"@,
        "data-le-64"@,
        "dsPIC30F"@,
        "dsPIC33C"@,
        "dsPIC33E"@,
        "dsPIC33F"@,
        "HC05"@,
        "HC08"@,
        "HCS08"@,
        "HCS12"@,
        "JVM"@,
        "m8c"@,
        "MCS96"@,
        "mips32be"@,
        "mips32le"@,
        "mips32R6be"@,
        "mips32R6le"@,
        "mips64be"@,
        "mips64le"@,
        "mx51"@,
        "pa-risc32be"@,
        "pic12c5xx"@,
        "pic16c5x"@,
        "pic16f"@,
        "pic16"@,
        "pic17c7xx"@,
        "pic18"@,
        "PIC24E"@,
        "PIC24F"@,
        "PIC24H"@,
        "ppc_32_4xx_be"@,
        "ppc_32_4xx_le"@,
        "ppc_32_be"@,
        "ppc_32_le"@,
        "ppc_32_quicciii_be"@,
        "ppc_32_quicciii_le"@,
        "ppc_64_be"@,
        "ppc_64_isa_altivec_be"@,
        "ppc_64_isa_altivec_le"@,
        "ppc_64_isa_altivec_vle_be"@,
        "ppc_64_isa_be"@,
        "ppc_64_isa_le"@,
        "ppc_64_isa_vle_be"@,
        "ppc_64_le"@,
        "riscv.ilp32d"@,
        "riscv.lp64d"@,
        "sh-1"@,
        "sh-2a"@,
        "sh-2"@,
        "SparcV9_32"@,
        "SparcV9_64"@,
        "SuperH4_be"@,
        "SuperH4_le"@,
        "TI_MSP430"@,
        "TI_MSP430X"@,
        "toy64_be_harvard"@,
        "toy64_be"@,
        "toy64_le"@,
        "toy_be_posStack"@,
        "toy_be"@,
        "toy_builder_be_align2"@,
        "toy_builder_be"@,
        "toy_builder_le_align2"@,
        "toy_builder_le"@,
        "toy_le"@,
        "toy_wsz_be"@,
        "toy_wsz_le"@,
        "tricore"@,
        "V850"@,
        "x86-64"@,
        "x86"@,
        "z180"@,
        "z80"@,
    ]
}

/// The canonical name at a catalog position: the name at index `i` of the
/// fixed catalog, or nothing past its end.
pub fn catalog_name(i: usize) -> (r: Option<&'static str>)
    ensures
        r is Some <==> i < spec_catalog_names().len(),
        r matches Some(s) ==> s@ == spec_catalog_names()[i as int],
{
    match i {
        0 => Some("6502"),
        1 => Some("68020"),
        2 => Some("68030"),
        3 => Some("68040"),
        4 => Some("6805"),
        5 => Some("6809"),
        6 => Some("80251"),
        7 => Some("80390"),
        8 => Some("8048"),
        9 => Some("8051"),
        10 => Some("8085"),
        11 => Some("AARCH64BE"),
        12 => Some("AARCH64"),
        13 => Some("ARM4_be"),
        14 => Some("ARM4_le"),
        15 => Some("ARM4t_be"),
        16 => Some("ARM4t_le"),
        17 => Some("ARM5_be"),
        18 => Some("ARM5_le"),
        19 => Some("ARM5t_be"),
        20 => Some("ARM5t_le"),
        21 => Some("ARM6_be"),
        22 => Some("ARM6_le"),
        23 => Some("ARM7_be"),
        24 => Some("ARM7_le"),
        25 => Some("ARM8_be"),
        26 => Some("ARM8_le"),
        27 => Some("avr32a"),
        28 => Some("avr8eind"),
        29 => Some("avr8e"),
        30 => Some("avr8"),
        31 => Some("avr8xmega"),
        32 => Some("coldfire"),
        33 => Some("CP1600"),
        34 => Some("CR16B"),
        35 => Some("CR16C"),
        36 => Some("Dalvik"),
        37 => Some("data-be-64"),
        38 => Some("data-le-64"),
        39 => Some("dsPIC30F"),
        40 => Some("dsPIC33C"),
        41 => Some("dsPIC33E"),
        42 => Some("dsPIC33F"),
        43 => Some("HC05"),
        44 => Some("HC08"),
        45 => Some("HCS08"),
        46 => Some("HCS12"),
        47 => Some("JVM"),
        48 => Some("m8c"),
        49 => Some("MCS96"),
        50 => Some("mips32be"),
        51 => Some("mips32le"),
        52 => Some("mips32R6be"),
        53 => Some("mips32R6le"),
        54 => Some("mips64be"),
        55 => Some("mips64le"),
        56 => Some("mx51"),
        57 => Some("pa-risc32be"),
        58 => Some("pic12c5xx"),
        59 => Some("pic16c5x"),
        60 => Some("pic16f"),
        61 => Some("pic16"),
        62 => Some("pic17c7xx"),
        63 => Some("pic18"),
        64 => Some("PIC24E"),
        65 => Some("PIC24F"),
        66 => Some("PIC24H"),
        67 => Some("ppc_32_4xx_be"),
        68 => Some("ppc_32_4xx_le"),
        69 => Some("ppc_32_be"),
        70 => Some("ppc_32_le"),
        71 => Some("ppc_32_quicciii_be"),
        72 => Some("ppc_32_quicciii_le"),
        73 => Some("ppc_64_be"),
        74 => Some("ppc_64_isa_altivec_be"),
        75 => Some("ppc_64_isa_altivec_le"),
        76 => Some("ppc_64_isa_altivec_vle_be"),
        77 => Some("ppc_64_isa_be"),
        78 => Some("ppc_64_isa_le"),
        79 => Some("ppc_64_isa_vle_be"),
        80 => Some("ppc_64_le"),
        81 => Some("riscv.ilp32d"),
        82 => Some("riscv.lp64d"),
        83 => Some("sh-1"),
        84 => Some("sh-2a"),
        85 => Some("sh-2"),
        86 => Some("SparcV9_32"),
        87 => Some("SparcV9_64"),
        88 => Some("SuperH4_be"),
        89 => Some("SuperH4_le"),
        90 => Some("TI_MSP430"),
        91 => Some("TI_MSP430X"),
        92 => Some("toy64_be_harvard"),
        93 => Some("toy64_be"),
        94 => Some("toy64_le"),
        95 => Some("toy_be_posStack"),
        96 => Some("toy_be"),
        97 => Some("toy_builder_be_align2"),
        98 => Some("toy_builder_be"),
        99 => Some("toy_builder_le_align2"),
        100 => Some("toy_builder_le"),
        101 => Some("toy_le"),
        102 => Some("toy_wsz_be"),
        103 => Some("toy_wsz_le"),
        104 => Some("tricore"),
        105 => Some("V850"),
        106 => Some("x86-64"),
        107 => Some("x86"),
        108 => Some("z180"),
        109 => Some("z80"),
        _ => None,
    }
}

/// The fixed catalog's canonical architecture names, in catalog order: the
/// names a store over the embedded catalog answers to.
pub fn catalog_names() -> (r: Vec<String>)
    ensures
        r.deep_view() == spec_catalog_names(),
{
    let n: usize = 110;
    proof {
        assert(spec_catalog_names().len() == 110);
    }
    let mut v: Vec<String> = Vec::new();
    let mut i: usize = 0;
    while i < n
        invariant
            n == 110,
            spec_catalog_names().len() == 110,
            i <= n,
            v@.len() == i,
            forall|j: int| 0 <= j < i ==> v.deep_view()[j] == spec_catalog_names()[j],
        decreases n - i,
    {
        let s = catalog_name(i).unwrap();
        v.push(s.to_owned());
        i = i + 1;
    }
    proof {
        assert(v.deep_view() =~= spec_catalog_names());
    }
    v
}

/// A memoizing store of compressed specification documents.
///
/// The store is a plain caller-owned value: exclusive borrowing makes every
/// use thread-safe, and callers that construct sessions from several threads
/// share one store behind a lock of their own, holding it for the process
/// lifetime if they wish — the store itself carries no global state. The
/// compressed documents are a packaging asset, opaque here; they enter the
/// store at construction, paired with the catalog's canonical names.
pub struct SpecStore {
    entries: Vec<SpecEntry>,
    cache: Vec<Option<String>>,
    decompress_count: u64,
}

/// The (name, compressed bytes) pairs a vector of entries stands for.
pub open spec fn entries_model(entries: Seq<SpecEntry>) -> Seq<(Seq<char>, Seq<u8>)> {
    Seq::new(entries.len(), |i: int| (entries[i].name@, entries[i].compressed@))
}

impl View for SpecStore {
    type V = StoreModel;

    closed spec fn view(&self) -> StoreModel {
        StoreModel {
            entries: entries_model(self.entries@),
            cache: Seq::new(
                self.cache@.len(),
                |i: int|
                    match self.cache@[i] {
                        Option::None => Option::None,
                        Option::Some(s) => Option::Some(s@),
                    },
            ),
            decompress_count: self.decompress_count as nat,
        }
    }
}

/// Whether the bytes hold four consecutive `0xFF` bytes anywhere.
fn contains_ff_quad(data: &Vec<u8>) -> (r: bool)
    ensures
        r == has_ff_quad(data@),
{
    let n = data.len();
    if n < 4 {
        return false;
    }
    let mut i: usize = 0;
    while i <= n - 4
        invariant
            4 <= n,
            n == data@.len(),
            i <= n - 3,
            forall|j: int|
                #![trigger data@[j]]
                0 <= j < i ==> !(data@[j] == 0xFFu8 && data@[j + 1] == 0xFFu8 && data@[j + 2]
                    == 0xFFu8 && data@[j + 3] == 0xFFu8),
        decreases n - i,
    {
        if data[i] == 0xFF && data[i + 1] == 0xFF && data[i + 2] == 0xFF && data[i + 3] == 0xFF {
            return true;
        }
        i = i + 1;
    }
    false
}

proof fn lemma_find_at(entries: Seq<(Seq<char>, Seq<u8>)>, name: Seq<char>, i: int)
    requires
        0 <= i < entries.len(),
        entries[i].0 == name,
        forall|j: int| 0 <= j < i ==> #[trigger] entries[j].0 != name,
    ensures
        spec_find(entries, name) == Option::Some(i),
    decreases entries.len(),
{
    if i == 0 {
    } else {
        assert(entries[0].0 != name);
        let rest = entries.skip(1);
        assert(rest[i - 1] == entries[i]);
        assert(forall|j: int| 0 <= j < i - 1 ==> #[trigger] rest[j].0 != name);
        lemma_find_at(rest, name, i - 1);
    }
}

proof fn lemma_find_props(entries: Seq<(Seq<char>, Seq<u8>)>, name: Seq<char>)
    ensures
        spec_find(entries, name) matches Option::Some(i) ==> 0 <= i < entries.len()
            && entries[i].0 == name,
    decreases entries.len(),
{
    if entries.len() > 0 && entries[0].0 != name {
        lemma_find_props(entries.skip(1), name);
    }
}

proof fn lemma_find_none(entries: Seq<(Seq<char>, Seq<u8>)>, name: Seq<char>)
    requires
        forall|j: int| 0 <= j < entries.len() ==> #[trigger] entries[j].0 != name,
    ensures
        spec_find(entries, name) is None,
    decreases entries.len(),
{
    if entries.len() > 0 {
        let rest = entries.skip(1);
        assert(forall|j: int| 0 <= j < rest.len() ==> #[trigger] rest[j].0 != name);
        lemma_find_none(rest, name);
    }
}

impl SpecStore {
    /// A well-formed store, the condition every operation keeps.
    pub open spec fn wf(&self) -> bool {
        store_wf(self@)
    }

    /// A fresh store over the given entries: empty cache, no decompression
    /// attempted yet.
    pub fn new(entries: Vec<SpecEntry>) -> (r: SpecStore)
        ensures
            r.wf(),
            r@.entries == entries_model(entries@),
            r@.cache =~= Seq::new(entries@.len() as nat, |i: int| Option::<Seq<char>>::None),
            r@.decompress_count == 0,
    {
        let n = entries.len();
        let mut cache: Vec<Option<String>> = Vec::new();
        let mut i: usize = 0;
        while i < n
            invariant
                i <= n,
                cache@.len() == i,
                forall|j: int| 0 <= j < i ==> cache@[j] is None,
            decreases n - i,
        {
            cache.push(None);
            i = i + 1;
        }
        SpecStore { entries, cache, decompress_count: 0 }
    }

    /// How many decompression attempts the store has made: the memoization
    /// side channel.
    pub fn decompressions(&self) -> (r: u64)
        ensures
            r as nat == self@.decompress_count,
    {
        self.decompress_count
    }

    /// Resolve an architecture name to its decompressed specification text.
    /// The store changes exactly as `spec_resolve` says: a cached or unknown
    /// name leaves it untouched; a first resolution decompresses once and,
    /// on success, fills the name's cache slot.
    pub fn resolve(&mut self, name: &str) -> (r: Result<String, SleighError>)
        requires
            old(self).wf(),
        ensures
            final(self).wf(),
            final(self)@ == spec_resolve(old(self)@, name@).0,
            (match (r, spec_resolve(old(self)@, name@).1) {
                (Result::Ok(s), Result::Ok(t)) => s@ == t,
                (Result::Err(e1), Result::Err(e2)) => e1 == e2,
                _ => false,
            }),
    {
        let key: String = name.to_owned();
        let n = self.entries.len();
        let mut i: usize = 0;
        while i < n
            invariant
                old(self) == self,
                self.wf(),
                key@ == name@,
                n == self.entries@.len(),
                i <= n,
                forall|j: int| 0 <= j < i ==> #[trigger] self.entries@[j].name@ != name@,
            decreases n - i,
        {
            if self.entries[i].name == key {
                proof {
                    lemma_find_at(self@.entries, name@, i as int);
                }
                return self.resolve_found(i);
            }
            i = i + 1;
        }
        proof {
            lemma_find_none(self@.entries, name@);
        }
        Err(SleighError::UnknownArchitecture)
    }

    /// Answer a resolution whose entry is known to sit at index `i`.
    ///
    /// An entry with a four-`0xFF` window is rejected before any
    /// decompression: the decoder is never handed bytes on which its footer
    /// arithmetic could overflow.
    fn resolve_found(&mut self, i: usize) -> (r: Result<String, SleighError>)
        requires
            old(self).wf(),
            i < old(self)@.entries.len(),
            spec_find(old(self)@.entries, old(self)@.entries[i as int].0) == Option::Some(i as int),
        ensures
            final(self).wf(),
            final(self)@ == spec_resolve(old(self)@, old(self)@.entries[i as int].0).0,
            (match (r, spec_resolve(old(self)@, old(self)@.entries[i as int].0).1) {
                (Result::Ok(s), Result::Ok(t)) => s@ == t,
                (Result::Err(e1), Result::Err(e2)) => e1 == e2,
                _ => false,
            }),
    {
        let ghost m = self@;
        let ghost nm = self@.entries[i as int].0;
        if let Some(text) = &self.cache[i] {
            let out = text.clone();
            assert(self@ == m);
            return Ok(out);
        }
        if contains_ff_quad(&self.entries[i].compressed) {
            assert(self@ == m);
            return Err(SleighError::CorruptEmbeddedSpecification);
        }
        if self.decompress_count < u64::MAX {
            self.decompress_count = self.decompress_count + 1;
        }
        assert(self@.decompress_count == spec_bump(m.decompress_count));
        assert(self@.entries == m.entries);
        assert(self@.cache =~= m.cache);
        let plain = match xz_decompress(&self.entries[i].compressed) {
            Some(p) => p,
            None => {
                assert(spec_decoded(m.entries[i as int].1) is None);
                return Err(SleighError::CorruptEmbeddedSpecification);
            },
        };
        let text = match string_from_utf8(plain) {
            Some(t) => t,
            None => {
                assert(spec_decoded(m.entries[i as int].1) is None);
                return Err(SleighError::CorruptEmbeddedSpecification);
            },
        };
        assert(spec_decoded(m.entries[i as int].1) == Option::Some(text@));
        let out = text.clone();
        self.cache.set(i, Some(text));
        proof {
            assert(self@.cache =~= m.cache.update(i as int, Option::Some(out@)));
            assert(self@.entries == m.entries);
        }
        Ok(out)
    }
}

/// Resolution is memoized: whenever a resolution succeeds, resolving the
/// same name again returns the very same text and leaves the store — its
/// cache and its decompression count — exactly as it was, so the second
/// call decompresses nothing.
pub proof fn lemma_resolve_memoized(m: StoreModel, name: Seq<char>)
    requires
        store_wf(m),
    ensures
        store_wf(spec_resolve(m, name).0),
        spec_resolve(m, name).1 is Ok ==> {
            let m1 = spec_resolve(m, name).0;
            &&& spec_resolve(m1, name).1 == spec_resolve(m, name).1
            &&& spec_resolve(m1, name).0 == m1
            &&& m1.decompress_count == spec_resolve(m1, name).0.decompress_count
        },
{
    lemma_find_props(m.entries, name);
    match spec_find(m.entries, name) {
        Option::None => {},
        Option::Some(i) => {
            match m.cache[i] {
                Option::Some(t) => {},
                Option::None if has_ff_quad(m.entries[i].1) => {},
                Option::None => {
                    match spec_decoded(m.entries[i].1) {
                        Option::Some(t) => {
                            let m1 = spec_resolve(m, name).0;
                            assert(m1.entries == m.entries);
                            assert(m1.cache[i] == Option::Some(t));
                            assert forall|j: int|
                                0 <= j < m1.cache.len() implies (#[trigger] m1.cache[j] matches
                            Option::Some(t2) ==> spec_decoded(m1.entries[j].1) == Option::Some(
                                t2,
                            )) by {
                                if j != i {
                                    assert(m1.cache[j] == m.cache[j]);
                                }
                            }
                        },
                        Option::None => {},
                    }
                },
            }
        },
    }
}

} // verus!
