//! WebAssembly feature extensions: which ones a module needs, and whether
//! the foreign engine supports them.
//!
//! A module that the foreign engine rejects is re-checked locally: for each
//! optional feature extension, the binary is validated with every feature
//! *but* that one enabled.  If validation fails, the module needs the
//! feature.  Comparing the needed set against the engine's supported set
//! turns an opaque foreign rejection into a precise report of the missing
//! extensions.

use vstd::prelude::*;

verus! {

/// An optional WebAssembly feature extension a module may require and an
/// engine may or may not support.
#[derive(Clone, Copy, Debug, PartialEq, Eq, Structural)]
pub enum WasmFeatureExtension {
    BulkMemory,
    Exceptions,
    ExtendedConst,
    FunctionReferences,
    GC,
    Memory64,
    MultiMemory,
    MultiValue,
    MutableGlobal,
    ReferenceTypes,
    RelaxedSimd,
    SaturatingFloatToInt,
    SignExtension,
    Simd,
    TailCall,
    Threads,
}

/// The position of a feature in the canonical ordering; each feature owns
/// one bit of a [`FeatureSet`].
pub open spec fn spec_feature_index(f: WasmFeatureExtension) -> u64 {
    match f {
        WasmFeatureExtension::BulkMemory => 0,
        WasmFeatureExtension::Exceptions => 1,
        WasmFeatureExtension::ExtendedConst => 2,
        WasmFeatureExtension::FunctionReferences => 3,
        WasmFeatureExtension::GC => 4,
        WasmFeatureExtension::Memory64 => 5,
        WasmFeatureExtension::MultiMemory => 6,
        WasmFeatureExtension::MultiValue => 7,
        WasmFeatureExtension::MutableGlobal => 8,
        WasmFeatureExtension::ReferenceTypes => 9,
        WasmFeatureExtension::RelaxedSimd => 10,
        WasmFeatureExtension::SaturatingFloatToInt => 11,
        WasmFeatureExtension::SignExtension => 12,
        WasmFeatureExtension::Simd => 13,
        WasmFeatureExtension::TailCall => 14,
        WasmFeatureExtension::Threads => 15,
    }
}

/// All sixteen feature extensions, ordered by their canonical index.
pub open spec fn all_features_seq() -> Seq<WasmFeatureExtension> {
    seq![
        WasmFeatureExtension::BulkMemory,
        WasmFeatureExtension::Exceptions,
        WasmFeatureExtension::ExtendedConst,
        WasmFeatureExtension::FunctionReferences,
        WasmFeatureExtension::GC,
        WasmFeatureExtension::Memory64,
        WasmFeatureExtension::MultiMemory,
        WasmFeatureExtension::MultiValue,
        WasmFeatureExtension::MutableGlobal,
        WasmFeatureExtension::ReferenceTypes,
        WasmFeatureExtension::RelaxedSimd,
        WasmFeatureExtension::SaturatingFloatToInt,
        WasmFeatureExtension::SignExtension,
        WasmFeatureExtension::Simd,
        WasmFeatureExtension::TailCall,
        WasmFeatureExtension::Threads,
    ]
}

/// The canonical ordering lists each feature at its own index.
pub proof fn lemma_all_features_indexing(f: WasmFeatureExtension)
    ensures
        0 <= spec_feature_index(f) < 16,
        all_features_seq()[spec_feature_index(f) as int] == f,
{
}

impl WasmFeatureExtension {
    /// The position of this feature in the canonical ordering.
    pub fn index(&self) -> (r: u64)
        ensures
            r == spec_feature_index(*self),
            r < 16,
    {
        match self {
            WasmFeatureExtension::BulkMemory => 0,
            WasmFeatureExtension::Exceptions => 1,
            WasmFeatureExtension::ExtendedConst => 2,
            WasmFeatureExtension::FunctionReferences => 3,
            WasmFeatureExtension::GC => 4,
            WasmFeatureExtension::Memory64 => 5,
            WasmFeatureExtension::MultiMemory => 6,
            WasmFeatureExtension::MultiValue => 7,
            WasmFeatureExtension::MutableGlobal => 8,
            WasmFeatureExtension::ReferenceTypes => 9,
            WasmFeatureExtension::RelaxedSimd => 10,
            WasmFeatureExtension::SaturatingFloatToInt => 11,
            WasmFeatureExtension::SignExtension => 12,
            WasmFeatureExtension::Simd => 13,
            WasmFeatureExtension::TailCall => 14,
            WasmFeatureExtension::Threads => 15,
        }
    }

    /// All sixteen feature extensions, in canonical order.
    pub fn all() -> (r: Vec<WasmFeatureExtension>)
        ensures
            r@ == all_features_seq(),
    {
        let mut v: Vec<WasmFeatureExtension> = Vec::new();
        v.push(WasmFeatureExtension::BulkMemory);
        v.push(WasmFeatureExtension::Exceptions);
        v.push(WasmFeatureExtension::ExtendedConst);
        v.push(WasmFeatureExtension::FunctionReferences);
        v.push(WasmFeatureExtension::GC);
        v.push(WasmFeatureExtension::Memory64);
        v.push(WasmFeatureExtension::MultiMemory);
        v.push(WasmFeatureExtension::MultiValue);
        v.push(WasmFeatureExtension::MutableGlobal);
        v.push(WasmFeatureExtension::ReferenceTypes);
        v.push(WasmFeatureExtension::RelaxedSimd);
        v.push(WasmFeatureExtension::SaturatingFloatToInt);
        v.push(WasmFeatureExtension::SignExtension);
        v.push(WasmFeatureExtension::Simd);
        v.push(WasmFeatureExtension::TailCall);
        v.push(WasmFeatureExtension::Threads);
        proof {
            assert(v@ =~= all_features_seq());
        }
        v
    }

    /// Whether the engine's support for this feature must be probed by
    /// constructing a module rather than by validating one.
    ///
    /// Validation alone cannot tell a multi-memory-capable engine apart
    /// from one that merely parses a second memory declaration.
    pub fn probe_by_instantiation(&self) -> (r: bool)
        ensures
            r == (*self == WasmFeatureExtension::MultiMemory),
    {
        matches!(self, WasmFeatureExtension::MultiMemory)
    }
}

/// A set of feature extensions, one bit per feature.
#[derive(Clone, Copy, Debug, PartialEq, Eq, Structural)]
pub struct FeatureSet {
    bits: u64,
}

impl FeatureSet {
    /// The raw bit mask of the set.
    pub closed spec fn spec_bits(self) -> u64 {
        self.bits
    }

    /// The set uses only the sixteen feature bits.
    pub open spec fn wf(self) -> bool {
        self.spec_bits() < 0x10000
    }

    /// Whether the set holds the given feature.
    pub open spec fn spec_contains(self, f: WasmFeatureExtension) -> bool {
        self.spec_bits() & (1u64 << spec_feature_index(f)) != 0
    }

    /// The empty set.
    pub fn empty() -> (r: FeatureSet)
        ensures
            r.wf(),
            forall|f: WasmFeatureExtension| !r.spec_contains(f),
    {
        let r = FeatureSet { bits: 0 };
        proof {
            assert forall|f: WasmFeatureExtension| !r.spec_contains(f) by {
                let i = spec_feature_index(f);
                assert(0u64 & (1u64 << i) == 0) by (bit_vector);
            }
        }
        r
    }

    /// Adds a feature to the set.
    pub fn insert(&mut self, f: WasmFeatureExtension)
        requires
            old(self).wf(),
        ensures
            final(self).wf(),
            forall|g: WasmFeatureExtension|
                final(self).spec_contains(g) == (old(self).spec_contains(g) || g == f),
    {
        let ghost oldbits = self.bits;
        let idx = f.index();
        self.bits = self.bits | (1u64 << idx);
        proof {
            let i = spec_feature_index(f);
            assert(oldbits < 0x10000 && i < 16 ==> (oldbits | (1u64 << i)) < 0x10000)
                by (bit_vector);
            assert forall|g: WasmFeatureExtension|
                self.spec_contains(g) == ((oldbits & (1u64 << spec_feature_index(g)) != 0) || g
                    == f) by {
                let j = spec_feature_index(g);
                assert(i < 16);
                assert(j < 16);
                if g == f {
                    assert(i < 16 ==> ((oldbits | (1u64 << i)) & (1u64 << i) != 0))
                        by (bit_vector);
                } else {
                    assert(spec_feature_index(g) != spec_feature_index(f));
                    assert(i < 16 && j < 16 && i != j ==> ((oldbits | (1u64 << i)) & (1u64 << j)
                        != 0) == (oldbits & (1u64 << j) != 0)) by (bit_vector);
                }
            }
        }
    }

    /// Whether the set holds the given feature.
    pub fn contains(&self, f: WasmFeatureExtension) -> (r: bool)
        ensures
            r == self.spec_contains(f),
    {
        let idx = f.index();
        self.bits & (1u64 << idx) != 0
    }

    /// The features of this set that the other set lacks, at the
    /// specification level.
    pub closed spec fn spec_missing_from(self, other: FeatureSet) -> FeatureSet {
        FeatureSet { bits: self.bits & !other.bits }
    }

    /// The features of this set that the other set lacks.
    pub fn missing_from(&self, other: &FeatureSet) -> (r: FeatureSet)
        requires
            self.wf(),
        ensures
            r == self.spec_missing_from(*other),
            r.wf(),
            forall|f: WasmFeatureExtension|
                r.spec_contains(f) == (self.spec_contains(f) && !other.spec_contains(f)),
    {
        let r = FeatureSet { bits: self.bits & !other.bits };
        proof {
            let a = self.bits;
            let b = other.bits;
            assert(a < 0x10000 ==> (a & !b) < 0x10000) by (bit_vector);
            assert forall|f: WasmFeatureExtension|
                r.spec_contains(f) == (self.spec_contains(f) && !other.spec_contains(f)) by {
                let i = spec_feature_index(f);
                assert(((a & !b) & (1u64 << i) != 0) == ((a & (1u64 << i) != 0) && !(b & (1u64
                    << i) != 0))) by (bit_vector);
            }
        }
        r
    }

    /// Whether the set holds no feature at all.
    pub fn is_empty(&self) -> (r: bool)
        requires
            self.wf(),
        ensures
            r == (forall|f: WasmFeatureExtension| !self.spec_contains(f)),
    {
        let r = self.bits == 0;
        proof {
            lemma_no_members_iff_zero(*self);
        }
        r
    }
}

/// A well-formed set is zero exactly when no feature is a member.
proof fn lemma_no_members_iff_zero(s: FeatureSet)
    requires
        s.wf(),
    ensures
        (s.spec_bits() == 0) == (forall|f: WasmFeatureExtension| !s.spec_contains(f)),
{
    let b = s.spec_bits();
    if b == 0 {
        assert forall|f: WasmFeatureExtension| !s.spec_contains(f) by {
            let i = spec_feature_index(f);
            assert(0u64 & (1u64 << i) == 0) by (bit_vector);
        }
    } else {
        assert(b < 0x10000 && b != 0 ==> (b & (1u64 << 0) != 0 || b & (1u64 << 1) != 0 || b & (
        1u64 << 2) != 0 || b & (1u64 << 3) != 0 || b & (1u64 << 4) != 0 || b & (1u64 << 5) != 0
            || b & (1u64 << 6) != 0 || b & (1u64 << 7) != 0 || b & (1u64 << 8) != 0 || b & (1u64
            << 9) != 0 || b & (1u64 << 10) != 0 || b & (1u64 << 11) != 0 || b & (1u64 << 12) != 0
            || b & (1u64 << 13) != 0 || b & (1u64 << 14) != 0 || b & (1u64 << 15) != 0))
            by (bit_vector);
        let all = all_features_seq();
        if b & (1u64 << 0) != 0 {
            assert(s.spec_contains(all[0]));
        } else if b & (1u64 << 1) != 0 {
            assert(s.spec_contains(all[1]));
        } else if b & (1u64 << 2) != 0 {
            assert(s.spec_contains(all[2]));
        } else if b & (1u64 << 3) != 0 {
            assert(s.spec_contains(all[3]));
        } else if b & (1u64 << 4) != 0 {
            assert(s.spec_contains(all[4]));
        } else if b & (1u64 << 5) != 0 {
            assert(s.spec_contains(all[5]));
        } else if b & (1u64 << 6) != 0 {
            assert(s.spec_contains(all[6]));
        } else if b & (1u64 << 7) != 0 {
            assert(s.spec_contains(all[7]));
        } else if b & (1u64 << 8) != 0 {
            assert(s.spec_contains(all[8]));
        } else if b & (1u64 << 9) != 0 {
            assert(s.spec_contains(all[9]));
        } else if b & (1u64 << 10) != 0 {
            assert(s.spec_contains(all[10]));
        } else if b & (1u64 << 11) != 0 {
            assert(s.spec_contains(all[11]));
        } else if b & (1u64 << 12) != 0 {
            assert(s.spec_contains(all[12]));
        } else if b & (1u64 << 13) != 0 {
            assert(s.spec_contains(all[13]));
        } else if b & (1u64 << 14) != 0 {
            assert(s.spec_contains(all[14]));
        } else {
            assert(s.spec_contains(all[15]));
        }
    }
}

/// The validator's own bit mask for a feature extension.
///
/// These values mirror the flag constants of the validation library this
/// crate delegates to; they are only ever interpreted by that library.
pub closed spec fn spec_validator_bits(f: WasmFeatureExtension) -> u64 {
    match f {
        WasmFeatureExtension::BulkMemory => (1u64 << 5) | (1u64 << 35),
        WasmFeatureExtension::Exceptions => 1u64 << 13,
        WasmFeatureExtension::ExtendedConst => 1u64 << 15,
        WasmFeatureExtension::FunctionReferences => 1u64 << 17,
        WasmFeatureExtension::GC => 1u64 << 19,
        WasmFeatureExtension::Memory64 => 1u64 << 14,
        WasmFeatureExtension::MultiMemory => 1u64 << 12,
        WasmFeatureExtension::MultiValue => 1u64 << 4,
        WasmFeatureExtension::MutableGlobal => 1u64 << 0,
        WasmFeatureExtension::ReferenceTypes => (1u64 << 3) | (1u64 << 34),
        WasmFeatureExtension::RelaxedSimd => 1u64 << 7,
        WasmFeatureExtension::SaturatingFloatToInt => 1u64 << 1,
        WasmFeatureExtension::SignExtension => 1u64 << 2,
        WasmFeatureExtension::Simd => 1u64 << 6,
        WasmFeatureExtension::TailCall => 1u64 << 10,
        WasmFeatureExtension::Threads => 1u64 << 8,
    }
}

impl WasmFeatureExtension {
    /// The validator's own bit mask for this feature extension.
    pub fn validator_bits(&self) -> (r: u64)
        ensures
            r == spec_validator_bits(*self),
    {
        match self {
            WasmFeatureExtension::BulkMemory => (1u64 << 5) | (1u64 << 35),
            WasmFeatureExtension::Exceptions => 1u64 << 13,
            WasmFeatureExtension::ExtendedConst => 1u64 << 15,
            WasmFeatureExtension::FunctionReferences => 1u64 << 17,
            WasmFeatureExtension::GC => 1u64 << 19,
            WasmFeatureExtension::Memory64 => 1u64 << 14,
            WasmFeatureExtension::MultiMemory => 1u64 << 12,
            WasmFeatureExtension::MultiValue => 1u64 << 4,
            WasmFeatureExtension::MutableGlobal => 1u64 << 0,
            WasmFeatureExtension::ReferenceTypes => (1u64 << 3) | (1u64 << 34),
            WasmFeatureExtension::RelaxedSimd => 1u64 << 7,
            WasmFeatureExtension::SaturatingFloatToInt => 1u64 << 1,
            WasmFeatureExtension::SignExtension => 1u64 << 2,
            WasmFeatureExtension::Simd => 1u64 << 6,
            WasmFeatureExtension::TailCall => 1u64 << 10,
            WasmFeatureExtension::Threads => 1u64 << 8,
        }
    }
}

/// What validation of the given bytes yields when every feature except the
/// excluded mask is enabled.  The outcome is a function of the bytes and
/// the mask alone.
pub uninterp spec fn spec_wasm_validates_without(excluded: u64, bytes: Seq<u8>) -> bool;

/// Relies on `wasmparser::Validator::validate_all`: it accepts the bytes
/// exactly when they form a well-formed module that stays within the
/// enabled feature set; the verdict depends on the bytes and the feature
/// set alone.  The excluded mask is interpreted by
/// `wasmparser::WasmFeatures::from_bits_retain` and complemented, so the
/// validator runs with every feature but the excluded one.
#[verifier::external_body]
fn wasm_validates_without(excluded: u64, bytes: &[u8]) -> (r: bool)
    ensures
        r == spec_wasm_validates_without(excluded, bytes@),
{
    let features = !wasmparser::WasmFeatures::from_bits_retain(excluded);
    wasmparser::Validator::new_with_features(features).validate_all(bytes).is_ok()
}

/// Whether the module encoded by `bytes` needs the feature: validation
/// without it fails.
pub open spec fn spec_requires_feature(bytes: Seq<u8>, f: WasmFeatureExtension) -> bool {
    !spec_wasm_validates_without(spec_validator_bits(f), bytes)
}

impl WasmFeatureExtension {
    /// The set of feature extensions the module encoded by `bytes` requires:
    /// exactly those without which the binary no longer validates.
    ///
    /// A binary that is malformed independently of any feature fails every
    /// probe and therefore reports all features as required.
    pub fn required(bytes: &[u8]) -> (r: FeatureSet)
        ensures
            r.wf(),
            forall|f: WasmFeatureExtension|
                r.spec_contains(f) == spec_requires_feature(bytes@, f),
    {
        let features = WasmFeatureExtension::all();
        let mut r = FeatureSet::empty();
        let n = features.len();
        let mut i: usize = 0;
        while i < n
            invariant
                n == 16,
                features@ == all_features_seq(),
                r.wf(),
                forall|f: WasmFeatureExtension|
                    spec_feature_index(f) < i ==> (r.spec_contains(f) == spec_requires_feature(
                        bytes@,
                        f,
                    )),
                forall|f: WasmFeatureExtension|
                    spec_feature_index(f) >= i ==> !r.spec_contains(f),
            decreases n - i,
        {
            let f = features[i];
            proof {
                lemma_all_features_indexing(features@[i as int]);
            }
            let excluded = f.validator_bits();
            if !wasm_validates_without(excluded, bytes) {
                r.insert(f);
            }
            i = i + 1;
        }
        proof {
            assert forall|f: WasmFeatureExtension|
                r.spec_contains(f) == spec_requires_feature(bytes@, f) by {
                lemma_all_features_indexing(f);
            }
        }
        r
    }

    /// Folds the outcome of one support probe per feature, in canonical
    /// order, into the engine's supported set.
    pub fn supported_from_probes(probes: &Vec<bool>) -> (r: FeatureSet)
        requires
            probes@.len() == 16,
        ensures
            r.wf(),
            forall|f: WasmFeatureExtension|
                r.spec_contains(f) == probes@[spec_feature_index(f) as int],
    {
        let features = WasmFeatureExtension::all();
        let mut r = FeatureSet::empty();
        let mut i: usize = 0;
        while i < 16
            invariant
                features@ == all_features_seq(),
                probes@.len() == 16,
                r.wf(),
                forall|f: WasmFeatureExtension|
                    spec_feature_index(f) < i ==> (r.spec_contains(f) == probes@[(
                    spec_feature_index(f) as int)]),
                forall|f: WasmFeatureExtension|
                    spec_feature_index(f) >= i ==> !r.spec_contains(f),
            decreases 16 - i,
        {
            let f = features[i];
            proof {
                lemma_all_features_indexing(features@[i as int]);
            }
            if probes[i] {
                r.insert(f);
            }
            i = i + 1;
        }
        proof {
            assert forall|f: WasmFeatureExtension|
                r.spec_contains(f) == probes@[spec_feature_index(f) as int] by {
                lemma_all_features_indexing(f);
            }
        }
        r
    }
}

/// The canonical hyphenated name of a feature extension.
pub open spec fn spec_feature_name(f: WasmFeatureExtension) -> Seq<char> {
    match f {
        WasmFeatureExtension::BulkMemory => "bulk-memory"@,
        WasmFeatureExtension::Exceptions => "exceptions"@,
        WasmFeatureExtension::ExtendedConst => "extended-const"@,
        WasmFeatureExtension::FunctionReferences => "function-references"@,
        WasmFeatureExtension::GC => "gc"@,
        WasmFeatureExtension::Memory64 => "memory64"@,
        WasmFeatureExtension::MultiMemory => "multi-memory"@,
        WasmFeatureExtension::MultiValue => "multi-value"@,
        WasmFeatureExtension::MutableGlobal => "mutable-global"@,
        WasmFeatureExtension::ReferenceTypes => "reference-types"@,
        WasmFeatureExtension::RelaxedSimd => "relaxed-simd"@,
        WasmFeatureExtension::SaturatingFloatToInt => "saturating-float-to-int"@,
        WasmFeatureExtension::SignExtension => "sign-extension"@,
        WasmFeatureExtension::Simd => "simd"@,
        WasmFeatureExtension::TailCall => "tail-call"@,
        WasmFeatureExtension::Threads => "threads"@,
    }
}

impl WasmFeatureExtension {
    /// The canonical hyphenated name of this feature extension.
    pub fn name(&self) -> (r: &'static str)
        ensures
            r@ == spec_feature_name(*self),
    {
        match self {
            WasmFeatureExtension::BulkMemory => "bulk-memory",
            WasmFeatureExtension::Exceptions => "exceptions",
            WasmFeatureExtension::ExtendedConst => "extended-const",
            WasmFeatureExtension::FunctionReferences => "function-references",
            WasmFeatureExtension::GC => "gc",
            WasmFeatureExtension::Memory64 => "memory64",
            WasmFeatureExtension::MultiMemory => "multi-memory",
            WasmFeatureExtension::MultiValue => "multi-value",
            WasmFeatureExtension::MutableGlobal => "mutable-global",
            WasmFeatureExtension::ReferenceTypes => "reference-types",
            WasmFeatureExtension::RelaxedSimd => "relaxed-simd",
            WasmFeatureExtension::SaturatingFloatToInt => "saturating-float-to-int",
            WasmFeatureExtension::SignExtension => "sign-extension",
            WasmFeatureExtension::Simd => "simd",
            WasmFeatureExtension::TailCall => "tail-call",
            WasmFeatureExtension::Threads => "threads",
        }
    }
}

/// The members of a set, restricted to the first `i` features of the
/// canonical ordering.
pub open spec fn spec_members_upto(s: FeatureSet, i: int) -> Seq<WasmFeatureExtension>
    decreases i,
{
    if i <= 0 {
        Seq::empty()
    } else if s.spec_contains(all_features_seq()[i - 1]) {
        spec_members_upto(s, i - 1).push(all_features_seq()[i - 1])
    } else {
        spec_members_upto(s, i - 1)
    }
}

impl FeatureSet {
    /// The members of the set, in canonical order.
    pub fn members(&self) -> (r: Vec<WasmFeatureExtension>)
        ensures
            r@ == spec_members_upto(*self, 16),
    {
        let features = WasmFeatureExtension::all();
        let mut out: Vec<WasmFeatureExtension> = Vec::new();
        let mut i: usize = 0;
        while i < 16
            invariant
                features@ == all_features_seq(),
                i <= 16,
                out@ == spec_members_upto(*self, i as int),
            decreases 16 - i,
        {
            if self.contains(features[i]) {
                out.push(features[i]);
            }
            i = i + 1;
        }
        out
    }
}

/// One line of the missing-feature report per feature, in order.
pub open spec fn spec_feature_lines(fs: Seq<WasmFeatureExtension>) -> Seq<char>
    decreases fs.len(),
{
    if fs.len() == 0 {
        Seq::empty()
    } else {
        spec_feature_lines(fs.drop_last()) + " - "@ + spec_feature_name(fs.last()) + "\n"@
    }
}

/// The module needs feature extensions the engine does not support.
///
/// Recoverable by the embedder, but fatal to the instantiation that
/// surfaced it.
#[derive(Clone, Copy, Debug, PartialEq, Eq, Structural)]
pub struct UnsupportedWasmFeatureExtensionError {
    /// The features the module requires.
    pub required: FeatureSet,
    /// The features the engine supports.
    pub supported: FeatureSet,
}

impl UnsupportedWasmFeatureExtensionError {
    /// Checks the module encoded by `bytes` against the engine's supported
    /// feature set: succeeds exactly when every required feature is
    /// supported, and otherwise reports both sets.
    pub fn check_support(bytes: &[u8], supported: FeatureSet) -> (r: Result<
        (),
        UnsupportedWasmFeatureExtensionError,
    >)
        requires
            supported.wf(),
        ensures
            (r is Ok) == (forall|f: WasmFeatureExtension|
                spec_requires_feature(bytes@, f) ==> supported.spec_contains(f)),
            r is Err ==> {
                &&& (r->Err_0).supported == supported
                &&& (r->Err_0).required.wf()
                &&& forall|f: WasmFeatureExtension|
                    (r->Err_0).required.spec_contains(f) == spec_requires_feature(bytes@, f)
                &&& exists|f: WasmFeatureExtension|
                    spec_requires_feature(bytes@, f) && !supported.spec_contains(f)
            },
    {
        let required = WasmFeatureExtension::required(bytes);
        let missing = required.missing_from(&supported);
        if missing.is_empty() {
            Ok(())
        } else {
            Err(UnsupportedWasmFeatureExtensionError { required, supported })
        }
    }
}

/// The full text of the missing-feature report: a header, one line per
/// missing feature, and a pointer to where engine support is tracked.
pub open spec fn spec_unsupported_message(missing: Seq<WasmFeatureExtension>) -> Seq<char> {
    "A WASM module requires the following feature extensions, which are not supported by your browser:\n\n"@
        + spec_feature_lines(missing)
        + "\nPlease check out https://webassembly.org/features/ to see if a newer version of your browser already supports these features.\n"@
}

impl UnsupportedWasmFeatureExtensionError {
    /// Renders the error as text: the report names exactly the required
    /// features the supported set lacks, in canonical order.
    pub fn message(&self) -> (r: String)
        requires
            self.required.wf(),
        ensures
            r@ == spec_unsupported_message(
                spec_members_upto(self.required.spec_missing_from(self.supported), 16),
            ),
    {
        let missing = self.required.missing_from(&self.supported);
        let list = missing.members();
        let mut out = String::from_str(
            "A WASM module requires the following feature extensions, which are not supported by your browser:\n\n",
        );
        let n = list.len();
        let mut i: usize = 0;
        while i < n
            invariant
                n == list@.len(),
                i <= n,
                out@ ==
                "A WASM module requires the following feature extensions, which are not supported by your browser:\n\n"@
                    + spec_feature_lines(list@.take(i as int)),
            decreases n - i,
        {
            proof {
                assert(list@.take(i + 1).drop_last() =~= list@.take(i as int));
                assert(list@.take(i + 1).last() == list@[i as int]);
            }
            out.append(" - ");
            out.append(list[i].name());
            out.append("\n");
            proof {
                assert(out@ =~=
                "A WASM module requires the following feature extensions, which are not supported by your browser:\n\n"@
                    + spec_feature_lines(list@.take(i + 1)));
            }
            i = i + 1;
        }
        proof {
            assert(list@.take(n as int) =~= list@);
        }
        out.append(
            "\nPlease check out https://webassembly.org/features/ to see if a newer version of your browser already supports these features.\n",
        );
        proof {
            assert(out@ =~= spec_unsupported_message(
                spec_members_upto(self.required.spec_missing_from(self.supported), 16),
            ));
        }
        out
    }
}

/// Whenever a module requires a feature the engine lacks, the support
/// check fails with an error whose `required` set holds that feature and
/// whose `supported` set does not.
pub proof fn lemma_unsupported_feature_reported(
    bytes: Seq<u8>,
    supported: FeatureSet,
    r: Result<(), UnsupportedWasmFeatureExtensionError>,
    f: WasmFeatureExtension,
)
    requires
        spec_requires_feature(bytes, f),
        !supported.spec_contains(f),
        (r is Ok) == (forall|g: WasmFeatureExtension|
            spec_requires_feature(bytes, g) ==> supported.spec_contains(g)),
        r is Err ==> {
            &&& (r->Err_0).supported == supported
            &&& forall|g: WasmFeatureExtension|
                (r->Err_0).required.spec_contains(g) == spec_requires_feature(bytes, g)
        },
    ensures
        r is Err,
        (r->Err_0).required.spec_contains(f),
        !(r->Err_0).supported.spec_contains(f),
{
}

} // verus!
