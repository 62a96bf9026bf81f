//! Optional WebAssembly features and the bit-sets that the engine takes.

use vstd::prelude::*;

verus! {

/// Optional wasm features.
///
/// [`Feature::Mvp`] stands for the first version of WebAssembly; the others
/// were added to it later. [`Feature::All`] and [`Feature::AllPossible`] name
/// whole groups.
#[derive(Clone, Copy, Debug, Eq, Hash, PartialEq, Structural)]
pub enum Feature {
    /// The first version of WebAssembly.
    Mvp,
    /// Atomics.
    Atomics,
    /// Import and export of mutable globals.
    MutableGlobals,
    /// Saturating conversions from float to integer.
    TruncSat,
    /// Fixed-width SIMD.
    Simd,
    /// Bulk memory operations.
    BulkMemory,
    /// Sign extension operations.
    SignExt,
    /// Exception handling.
    ExceptionHandling,
    /// Tail calls.
    TailCall,
    /// Reference types.
    ReferenceTypes,
    /// Multi-value.
    Multivalue,
    /// Garbage collection.
    Gc,
    /// Large memory.
    Memory64,
    /// Typed function references.
    TypedFunctionReferences,
    /// Non-nullable locals for garbage-collected types.
    GcNnLocals,
    /// Relaxed SIMD.
    RelaxedSimd,
    /// Extended constant expressions.
    ExtendedConst,
    /// Strings.
    Strings,
    /// Multiple memories.
    MultiMemories,
    /// All features, excluding [`Feature::GcNnLocals`].
    All,
    /// All features.
    AllPossible,
}

impl Feature {
    /// The bit-weight of the feature in the engine's encoding.
    pub open spec fn spec_bits(self) -> u32 {
        match self {
            Feature::Mvp => 0x0,
            Feature::Atomics => 0x1,
            Feature::MutableGlobals => 0x2,
            Feature::TruncSat => 0x4,
            Feature::Simd => 0x8,
            Feature::BulkMemory => 0x10,
            Feature::SignExt => 0x20,
            Feature::ExceptionHandling => 0x40,
            Feature::TailCall => 0x80,
            Feature::ReferenceTypes => 0x100,
            Feature::Multivalue => 0x200,
            Feature::Gc => 0x400,
            Feature::Memory64 => 0x800,
            Feature::TypedFunctionReferences => 0x1000,
            Feature::GcNnLocals => 0x2000,
            Feature::RelaxedSimd => 0x4000,
            Feature::ExtendedConst => 0x8000,
            Feature::Strings => 0x1_0000,
            Feature::MultiMemories => 0x2_0000,
            Feature::All => 0x3_dfff,
            Feature::AllPossible => 0x3_ffff,
        }
    }
}

/// The bit-weight of a feature in the engine's encoding.
///
/// The single features have one bit each, in the order of declaration;
/// [`Feature::Mvp`] has none, and the two groups have the bits of their
/// members.
pub fn convert_feature(feature: &Feature) -> (r: u32)
    ensures
        r == feature.spec_bits(),
{
    match feature {
        Feature::Mvp => 0x0,
        Feature::Atomics => 0x1,
        Feature::MutableGlobals => 0x2,
        Feature::TruncSat => 0x4,
        Feature::Simd => 0x8,
        Feature::BulkMemory => 0x10,
        Feature::SignExt => 0x20,
        Feature::ExceptionHandling => 0x40,
        Feature::TailCall => 0x80,
        Feature::ReferenceTypes => 0x100,
        Feature::Multivalue => 0x200,
        Feature::Gc => 0x400,
        Feature::Memory64 => 0x800,
        Feature::TypedFunctionReferences => 0x1000,
        Feature::GcNnLocals => 0x2000,
        Feature::RelaxedSimd => 0x4000,
        Feature::ExtendedConst => 0x8000,
        Feature::Strings => 0x1_0000,
        Feature::MultiMemories => 0x2_0000,
        Feature::All => 0x3_dfff,
        Feature::AllPossible => 0x3_ffff,
    }
}

/// The union of the bit-weights of a sequence of features.
pub open spec fn mask_of(s: Seq<Feature>) -> u32
    decreases s.len(),
{
    if s.len() == 0 {
        0
    } else {
        mask_of(s.drop_last()) | s.last().spec_bits()
    }
}

/// The sequence without any occurrence of a feature, the rest in its order.
pub open spec fn without(s: Seq<Feature>, feature: Feature) -> Seq<Feature>
    decreases s.len(),
{
    if s.len() == 0 {
        s
    } else if s.last() == feature {
        without(s.drop_last(), feature)
    } else {
        without(s.drop_last(), feature).push(s.last())
    }
}

/// The sequence with a feature added at its end, unless it holds it already.
pub open spec fn with(s: Seq<Feature>, feature: Feature) -> Seq<Feature> {
    if s.contains(feature) {
        s
    } else {
        s.push(feature)
    }
}

/// A set of features in the engine's encoding: the union of bit-weights.
#[derive(Clone, Copy, Debug, Eq, PartialEq, Structural)]
pub struct FeatureSet {
    pub bits: u32,
}

impl FeatureSet {
    /// Whether every bit of the feature is in the set.
    pub open spec fn spec_has(self, feature: Feature) -> bool {
        self.bits & feature.spec_bits() == feature.spec_bits()
    }

    /// The empty set, which is also the set that holds only the MVP.
    pub fn new() -> (r: FeatureSet)
        ensures
            r.bits == 0,
    {
        FeatureSet { bits: 0 }
    }

    /// Makes the set hold nothing beyond the MVP.
    pub fn set_mvp(&mut self)
        ensures
            final(self).bits == Feature::Mvp.spec_bits(),
    {
        self.bits = convert_feature(&Feature::Mvp);
    }

    /// Makes the set hold every feature but [`Feature::GcNnLocals`].
    pub fn set_all(&mut self)
        ensures
            final(self).bits == Feature::All.spec_bits(),
    {
        self.bits = convert_feature(&Feature::All);
    }

    /// Makes the set hold every feature.
    pub fn set_all_possible(&mut self)
        ensures
            final(self).bits == Feature::AllPossible.spec_bits(),
    {
        self.bits = convert_feature(&Feature::AllPossible);
    }

    /// Adds a feature to the set.
    pub fn set(&mut self, feature: Feature)
        ensures
            final(self).bits == old(self).bits | feature.spec_bits(),
    {
        self.bits = self.bits | convert_feature(&feature);
    }

    /// Whether every bit of the feature is in the set.
    pub fn has(&self, feature: Feature) -> (r: bool)
        ensures
            r == self.spec_has(feature),
    {
        let b: u32 = convert_feature(&feature);
        self.bits & b == b
    }

    /// The set as the integer that the engine takes.
    pub fn as_int(&self) -> (r: u32)
        ensures
            r == self.bits,
    {
        self.bits
    }
}

/// A custom selection of features: those that are forced on and those that
/// are forced off. No feature stands on both sides, nor twice on one.
#[derive(Debug)]
pub struct FeatureSelection {
    enabled: Vec<Feature>,
    disabled: Vec<Feature>,
}

/// Which features a run forces on or off.
#[derive(Clone, Debug)]
pub enum Features {
    /// Nothing is forced: the module's own declaration of features decides.
    Default,
    /// Every feature beyond the MVP is forced off.
    MvpOnly,
    /// Every feature but [`Feature::GcNnLocals`] is forced on.
    All,
    /// The features that the selection enables are forced on and those that
    /// it disables off; a feature that it does not name is left to the
    /// module.
    Custom(FeatureSelection),
}

impl Clone for FeatureSelection {
    fn clone(&self) -> (r: FeatureSelection)
        ensures
            r.spec_enabled() == self.spec_enabled(),
            r.spec_disabled() == self.spec_disabled(),
    {
        proof {
            use_type_invariant(self);
        }
        FeatureSelection {
            enabled: copy_features(&self.enabled),
            disabled: copy_features(&self.disabled),
        }
    }
}

/// Whether no feature is listed twice, and none on both sides.
pub open spec fn selection_wf(enabled: Seq<Feature>, disabled: Seq<Feature>) -> bool {
    &&& enabled.no_duplicates()
    &&& disabled.no_duplicates()
    &&& forall|f: Feature| !(enabled.contains(f) && disabled.contains(f))
}

impl FeatureSelection {
    /// The features that are forced on, in the order in which they were
    /// enabled.
    pub closed spec fn spec_enabled(&self) -> Seq<Feature> {
        self.enabled@
    }

    /// The features that are forced off, in the order in which they were
    /// disabled.
    pub closed spec fn spec_disabled(&self) -> Seq<Feature> {
        self.disabled@
    }

    #[verifier::type_invariant]
    spec fn inv(&self) -> bool {
        selection_wf(self.enabled@, self.disabled@)
    }

    /// A selection that forces nothing.
    pub fn new() -> (r: FeatureSelection)
        ensures
            r.spec_enabled() == Seq::<Feature>::empty(),
            r.spec_disabled() == Seq::<Feature>::empty(),
    {
        FeatureSelection { enabled: Vec::new(), disabled: Vec::new() }
    }

    /// The features that are forced on.
    pub fn enabled(&self) -> (r: &Vec<Feature>)
        ensures
            r@ == self.spec_enabled(),
            selection_wf(self.spec_enabled(), self.spec_disabled()),
    {
        proof {
            use_type_invariant(self);
        }
        &self.enabled
    }

    /// The features that are forced off.
    pub fn disabled(&self) -> (r: &Vec<Feature>)
        ensures
            r@ == self.spec_disabled(),
            selection_wf(self.spec_enabled(), self.spec_disabled()),
    {
        proof {
            use_type_invariant(self);
        }
        &self.disabled
    }

    /// Forces a feature on: it is enabled from now on, and no longer
    /// disabled if it was.
    pub fn enable(&mut self, feature: Feature)
        ensures
            final(self).spec_enabled() == with(old(self).spec_enabled(), feature),
            final(self).spec_disabled() == without(old(self).spec_disabled(), feature),
    {
        proof {
            use_type_invariant(&*self);
            lemma_enable(
                FeaturesView::Custom { enabled: self.enabled@, disabled: self.disabled@ },
                feature,
            );
            lemma_without(self.disabled@, feature);
        }
        self.disabled = without_feature(&self.disabled, feature);
        self.enabled = with_feature(&self.enabled, feature);
    }

    /// Forces a feature off: it is disabled from now on, and no longer
    /// enabled if it was.
    pub fn disable(&mut self, feature: Feature)
        ensures
            final(self).spec_enabled() == without(old(self).spec_enabled(), feature),
            final(self).spec_disabled() == with(old(self).spec_disabled(), feature),
    {
        proof {
            use_type_invariant(&*self);
            lemma_disable(
                FeaturesView::Custom { enabled: self.enabled@, disabled: self.disabled@ },
                feature,
            );
            lemma_without(self.enabled@, feature);
        }
        self.enabled = without_feature(&self.enabled, feature);
        self.disabled = with_feature(&self.disabled, feature);
    }
}

/// The mathematical value of a [`Features`].
pub enum FeaturesView {
    Default,
    MvpOnly,
    All,
    Custom { enabled: Seq<Feature>, disabled: Seq<Feature> },
}

impl View for Features {
    type V = FeaturesView;

    open spec fn view(&self) -> FeaturesView {
        match self {
            Features::Default => FeaturesView::Default,
            Features::MvpOnly => FeaturesView::MvpOnly,
            Features::All => FeaturesView::All,
            Features::Custom(selection) => FeaturesView::Custom {
                enabled: selection.spec_enabled(),
                disabled: selection.spec_disabled(),
            },
        }
    }
}

impl FeaturesView {
    /// No feature is listed twice, and none is both enabled and disabled.
    pub open spec fn wf(self) -> bool {
        match self {
            FeaturesView::Custom { enabled, disabled } => selection_wf(enabled, disabled),
            _ => true,
        }
    }

    /// The bit-set that the run forces on.
    pub open spec fn force_enabled(self) -> u32 {
        match self {
            FeaturesView::Default => 0,
            FeaturesView::MvpOnly => 0,
            FeaturesView::All => Feature::All.spec_bits(),
            FeaturesView::Custom { enabled, disabled } => mask_of(enabled),
        }
    }

    /// The bit-set that the run forces off.
    pub open spec fn force_disabled(self) -> u32 {
        match self {
            FeaturesView::Default => 0,
            FeaturesView::MvpOnly => Feature::AllPossible.spec_bits(),
            FeaturesView::All => 0,
            FeaturesView::Custom { enabled, disabled } => mask_of(disabled),
        }
    }

    /// The value after a call that enables a feature: in custom mode the
    /// feature is enabled and no longer disabled; the other modes stay.
    pub open spec fn enable(self, feature: Feature) -> FeaturesView {
        match self {
            FeaturesView::Custom { enabled, disabled } => FeaturesView::Custom {
                enabled: with(enabled, feature),
                disabled: without(disabled, feature),
            },
            _ => self,
        }
    }

    /// The value after a call that disables a feature: in custom mode the
    /// feature is disabled and no longer enabled; the other modes stay.
    pub open spec fn disable(self, feature: Feature) -> FeaturesView {
        match self {
            FeaturesView::Custom { enabled, disabled } => FeaturesView::Custom {
                enabled: without(enabled, feature),
                disabled: with(disabled, feature),
            },
            _ => self,
        }
    }
}

/// Whether a feature stands in a list.
pub fn contains_feature(list: &Vec<Feature>, feature: Feature) -> (r: bool)
    ensures
        r == list@.contains(feature),
{
    let mut i: usize = 0;
    while i < list.len()
        invariant
            i <= list.len(),
            forall|j: int| 0 <= j < i ==> list@[j] != feature,
        decreases list.len() - i,
    {
        if list[i] == feature {
            return true;
        }
        i = i + 1;
    }
    false
}

/// A list with a feature added at its end, unless the list holds it
/// already.
pub fn with_feature(list: &Vec<Feature>, feature: Feature) -> (r: Vec<Feature>)
    ensures
        r@ == with(list@, feature),
{
    let mut out = copy_features(list);
    if !contains_feature(list, feature) {
        out.push(feature);
    }
    out
}

/// A copy of a list.
fn copy_features(list: &Vec<Feature>) -> (r: Vec<Feature>)
    ensures
        r@ == list@,
{
    let mut out: Vec<Feature> = Vec::new();
    let mut i: usize = 0;
    while i < list.len()
        invariant
            i <= list.len(),
            out@ == list@.take(i as int),
        decreases list.len() - i,
    {
        out.push(list[i]);
        assert(list@.take(i + 1) =~= list@.take(i as int).push(list@[i as int]));
        i = i + 1;
    }
    assert(list@.take(list.len() as int) =~= list@);
    out
}

/// A list without any occurrence of a feature, the rest in its order.
pub fn without_feature(list: &Vec<Feature>, feature: Feature) -> (r: Vec<Feature>)
    ensures
        r@ == without(list@, feature),
{
    let mut kept: Vec<Feature> = Vec::new();
    let mut i: usize = 0;
    while i < list.len()
        invariant
            i <= list.len(),
            kept@ == without(list@.take(i as int), feature),
        decreases list.len() - i,
    {
        proof {
            let next = list@.take(i + 1);
            assert(next.drop_last() =~= list@.take(i as int));
            assert(next.last() == list@[i as int]);
        }
        if list[i] != feature {
            kept.push(list[i]);
        }
        i = i + 1;
    }
    proof {
        assert(list@.take(list.len() as int) =~= list@);
    }
    kept
}

/// The union of the bit-weights of a list of features.
pub fn feature_mask(list: &Vec<Feature>) -> (r: FeatureSet)
    ensures
        r.bits == mask_of(list@),
{
    let mut set = FeatureSet::new();
    let mut i: usize = 0;
    while i < list.len()
        invariant
            i <= list.len(),
            set.bits == mask_of(list@.take(i as int)),
        decreases list.len() - i,
    {
        proof {
            let next = list@.take(i + 1);
            assert(next.drop_last() =~= list@.take(i as int));
            assert(next.last() == list@[i as int]);
        }
        set.set(list[i]);
        i = i + 1;
    }
    proof {
        assert(list@.take(list.len() as int) =~= list@);
    }
    set
}

impl Features {
    /// A custom selection that forces nothing yet.
    pub fn custom() -> (r: Features)
        ensures
            r@ == (FeaturesView::Custom { enabled: Seq::empty(), disabled: Seq::empty() }),
            r@.wf(),
    {
        Features::Custom(FeatureSelection::new())
    }

    /// The two bit-sets that the run hands to the engine: the features it
    /// forces on, and those it forces off.
    pub fn resolve(&self) -> (r: (FeatureSet, FeatureSet))
        ensures
            r.0.bits == self@.force_enabled(),
            r.1.bits == self@.force_disabled(),
            self@.wf(),
    {
        let mut enabled_set = FeatureSet::new();
        let mut disabled_set = FeatureSet::new();
        match self {
            Features::Default => {},
            Features::MvpOnly => {
                enabled_set.set_mvp();
                disabled_set.set_all_possible();
            },
            Features::All => {
                enabled_set.set_all();
                disabled_set.set_mvp();
            },
            Features::Custom(selection) => {
                enabled_set = feature_mask(selection.enabled());
                disabled_set = feature_mask(selection.disabled());
            },
        }
        (enabled_set, disabled_set)
    }
}

impl Default for Features {
    fn default() -> (r: Features)
        ensures
            r@ == FeaturesView::Default,
    {
        Features::Default
    }
}

/// Taking a feature out of a list takes out that feature and nothing else,
/// and makes no feature occur twice that did not before.
pub proof fn lemma_without(s: Seq<Feature>, feature: Feature)
    ensures
        !without(s, feature).contains(feature),
        forall|g: Feature| g != feature ==> (without(s, feature).contains(g) <==> s.contains(g)),
        s.no_duplicates() ==> without(s, feature).no_duplicates(),
    decreases s.len(),
{
    if s.len() > 0 {
        let init = s.drop_last();
        let last = s.last();
        let w = without(init, feature);
        let r = without(s, feature);
        lemma_without(init, feature);
        lemma_push_members(w, last);
        lemma_push_members(init, last);
        assert(init.push(last) =~= s);
        assert(r == if last == feature { w } else { w.push(last) });
        assert forall|g: Feature| g != feature implies (r.contains(g) <==> s.contains(g)) by {
            assert(s.contains(g) <==> init.contains(g) || g == last);
            assert(w.contains(g) <==> init.contains(g));
        }
        if s.no_duplicates() && last != feature {
            assert(init.no_duplicates());
            assert(!init.contains(last)) by {
                if init.contains(last) {
                    let i = choose|i: int| 0 <= i < init.len() && init[i] == last;
                    assert(s[i] == s[s.len() - 1]);
                }
            }
        }
    }
}

/// A list with one more feature at its end holds that feature and those it
/// held, and repeats none if it repeated none and the feature is new.
pub proof fn lemma_push_members(s: Seq<Feature>, feature: Feature)
    ensures
        forall|g: Feature| s.push(feature).contains(g) <==> s.contains(g) || g == feature,
        s.no_duplicates() && !s.contains(feature) ==> s.push(feature).no_duplicates(),
{
    let t = s.push(feature);
    assert forall|g: Feature| t.contains(g) <==> s.contains(g) || g == feature by {
        if s.contains(g) {
            let i = choose|i: int| 0 <= i < s.len() && s[i] == g;
            assert(t[i] == g);
        }
        if g == feature {
            assert(t[s.len() as int] == g);
        }
        if t.contains(g) {
            let i = choose|i: int| 0 <= i < t.len() && t[i] == g;
            if i < s.len() {
                assert(s[i] == g);
            }
        }
    }
    if s.no_duplicates() && !s.contains(feature) {
        assert forall|i: int, j: int| 0 <= i < t.len() && 0 <= j < t.len() && i != j implies t[i]
            != t[j] by {
            if i < s.len() && j < s.len() {
            } else if i < s.len() {
                assert(s.contains(s[i]));
            } else {
                assert(s.contains(s[j]));
            }
        }
    }
}

/// Adding a feature to a list adds that feature and nothing else, and makes
/// no feature occur twice that did not before.
pub proof fn lemma_with(s: Seq<Feature>, feature: Feature)
    ensures
        with(s, feature).contains(feature),
        forall|g: Feature| g != feature ==> (with(s, feature).contains(g) <==> s.contains(g)),
        s.no_duplicates() ==> with(s, feature).no_duplicates(),
{
    lemma_push_members(s, feature);
}

/// Enabling a feature keeps a selection well-formed. In custom mode the
/// feature is then enabled and not disabled, whatever was called before, and
/// no other feature changes sides.
pub proof fn lemma_enable(v: FeaturesView, feature: Feature)
    ensures
        v.wf() ==> v.enable(feature).wf(),
        v is Custom ==> v.enable(feature) is Custom,
        v is Custom ==> v.enable(feature)->enabled.contains(feature),
        v is Custom ==> !v.enable(feature)->disabled.contains(feature),
        v is Custom ==> forall|g: Feature|
            g != feature ==> (v.enable(feature)->enabled.contains(g) <==> v->enabled.contains(g))
                && (v.enable(feature)->disabled.contains(g) <==> v->disabled.contains(g)),
        !(v is Custom) ==> v.enable(feature) == v,
{
    if let FeaturesView::Custom { enabled, disabled } = v {
        lemma_with(enabled, feature);
        lemma_without(disabled, feature);
        if v.wf() {
            let e = with(enabled, feature);
            let d = without(disabled, feature);
            assert forall|f: Feature| !(e.contains(f) && d.contains(f)) by {
                if f != feature {
                    assert(e.contains(f) <==> enabled.contains(f));
                    assert(d.contains(f) <==> disabled.contains(f));
                }
            }
        }
    }
}

/// Disabling a feature keeps a selection well-formed. In custom mode the
/// feature is then disabled and not enabled, whatever was called before, and
/// no other feature changes sides.
pub proof fn lemma_disable(v: FeaturesView, feature: Feature)
    ensures
        v.wf() ==> v.disable(feature).wf(),
        v is Custom ==> v.disable(feature) is Custom,
        v is Custom ==> v.disable(feature)->disabled.contains(feature),
        v is Custom ==> !v.disable(feature)->enabled.contains(feature),
        v is Custom ==> forall|g: Feature|
            g != feature ==> (v.disable(feature)->enabled.contains(g) <==> v->enabled.contains(g))
                && (v.disable(feature)->disabled.contains(g) <==> v->disabled.contains(g)),
        !(v is Custom) ==> v.disable(feature) == v,
{
    if let FeaturesView::Custom { enabled, disabled } = v {
        lemma_with(disabled, feature);
        lemma_without(enabled, feature);
        if v.wf() {
            let e = without(enabled, feature);
            let d = with(disabled, feature);
            assert forall|f: Feature| !(e.contains(f) && d.contains(f)) by {
                if f != feature {
                    assert(e.contains(f) <==> enabled.contains(f));
                    assert(d.contains(f) <==> disabled.contains(f));
                }
            }
        }
    }
}

/// The mask of a list holds every bit of each feature of the list.
pub proof fn lemma_mask_covers(s: Seq<Feature>, feature: Feature)
    requires
        s.contains(feature),
    ensures
        mask_of(s) & feature.spec_bits() == feature.spec_bits(),
    decreases s.len(),
{
    let b = feature.spec_bits();
    let m = mask_of(s.drop_last());
    if s.last() == feature {
        assert((m | b) & b == b) by (bit_vector);
    } else {
        let i = choose|i: int| 0 <= i < s.len() && s[i] == feature;
        assert(s.drop_last()[i] == feature);
        lemma_mask_covers(s.drop_last(), feature);
        let c = s.last().spec_bits();
        assert((m | c) & b == b) by (bit_vector)
            requires
                m & b == b,
        ;
    }
}

/// Where every feature of one list stands in another, the mask of the first
/// adds nothing to the mask of the second.
pub proof fn lemma_mask_absorbs(s: Seq<Feature>, t: Seq<Feature>)
    requires
        forall|f: Feature| s.contains(f) ==> t.contains(f),
    ensures
        mask_of(s) | mask_of(t) == mask_of(t),
    decreases s.len(),
{
    let big = mask_of(t);
    if s.len() == 0 {
        assert(0u32 | big == big) by (bit_vector);
    } else {
        let init = s.drop_last();
        assert forall|f: Feature| init.contains(f) implies t.contains(f) by {
            let i = choose|i: int| 0 <= i < init.len() && init[i] == f;
            assert(s[i] == f);
        }
        lemma_mask_absorbs(init, t);
        assert(s[s.len() - 1] == s.last());
        lemma_mask_covers(t, s.last());
        let m = mask_of(init);
        let b = s.last().spec_bits();
        assert((m | b) | big == big) by (bit_vector)
            requires
                m | big == big,
                big & b == b,
        ;
    }
}

/// The mask of a list depends on which features the list holds, not on
/// their order nor on how often each occurs.
pub proof fn lemma_mask_of_members(s: Seq<Feature>, t: Seq<Feature>)
    requires
        forall|f: Feature| s.contains(f) <==> t.contains(f),
    ensures
        mask_of(s) == mask_of(t),
{
    lemma_mask_absorbs(s, t);
    lemma_mask_absorbs(t, s);
    let a = mask_of(s);
    let b = mask_of(t);
    assert(a == b) by (bit_vector)
        requires
            a | b == b,
            b | a == a,
    ;
}

/// The bit-sets that a custom selection forces depend on which features it
/// enables and which it disables, and on nothing else.
pub proof fn lemma_forced_by_members(a: FeaturesView, b: FeaturesView)
    requires
        a is Custom,
        b is Custom,
        a->enabled.to_set() == b->enabled.to_set(),
        a->disabled.to_set() == b->disabled.to_set(),
    ensures
        a.force_enabled() == b.force_enabled(),
        a.force_disabled() == b.force_disabled(),
{
    assert forall|f: Feature| a->enabled.contains(f) <==> b->enabled.contains(f) by {
        assert(a->enabled.contains(f) <==> a->enabled.to_set().contains(f));
        assert(b->enabled.contains(f) <==> b->enabled.to_set().contains(f));
    }
    assert forall|f: Feature| a->disabled.contains(f) <==> b->disabled.contains(f) by {
        assert(a->disabled.contains(f) <==> a->disabled.to_set().contains(f));
        assert(b->disabled.contains(f) <==> b->disabled.to_set().contains(f));
    }
    lemma_mask_of_members(a->enabled, b->enabled);
    lemma_mask_of_members(a->disabled, b->disabled);
}

/// The place of a single feature among the bits.
pub open spec fn single_index(feature: Feature) -> u32 {
    match feature {
        Feature::Atomics => 0,
        Feature::MutableGlobals => 1,
        Feature::TruncSat => 2,
        Feature::Simd => 3,
        Feature::BulkMemory => 4,
        Feature::SignExt => 5,
        Feature::ExceptionHandling => 6,
        Feature::TailCall => 7,
        Feature::ReferenceTypes => 8,
        Feature::Multivalue => 9,
        Feature::Gc => 10,
        Feature::Memory64 => 11,
        Feature::TypedFunctionReferences => 12,
        Feature::GcNnLocals => 13,
        Feature::RelaxedSimd => 14,
        Feature::ExtendedConst => 15,
        Feature::Strings => 16,
        Feature::MultiMemories => 17,
        _ => 0,
    }
}

/// Whether a feature is a single one: neither the MVP nor a group.
pub open spec fn is_single(feature: Feature) -> bool {
    feature != Feature::Mvp && feature != Feature::All && feature != Feature::AllPossible
}

/// The single features, in the order of declaration.
pub open spec fn single_features() -> Seq<Feature> {
    seq![
        Feature::Atomics,
        Feature::MutableGlobals,
        Feature::TruncSat,
        Feature::Simd,
        Feature::BulkMemory,
        Feature::SignExt,
        Feature::ExceptionHandling,
        Feature::TailCall,
        Feature::ReferenceTypes,
        Feature::Multivalue,
        Feature::Gc,
        Feature::Memory64,
        Feature::TypedFunctionReferences,
        Feature::GcNnLocals,
        Feature::RelaxedSimd,
        Feature::ExtendedConst,
        Feature::Strings,
        Feature::MultiMemories,
    ]
}

/// A single feature has one bit, at its place in the order of declaration,
/// so that two of them share none.
pub proof fn lemma_single_bits(f: Feature, g: Feature)
    requires
        is_single(f),
        is_single(g),
    ensures
        f.spec_bits() == 1u32 << single_index(f),
        single_index(f) < 18,
        f != g ==> f.spec_bits() & g.spec_bits() == 0,
{
    assert(0x1u32 == 1u32 << 0u32 && 0x2u32 == 1u32 << 1u32 && 0x4u32 == 1u32 << 2u32 && 0x8u32
        == 1u32 << 3u32 && 0x10u32 == 1u32 << 4u32 && 0x20u32 == 1u32 << 5u32 && 0x40u32 == 1u32
        << 6u32 && 0x80u32 == 1u32 << 7u32 && 0x100u32 == 1u32 << 8u32 && 0x200u32 == 1u32
        << 9u32 && 0x400u32 == 1u32 << 10u32 && 0x800u32 == 1u32 << 11u32 && 0x1000u32 == 1u32
        << 12u32 && 0x2000u32 == 1u32 << 13u32 && 0x4000u32 == 1u32 << 14u32 && 0x8000u32 == 1u32
        << 15u32 && 0x1_0000u32 == 1u32 << 16u32 && 0x2_0000u32 == 1u32 << 17u32)
        by (bit_vector);
    if f != g {
        let a = f.spec_bits();
        let b = g.spec_bits();
        let i = single_index(f);
        let j = single_index(g);
        assert(a & b == 0) by (bit_vector)
            requires
                a == 1u32 << i,
                b == 1u32 << j,
                i != j,
                i < 18,
                j < 18,
        ;
    }
}

/// The two groups are made of the single features: [`Feature::AllPossible`]
/// has the bits of all of them, and [`Feature::All`] has those but the bit
/// of [`Feature::GcNnLocals`].
pub proof fn lemma_feature_groups()
    ensures
        Feature::AllPossible.spec_bits() == mask_of(single_features()),
        Feature::All.spec_bits() == Feature::AllPossible.spec_bits()
            & !Feature::GcNnLocals.spec_bits(),
{
    let s = single_features();
    assert(mask_of(s.take(0)) == 0);
    lemma_mask_step(s, 0, 0x0, 0x1);
    lemma_mask_step(s, 1, 0x1, 0x2);
    lemma_mask_step(s, 2, 0x3, 0x4);
    lemma_mask_step(s, 3, 0x7, 0x8);
    lemma_mask_step(s, 4, 0xf, 0x10);
    lemma_mask_step(s, 5, 0x1f, 0x20);
    lemma_mask_step(s, 6, 0x3f, 0x40);
    lemma_mask_step(s, 7, 0x7f, 0x80);
    lemma_mask_step(s, 8, 0xff, 0x100);
    lemma_mask_step(s, 9, 0x1ff, 0x200);
    lemma_mask_step(s, 10, 0x3ff, 0x400);
    lemma_mask_step(s, 11, 0x7ff, 0x800);
    lemma_mask_step(s, 12, 0xfff, 0x1000);
    lemma_mask_step(s, 13, 0x1fff, 0x2000);
    lemma_mask_step(s, 14, 0x3fff, 0x4000);
    lemma_mask_step(s, 15, 0x7fff, 0x8000);
    lemma_mask_step(s, 16, 0xffff, 0x1_0000);
    lemma_mask_step(s, 17, 0x1_ffff, 0x2_0000);
    assert(s.take(18) =~= s);
    assert(0x3_dfffu32 == 0x3_ffffu32 & !0x2000u32) by (bit_vector);
}

/// One more feature in a prefix adds its bit to the mask of the prefix.
proof fn lemma_mask_step(s: Seq<Feature>, n: int, before: u32, bit: u32)
    requires
        0 <= n < s.len(),
        mask_of(s.take(n)) == before,
        s[n].spec_bits() == bit,
        before < bit,
        bit == 0x1 || bit == 0x2 || bit == 0x4 || bit == 0x8 || bit == 0x10 || bit == 0x20 || bit
            == 0x40 || bit == 0x80 || bit == 0x100 || bit == 0x200 || bit == 0x400 || bit == 0x800
            || bit == 0x1000 || bit == 0x2000 || bit == 0x4000 || bit == 0x8000 || bit == 0x1_0000
            || bit == 0x2_0000,
    ensures
        mask_of(s.take(n + 1)) == before + bit,
{
    assert(s.take(n + 1).drop_last() =~= s.take(n));
    assert(s.take(n + 1).last() == s[n]);
    assert(before | bit == before + bit) by (bit_vector)
        requires
            before < bit,
            bit == 0x1 || bit == 0x2 || bit == 0x4 || bit == 0x8 || bit == 0x10 || bit == 0x20
                || bit == 0x40 || bit == 0x80 || bit == 0x100 || bit == 0x200 || bit == 0x400
                || bit == 0x800 || bit == 0x1000 || bit == 0x2000 || bit == 0x4000 || bit
                == 0x8000 || bit == 0x1_0000 || bit == 0x2_0000,
    ;
}

} // verus!
