//! Acceptance filters for standard and extended CAN-IDs: exact and wildcard
//! construction, matching, weight and merging.
use vstd::prelude::*;
use vstd::arithmetic::power2::pow2;
use vstd::bits::{lemma_u32_pow2_no_overflow, lemma_u32_shl_is_mul};
use crate::constants::{
    EXTENDED_FRAME_ID_LENGTH, EXTENDED_FRAME_ID_MASK, STANDARD_FRAME_ID_LENGTH,
    STANDARD_FRAME_ID_MASK,
};

verus! {

/// Whether a filter is meant for standard or for extended CAN-IDs.
#[derive(Debug, PartialEq, Eq, Clone, Copy, Structural)]
pub enum MaskType {
    /// The filter is meant for standard (11-bit) CAN-IDs.
    Standard,
    /// The filter is meant for extended (29-bit) CAN-IDs.
    Extended,
}

impl MaskType {
    /// The mask that covers every bit of a CAN-ID of this width.
    pub open spec fn id_mask(self) -> u32 {
        match self {
            MaskType::Standard => STANDARD_FRAME_ID_MASK,
            MaskType::Extended => EXTENDED_FRAME_ID_MASK,
        }
    }

    /// The number of bits of a CAN-ID of this width.
    pub open spec fn id_length(self) -> u32 {
        match self {
            MaskType::Standard => STANDARD_FRAME_ID_LENGTH,
            MaskType::Extended => EXTENDED_FRAME_ID_LENGTH,
        }
    }
}

/// Whether bit `i` of `m` is zero.
pub open spec fn bit_is_clear(m: u32, i: u32) -> bool {
    m & (1u32 << i) == 0
}

/// The number of zero bits among the lowest `n` bits of `mask`.
pub open spec fn clear_bits_below(mask: u32, n: nat) -> nat
    decreases n,
{
    if n == 0 {
        0
    } else {
        clear_bits_below(mask, (n - 1) as nat) + if bit_is_clear(mask, (n - 1) as u32) {
            1nat
        } else {
            0nat
        }
    }
}

/// The bits in which `a` and `b` agree (both zero or both one).
pub open spec fn agreement(a: u32, b: u32) -> u32 {
    !(a ^ b)
}

/// A filter as a mathematical value: its width, its CAN-ID and its acceptance
/// mask (a one bit must match, a zero bit is "don't care").
pub struct FilterModel {
    pub width: MaskType,
    pub id: u32,
    pub mask: u32,
}

impl FilterModel {
    /// The filter that accepts exactly the CAN-ID `id`, cut to `width`.
    pub open spec fn exact(width: MaskType, id: u32) -> FilterModel {
        FilterModel { width, id: id & width.id_mask(), mask: width.id_mask() }
    }

    /// The filter that requires no bit at all.
    pub open spec fn wildcard(width: MaskType) -> FilterModel {
        FilterModel { width, id: 0, mask: 0 }
    }

    /// The candidate agrees with the filter's CAN-ID on every bit of the mask.
    pub open spec fn accepts(self, candidate: u32) -> bool {
        (self.id & self.mask) == (candidate & self.mask)
    }

    /// The CAN-ID holds no bit outside the filter's width.
    pub open spec fn wf(self) -> bool {
        self.id & self.width.id_mask() == self.id
    }

    /// The number of "don't care" bits within the filter's width.
    pub open spec fn dont_care_bits(self) -> nat {
        clear_bits_below(self.mask, self.width.id_length() as nat)
    }

    /// The number of CAN-IDs of the filter's width that the filter accepts.
    pub open spec fn weight(self) -> nat {
        pow2(self.dont_care_bits())
    }

    /// The filter that keeps this filter's width and CAN-ID and requires
    /// exactly the bits, within the width, on which the required parts of
    /// both filters agree.
    pub open spec fn merge(self, other: FilterModel) -> FilterModel {
        FilterModel {
            width: self.width,
            id: self.id,
            mask: agreement(self.id & self.mask, other.id & other.mask) & self.width.id_mask(),
        }
    }
}

/// The interface of CAN-ID filtering by an identifier and an acceptance mask.
pub trait CanIdFilter: Sized {
    /// The filter as a mathematical value.
    spec fn model(&self) -> FilterModel;

    /// Checks whether the CAN-ID is accepted by the filter.
    fn match_can_id(&self, can_id: u32) -> (r: bool)
        ensures
            r == self.model().accepts(can_id),
    ;

    /// The CAN-ID the filter is based on; it lies within the filter's width.
    fn can_id(&self) -> (r: u32)
        ensures
            r == self.model().id,
            self.model().wf(),
    ;

    /// The set or computed acceptance mask.
    fn mask(&self) -> (r: u32)
        ensures
            r == self.model().mask,
    ;

    /// Whether the filter is for standard or extended CAN-IDs.
    fn mask_type(&self) -> (r: MaskType)
        ensures
            r == self.model().width,
    ;

    /// The number of CAN-IDs of the filter's width that it accepts.
    fn weight(&self) -> (r: u32)
        ensures
            r as nat == self.model().weight(),
    ;
}

/// The number of CAN-IDs of `width` bits that a filter with `mask` accepts.
fn weight_within(mask: u32, width: u32) -> (r: u32)
    requires
        width <= 29,
    ensures
        r as nat == pow2(clear_bits_below(mask, width as nat)),
{
    let mut counter: u32 = 0;
    let mut i: u32 = 0;
    while i < width
        invariant
            i <= width <= 29,
            counter <= i,
            counter as nat == clear_bits_below(mask, i as nat),
        decreases width - i,
    {
        if mask & (1u32 << i) == 0 {
            counter = counter + 1;
        }
        i = i + 1;
    }
    proof {
        lemma_u32_pow2_no_overflow(counter as nat);
        lemma_u32_shl_is_mul(1, counter);
    }
    1u32 << counter
}

/// The acceptance mask of the merge of two filters, within `id_mask`.
fn merged_mask(left_id: u32, left_mask: u32, right_id: u32, right_mask: u32, id_mask: u32) -> (r: u32)
    ensures
        r == agreement(left_id & left_mask, right_id & right_mask) & id_mask,
{
    let left = left_id & left_mask;
    let right = right_id & right_mask;
    let mask = (!left | right) & (!right | left);
    assert(mask == agreement(left, right)) by (bit_vector)
        requires
            mask == (!left | right) & (!right | left),
    ;
    mask & id_mask
}

/// A filter for standard (11-bit) CAN-IDs.
#[derive(PartialEq, Eq, Clone, Copy, Structural)]
pub struct StandardCanIdFilter {
    /// The CAN-ID the filter is based on.
    can_id: u32,
    /// The set or computed acceptance mask.
    mask: u32,
}

impl StandardCanIdFilter {
    /// The CAN-ID holds no bit outside the width.
    #[verifier::type_invariant]
    spec fn id_within_width(self) -> bool {
        self.can_id & STANDARD_FRAME_ID_MASK == self.can_id
    }

    /// Constructs a filter that accepts exactly `can_id`, cut to 11 bits.
    pub fn from_can_id(can_id: u32) -> (r: Self)
        ensures
            r.model() == FilterModel::exact(MaskType::Standard, can_id),
            r.model().wf(),
    {
        proof {
            let m = STANDARD_FRAME_ID_MASK;
            assert((can_id & m) & m == can_id & m) by (bit_vector);
        }
        Self { can_id: can_id & STANDARD_FRAME_ID_MASK, mask: STANDARD_FRAME_ID_MASK }
    }

    /// Constructs a filter that accepts any CAN-ID.
    pub fn accept_all() -> (r: Self)
        ensures
            r.model() == FilterModel::wildcard(MaskType::Standard),
            r.model().wf(),
    {
        assert(0u32 & STANDARD_FRAME_ID_MASK == 0u32) by (bit_vector);
        Self { can_id: 0, mask: 0 }
    }

    /// Two filters with one model are one value.
    pub proof fn lemma_model_determines(self, other: Self)
        requires
            self.model() == other.model(),
        ensures
            self == other,
    {
    }

    /// The merge of two filters, as a value of this type.
    pub closed spec fn merged(self, rhs: Self) -> Self {
        Self {
            can_id: self.can_id,
            mask: agreement(self.can_id & self.mask, rhs.can_id & rhs.mask) & STANDARD_FRAME_ID_MASK,
        }
    }

    /// The merged filter is the merge of the two filters' models.
    pub proof fn lemma_merged(self, rhs: Self)
        ensures
            self.merged(rhs).model() == self.model().merge(rhs.model()),
    {
    }

    /// Combines two filters into one that requires exactly the bits, within
    /// the width, on which the required parts of both agree. The mask is
    /// symmetric in the two filters; the CAN-ID is taken from `self`. Both
    /// filters have this type, so filters of different widths cannot be
    /// merged.
    pub fn merge(&self, rhs: &Self) -> (r: Self)
        ensures
            r == self.merged(*rhs),
            r.model() == self.model().merge(rhs.model()),
            r.model().wf(),
    {
        proof {
            use_type_invariant(self);
        }
        Self {
            can_id: self.can_id,
            mask: merged_mask(self.can_id, self.mask, rhs.can_id, rhs.mask, STANDARD_FRAME_ID_MASK),
        }
    }
}

impl CanIdFilter for StandardCanIdFilter {
    closed spec fn model(&self) -> FilterModel {
        FilterModel { width: MaskType::Standard, id: self.can_id, mask: self.mask }
    }

    fn match_can_id(&self, can_id: u32) -> (r: bool) {
        (self.can_id & self.mask) == (can_id & self.mask)
    }

    fn can_id(&self) -> (r: u32) {
        proof {
            use_type_invariant(self);
        }
        self.can_id
    }

    fn mask(&self) -> (r: u32) {
        self.mask
    }

    fn mask_type(&self) -> (r: MaskType) {
        MaskType::Standard
    }

    fn weight(&self) -> (r: u32) {
        weight_within(self.mask, STANDARD_FRAME_ID_LENGTH)
    }
}

impl core::ops::Add<StandardCanIdFilter> for StandardCanIdFilter {
    type Output = StandardCanIdFilter;

    /// Combines two filters, as [`StandardCanIdFilter::merge`] does.
    fn add(self, rhs: StandardCanIdFilter) -> (r: StandardCanIdFilter) {
        self.merge(&rhs)
    }
}

impl vstd::std_specs::ops::AddSpecImpl<StandardCanIdFilter> for StandardCanIdFilter {
    open spec fn obeys_add_spec() -> bool {
        true
    }

    open spec fn add_req(self, rhs: StandardCanIdFilter) -> bool {
        true
    }

    open spec fn add_spec(self, rhs: StandardCanIdFilter) -> StandardCanIdFilter {
        self.merged(rhs)
    }
}

impl<'a> core::ops::Add<&'a StandardCanIdFilter> for &'a StandardCanIdFilter {
    type Output = StandardCanIdFilter;

    /// Combines two filters, as [`StandardCanIdFilter::merge`] does.
    fn add(self, rhs: &'a StandardCanIdFilter) -> (r: StandardCanIdFilter) {
        self.merge(rhs)
    }
}

impl<'a> vstd::std_specs::ops::AddSpecImpl<&'a StandardCanIdFilter> for &'a StandardCanIdFilter {
    open spec fn obeys_add_spec() -> bool {
        true
    }

    open spec fn add_req(self, rhs: &'a StandardCanIdFilter) -> bool {
        true
    }

    open spec fn add_spec(self, rhs: &'a StandardCanIdFilter) -> StandardCanIdFilter {
        (*self).merged(*rhs)
    }
}

impl<'a> core::ops::Add<&'a StandardCanIdFilter> for StandardCanIdFilter {
    type Output = StandardCanIdFilter;

    /// Combines two filters, as [`StandardCanIdFilter::merge`] does.
    fn add(self, rhs: &'a StandardCanIdFilter) -> (r: StandardCanIdFilter) {
        self.merge(rhs)
    }
}

impl<'a> vstd::std_specs::ops::AddSpecImpl<&'a StandardCanIdFilter> for StandardCanIdFilter {
    open spec fn obeys_add_spec() -> bool {
        true
    }

    open spec fn add_req(self, rhs: &'a StandardCanIdFilter) -> bool {
        true
    }

    open spec fn add_spec(self, rhs: &'a StandardCanIdFilter) -> StandardCanIdFilter {
        self.merged(*rhs)
    }
}

/// A filter for extended (29-bit) CAN-IDs.
#[derive(PartialEq, Eq, Clone, Copy, Structural)]
pub struct ExtendedCanIdFilter {
    /// The CAN-ID the filter is based on.
    can_id: u32,
    /// The set or computed acceptance mask.
    mask: u32,
}

impl ExtendedCanIdFilter {
    /// The CAN-ID holds no bit outside the width.
    #[verifier::type_invariant]
    spec fn id_within_width(self) -> bool {
        self.can_id & EXTENDED_FRAME_ID_MASK == self.can_id
    }

    /// Constructs a filter that accepts exactly `can_id`, cut to 29 bits.
    pub fn from_can_id(can_id: u32) -> (r: Self)
        ensures
            r.model() == FilterModel::exact(MaskType::Extended, can_id),
            r.model().wf(),
    {
        proof {
            let m = EXTENDED_FRAME_ID_MASK;
            assert((can_id & m) & m == can_id & m) by (bit_vector);
        }
        Self { can_id: can_id & EXTENDED_FRAME_ID_MASK, mask: EXTENDED_FRAME_ID_MASK }
    }

    /// Constructs a filter that accepts any CAN-ID.
    pub fn accept_all() -> (r: Self)
        ensures
            r.model() == FilterModel::wildcard(MaskType::Extended),
            r.model().wf(),
    {
        assert(0u32 & EXTENDED_FRAME_ID_MASK == 0u32) by (bit_vector);
        Self { can_id: 0, mask: 0 }
    }

    /// Two filters with one model are one value.
    pub proof fn lemma_model_determines(self, other: Self)
        requires
            self.model() == other.model(),
        ensures
            self == other,
    {
    }

    /// The merge of two filters, as a value of this type.
    pub closed spec fn merged(self, rhs: Self) -> Self {
        Self {
            can_id: self.can_id,
            mask: agreement(self.can_id & self.mask, rhs.can_id & rhs.mask) & EXTENDED_FRAME_ID_MASK,
        }
    }

    /// The merged filter is the merge of the two filters' models.
    pub proof fn lemma_merged(self, rhs: Self)
        ensures
            self.merged(rhs).model() == self.model().merge(rhs.model()),
    {
    }

    /// Combines two filters into one that requires exactly the bits, within
    /// the width, on which the required parts of both agree. The mask is
    /// symmetric in the two filters; the CAN-ID is taken from `self`. Both
    /// filters have this type, so filters of different widths cannot be
    /// merged.
    pub fn merge(&self, rhs: &Self) -> (r: Self)
        ensures
            r == self.merged(*rhs),
            r.model() == self.model().merge(rhs.model()),
            r.model().wf(),
    {
        proof {
            use_type_invariant(self);
        }
        Self {
            can_id: self.can_id,
            mask: merged_mask(self.can_id, self.mask, rhs.can_id, rhs.mask, EXTENDED_FRAME_ID_MASK),
        }
    }
}

impl CanIdFilter for ExtendedCanIdFilter {
    closed spec fn model(&self) -> FilterModel {
        FilterModel { width: MaskType::Extended, id: self.can_id, mask: self.mask }
    }

    fn match_can_id(&self, can_id: u32) -> (r: bool) {
        (self.can_id & self.mask) == (can_id & self.mask)
    }

    fn can_id(&self) -> (r: u32) {
        proof {
            use_type_invariant(self);
        }
        self.can_id
    }

    fn mask(&self) -> (r: u32) {
        self.mask
    }

    fn mask_type(&self) -> (r: MaskType) {
        MaskType::Extended
    }

    fn weight(&self) -> (r: u32) {
        weight_within(self.mask, EXTENDED_FRAME_ID_LENGTH)
    }
}

impl core::ops::Add<ExtendedCanIdFilter> for ExtendedCanIdFilter {
    type Output = ExtendedCanIdFilter;

    /// Combines two filters, as [`ExtendedCanIdFilter::merge`] does.
    fn add(self, rhs: ExtendedCanIdFilter) -> (r: ExtendedCanIdFilter) {
        self.merge(&rhs)
    }
}

impl vstd::std_specs::ops::AddSpecImpl<ExtendedCanIdFilter> for ExtendedCanIdFilter {
    open spec fn obeys_add_spec() -> bool {
        true
    }

    open spec fn add_req(self, rhs: ExtendedCanIdFilter) -> bool {
        true
    }

    open spec fn add_spec(self, rhs: ExtendedCanIdFilter) -> ExtendedCanIdFilter {
        self.merged(rhs)
    }
}

impl<'a> core::ops::Add<&'a ExtendedCanIdFilter> for &'a ExtendedCanIdFilter {
    type Output = ExtendedCanIdFilter;

    /// Combines two filters, as [`ExtendedCanIdFilter::merge`] does.
    fn add(self, rhs: &'a ExtendedCanIdFilter) -> (r: ExtendedCanIdFilter) {
        self.merge(rhs)
    }
}

impl<'a> vstd::std_specs::ops::AddSpecImpl<&'a ExtendedCanIdFilter> for &'a ExtendedCanIdFilter {
    open spec fn obeys_add_spec() -> bool {
        true
    }

    open spec fn add_req(self, rhs: &'a ExtendedCanIdFilter) -> bool {
        true
    }

    open spec fn add_spec(self, rhs: &'a ExtendedCanIdFilter) -> ExtendedCanIdFilter {
        (*self).merged(*rhs)
    }
}

impl<'a> core::ops::Add<&'a ExtendedCanIdFilter> for ExtendedCanIdFilter {
    type Output = ExtendedCanIdFilter;

    /// Combines two filters, as [`ExtendedCanIdFilter::merge`] does.
    fn add(self, rhs: &'a ExtendedCanIdFilter) -> (r: ExtendedCanIdFilter) {
        self.merge(rhs)
    }
}

impl<'a> vstd::std_specs::ops::AddSpecImpl<&'a ExtendedCanIdFilter> for ExtendedCanIdFilter {
    open spec fn obeys_add_spec() -> bool {
        true
    }

    open spec fn add_req(self, rhs: &'a ExtendedCanIdFilter) -> bool {
        true
    }

    open spec fn add_spec(self, rhs: &'a ExtendedCanIdFilter) -> ExtendedCanIdFilter {
        self.merged(*rhs)
    }
}

/// An exact filter accepts the CAN-ID it was built from.
pub proof fn lemma_exact_accepts_own_id(width: MaskType, x: u32)
    ensures
        FilterModel::exact(width, x).accepts(x),
{
    let m = width.id_mask();
    assert((x & m) & m == x & m) by (bit_vector);
}

/// An exact filter rejects every CAN-ID that differs from its own within the
/// filter's width.
pub proof fn lemma_exact_rejects_other_ids(width: MaskType, x: u32, y: u32)
    requires
        x & width.id_mask() != y & width.id_mask(),
    ensures
        !FilterModel::exact(width, x).accepts(y),
{
    let m = width.id_mask();
    assert((x & m) & m == x & m) by (bit_vector);
}

/// A wildcard filter accepts every candidate.
pub proof fn lemma_wildcard_accepts_all(width: MaskType, y: u32)
    ensures
        FilterModel::wildcard(width).accepts(y),
{
    assert(0u32 & 0u32 == y & 0u32) by (bit_vector);
}

/// The merge of two exact filters of one width accepts both CAN-IDs they
/// were built from.
pub proof fn lemma_merge_covers_both(width: MaskType, x: u32, y: u32)
    ensures
        FilterModel::exact(width, x).merge(FilterModel::exact(width, y)).accepts(x),
        FilterModel::exact(width, x).merge(FilterModel::exact(width, y)).accepts(y),
{
    let w = width.id_mask();
    assert(((x & w) & (agreement((x & w) & w, (y & w) & w) & w)) == (x & (agreement(
        (x & w) & w,
        (y & w) & w,
    ) & w))) by (bit_vector);
    assert(((x & w) & (agreement((x & w) & w, (y & w) & w) & w)) == (y & (agreement(
        (x & w) & w,
        (y & w) & w,
    ) & w))) by (bit_vector);
}

/// Merging an exact filter with itself gives it back.
pub proof fn lemma_merge_exact_with_itself(width: MaskType, x: u32)
    ensures
        FilterModel::exact(width, x).merge(FilterModel::exact(width, x)) == FilterModel::exact(
            width,
            x,
        ),
{
    let w = width.id_mask();
    assert(agreement((x & w) & w, (x & w) & w) & w == w) by (bit_vector);
}

/// Merging two filters of one width gives the same mask in either order.
pub proof fn lemma_merge_mask_symmetric(a: FilterModel, b: FilterModel)
    requires
        a.width == b.width,
    ensures
        a.merge(b).mask == b.merge(a).mask,
{
    let x = a.id & a.mask;
    let y = b.id & b.mask;
    let w = a.width.id_mask();
    assert(agreement(x, y) & w == agreement(y, x) & w) by (bit_vector);
}

/// Every standard filter has the standard width.
pub broadcast proof fn lemma_standard_width(f: StandardCanIdFilter)
    ensures
        #[trigger] f.model().width == MaskType::Standard,
{
}

/// Every extended filter has the extended width.
pub broadcast proof fn lemma_extended_width(f: ExtendedCanIdFilter)
    ensures
        #[trigger] f.model().width == MaskType::Extended,
{
}

/// The widths of the two filter types, for `broadcast use`.
pub broadcast group group_filter_widths {
    lemma_standard_width,
    lemma_extended_width,
}

} // verus!
