use vstd::prelude::*;
use vstd::slice::{slice_subrange, slice_to_vec};

verus! {

/// Lowest band adjustment, in tenths of a decibel.
pub const MIN_VOLUME: i16 = -120;

/// Highest band adjustment, in tenths of a decibel.
pub const MAX_VOLUME: i16 = 135;

/// Profile id that marks an equalizer configuration as custom.
pub const CUSTOM_PROFILE_ID: u16 = 0xfefe;

/// A band adjustment in tenths of a decibel, from its wire byte.
pub open spec fn adjustment_from_byte(b: u8) -> i16 {
    (b as int + MIN_VOLUME as int) as i16
}

/// The wire byte of a band adjustment in tenths of a decibel.
pub open spec fn adjustment_byte(a: i16) -> u8 {
    (a as int - MIN_VOLUME as int) as u8
}

pub open spec fn adjustment_in_range(a: i16) -> bool {
    MIN_VOLUME <= a <= MAX_VOLUME
}

/// True when every adjustment lies within `MIN_VOLUME..=MAX_VOLUME`.
pub open spec fn bands_in_range(s: Seq<i16>) -> bool {
    forall|i: int| 0 <= i < s.len() ==> adjustment_in_range(#[trigger] s[i])
}

/// One wire byte per band.
pub open spec fn bands_bytes(s: Seq<i16>) -> Seq<u8> {
    s.map_values(|a: i16| adjustment_byte(a))
}

/// Little-endian value of two bytes.
pub open spec fn u16_le(lo: u8, hi: u8) -> u16 {
    (lo as int + hi as int * 256) as u16
}

pub open spec fn u16_le_bytes(v: u16) -> Seq<u8> {
    seq![(v as int % 256) as u8, (v as int / 256) as u8]
}

/// Gain of each equalizer band, in tenths of a decibel.
#[derive(Clone, Debug, PartialEq, Eq, Hash)]
pub struct VolumeAdjustments {
    pub adjustments: Vec<i16>,
}

impl View for VolumeAdjustments {
    type V = Seq<i16>;

    open spec fn view(&self) -> Seq<i16> {
        self.adjustments@
    }
}

impl VolumeAdjustments {
    pub open spec fn wf(&self) -> bool {
        bands_in_range(self@)
    }

    pub open spec fn spec_bytes(&self) -> Seq<u8> {
        bands_bytes(self@)
    }

    /// The adjustments that a sequence of wire bytes stands for.
    pub open spec fn spec_parse(b: Seq<u8>) -> Seq<i16> {
        b.map_values(|x: u8| adjustment_from_byte(x))
    }

    /// Accepts the adjustments when every one lies within
    /// `MIN_VOLUME..=MAX_VOLUME`.
    pub fn new(adjustments: Vec<i16>) -> (r: Option<VolumeAdjustments>)
        ensures
            r is Some <==> (forall|i: int|
                0 <= i < adjustments@.len() ==> adjustment_in_range(#[trigger] adjustments@[i])),
            r matches Some(v) ==> v@ == adjustments@ && v.wf(),
    {
        let mut i: usize = 0;
        while i < adjustments.len()
            invariant
                i <= adjustments@.len(),
                forall|j: int| 0 <= j < i ==> adjustment_in_range(#[trigger] adjustments@[j]),
            decreases adjustments@.len() - i,
        {
            if adjustments[i] < MIN_VOLUME || adjustments[i] > MAX_VOLUME {
                return None;
            }
            i += 1;
        }
        Some(VolumeAdjustments { adjustments })
    }

    /// Whether every adjustment lies within range.
    pub fn is_valid(&self) -> (r: bool)
        ensures
            r == self.wf(),
    {
        let mut i: usize = 0;
        while i < self.adjustments.len()
            invariant
                i <= self@.len(),
                forall|j: int| 0 <= j < i ==> adjustment_in_range(#[trigger] self@[j]),
            decreases self@.len() - i,
        {
            if self.adjustments[i] < MIN_VOLUME || self.adjustments[i] > MAX_VOLUME {
                return false;
            }
            i += 1;
        }
        true
    }

    pub fn duplicate(&self) -> (r: VolumeAdjustments)
        ensures
            r@ == self@,
    {
        VolumeAdjustments { adjustments: slice_to_vec(self.adjustments.as_slice()) }
    }

    pub fn adjustments(&self) -> (r: &[i16])
        ensures
            r@ == self@,
    {
        self.adjustments.as_slice()
    }

    pub fn len(&self) -> (r: usize)
        ensures
            r == self@.len(),
    {
        self.adjustments.len()
    }

    /// One wire byte per band.
    pub fn bytes(&self) -> (r: Vec<u8>)
        requires
            self.wf(),
        ensures
            r@ == self.spec_bytes(),
    {
        let mut r: Vec<u8> = Vec::new();
        let mut i: usize = 0;
        while i < self.adjustments.len()
            invariant
                self.wf(),
                i <= self@.len(),
                r@ == self@.subrange(0, i as int).map_values(|a: i16| adjustment_byte(a)),
            decreases self@.len() - i,
        {
            let a = self.adjustments[i];
            assert(adjustment_in_range(self@[i as int]));
            r.push((a - MIN_VOLUME) as u8);
            assert(self@.subrange(0, i + 1) == self@.subrange(0, i as int).push(a));
            i += 1;
        }
        assert(self@.subrange(0, i as int) == self@);
        r
    }

    /// Reads one adjustment from each byte.
    pub fn take(b: &[u8]) -> (r: VolumeAdjustments)
        ensures
            r@ == Self::spec_parse(b@),
            r.wf(),
    {
        let mut v: Vec<i16> = Vec::new();
        let mut i: usize = 0;
        while i < b.len()
            invariant
                i <= b@.len(),
                v@ == b@.subrange(0, i as int).map_values(|x: u8| adjustment_from_byte(x)),
                forall|j: int| 0 <= j < v@.len() ==> adjustment_in_range(#[trigger] v@[j]),
            decreases b@.len() - i,
        {
            v.push(b[i] as i16 + MIN_VOLUME);
            assert(b@.subrange(0, i + 1) == b@.subrange(0, i as int).push(b@[i as int]));
            i += 1;
        }
        assert(b@.subrange(0, i as int) == b@);
        VolumeAdjustments { adjustments: v }
    }

    /// Compares the adjustments band by band.
    pub fn same_as(&self, other: &VolumeAdjustments) -> (r: bool)
        ensures
            r == (self@ == other@),
    {
        if self.adjustments.len() != other.adjustments.len() {
            return false;
        }
        let mut i: usize = 0;
        while i < self.adjustments.len()
            invariant
                i <= self@.len(),
                self@.len() == other@.len(),
                forall|j: int| 0 <= j < i ==> self@[j] == other@[j],
            decreases self@.len() - i,
        {
            if self.adjustments[i] != other.adjustments[i] {
                return false;
            }
            i += 1;
        }
        assert(self@ == other@);
        true
    }

    pub proof fn lemma_round_trip(&self)
        requires
            self.wf(),
        ensures
            Self::spec_parse(self.spec_bytes()) == self@,
    {
        assert forall|i: int| 0 <= i < self@.len() implies Self::spec_parse(self.spec_bytes())[i]
            == self@[i] by {
            assert(adjustment_in_range(self@[i]));
        }
        assert(Self::spec_parse(self.spec_bytes()) == self@);
    }
}

/// A preset or custom equalizer profile with its band adjustments.
#[derive(Clone, Debug, PartialEq, Eq, Hash)]
pub struct EqualizerConfiguration {
    pub profile_id: u16,
    pub volume_adjustments: VolumeAdjustments,
}

impl View for EqualizerConfiguration {
    type V = (u16, Seq<i16>);

    open spec fn view(&self) -> (u16, Seq<i16>) {
        (self.profile_id, self.volume_adjustments@)
    }
}

impl EqualizerConfiguration {
    pub open spec fn wf(&self) -> bool {
        self.volume_adjustments.wf()
    }

    /// Wire form: profile id, little-endian, then one byte per band.
    pub open spec fn spec_bytes(&self) -> Seq<u8> {
        u16_le_bytes(self.profile_id) + self.volume_adjustments.spec_bytes()
    }

    /// What `b` holds as a configuration of `num_bands` bands.
    pub open spec fn spec_parse(b: Seq<u8>, num_bands: nat) -> Option<(u16, Seq<i16>)> {
        if b.len() == 2 + num_bands {
            Some((u16_le(b[0], b[1]), VolumeAdjustments::spec_parse(b.subrange(2, b.len() as int))))
        } else {
            None
        }
    }

    pub fn new_custom_profile(volume_adjustments: VolumeAdjustments) -> (r: EqualizerConfiguration)
        ensures
            r.profile_id == CUSTOM_PROFILE_ID,
            r.volume_adjustments == volume_adjustments,
    {
        EqualizerConfiguration { profile_id: CUSTOM_PROFILE_ID, volume_adjustments }
    }

    pub fn volume_adjustments(&self) -> (r: &VolumeAdjustments)
        ensures
            r == &self.volume_adjustments,
    {
        &self.volume_adjustments
    }

    pub fn profile_id(&self) -> (r: u16)
        ensures
            r == self.profile_id,
    {
        self.profile_id
    }

    /// The id of the preset profile, or `None` for a custom profile.
    pub fn preset_profile_id(&self) -> (r: Option<u16>)
        ensures
            r == (if self.profile_id == CUSTOM_PROFILE_ID {
                None
            } else {
                Some(self.profile_id)
            }),
    {
        if self.profile_id == CUSTOM_PROFILE_ID {
            None
        } else {
            Some(self.profile_id)
        }
    }

    pub fn bytes(&self) -> (r: Vec<u8>)
        requires
            self.wf(),
        ensures
            r@ == self.spec_bytes(),
    {
        let mut r: Vec<u8> = vec![(self.profile_id % 256) as u8, (self.profile_id / 256) as u8];
        let mut bands = self.volume_adjustments.bytes();
        r.append(&mut bands);
        r
    }

    /// Reads a configuration of `num_bands` bands from exactly
    /// `2 + num_bands` bytes.
    pub fn take(b: &[u8], num_bands: usize) -> (r: Option<EqualizerConfiguration>)
        ensures
            r matches Some(c) ==> Self::spec_parse(b@, num_bands as nat) == Some(c@) && c.wf(),
            r is None ==> Self::spec_parse(b@, num_bands as nat) is None,
    {
        if b.len() < 2 || b.len() - 2 != num_bands {
            return None;
        }
        let profile_id = b[0] as u16 + (b[1] as u16) * 256;
        let volume_adjustments = VolumeAdjustments::take(slice_subrange(b, 2, b.len()));
        Some(EqualizerConfiguration { profile_id, volume_adjustments })
    }

    pub fn duplicate(&self) -> (r: EqualizerConfiguration)
        ensures
            r@ == self@,
    {
        EqualizerConfiguration {
            profile_id: self.profile_id,
            volume_adjustments: self.volume_adjustments.duplicate(),
        }
    }

    /// Compares profile id and every band.
    pub fn same_as(&self, other: &EqualizerConfiguration) -> (r: bool)
        ensures
            r == (self@ == other@),
    {
        self.profile_id == other.profile_id && self.volume_adjustments.same_as(
            &other.volume_adjustments,
        )
    }

    /// Reading back the wire form of a well-formed configuration gives it
    /// back.
    pub proof fn lemma_round_trip(&self)
        requires
            self.wf(),
        ensures
            Self::spec_parse(self.spec_bytes(), self.volume_adjustments@.len()) == Some(self@),
    {
        let b = self.spec_bytes();
        self.volume_adjustments.lemma_round_trip();
        assert(b.subrange(2, b.len() as int) == self.volume_adjustments.spec_bytes());
    }
}

/// Adjustments for the left and right channel.
#[derive(Clone, Debug, PartialEq, Eq, Hash)]
pub struct StereoVolumeAdjustments {
    pub left: VolumeAdjustments,
    pub right: VolumeAdjustments,
}

/// A personal hearing calibration: whether it is on, the adjustments it makes
/// per channel, and when it was made.
#[derive(Clone, Debug, PartialEq, Eq, Hash)]
pub struct HearId {
    pub is_enabled: bool,
    pub volume_adjustments: StereoVolumeAdjustments,
    pub time: u32,
}

/// Little-endian value of four bytes.
pub open spec fn u32_le(b: Seq<u8>) -> u32 {
    (b[0] as int + b[1] as int * 0x100 + b[2] as int * 0x10000 + b[3] as int * 0x1000000) as u32
}

pub open spec fn u32_le_bytes(v: u32) -> Seq<u8> {
    seq![
        (v as int % 0x100) as u8,
        (v as int / 0x100 % 0x100) as u8,
        (v as int / 0x10000 % 0x100) as u8,
        (v as int / 0x1000000) as u8,
    ]
}

/// The four little-endian bytes of `v`.
pub fn u32_to_le_bytes(v: u32) -> (r: Vec<u8>)
    ensures
        r@ == u32_le_bytes(v),
{
    let r = vec![
        (v % 0x100) as u8,
        (v / 0x100 % 0x100) as u8,
        (v / 0x10000 % 0x100) as u8,
        (v / 0x1000000) as u8,
    ];
    assert(r@ == u32_le_bytes(v));
    r
}

/// The value of four little-endian bytes.
pub fn u32_from_le_bytes(b: &[u8]) -> (r: u32)
    requires
        b@.len() == 4,
    ensures
        r == u32_le(b@),
{
    b[0] as u32 + (b[1] as u32) * 0x100 + (b[2] as u32) * 0x10000 + (b[3] as u32) * 0x1000000
}

/// Reading back the little-endian bytes of a value gives the value.
pub proof fn lemma_u32_le_round_trip(v: u32)
    ensures
        u32_le(u32_le_bytes(v)) == v,
{
    let x = v as int;
    assert(x == x % 0x100 + (x / 0x100 % 0x100) * 0x100 + (x / 0x10000 % 0x100) * 0x10000 + (x
        / 0x1000000) * 0x1000000) by (nonlinear_arith)
        requires
            0 <= x < 0x1_0000_0000,
    ;
}

/// Wire form of a hearing calibration given as plain values.
pub open spec fn hear_id_bytes(h: (bool, Seq<i16>, Seq<i16>, u32)) -> Seq<u8> {
    seq![if h.0 { 1u8 } else { 0u8 }] + bands_bytes(h.1) + bands_bytes(h.2) + u32_le_bytes(h.3)
}

impl View for HearId {
    type V = (bool, Seq<i16>, Seq<i16>, u32);

    open spec fn view(&self) -> (bool, Seq<i16>, Seq<i16>, u32) {
        (self.is_enabled, self.volume_adjustments.left@, self.volume_adjustments.right@, self.time)
    }
}

/// Bands per channel in a hearing calibration.
pub const HEAR_ID_BANDS: usize = 8;

/// Bytes a hearing calibration takes on the wire.
pub const HEAR_ID_LEN: usize = 21;

impl HearId {
    pub open spec fn wf(&self) -> bool {
        &&& self.volume_adjustments.left.wf()
        &&& self.volume_adjustments.right.wf()
        &&& self.volume_adjustments.left@.len() == HEAR_ID_BANDS
        &&& self.volume_adjustments.right@.len() == HEAR_ID_BANDS
    }

    /// Wire form: enabled flag, eight left bands, eight right bands, then the
    /// time as four little-endian bytes.
    pub open spec fn spec_bytes(&self) -> Seq<u8> {
        hear_id_bytes(self@)
    }

    pub open spec fn spec_parse(b: Seq<u8>) -> Option<(bool, Seq<i16>, Seq<i16>, u32)> {
        if b.len() == HEAR_ID_LEN && b[0] <= 1 {
            Some(
                (
                    b[0] == 1,
                    VolumeAdjustments::spec_parse(b.subrange(1, 9)),
                    VolumeAdjustments::spec_parse(b.subrange(9, 17)),
                    u32_le(b.subrange(17, 21)),
                ),
            )
        } else {
            None
        }
    }

    pub fn bytes(&self) -> (r: Vec<u8>)
        requires
            self.wf(),
        ensures
            r@ == self.spec_bytes(),
    {
        let mut r: Vec<u8> = vec![if self.is_enabled { 1u8 } else { 0u8 }];
        let mut left = self.volume_adjustments.left.bytes();
        let mut right = self.volume_adjustments.right.bytes();
        let mut time = u32_to_le_bytes(self.time);
        r.append(&mut left);
        r.append(&mut right);
        r.append(&mut time);
        r
    }

    pub fn take(b: &[u8]) -> (r: Option<HearId>)
        ensures
            r matches Some(h) ==> Self::spec_parse(b@) == Some(h@) && h.wf(),
            r is None ==> Self::spec_parse(b@) is None,
    {
        if b.len() != HEAR_ID_LEN || b[0] > 1 {
            return None;
        }
        let left = VolumeAdjustments::take(slice_subrange(b, 1, 9));
        let right = VolumeAdjustments::take(slice_subrange(b, 9, 17));
        let time = u32_from_le_bytes(slice_subrange(b, 17, 21));
        Some(
            HearId {
                is_enabled: b[0] == 1,
                volume_adjustments: StereoVolumeAdjustments { left, right },
                time,
            },
        )
    }

    pub fn duplicate(&self) -> (r: HearId)
        ensures
            r@ == self@,
    {
        HearId {
            is_enabled: self.is_enabled,
            volume_adjustments: StereoVolumeAdjustments {
                left: self.volume_adjustments.left.duplicate(),
                right: self.volume_adjustments.right.duplicate(),
            },
            time: self.time,
        }
    }

    /// Whether both channels have eight bands within range.
    pub fn is_valid(&self) -> (r: bool)
        ensures
            r == self.wf(),
    {
        self.volume_adjustments.left.len() == HEAR_ID_BANDS && self.volume_adjustments.right.len()
            == HEAR_ID_BANDS && self.volume_adjustments.left.is_valid()
            && self.volume_adjustments.right.is_valid()
    }

    pub fn same_as(&self, other: &HearId) -> (r: bool)
        ensures
            r == (self@ == other@),
    {
        self.is_enabled == other.is_enabled && self.time == other.time
            && self.volume_adjustments.left.same_as(&other.volume_adjustments.left)
            && self.volume_adjustments.right.same_as(&other.volume_adjustments.right)
    }

    /// Reading back the wire form of a well-formed calibration gives it back.
    pub proof fn lemma_round_trip(&self)
        requires
            self.wf(),
        ensures
            Self::spec_parse(self.spec_bytes()) == Some(self@),
    {
        let b = self.spec_bytes();
        let l = self.volume_adjustments.left;
        let r = self.volume_adjustments.right;
        l.lemma_round_trip();
        r.lemma_round_trip();
        lemma_u32_le_round_trip(self.time);
        assert(b.subrange(1, 9) == l.spec_bytes());
        assert(b.subrange(9, 17) == r.spec_bytes());
        assert(b.subrange(17, 21) == u32_le_bytes(self.time));
    }
}

} // verus!
