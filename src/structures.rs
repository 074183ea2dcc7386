use vstd::prelude::*;
use vstd::slice::slice_to_vec;

verus! {

/// Which ambient sound behaviour is active.
#[derive(Clone, Copy, Debug, PartialEq, Eq, Hash, Structural)]
pub enum AmbientSoundMode {
    NoiseCanceling,
    Transparency,
    Normal,
}

impl AmbientSoundMode {
    pub open spec fn spec_id(self) -> u8 {
        match self {
            AmbientSoundMode::NoiseCanceling => 0,
            AmbientSoundMode::Transparency => 1,
            AmbientSoundMode::Normal => 2,
        }
    }

    pub open spec fn spec_from_id(id: u8) -> Option<AmbientSoundMode> {
        if id == 0 {
            Some(AmbientSoundMode::NoiseCanceling)
        } else if id == 1 {
            Some(AmbientSoundMode::Transparency)
        } else if id == 2 {
            Some(AmbientSoundMode::Normal)
        } else {
            None
        }
    }

    /// The byte that stands for this mode on the wire.
    pub fn id(self) -> (r: u8)
        ensures
            r == self.spec_id(),
    {
        match self {
            AmbientSoundMode::NoiseCanceling => 0,
            AmbientSoundMode::Transparency => 1,
            AmbientSoundMode::Normal => 2,
        }
    }

    pub fn from_id(id: u8) -> (r: Option<AmbientSoundMode>)
        ensures
            r == Self::spec_from_id(id),
    {
        if id == 0 {
            Some(AmbientSoundMode::NoiseCanceling)
        } else if id == 1 {
            Some(AmbientSoundMode::Transparency)
        } else if id == 2 {
            Some(AmbientSoundMode::Normal)
        } else {
            None
        }
    }
}

/// Which noise canceling environment is selected.
#[derive(Clone, Copy, Debug, PartialEq, Eq, Hash, Structural)]
pub enum NoiseCancelingMode {
    Transport,
    Outdoor,
    Indoor,
    Custom,
}

impl NoiseCancelingMode {
    pub open spec fn spec_id(self) -> u8 {
        match self {
            NoiseCancelingMode::Transport => 0,
            NoiseCancelingMode::Outdoor => 1,
            NoiseCancelingMode::Indoor => 2,
            NoiseCancelingMode::Custom => 3,
        }
    }

    pub open spec fn spec_from_id(id: u8) -> Option<NoiseCancelingMode> {
        if id == 0 {
            Some(NoiseCancelingMode::Transport)
        } else if id == 1 {
            Some(NoiseCancelingMode::Outdoor)
        } else if id == 2 {
            Some(NoiseCancelingMode::Indoor)
        } else if id == 3 {
            Some(NoiseCancelingMode::Custom)
        } else {
            None
        }
    }

    pub fn id(self) -> (r: u8)
        ensures
            r == self.spec_id(),
    {
        match self {
            NoiseCancelingMode::Transport => 0,
            NoiseCancelingMode::Outdoor => 1,
            NoiseCancelingMode::Indoor => 2,
            NoiseCancelingMode::Custom => 3,
        }
    }

    pub fn from_id(id: u8) -> (r: Option<NoiseCancelingMode>)
        ensures
            r == Self::spec_from_id(id),
    {
        if id == 0 {
            Some(NoiseCancelingMode::Transport)
        } else if id == 1 {
            Some(NoiseCancelingMode::Outdoor)
        } else if id == 2 {
            Some(NoiseCancelingMode::Indoor)
        } else if id == 3 {
            Some(NoiseCancelingMode::Custom)
        } else {
            None
        }
    }
}

/// How transparency mode treats voices.
#[derive(Clone, Copy, Debug, PartialEq, Eq, Hash, Structural)]
pub enum TransparencyMode {
    FullyTransparent,
    VocalMode,
}

impl TransparencyMode {
    pub open spec fn spec_id(self) -> u8 {
        match self {
            TransparencyMode::FullyTransparent => 0,
            TransparencyMode::VocalMode => 1,
        }
    }

    pub open spec fn spec_from_id(id: u8) -> Option<TransparencyMode> {
        if id == 0 {
            Some(TransparencyMode::FullyTransparent)
        } else if id == 1 {
            Some(TransparencyMode::VocalMode)
        } else {
            None
        }
    }

    pub fn id(self) -> (r: u8)
        ensures
            r == self.spec_id(),
    {
        match self {
            TransparencyMode::FullyTransparent => 0,
            TransparencyMode::VocalMode => 1,
        }
    }

    pub fn from_id(id: u8) -> (r: Option<TransparencyMode>)
        ensures
            r == Self::spec_from_id(id),
    {
        if id == 0 {
            Some(TransparencyMode::FullyTransparent)
        } else if id == 1 {
            Some(TransparencyMode::VocalMode)
        } else {
            None
        }
    }
}

/// Strength of the custom noise canceling mode, from 0 to 10.
#[derive(Clone, Copy, Debug, PartialEq, Eq, Hash, Structural)]
pub struct CustomNoiseCanceling {
    pub value: u8,
}

/// The strongest custom noise canceling level.
pub const MAX_CUSTOM_NOISE_CANCELING: u8 = 10;

impl CustomNoiseCanceling {
    pub open spec fn wf(self) -> bool {
        self.value <= MAX_CUSTOM_NOISE_CANCELING
    }

    pub open spec fn spec_new(value: u8) -> CustomNoiseCanceling {
        CustomNoiseCanceling {
            value: if value <= MAX_CUSTOM_NOISE_CANCELING {
                value
            } else {
                MAX_CUSTOM_NOISE_CANCELING
            },
        }
    }

    /// Clamps `value` to the supported range.
    pub fn new(value: u8) -> (r: CustomNoiseCanceling)
        ensures
            r == Self::spec_new(value),
            r.wf(),
    {
        if value <= MAX_CUSTOM_NOISE_CANCELING {
            CustomNoiseCanceling { value }
        } else {
            CustomNoiseCanceling { value: MAX_CUSTOM_NOISE_CANCELING }
        }
    }
}

/// The complete sound mode settings of a device.
#[derive(Clone, Copy, Debug, PartialEq, Eq, Hash, Structural)]
pub struct SoundModes {
    pub ambient_sound_mode: AmbientSoundMode,
    pub noise_canceling_mode: NoiseCancelingMode,
    pub transparency_mode: TransparencyMode,
    pub custom_noise_canceling: CustomNoiseCanceling,
}

/// Number of bytes that sound modes take on the wire.
pub const SOUND_MODES_LEN: usize = 4;

impl SoundModes {
    pub open spec fn wf(self) -> bool {
        self.custom_noise_canceling.wf()
    }

    /// Wire form: ambient mode, noise canceling mode, transparency mode,
    /// custom noise canceling level, one byte each.
    pub open spec fn spec_bytes(self) -> Seq<u8> {
        seq![
            self.ambient_sound_mode.spec_id(),
            self.noise_canceling_mode.spec_id(),
            self.transparency_mode.spec_id(),
            self.custom_noise_canceling.value,
        ]
    }

    pub open spec fn spec_parse(b: Seq<u8>) -> Option<SoundModes> {
        if b.len() != 4 {
            None
        } else {
            match (
                AmbientSoundMode::spec_from_id(b[0]),
                NoiseCancelingMode::spec_from_id(b[1]),
                TransparencyMode::spec_from_id(b[2]),
            ) {
                (Some(a), Some(n), Some(t)) => Some(
                    SoundModes {
                        ambient_sound_mode: a,
                        noise_canceling_mode: n,
                        transparency_mode: t,
                        custom_noise_canceling: CustomNoiseCanceling::spec_new(b[3]),
                    },
                ),
                _ => None,
            }
        }
    }

    pub open spec fn spec_default() -> SoundModes {
        SoundModes {
            ambient_sound_mode: AmbientSoundMode::Normal,
            noise_canceling_mode: NoiseCancelingMode::Transport,
            transparency_mode: TransparencyMode::VocalMode,
            custom_noise_canceling: CustomNoiseCanceling { value: 0 },
        }
    }

    pub fn bytes(&self) -> (r: Vec<u8>)
        ensures
            r@ == self.spec_bytes(),
    {
        let r = vec![
            self.ambient_sound_mode.id(),
            self.noise_canceling_mode.id(),
            self.transparency_mode.id(),
            self.custom_noise_canceling.value,
        ];
        assert(r@ == self.spec_bytes());
        r
    }

    /// Whether the custom noise canceling level is within range.
    pub fn is_valid(&self) -> (r: bool)
        ensures
            r == self.wf(),
    {
        self.custom_noise_canceling.value <= MAX_CUSTOM_NOISE_CANCELING
    }

    /// Reads sound modes from exactly four bytes.
    pub fn take(b: &[u8]) -> (r: Option<SoundModes>)
        ensures
            r == Self::spec_parse(b@),
            r matches Some(m) ==> m.wf(),
    {
        if b.len() != SOUND_MODES_LEN {
            return None;
        }
        let a = AmbientSoundMode::from_id(b[0]);
        let n = NoiseCancelingMode::from_id(b[1]);
        let t = TransparencyMode::from_id(b[2]);
        match (a, n, t) {
            (Some(a), Some(n), Some(t)) => Some(
                SoundModes {
                    ambient_sound_mode: a,
                    noise_canceling_mode: n,
                    transparency_mode: t,
                    custom_noise_canceling: CustomNoiseCanceling::new(b[3]),
                },
            ),
            _ => None,
        }
    }

    /// Reading back the wire form of well-formed sound modes gives them back.
    pub proof fn lemma_round_trip(self)
        requires
            self.wf(),
        ensures
            Self::spec_parse(self.spec_bytes()) == Some(self),
    {
    }
}

impl Default for SoundModes {
    fn default() -> (r: SoundModes)
        ensures
            r == SoundModes::spec_default(),
    {
        SoundModes {
            ambient_sound_mode: AmbientSoundMode::Normal,
            noise_canceling_mode: NoiseCancelingMode::Transport,
            transparency_mode: TransparencyMode::VocalMode,
            custom_noise_canceling: CustomNoiseCanceling { value: 0 },
        }
    }
}

/// Which ambient sound modes the mode button cycles through.
#[derive(Clone, Copy, Debug, PartialEq, Eq, Hash, Structural)]
pub struct AmbientSoundModeCycle {
    pub noise_canceling_mode: bool,
    pub transparency_mode: bool,
    pub normal_mode: bool,
}

pub const NOISE_CANCELING_MODE_BIT: u8 = 1;

pub const TRANSPARENCY_MODE_BIT: u8 = 2;

pub const NORMAL_MODE_BIT: u8 = 4;

impl AmbientSoundModeCycle {
    /// Bit 0 enables noise canceling, bit 1 transparency, bit 2 normal mode.
    pub open spec fn spec_from_byte(value: u8) -> AmbientSoundModeCycle {
        AmbientSoundModeCycle {
            noise_canceling_mode: value % 2 == 1,
            transparency_mode: (value / 2) % 2 == 1,
            normal_mode: (value / 4) % 2 == 1,
        }
    }

    pub open spec fn spec_byte(self) -> u8 {
        ((if self.noise_canceling_mode {
            1int
        } else {
            0
        }) + (if self.transparency_mode {
            2int
        } else {
            0
        }) + (if self.normal_mode {
            4int
        } else {
            0
        })) as u8
    }

    pub fn from_byte(value: u8) -> (r: AmbientSoundModeCycle)
        ensures
            r == Self::spec_from_byte(value),
    {
        assert((value & 1u8 != 0) == (value % 2 == 1)) by (bit_vector);
        assert((value & 2u8 != 0) == ((value / 2) % 2 == 1)) by (bit_vector);
        assert((value & 4u8 != 0) == ((value / 4) % 2 == 1)) by (bit_vector);
        AmbientSoundModeCycle {
            noise_canceling_mode: value & NOISE_CANCELING_MODE_BIT != 0,
            transparency_mode: value & TRANSPARENCY_MODE_BIT != 0,
            normal_mode: value & NORMAL_MODE_BIT != 0,
        }
    }

    pub fn to_byte(self) -> (r: u8)
        ensures
            r == self.spec_byte(),
    {
        let mut acc: u8 = 0;
        if self.noise_canceling_mode {
            acc = acc + NOISE_CANCELING_MODE_BIT;
        }
        if self.transparency_mode {
            acc = acc + TRANSPARENCY_MODE_BIT;
        }
        if self.normal_mode {
            acc = acc + NORMAL_MODE_BIT;
        }
        acc
    }

    /// Turning a cycle into its byte and back gives the same cycle.
    pub proof fn lemma_round_trip(self)
        ensures
            Self::spec_from_byte(self.spec_byte()) == self,
    {
    }
}

impl Default for AmbientSoundModeCycle {
    /// Every mode is in the cycle.
    fn default() -> (r: AmbientSoundModeCycle)
        ensures
            r.noise_canceling_mode && r.transparency_mode && r.normal_mode,
    {
        AmbientSoundModeCycle {
            noise_canceling_mode: true,
            transparency_mode: true,
            normal_mode: true,
        }
    }
}

/// Whether a battery is charging.
#[derive(Clone, Copy, Debug, PartialEq, Eq, Hash, Structural)]
pub enum IsBatteryCharging {
    No,
    Yes,
}

impl IsBatteryCharging {
    pub open spec fn spec_from_byte(b: u8) -> Option<IsBatteryCharging> {
        if b == 0 {
            Some(IsBatteryCharging::No)
        } else if b == 1 {
            Some(IsBatteryCharging::Yes)
        } else {
            None
        }
    }

    pub fn from_byte(b: u8) -> (r: Option<IsBatteryCharging>)
        ensures
            r == Self::spec_from_byte(b),
    {
        if b == 0 {
            Some(IsBatteryCharging::No)
        } else if b == 1 {
            Some(IsBatteryCharging::Yes)
        } else {
            None
        }
    }
}

/// Charge level of one battery as the device reports it.
#[derive(Clone, Copy, Debug, PartialEq, Eq, Hash, Structural)]
pub struct BatteryLevel(pub u8);

/// One battery: its level and whether it charges.
#[derive(Clone, Copy, Debug, PartialEq, Eq, Hash, Structural)]
pub struct SingleBattery {
    pub is_charging: IsBatteryCharging,
    pub level: BatteryLevel,
}

impl SingleBattery {
    /// Wire form: level byte, then charging byte.
    pub open spec fn spec_parse(b: Seq<u8>) -> Option<SingleBattery> {
        if b.len() != 2 {
            None
        } else {
            match IsBatteryCharging::spec_from_byte(b[1]) {
                Some(c) => Some(SingleBattery { is_charging: c, level: BatteryLevel(b[0]) }),
                None => None,
            }
        }
    }

    pub fn take(b: &[u8]) -> (r: Option<SingleBattery>)
        ensures
            r == Self::spec_parse(b@),
    {
        if b.len() != 2 {
            return None;
        }
        match IsBatteryCharging::from_byte(b[1]) {
            Some(c) => Some(SingleBattery { is_charging: c, level: BatteryLevel(b[0]) }),
            None => None,
        }
    }
}

/// Left and right batteries of a pair of earbuds.
#[derive(Clone, Copy, Debug, PartialEq, Eq, Hash, Structural)]
pub struct DualBattery {
    pub left: SingleBattery,
    pub right: SingleBattery,
}

/// The batteries of a device.
#[derive(Clone, Copy, Debug, PartialEq, Eq, Hash, Structural)]
pub enum Battery {
    Single(SingleBattery),
    Dual(DualBattery),
}

/// Gender setting used by hearing calibration.
#[derive(Clone, Copy, Debug, PartialEq, Eq, Hash, Structural)]
pub struct Gender(pub u8);

/// Age range setting used by hearing calibration.
#[derive(Clone, Copy, Debug, PartialEq, Eq, Hash, Structural)]
pub struct AgeRange(pub u8);

impl AgeRange {
    pub fn new(age_range: u8) -> (r: AgeRange)
        ensures
            r.0 == age_range,
    {
        AgeRange(age_range)
    }
}

/// Firmware version `major.minor`, written on the wire as five ASCII bytes
/// `dd.dd`.
#[derive(Clone, Copy, Debug, PartialEq, Eq, Hash, Structural)]
pub struct FirmwareVersion {
    pub major: u8,
    pub minor: u8,
}

pub open spec fn is_digit(b: u8) -> bool {
    0x30 <= b <= 0x39
}

/// Value of two ASCII decimal digits.
pub open spec fn two_digits(hi: u8, lo: u8) -> u8 {
    ((hi - 0x30) * 10 + (lo - 0x30)) as u8
}

impl FirmwareVersion {
    pub fn new(major: u8, minor: u8) -> (r: FirmwareVersion)
        ensures
            r.major == major,
            r.minor == minor,
    {
        FirmwareVersion { major, minor }
    }

    pub open spec fn spec_parse(b: Seq<u8>) -> Option<FirmwareVersion> {
        if b.len() == 5 && is_digit(b[0]) && is_digit(b[1]) && b[2] == 0x2e && is_digit(b[3])
            && is_digit(b[4]) {
            Some(FirmwareVersion { major: two_digits(b[0], b[1]), minor: two_digits(b[3], b[4]) })
        } else {
            None
        }
    }

    /// Orders versions by major number, then by minor number.
    pub open spec fn spec_le(self, other: FirmwareVersion) -> bool {
        self.major < other.major || (self.major == other.major && self.minor <= other.minor)
    }

    /// The later of two versions.
    pub open spec fn spec_max(self, other: FirmwareVersion) -> FirmwareVersion {
        if self.spec_le(other) {
            other
        } else {
            self
        }
    }

    /// Reads `dd.dd` from exactly five bytes.
    pub fn take(b: &[u8]) -> (r: Option<FirmwareVersion>)
        ensures
            r == Self::spec_parse(b@),
    {
        if b.len() != 5 {
            return None;
        }
        if !(0x30 <= b[0] && b[0] <= 0x39 && 0x30 <= b[1] && b[1] <= 0x39 && b[2] == 0x2e && 0x30
            <= b[3] && b[3] <= 0x39 && 0x30 <= b[4] && b[4] <= 0x39) {
            return None;
        }
        let major = (b[0] - 0x30) * 10 + (b[1] - 0x30);
        let minor = (b[3] - 0x30) * 10 + (b[4] - 0x30);
        Some(FirmwareVersion { major, minor })
    }

    /// The later of two versions.
    pub fn max(self, other: FirmwareVersion) -> (r: FirmwareVersion)
        ensures
            r == self.spec_max(other),
    {
        if self.major < other.major || (self.major == other.major && self.minor <= other.minor) {
            other
        } else {
            self
        }
    }
}

/// A custom assignment of actions to the buttons of a device, one action code
/// per gesture.
#[derive(Clone, Copy, Debug, PartialEq, Eq, Hash, Structural)]
pub struct CustomButtonModel {
    pub left_single_click: u8,
    pub left_double_click: u8,
    pub left_long_press: u8,
    pub right_single_click: u8,
    pub right_double_click: u8,
    pub right_long_press: u8,
}

impl CustomButtonModel {
    pub open spec fn spec_bytes(self) -> Seq<u8> {
        seq![
            self.left_single_click,
            self.left_double_click,
            self.left_long_press,
            self.right_single_click,
            self.right_double_click,
            self.right_long_press,
        ]
    }

    pub open spec fn spec_parse(b: Seq<u8>) -> Option<CustomButtonModel> {
        if b.len() == 6 {
            Some(
                CustomButtonModel {
                    left_single_click: b[0],
                    left_double_click: b[1],
                    left_long_press: b[2],
                    right_single_click: b[3],
                    right_double_click: b[4],
                    right_long_press: b[5],
                },
            )
        } else {
            None
        }
    }

    pub fn bytes(&self) -> (r: Vec<u8>)
        ensures
            r@ == self.spec_bytes(),
    {
        let r = vec![
            self.left_single_click,
            self.left_double_click,
            self.left_long_press,
            self.right_single_click,
            self.right_double_click,
            self.right_long_press,
        ];
        assert(r@ == self.spec_bytes());
        r
    }

    pub fn take(b: &[u8]) -> (r: Option<CustomButtonModel>)
        ensures
            r == Self::spec_parse(b@),
    {
        if b.len() != 6 {
            return None;
        }
        Some(
            CustomButtonModel {
                left_single_click: b[0],
                left_double_click: b[1],
                left_long_press: b[2],
                right_single_click: b[3],
                right_double_click: b[4],
                right_long_press: b[5],
            },
        )
    }

    /// Reading back the wire form of a button model gives it back.
    pub proof fn lemma_round_trip(self)
        ensures
            Self::spec_parse(self.spec_bytes()) == Some(self),
    {
    }
}


/// True when every byte is ASCII.
pub open spec fn is_ascii_bytes(b: Seq<u8>) -> bool {
    forall|i: int| 0 <= i < b.len() ==> #[trigger] b[i] < 128
}

/// The characters that ASCII bytes stand for, one per byte.
pub open spec fn ascii_chars(b: Seq<u8>) -> Seq<char> {
    b.map_values(|x: u8| x as char)
}

/// Relies on `String::from_utf8`: ASCII bytes are valid UTF-8, and each of
/// them decodes to the one character of the same code.
#[verifier::external_body]
fn string_from_ascii(bytes: Vec<u8>) -> (r: String)
    requires
        is_ascii_bytes(bytes@),
    ensures
        r@ == ascii_chars(bytes@),
{
    match String::from_utf8(bytes) {
        Ok(s) => s,
        Err(_) => String::new(),
    }
}

/// Number of ASCII characters in a serial number.
pub const SERIAL_NUMBER_LEN: usize = 16;

/// A device's serial number.
#[derive(Clone, Debug, PartialEq, Eq, Hash, PartialOrd, Ord)]
pub struct SerialNumber(pub String);

impl View for SerialNumber {
    type V = Seq<char>;

    open spec fn view(&self) -> Seq<char> {
        self.0@
    }
}

impl SerialNumber {
    pub open spec fn spec_parse(b: Seq<u8>) -> Option<Seq<char>> {
        if b.len() == SERIAL_NUMBER_LEN && is_ascii_bytes(b) {
            Some(ascii_chars(b))
        } else {
            None
        }
    }

    pub fn as_str(&self) -> (r: &str)
        ensures
            r@ == self@,
    {
        self.0.as_str()
    }

    /// Reads sixteen ASCII characters.
    pub fn take(b: &[u8]) -> (r: Option<SerialNumber>)
        ensures
            r matches Some(s) ==> Self::spec_parse(b@) == Some(s@),
            r is None ==> Self::spec_parse(b@) is None,
    {
        if b.len() != SERIAL_NUMBER_LEN {
            return None;
        }
        let mut i: usize = 0;
        while i < b.len()
            invariant
                i <= b@.len(),
                forall|j: int| 0 <= j < i ==> #[trigger] b@[j] < 128,
            decreases b@.len() - i,
        {
            if b[i] >= 128 {
                return None;
            }
            i += 1;
        }
        let bytes = slice_to_vec(b);
        Some(SerialNumber(string_from_ascii(bytes)))
    }

    pub fn duplicate(&self) -> (r: SerialNumber)
        ensures
            r@ == self@,
    {
        SerialNumber(self.0.clone())
    }
}

} // verus!
