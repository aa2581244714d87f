use vstd::prelude::*;

verus! {

/// Raw code of a decorative gap in the key layout. No device ever reports it.
pub const SPACER_CODE: u64 = 0xFFFF_FFFF_FFFF_FFFE;

/// Raw code of a key cap that is drawn but that no device event is tied to.
pub const UNBOUND_CODE: u64 = 0xFFFF_FFFF_FFFF_FFFD;

/// Number of registry slots: one for each named key, for each raw code of the
/// numeric pad, and for each of the two decorative codes.
pub const SLOT_COUNT: u8 = 124;

/// One distinguishable input: a named key, or a key known only by its raw code.
#[derive(Clone, Copy, Debug, PartialEq, Eq, Hash, Structural)]
pub enum LogicalKey {
    BackspaceKey,
    TabKey,
    EnterKey,
    EscapeKey,
    SpaceKey,
    PageUpKey,
    PageDownKey,
    EndKey,
    HomeKey,
    LeftKey,
    UpKey,
    RightKey,
    DownKey,
    InsertKey,
    DeleteKey,
    Numrow0Key,
    Numrow1Key,
    Numrow2Key,
    Numrow3Key,
    Numrow4Key,
    Numrow5Key,
    Numrow6Key,
    Numrow7Key,
    Numrow8Key,
    Numrow9Key,
    AKey,
    BKey,
    CKey,
    DKey,
    EKey,
    FKey,
    GKey,
    HKey,
    IKey,
    JKey,
    KKey,
    LKey,
    MKey,
    NKey,
    OKey,
    PKey,
    QKey,
    RKey,
    SKey,
    TKey,
    UKey,
    VKey,
    WKey,
    XKey,
    YKey,
    ZKey,
    LSuper,
    RSuper,
    Numpad0Key,
    Numpad1Key,
    Numpad2Key,
    Numpad3Key,
    Numpad4Key,
    Numpad5Key,
    Numpad6Key,
    Numpad7Key,
    Numpad8Key,
    Numpad9Key,
    F1Key,
    F2Key,
    F3Key,
    F4Key,
    F5Key,
    F6Key,
    F7Key,
    F8Key,
    F9Key,
    F10Key,
    F11Key,
    F12Key,
    F13Key,
    F14Key,
    F15Key,
    F16Key,
    F17Key,
    F18Key,
    F19Key,
    F20Key,
    F21Key,
    F22Key,
    F23Key,
    F24Key,
    NumLockKey,
    ScrollLockKey,
    CapsLockKey,
    LShiftKey,
    RShiftKey,
    LControlKey,
    RControlKey,
    LAltKey,
    RAltKey,
    BrowserBackKey,
    BrowserForwardKey,
    BrowserRefreshKey,
    VolumeMuteKey,
    VolumeDownKey,
    VolumeUpKey,
    MediaNextTrackKey,
    MediaPrevTrackKey,
    MediaStopKey,
    MediaPlayPauseKey,
    BackquoteKey,
    SlashKey,
    BackslashKey,
    CommaKey,
    PeriodKey,
    MinusKey,
    QuoteKey,
    SemicolonKey,
    LBracketKey,
    RBracketKey,
    EqualKey,
    OtherKey(u64),
}

impl LogicalKey {
    /// The registry slot of a key. Every named key has one, and so has every raw
    /// code of the fixed table, the two decorative codes among them. `None` is for
    /// a raw code outside the table: input that is not recognised.
    pub open spec fn slot_spec(self) -> Option<u8> {
        match self {
            LogicalKey::BackspaceKey => Some(0u8),
            LogicalKey::TabKey => Some(1u8),
            LogicalKey::EnterKey => Some(2u8),
            LogicalKey::EscapeKey => Some(3u8),
            LogicalKey::SpaceKey => Some(4u8),
            LogicalKey::PageUpKey => Some(5u8),
            LogicalKey::PageDownKey => Some(6u8),
            LogicalKey::EndKey => Some(7u8),
            LogicalKey::HomeKey => Some(8u8),
            LogicalKey::LeftKey => Some(9u8),
            LogicalKey::UpKey => Some(10u8),
            LogicalKey::RightKey => Some(11u8),
            LogicalKey::DownKey => Some(12u8),
            LogicalKey::InsertKey => Some(13u8),
            LogicalKey::DeleteKey => Some(14u8),
            LogicalKey::Numrow0Key => Some(15u8),
            LogicalKey::Numrow1Key => Some(16u8),
            LogicalKey::Numrow2Key => Some(17u8),
            LogicalKey::Numrow3Key => Some(18u8),
            LogicalKey::Numrow4Key => Some(19u8),
            LogicalKey::Numrow5Key => Some(20u8),
            LogicalKey::Numrow6Key => Some(21u8),
            LogicalKey::Numrow7Key => Some(22u8),
            LogicalKey::Numrow8Key => Some(23u8),
            LogicalKey::Numrow9Key => Some(24u8),
            LogicalKey::AKey => Some(25u8),
            LogicalKey::BKey => Some(26u8),
            LogicalKey::CKey => Some(27u8),
            LogicalKey::DKey => Some(28u8),
            LogicalKey::EKey => Some(29u8),
            LogicalKey::FKey => Some(30u8),
            LogicalKey::GKey => Some(31u8),
            LogicalKey::HKey => Some(32u8),
            LogicalKey::IKey => Some(33u8),
            LogicalKey::JKey => Some(34u8),
            LogicalKey::KKey => Some(35u8),
            LogicalKey::LKey => Some(36u8),
            LogicalKey::MKey => Some(37u8),
            LogicalKey::NKey => Some(38u8),
            LogicalKey::OKey => Some(39u8),
            LogicalKey::PKey => Some(40u8),
            LogicalKey::QKey => Some(41u8),
            LogicalKey::RKey => Some(42u8),
            LogicalKey::SKey => Some(43u8),
            LogicalKey::TKey => Some(44u8),
            LogicalKey::UKey => Some(45u8),
            LogicalKey::VKey => Some(46u8),
            LogicalKey::WKey => Some(47u8),
            LogicalKey::XKey => Some(48u8),
            LogicalKey::YKey => Some(49u8),
            LogicalKey::ZKey => Some(50u8),
            LogicalKey::LSuper => Some(51u8),
            LogicalKey::RSuper => Some(52u8),
            LogicalKey::Numpad0Key => Some(53u8),
            LogicalKey::Numpad1Key => Some(54u8),
            LogicalKey::Numpad2Key => Some(55u8),
            LogicalKey::Numpad3Key => Some(56u8),
            LogicalKey::Numpad4Key => Some(57u8),
            LogicalKey::Numpad5Key => Some(58u8),
            LogicalKey::Numpad6Key => Some(59u8),
            LogicalKey::Numpad7Key => Some(60u8),
            LogicalKey::Numpad8Key => Some(61u8),
            LogicalKey::Numpad9Key => Some(62u8),
            LogicalKey::F1Key => Some(63u8),
            LogicalKey::F2Key => Some(64u8),
            LogicalKey::F3Key => Some(65u8),
            LogicalKey::F4Key => Some(66u8),
            LogicalKey::F5Key => Some(67u8),
            LogicalKey::F6Key => Some(68u8),
            LogicalKey::F7Key => Some(69u8),
            LogicalKey::F8Key => Some(70u8),
            LogicalKey::F9Key => Some(71u8),
            LogicalKey::F10Key => Some(72u8),
            LogicalKey::F11Key => Some(73u8),
            LogicalKey::F12Key => Some(74u8),
            LogicalKey::F13Key => Some(75u8),
            LogicalKey::F14Key => Some(76u8),
            LogicalKey::F15Key => Some(77u8),
            LogicalKey::F16Key => Some(78u8),
            LogicalKey::F17Key => Some(79u8),
            LogicalKey::F18Key => Some(80u8),
            LogicalKey::F19Key => Some(81u8),
            LogicalKey::F20Key => Some(82u8),
            LogicalKey::F21Key => Some(83u8),
            LogicalKey::F22Key => Some(84u8),
            LogicalKey::F23Key => Some(85u8),
            LogicalKey::F24Key => Some(86u8),
            LogicalKey::NumLockKey => Some(87u8),
            LogicalKey::ScrollLockKey => Some(88u8),
            LogicalKey::CapsLockKey => Some(89u8),
            LogicalKey::LShiftKey => Some(90u8),
            LogicalKey::RShiftKey => Some(91u8),
            LogicalKey::LControlKey => Some(92u8),
            LogicalKey::RControlKey => Some(93u8),
            LogicalKey::LAltKey => Some(94u8),
            LogicalKey::RAltKey => Some(95u8),
            LogicalKey::BrowserBackKey => Some(96u8),
            LogicalKey::BrowserForwardKey => Some(97u8),
            LogicalKey::BrowserRefreshKey => Some(98u8),
            LogicalKey::VolumeMuteKey => Some(99u8),
            LogicalKey::VolumeDownKey => Some(100u8),
            LogicalKey::VolumeUpKey => Some(101u8),
            LogicalKey::MediaNextTrackKey => Some(102u8),
            LogicalKey::MediaPrevTrackKey => Some(103u8),
            LogicalKey::MediaStopKey => Some(104u8),
            LogicalKey::MediaPlayPauseKey => Some(105u8),
            LogicalKey::BackquoteKey => Some(106u8),
            LogicalKey::SlashKey => Some(107u8),
            LogicalKey::BackslashKey => Some(108u8),
            LogicalKey::CommaKey => Some(109u8),
            LogicalKey::PeriodKey => Some(110u8),
            LogicalKey::MinusKey => Some(111u8),
            LogicalKey::QuoteKey => Some(112u8),
            LogicalKey::SemicolonKey => Some(113u8),
            LogicalKey::LBracketKey => Some(114u8),
            LogicalKey::RBracketKey => Some(115u8),
            LogicalKey::EqualKey => Some(116u8),
            LogicalKey::OtherKey(code) => raw_slot_spec(code),
        }
    }

    /// Looks up the registry slot of a key.
    pub fn slot(&self) -> (r: Option<u8>)
        ensures
            r == self.slot_spec(),
    {
        match self {
            LogicalKey::BackspaceKey => Some(0),
            LogicalKey::TabKey => Some(1),
            LogicalKey::EnterKey => Some(2),
            LogicalKey::EscapeKey => Some(3),
            LogicalKey::SpaceKey => Some(4),
            LogicalKey::PageUpKey => Some(5),
            LogicalKey::PageDownKey => Some(6),
            LogicalKey::EndKey => Some(7),
            LogicalKey::HomeKey => Some(8),
            LogicalKey::LeftKey => Some(9),
            LogicalKey::UpKey => Some(10),
            LogicalKey::RightKey => Some(11),
            LogicalKey::DownKey => Some(12),
            LogicalKey::InsertKey => Some(13),
            LogicalKey::DeleteKey => Some(14),
            LogicalKey::Numrow0Key => Some(15),
            LogicalKey::Numrow1Key => Some(16),
            LogicalKey::Numrow2Key => Some(17),
            LogicalKey::Numrow3Key => Some(18),
            LogicalKey::Numrow4Key => Some(19),
            LogicalKey::Numrow5Key => Some(20),
            LogicalKey::Numrow6Key => Some(21),
            LogicalKey::Numrow7Key => Some(22),
            LogicalKey::Numrow8Key => Some(23),
            LogicalKey::Numrow9Key => Some(24),
            LogicalKey::AKey => Some(25),
            LogicalKey::BKey => Some(26),
            LogicalKey::CKey => Some(27),
            LogicalKey::DKey => Some(28),
            LogicalKey::EKey => Some(29),
            LogicalKey::FKey => Some(30),
            LogicalKey::GKey => Some(31),
            LogicalKey::HKey => Some(32),
            LogicalKey::IKey => Some(33),
            LogicalKey::JKey => Some(34),
            LogicalKey::KKey => Some(35),
            LogicalKey::LKey => Some(36),
            LogicalKey::MKey => Some(37),
            LogicalKey::NKey => Some(38),
            LogicalKey::OKey => Some(39),
            LogicalKey::PKey => Some(40),
            LogicalKey::QKey => Some(41),
            LogicalKey::RKey => Some(42),
            LogicalKey::SKey => Some(43),
            LogicalKey::TKey => Some(44),
            LogicalKey::UKey => Some(45),
            LogicalKey::VKey => Some(46),
            LogicalKey::WKey => Some(47),
            LogicalKey::XKey => Some(48),
            LogicalKey::YKey => Some(49),
            LogicalKey::ZKey => Some(50),
            LogicalKey::LSuper => Some(51),
            LogicalKey::RSuper => Some(52),
            LogicalKey::Numpad0Key => Some(53),
            LogicalKey::Numpad1Key => Some(54),
            LogicalKey::Numpad2Key => Some(55),
            LogicalKey::Numpad3Key => Some(56),
            LogicalKey::Numpad4Key => Some(57),
            LogicalKey::Numpad5Key => Some(58),
            LogicalKey::Numpad6Key => Some(59),
            LogicalKey::Numpad7Key => Some(60),
            LogicalKey::Numpad8Key => Some(61),
            LogicalKey::Numpad9Key => Some(62),
            LogicalKey::F1Key => Some(63),
            LogicalKey::F2Key => Some(64),
            LogicalKey::F3Key => Some(65),
            LogicalKey::F4Key => Some(66),
            LogicalKey::F5Key => Some(67),
            LogicalKey::F6Key => Some(68),
            LogicalKey::F7Key => Some(69),
            LogicalKey::F8Key => Some(70),
            LogicalKey::F9Key => Some(71),
            LogicalKey::F10Key => Some(72),
            LogicalKey::F11Key => Some(73),
            LogicalKey::F12Key => Some(74),
            LogicalKey::F13Key => Some(75),
            LogicalKey::F14Key => Some(76),
            LogicalKey::F15Key => Some(77),
            LogicalKey::F16Key => Some(78),
            LogicalKey::F17Key => Some(79),
            LogicalKey::F18Key => Some(80),
            LogicalKey::F19Key => Some(81),
            LogicalKey::F20Key => Some(82),
            LogicalKey::F21Key => Some(83),
            LogicalKey::F22Key => Some(84),
            LogicalKey::F23Key => Some(85),
            LogicalKey::F24Key => Some(86),
            LogicalKey::NumLockKey => Some(87),
            LogicalKey::ScrollLockKey => Some(88),
            LogicalKey::CapsLockKey => Some(89),
            LogicalKey::LShiftKey => Some(90),
            LogicalKey::RShiftKey => Some(91),
            LogicalKey::LControlKey => Some(92),
            LogicalKey::RControlKey => Some(93),
            LogicalKey::LAltKey => Some(94),
            LogicalKey::RAltKey => Some(95),
            LogicalKey::BrowserBackKey => Some(96),
            LogicalKey::BrowserForwardKey => Some(97),
            LogicalKey::BrowserRefreshKey => Some(98),
            LogicalKey::VolumeMuteKey => Some(99),
            LogicalKey::VolumeDownKey => Some(100),
            LogicalKey::VolumeUpKey => Some(101),
            LogicalKey::MediaNextTrackKey => Some(102),
            LogicalKey::MediaPrevTrackKey => Some(103),
            LogicalKey::MediaStopKey => Some(104),
            LogicalKey::MediaPlayPauseKey => Some(105),
            LogicalKey::BackquoteKey => Some(106),
            LogicalKey::SlashKey => Some(107),
            LogicalKey::BackslashKey => Some(108),
            LogicalKey::CommaKey => Some(109),
            LogicalKey::PeriodKey => Some(110),
            LogicalKey::MinusKey => Some(111),
            LogicalKey::QuoteKey => Some(112),
            LogicalKey::SemicolonKey => Some(113),
            LogicalKey::LBracketKey => Some(114),
            LogicalKey::RBracketKey => Some(115),
            LogicalKey::EqualKey => Some(116),
            LogicalKey::OtherKey(code) => raw_slot(*code),
        }
    }

    /// A gap in the layout: drawn without an outline.
    pub open spec fn is_spacer_spec(self) -> bool {
        self == LogicalKey::OtherKey(SPACER_CODE)
    }

    /// Tells whether this entry is a gap in the layout.
    pub fn is_spacer(&self) -> (r: bool)
        ensures
            r == self.is_spacer_spec(),
    {
        match self {
            LogicalKey::OtherKey(code) => *code == SPACER_CODE,
            _ => false,
        }
    }

    /// A decoration of the layout, a gap or an unbound cap: a raw code from
    /// `UNBOUND_CODE` up. No hook listens to it, and a frame never shows it lit.
    pub open spec fn is_decoration_spec(self) -> bool {
        self matches LogicalKey::OtherKey(code) && code >= UNBOUND_CODE
    }

    /// Tells whether this entry is a decoration of the layout.
    pub fn is_decoration(&self) -> (r: bool)
        ensures
            r == self.is_decoration_spec(),
    {
        match self {
            LogicalKey::OtherKey(code) => *code >= UNBOUND_CODE,
            _ => false,
        }
    }

    /// A key that the key hook can deliver: one with a slot that is no decoration.
    pub open spec fn is_hooked_spec(self) -> bool {
        self.slot_spec() is Some && !self.is_decoration_spec()
    }

    /// Tells whether the key hook can deliver this key.
    pub fn is_hooked(&self) -> (r: bool)
        ensures
            r == self.is_hooked_spec(),
    {
        self.slot().is_some() && !self.is_decoration()
    }

    /// A key identified by raw code rather than by name.
    pub open spec fn is_other_spec(self) -> bool {
        self is OtherKey
    }

    /// Tells whether this key is identified by raw code rather than by name.
    pub fn is_other(&self) -> (r: bool)
        ensures
            r == self.is_other_spec(),
    {
        match self {
            LogicalKey::OtherKey(_) => true,
            _ => false,
        }
    }

    /// The keys that open the character's mouth: the letter O and both zeroes.
    pub open spec fn is_mouth_trigger_spec(self) -> bool {
        self == LogicalKey::OKey || self == LogicalKey::Numrow0Key || self == LogicalKey::Numpad0Key
    }

    /// Tells whether this key opens the character's mouth.
    pub fn is_mouth_trigger(&self) -> (r: bool)
        ensures
            r == self.is_mouth_trigger_spec(),
    {
        match self {
            LogicalKey::OKey | LogicalKey::Numrow0Key | LogicalKey::Numpad0Key => true,
            _ => false,
        }
    }
}

/// The slot of a key known only by raw code: the numeric pad's operator keys have
/// one, and so have the two decorative codes. Any other raw code has none.
pub open spec fn raw_slot_spec(code: u64) -> Option<u8> {
    if code == 61 {
        Some(117u8)
    } else if code == 63 {
        Some(118u8)
    } else if code == 69 {
        Some(119u8)
    } else if code == 96 {
        Some(120u8)
    } else if code == 109 {
        Some(121u8)
    } else if code == UNBOUND_CODE {
        Some(122u8)
    } else if code == SPACER_CODE {
        Some(123u8)
    } else {
        None
    }
}

/// Looks up the slot of a key known only by raw code.
pub fn raw_slot(code: u64) -> (r: Option<u8>)
    ensures
        r == raw_slot_spec(code),
{
    if code == 61 {
        Some(117)
    } else if code == 63 {
        Some(118)
    } else if code == 69 {
        Some(119)
    } else if code == 96 {
        Some(120)
    } else if code == 109 {
        Some(121)
    } else if code == UNBOUND_CODE {
        Some(122)
    } else if code == SPACER_CODE {
        Some(123)
    } else {
        None
    }
}

/// Every slot lies below `SLOT_COUNT`.
pub proof fn lemma_slot_in_range(key: LogicalKey)
    ensures
        key.slot_spec() matches Some(s) ==> s < SLOT_COUNT,
{
}

/// Two keys that share a slot are the same key.
pub proof fn lemma_slot_injective(a: LogicalKey, b: LogicalKey)
    requires
        a.slot_spec().is_some(),
        a.slot_spec() == b.slot_spec(),
    ensures
        a == b,
{
}

/// Layout gaps and unbound key caps are decorations, and each has a slot of its
/// own: a press of one is recorded like any other.
pub proof fn lemma_decorations_have_slots()
    ensures
        LogicalKey::OtherKey(SPACER_CODE).is_decoration_spec(),
        LogicalKey::OtherKey(UNBOUND_CODE).is_decoration_spec(),
        LogicalKey::OtherKey(SPACER_CODE).slot_spec() is Some,
        LogicalKey::OtherKey(UNBOUND_CODE).slot_spec() is Some,
{
}

} // verus!
