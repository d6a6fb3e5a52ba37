//! LoRaWAN value types: activation mode, region, device class.

use vstd::prelude::*;

use crate::bounded::BoundedText;
use crate::lora::commands::LoraClassSet;

verus! {

/// The modem's activation mode.
#[derive(Debug, Clone, Copy, PartialEq, Eq, Structural)]
pub enum LoraJoinMode {
    /// Radio test mode.
    Test,
    /// Over-the-air activation.
    Otaa,
    /// Activation by personalisation.
    Abp,
    /// Anything the modem reported that is none of the above.
    _Unknown,
}

/// The mode a reply text names.
pub open spec fn join_mode_of_text(s: Seq<u8>) -> LoraJoinMode {
    if s == crate::tags::spec_w_test() {
        LoraJoinMode::Test
    } else if s == crate::tags::spec_w_lwotaa() {
        LoraJoinMode::Otaa
    } else if s == crate::tags::spec_w_lwabp() {
        LoraJoinMode::Abp
    } else {
        LoraJoinMode::_Unknown
    }
}

impl LoraJoinMode {
    /// Reads a mode reply text.
    pub fn from_bytes(s: &[u8]) -> (r: LoraJoinMode)
        ensures
            r == join_mode_of_text(s@),
    {
        if crate::bounded::bytes_eq(s, crate::tags::w_test().as_slice()) {
            LoraJoinMode::Test
        } else if crate::bounded::bytes_eq(s, crate::tags::w_lwotaa().as_slice()) {
            LoraJoinMode::Otaa
        } else if crate::bounded::bytes_eq(s, crate::tags::w_lwabp().as_slice()) {
            LoraJoinMode::Abp
        } else {
            LoraJoinMode::_Unknown
        }
    }
}

/// A LoRaWAN regional frequency plan.
#[derive(Debug, Clone, Copy, PartialEq, Eq, Structural)]
pub enum LoraRegion {
    /// Europe 868 MHz.
    Eu868,
    /// United States 915 MHz.
    US915,
    /// United States 915 MHz hybrid.
    Us915Hybrid,
    /// China 779 MHz.
    Cn779,
    /// Europe 433 MHz.
    Eu433,
    /// Australia 915 MHz.
    Au915,
    /// Australia 915 MHz, older plan.
    Au915Old,
    /// China 470 MHz.
    Cn470,
    /// Asia 923 MHz.
    As923,
    /// Korea 920 MHz.
    Kr920,
    /// India 865 MHz.
    In865,
    /// Russia 864 MHz.
    Ru864,
    /// China 470 MHz prequel plan.
    Cn470Prequel,
    /// STE 920 MHz.
    Ste920,
    /// Japan 920 MHz.
    Jp920,
    /// Anything the modem reported that is none of the above.
    Unknown,
}

/// The word each region goes by on the wire.
pub open spec fn region_word(r: LoraRegion) -> Seq<u8> {
    match r {
        LoraRegion::Eu868 => crate::tags::spec_w_eu868(),
        LoraRegion::US915 => crate::tags::spec_w_us915(),
        LoraRegion::Us915Hybrid => crate::tags::spec_w_us915hybrid(),
        LoraRegion::Cn779 => crate::tags::spec_w_cn779(),
        LoraRegion::Eu433 => crate::tags::spec_w_eu433(),
        LoraRegion::Au915 => crate::tags::spec_w_au915(),
        LoraRegion::Au915Old => crate::tags::spec_w_au915old(),
        LoraRegion::Cn470 => crate::tags::spec_w_cn470(),
        LoraRegion::As923 => crate::tags::spec_w_as923(),
        LoraRegion::Kr920 => crate::tags::spec_w_kr920(),
        LoraRegion::In865 => crate::tags::spec_w_in865(),
        LoraRegion::Ru864 => crate::tags::spec_w_ru864(),
        LoraRegion::Cn470Prequel => crate::tags::spec_w_cn470prequel(),
        LoraRegion::Ste920 => crate::tags::spec_w_ste920(),
        LoraRegion::Jp920 => crate::tags::spec_w_jp920(),
        LoraRegion::Unknown => crate::tags::spec_w_unknown(),
    }
}

/// The region a word names; any other word reads as unknown.
pub open spec fn region_of_text(s: Seq<u8>) -> LoraRegion {
    if s == crate::tags::spec_w_eu868() {
        LoraRegion::Eu868
    } else if s == crate::tags::spec_w_us915() {
        LoraRegion::US915
    } else if s == crate::tags::spec_w_us915hybrid() {
        LoraRegion::Us915Hybrid
    } else if s == crate::tags::spec_w_cn779() {
        LoraRegion::Cn779
    } else if s == crate::tags::spec_w_eu433() {
        LoraRegion::Eu433
    } else if s == crate::tags::spec_w_au915() {
        LoraRegion::Au915
    } else if s == crate::tags::spec_w_au915old() {
        LoraRegion::Au915Old
    } else if s == crate::tags::spec_w_cn470() {
        LoraRegion::Cn470
    } else if s == crate::tags::spec_w_as923() {
        LoraRegion::As923
    } else if s == crate::tags::spec_w_kr920() {
        LoraRegion::Kr920
    } else if s == crate::tags::spec_w_in865() {
        LoraRegion::In865
    } else if s == crate::tags::spec_w_ru864() {
        LoraRegion::Ru864
    } else if s == crate::tags::spec_w_cn470prequel() {
        LoraRegion::Cn470Prequel
    } else if s == crate::tags::spec_w_ste920() {
        LoraRegion::Ste920
    } else if s == crate::tags::spec_w_jp920() {
        LoraRegion::Jp920
    } else {
        LoraRegion::Unknown
    }
}

impl LoraRegion {
    /// The word this region goes by; fits in 24 bytes.
    pub fn text(&self) -> (r: BoundedText<24>)
        ensures
            r@ == region_word(*self),
            r.wf(),
    {
        let w: Vec<u8> = match self {
            LoraRegion::Eu868 => crate::tags::w_eu868(),
            LoraRegion::US915 => crate::tags::w_us915(),
            LoraRegion::Us915Hybrid => crate::tags::w_us915hybrid(),
            LoraRegion::Cn779 => crate::tags::w_cn779(),
            LoraRegion::Eu433 => crate::tags::w_eu433(),
            LoraRegion::Au915 => crate::tags::w_au915(),
            LoraRegion::Au915Old => crate::tags::w_au915old(),
            LoraRegion::Cn470 => crate::tags::w_cn470(),
            LoraRegion::As923 => crate::tags::w_as923(),
            LoraRegion::Kr920 => crate::tags::w_kr920(),
            LoraRegion::In865 => crate::tags::w_in865(),
            LoraRegion::Ru864 => crate::tags::w_ru864(),
            LoraRegion::Cn470Prequel => crate::tags::w_cn470prequel(),
            LoraRegion::Ste920 => crate::tags::w_ste920(),
            LoraRegion::Jp920 => crate::tags::w_jp920(),
            LoraRegion::Unknown => crate::tags::w_unknown(),
        };
        match BoundedText::<24>::from_bytes(w.as_slice()) {
            Ok(t) => t,
            Err(_) => {
                proof {
                    assert(false);
                }
                BoundedText::new()
            },
        }
    }

    /// Reads a region word.  The data rate reply opens with the region
    /// word, so only the front is compared.
    pub fn from_bytes(s: &[u8]) -> (r: LoraRegion)
        ensures
            r == region_of_text(s@),
    {
        if crate::bounded::bytes_eq(s, crate::tags::w_eu868().as_slice()) {
            LoraRegion::Eu868
        } else if crate::bounded::bytes_eq(s, crate::tags::w_us915().as_slice()) {
            LoraRegion::US915
        } else if crate::bounded::bytes_eq(s, crate::tags::w_us915hybrid().as_slice()) {
            LoraRegion::Us915Hybrid
        } else if crate::bounded::bytes_eq(s, crate::tags::w_cn779().as_slice()) {
            LoraRegion::Cn779
        } else if crate::bounded::bytes_eq(s, crate::tags::w_eu433().as_slice()) {
            LoraRegion::Eu433
        } else if crate::bounded::bytes_eq(s, crate::tags::w_au915().as_slice()) {
            LoraRegion::Au915
        } else if crate::bounded::bytes_eq(s, crate::tags::w_au915old().as_slice()) {
            LoraRegion::Au915Old
        } else if crate::bounded::bytes_eq(s, crate::tags::w_cn470().as_slice()) {
            LoraRegion::Cn470
        } else if crate::bounded::bytes_eq(s, crate::tags::w_as923().as_slice()) {
            LoraRegion::As923
        } else if crate::bounded::bytes_eq(s, crate::tags::w_kr920().as_slice()) {
            LoraRegion::Kr920
        } else if crate::bounded::bytes_eq(s, crate::tags::w_in865().as_slice()) {
            LoraRegion::In865
        } else if crate::bounded::bytes_eq(s, crate::tags::w_ru864().as_slice()) {
            LoraRegion::Ru864
        } else if crate::bounded::bytes_eq(s, crate::tags::w_cn470prequel().as_slice()) {
            LoraRegion::Cn470Prequel
        } else if crate::bounded::bytes_eq(s, crate::tags::w_ste920().as_slice()) {
            LoraRegion::Ste920
        } else if crate::bounded::bytes_eq(s, crate::tags::w_jp920().as_slice()) {
            LoraRegion::Jp920
        } else {
            LoraRegion::Unknown
        }
    }
}

/// A LoRaWAN device class.
#[derive(Debug, Clone, Copy, PartialEq, Eq, Structural)]
pub enum LoraClass {
    /// Class A.
    ClassA,
    /// Class B.
    ClassB,
    /// Class C.
    ClassC,
    /// Anything the modem reported that is none of the above.
    Unknown,
}

/// The letter each class goes by on the wire; unknown classes have none.
pub open spec fn class_word(c: LoraClass) -> Seq<u8> {
    match c {
        LoraClass::ClassA => crate::tags::spec_w_class_a(),
        LoraClass::ClassB => crate::tags::spec_w_class_b(),
        LoraClass::ClassC => crate::tags::spec_w_class_c(),
        LoraClass::Unknown => Seq::<u8>::empty(),
    }
}

/// The class a letter names.
pub open spec fn class_of_text(s: Seq<u8>) -> LoraClass {
    if s == crate::tags::spec_w_class_a() {
        LoraClass::ClassA
    } else if s == crate::tags::spec_w_class_b() {
        LoraClass::ClassB
    } else if s == crate::tags::spec_w_class_c() {
        LoraClass::ClassC
    } else {
        LoraClass::Unknown
    }
}

impl LoraClass {
    /// The letter this class goes by; fits in two bytes.
    pub fn text(&self) -> (r: BoundedText<2>)
        ensures
            r@ == class_word(*self),
            r.wf(),
    {
        let w: Vec<u8> = match self {
            LoraClass::ClassA => crate::tags::w_class_a(),
            LoraClass::ClassB => crate::tags::w_class_b(),
            LoraClass::ClassC => crate::tags::w_class_c(),
            LoraClass::Unknown => Vec::new(),
        };
        match BoundedText::<2>::from_bytes(w.as_slice()) {
            Ok(t) => t,
            Err(_) => {
                proof {
                    assert(false);
                }
                BoundedText::new()
            },
        }
    }

    /// Reads a class letter.
    pub fn from_bytes(s: &[u8]) -> (r: LoraClass)
        ensures
            r == class_of_text(s@),
    {
        if crate::bounded::bytes_eq(s, crate::tags::w_class_a().as_slice()) {
            LoraClass::ClassA
        } else if crate::bounded::bytes_eq(s, crate::tags::w_class_b().as_slice()) {
            LoraClass::ClassB
        } else if crate::bounded::bytes_eq(s, crate::tags::w_class_c().as_slice()) {
            LoraClass::ClassC
        } else {
            LoraClass::Unknown
        }
    }

    /// The command that sets this class.
    pub fn set_cmd(self) -> (r: LoraClassSet)
        ensures
            r.class@ == class_word(self),
    {
        LoraClassSet { class: self.text() }
    }
}

/// Progress of a join attempt, as the join reply reports it.
#[derive(Debug, Clone)]
pub enum LoraJoiningStartingStatus {
    /// The attempt has started.
    Starting,
    /// The attempt proceeds normally.
    Normal,
    /// The attempt finished with these network identifiers.
    Done(BoundedText<12>, BoundedText<22>),
}

/// What a join reply says.
#[derive(Debug, Clone)]
pub enum LoraJoiningStatus {
    /// The attempt is under way.
    Starting(LoraJoiningStartingStatus),
    /// The attempt failed.
    Failed,
    /// The modem is busy with another operation.
    Busy,
    /// Anything else.
    Unknown,
}

/// Firmware lines this driver family has met.
#[derive(Debug, Clone, Copy, PartialEq, Eq, Structural)]
pub enum LoraVersion {
    /// 1.0.
    V10,
    /// 1.0.1.
    V101,
    /// 1.0.2.
    V102,
    /// 1.0.2 revision B.
    V102B,
    /// 1.0.3.
    V103,
    /// 1.0.2 alpha.
    V102Alpha,
    /// 1.1.
    V11,
}

} // verus!
