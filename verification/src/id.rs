//! The types of VIRTIO devices and their numbers.
use vstd::prelude::*;

verus! {

pub const VIRTIO_ID_NET: u32 = 1;

pub const VIRTIO_ID_BLOCK: u32 = 2;

pub const VIRTIO_ID_CONSOLE: u32 = 3;

pub const VIRTIO_ID_RNG: u32 = 4;

pub const VIRTIO_ID_BALLOON: u32 = 5;

pub const VIRTIO_ID_IOMEM: u32 = 6;

pub const VIRTIO_ID_RPMSG: u32 = 7;

pub const VIRTIO_ID_SCSI: u32 = 8;

pub const VIRTIO_ID_9P: u32 = 9;

pub const VIRTIO_ID_MAC80211_WLAN: u32 = 10;

pub const VIRTIO_ID_RPROC_SERIAL: u32 = 11;

pub const VIRTIO_ID_CAIF: u32 = 12;

pub const VIRTIO_ID_MEMORY_BALLOON: u32 = 13;

pub const VIRTIO_ID_GPU: u32 = 16;

pub const VIRTIO_ID_CLOCK: u32 = 17;

pub const VIRTIO_ID_INPUT: u32 = 18;

pub const VIRTIO_ID_VSOCK: u32 = 19;

pub const VIRTIO_ID_CRYPTO: u32 = 20;

pub const VIRTIO_ID_SIGNAL_DIST: u32 = 21;

pub const VIRTIO_ID_PSTORE: u32 = 22;

pub const VIRTIO_ID_IOMMU: u32 = 23;

pub const VIRTIO_ID_MEM: u32 = 24;

pub const VIRTIO_ID_SOUND: u32 = 25;

pub const VIRTIO_ID_FS: u32 = 26;

pub const VIRTIO_ID_PMEM: u32 = 27;

pub const VIRTIO_ID_RPMB: u32 = 28;

pub const VIRTIO_ID_MAC80211_HWSIM: u32 = 29;

pub const VIRTIO_ID_VIDEO_ENCODER: u32 = 30;

pub const VIRTIO_ID_VIDEO_DECODER: u32 = 31;

pub const VIRTIO_ID_SCMI: u32 = 32;

pub const VIRTIO_ID_NITRO_SEC_MOD: u32 = 33;

pub const VIRTIO_ID_I2C_ADAPTER: u32 = 34;

pub const VIRTIO_ID_WATCHDOG: u32 = 35;

pub const VIRTIO_ID_CAN: u32 = 36;

pub const VIRTIO_ID_DMABUF: u32 = 37;

pub const VIRTIO_ID_PARAM_SERV: u32 = 38;

pub const VIRTIO_ID_AUDIO_POLICY: u32 = 39;

pub const VIRTIO_ID_BT: u32 = 40;

pub const VIRTIO_ID_GPIO: u32 = 41;

pub const VIRTIO_ID_SPI: u32 = 45;

/// Virtio IDs
///
/// The numbers are those of `include/uapi/linux/virtio_ids.h`.
#[derive(Copy, Clone, PartialEq, Eq, Structural, Debug, Hash, PartialOrd, Ord)]
pub enum VirtioID {
    /// virtio net
    Net,
    /// virtio block
    Block,
    /// virtio console
    Console,
    /// virtio rng
    Rng,
    /// virtio balloon
    Balloon,
    /// virtio ioMemory
    IOMem,
    /// virtio remote processor messaging
    RPMSG,
    /// virtio scsi
    Scsi,
    /// 9p virtio console
    NineP,
    /// virtio WLAN MAC
    Mac80211Wlan,
    /// virtio remoteproc serial link
    RPROCSerial,
    /// Virtio caif
    CAIF,
    /// virtio memory balloon
    MemoryBalloon,
    /// virtio GPU
    GPU,
    /// virtio clock/timer
    Clock,
    /// virtio input
    Input,
    /// virtio vsock transport
    VSock,
    /// virtio crypto
    Crypto,
    /// virtio signal distribution device
    SignalDist,
    /// virtio pstore device
    Pstore,
    /// virtio IOMMU
    Iommu,
    /// virtio mem
    Mem,
    /// virtio sound
    Sound,
    /// virtio filesystem
    FS,
    /// virtio pmem
    PMem,
    /// virtio rpmb
    RPMB,
    /// virtio mac80211-hwsim
    Mac80211Hwsim,
    /// virtio video encoder
    VideoEncoder,
    /// virtio video decoder
    VideoDecoder,
    /// virtio SCMI
    SCMI,
    /// virtio nitro secure module
    NitroSecMod,
    /// virtio i2c adapter
    I2CAdapter,
    /// virtio watchdog
    Watchdog,
    /// virtio can
    CAN,
    /// virtio dmabuf
    DMABuf,
    /// virtio parameter server
    ParamServ,
    /// virtio audio policy
    AudioPolicy,
    /// virtio bluetooth
    BT,
    /// virtio gpio
    GPIO,
    /// virtio spi
    SPI,
}

impl VirtioID {
    /// The number of this device type.
    pub open spec fn number(self) -> u32 {
        match self {
            VirtioID::Net => VIRTIO_ID_NET,
            VirtioID::Block => VIRTIO_ID_BLOCK,
            VirtioID::Console => VIRTIO_ID_CONSOLE,
            VirtioID::Rng => VIRTIO_ID_RNG,
            VirtioID::Balloon => VIRTIO_ID_BALLOON,
            VirtioID::IOMem => VIRTIO_ID_IOMEM,
            VirtioID::RPMSG => VIRTIO_ID_RPMSG,
            VirtioID::Scsi => VIRTIO_ID_SCSI,
            VirtioID::NineP => VIRTIO_ID_9P,
            VirtioID::Mac80211Wlan => VIRTIO_ID_MAC80211_WLAN,
            VirtioID::RPROCSerial => VIRTIO_ID_RPROC_SERIAL,
            VirtioID::CAIF => VIRTIO_ID_CAIF,
            VirtioID::MemoryBalloon => VIRTIO_ID_MEMORY_BALLOON,
            VirtioID::GPU => VIRTIO_ID_GPU,
            VirtioID::Clock => VIRTIO_ID_CLOCK,
            VirtioID::Input => VIRTIO_ID_INPUT,
            VirtioID::VSock => VIRTIO_ID_VSOCK,
            VirtioID::Crypto => VIRTIO_ID_CRYPTO,
            VirtioID::SignalDist => VIRTIO_ID_SIGNAL_DIST,
            VirtioID::Pstore => VIRTIO_ID_PSTORE,
            VirtioID::Iommu => VIRTIO_ID_IOMMU,
            VirtioID::Mem => VIRTIO_ID_MEM,
            VirtioID::Sound => VIRTIO_ID_SOUND,
            VirtioID::FS => VIRTIO_ID_FS,
            VirtioID::PMem => VIRTIO_ID_PMEM,
            VirtioID::RPMB => VIRTIO_ID_RPMB,
            VirtioID::Mac80211Hwsim => VIRTIO_ID_MAC80211_HWSIM,
            VirtioID::VideoEncoder => VIRTIO_ID_VIDEO_ENCODER,
            VirtioID::VideoDecoder => VIRTIO_ID_VIDEO_DECODER,
            VirtioID::SCMI => VIRTIO_ID_SCMI,
            VirtioID::NitroSecMod => VIRTIO_ID_NITRO_SEC_MOD,
            VirtioID::I2CAdapter => VIRTIO_ID_I2C_ADAPTER,
            VirtioID::Watchdog => VIRTIO_ID_WATCHDOG,
            VirtioID::CAN => VIRTIO_ID_CAN,
            VirtioID::DMABuf => VIRTIO_ID_DMABUF,
            VirtioID::ParamServ => VIRTIO_ID_PARAM_SERV,
            VirtioID::AudioPolicy => VIRTIO_ID_AUDIO_POLICY,
            VirtioID::BT => VIRTIO_ID_BT,
            VirtioID::GPIO => VIRTIO_ID_GPIO,
            VirtioID::SPI => VIRTIO_ID_SPI,
        }
    }

    /// The number of this device type.
    pub fn as_u32(self) -> (number: u32)
        ensures
            number == self.number(),
    {
        match self {
            VirtioID::Net => VIRTIO_ID_NET,
            VirtioID::Block => VIRTIO_ID_BLOCK,
            VirtioID::Console => VIRTIO_ID_CONSOLE,
            VirtioID::Rng => VIRTIO_ID_RNG,
            VirtioID::Balloon => VIRTIO_ID_BALLOON,
            VirtioID::IOMem => VIRTIO_ID_IOMEM,
            VirtioID::RPMSG => VIRTIO_ID_RPMSG,
            VirtioID::Scsi => VIRTIO_ID_SCSI,
            VirtioID::NineP => VIRTIO_ID_9P,
            VirtioID::Mac80211Wlan => VIRTIO_ID_MAC80211_WLAN,
            VirtioID::RPROCSerial => VIRTIO_ID_RPROC_SERIAL,
            VirtioID::CAIF => VIRTIO_ID_CAIF,
            VirtioID::MemoryBalloon => VIRTIO_ID_MEMORY_BALLOON,
            VirtioID::GPU => VIRTIO_ID_GPU,
            VirtioID::Clock => VIRTIO_ID_CLOCK,
            VirtioID::Input => VIRTIO_ID_INPUT,
            VirtioID::VSock => VIRTIO_ID_VSOCK,
            VirtioID::Crypto => VIRTIO_ID_CRYPTO,
            VirtioID::SignalDist => VIRTIO_ID_SIGNAL_DIST,
            VirtioID::Pstore => VIRTIO_ID_PSTORE,
            VirtioID::Iommu => VIRTIO_ID_IOMMU,
            VirtioID::Mem => VIRTIO_ID_MEM,
            VirtioID::Sound => VIRTIO_ID_SOUND,
            VirtioID::FS => VIRTIO_ID_FS,
            VirtioID::PMem => VIRTIO_ID_PMEM,
            VirtioID::RPMB => VIRTIO_ID_RPMB,
            VirtioID::Mac80211Hwsim => VIRTIO_ID_MAC80211_HWSIM,
            VirtioID::VideoEncoder => VIRTIO_ID_VIDEO_ENCODER,
            VirtioID::VideoDecoder => VIRTIO_ID_VIDEO_DECODER,
            VirtioID::SCMI => VIRTIO_ID_SCMI,
            VirtioID::NitroSecMod => VIRTIO_ID_NITRO_SEC_MOD,
            VirtioID::I2CAdapter => VIRTIO_ID_I2C_ADAPTER,
            VirtioID::Watchdog => VIRTIO_ID_WATCHDOG,
            VirtioID::CAN => VIRTIO_ID_CAN,
            VirtioID::DMABuf => VIRTIO_ID_DMABUF,
            VirtioID::ParamServ => VIRTIO_ID_PARAM_SERV,
            VirtioID::AudioPolicy => VIRTIO_ID_AUDIO_POLICY,
            VirtioID::BT => VIRTIO_ID_BT,
            VirtioID::GPIO => VIRTIO_ID_GPIO,
            VirtioID::SPI => VIRTIO_ID_SPI,
        }
    }

    /// The device type that has `number`, if there is one.
    pub open spec fn of_number(number: u32) -> Option<VirtioID> {
        match number {
            VIRTIO_ID_NET => Some(VirtioID::Net),
            VIRTIO_ID_BLOCK => Some(VirtioID::Block),
            VIRTIO_ID_CONSOLE => Some(VirtioID::Console),
            VIRTIO_ID_RNG => Some(VirtioID::Rng),
            VIRTIO_ID_BALLOON => Some(VirtioID::Balloon),
            VIRTIO_ID_IOMEM => Some(VirtioID::IOMem),
            VIRTIO_ID_RPMSG => Some(VirtioID::RPMSG),
            VIRTIO_ID_SCSI => Some(VirtioID::Scsi),
            VIRTIO_ID_9P => Some(VirtioID::NineP),
            VIRTIO_ID_MAC80211_WLAN => Some(VirtioID::Mac80211Wlan),
            VIRTIO_ID_RPROC_SERIAL => Some(VirtioID::RPROCSerial),
            VIRTIO_ID_CAIF => Some(VirtioID::CAIF),
            VIRTIO_ID_MEMORY_BALLOON => Some(VirtioID::MemoryBalloon),
            VIRTIO_ID_GPU => Some(VirtioID::GPU),
            VIRTIO_ID_CLOCK => Some(VirtioID::Clock),
            VIRTIO_ID_INPUT => Some(VirtioID::Input),
            VIRTIO_ID_VSOCK => Some(VirtioID::VSock),
            VIRTIO_ID_CRYPTO => Some(VirtioID::Crypto),
            VIRTIO_ID_SIGNAL_DIST => Some(VirtioID::SignalDist),
            VIRTIO_ID_PSTORE => Some(VirtioID::Pstore),
            VIRTIO_ID_IOMMU => Some(VirtioID::Iommu),
            VIRTIO_ID_MEM => Some(VirtioID::Mem),
            VIRTIO_ID_SOUND => Some(VirtioID::Sound),
            VIRTIO_ID_FS => Some(VirtioID::FS),
            VIRTIO_ID_PMEM => Some(VirtioID::PMem),
            VIRTIO_ID_RPMB => Some(VirtioID::RPMB),
            VIRTIO_ID_MAC80211_HWSIM => Some(VirtioID::Mac80211Hwsim),
            VIRTIO_ID_VIDEO_ENCODER => Some(VirtioID::VideoEncoder),
            VIRTIO_ID_VIDEO_DECODER => Some(VirtioID::VideoDecoder),
            VIRTIO_ID_SCMI => Some(VirtioID::SCMI),
            VIRTIO_ID_NITRO_SEC_MOD => Some(VirtioID::NitroSecMod),
            VIRTIO_ID_I2C_ADAPTER => Some(VirtioID::I2CAdapter),
            VIRTIO_ID_WATCHDOG => Some(VirtioID::Watchdog),
            VIRTIO_ID_CAN => Some(VirtioID::CAN),
            VIRTIO_ID_DMABUF => Some(VirtioID::DMABuf),
            VIRTIO_ID_PARAM_SERV => Some(VirtioID::ParamServ),
            VIRTIO_ID_AUDIO_POLICY => Some(VirtioID::AudioPolicy),
            VIRTIO_ID_BT => Some(VirtioID::BT),
            VIRTIO_ID_GPIO => Some(VirtioID::GPIO),
            VIRTIO_ID_SPI => Some(VirtioID::SPI),
            _ => None,
        }
    }
}

impl TryFrom<u32> for VirtioID {
    type Error = u32;

    /// The device type that has the number `value`. A number that no device type has is handed
    /// back as the error.
    fn try_from(value: u32) -> (id: Result<VirtioID, u32>) {
        match value {
            VIRTIO_ID_NET => Ok(VirtioID::Net),
            VIRTIO_ID_BLOCK => Ok(VirtioID::Block),
            VIRTIO_ID_CONSOLE => Ok(VirtioID::Console),
            VIRTIO_ID_RNG => Ok(VirtioID::Rng),
            VIRTIO_ID_BALLOON => Ok(VirtioID::Balloon),
            VIRTIO_ID_IOMEM => Ok(VirtioID::IOMem),
            VIRTIO_ID_RPMSG => Ok(VirtioID::RPMSG),
            VIRTIO_ID_SCSI => Ok(VirtioID::Scsi),
            VIRTIO_ID_9P => Ok(VirtioID::NineP),
            VIRTIO_ID_MAC80211_WLAN => Ok(VirtioID::Mac80211Wlan),
            VIRTIO_ID_RPROC_SERIAL => Ok(VirtioID::RPROCSerial),
            VIRTIO_ID_CAIF => Ok(VirtioID::CAIF),
            VIRTIO_ID_MEMORY_BALLOON => Ok(VirtioID::MemoryBalloon),
            VIRTIO_ID_GPU => Ok(VirtioID::GPU),
            VIRTIO_ID_CLOCK => Ok(VirtioID::Clock),
            VIRTIO_ID_INPUT => Ok(VirtioID::Input),
            VIRTIO_ID_VSOCK => Ok(VirtioID::VSock),
            VIRTIO_ID_CRYPTO => Ok(VirtioID::Crypto),
            VIRTIO_ID_SIGNAL_DIST => Ok(VirtioID::SignalDist),
            VIRTIO_ID_PSTORE => Ok(VirtioID::Pstore),
            VIRTIO_ID_IOMMU => Ok(VirtioID::Iommu),
            VIRTIO_ID_MEM => Ok(VirtioID::Mem),
            VIRTIO_ID_SOUND => Ok(VirtioID::Sound),
            VIRTIO_ID_FS => Ok(VirtioID::FS),
            VIRTIO_ID_PMEM => Ok(VirtioID::PMem),
            VIRTIO_ID_RPMB => Ok(VirtioID::RPMB),
            VIRTIO_ID_MAC80211_HWSIM => Ok(VirtioID::Mac80211Hwsim),
            VIRTIO_ID_VIDEO_ENCODER => Ok(VirtioID::VideoEncoder),
            VIRTIO_ID_VIDEO_DECODER => Ok(VirtioID::VideoDecoder),
            VIRTIO_ID_SCMI => Ok(VirtioID::SCMI),
            VIRTIO_ID_NITRO_SEC_MOD => Ok(VirtioID::NitroSecMod),
            VIRTIO_ID_I2C_ADAPTER => Ok(VirtioID::I2CAdapter),
            VIRTIO_ID_WATCHDOG => Ok(VirtioID::Watchdog),
            VIRTIO_ID_CAN => Ok(VirtioID::CAN),
            VIRTIO_ID_DMABUF => Ok(VirtioID::DMABuf),
            VIRTIO_ID_PARAM_SERV => Ok(VirtioID::ParamServ),
            VIRTIO_ID_AUDIO_POLICY => Ok(VirtioID::AudioPolicy),
            VIRTIO_ID_BT => Ok(VirtioID::BT),
            VIRTIO_ID_GPIO => Ok(VirtioID::GPIO),
            VIRTIO_ID_SPI => Ok(VirtioID::SPI),
            other => Err(other),
        }
    }
}

impl vstd::std_specs::convert::TryFromSpecImpl<u32> for VirtioID {
    open spec fn obeys_try_from_spec() -> bool {
        true
    }

    open spec fn try_from_spec(value: u32) -> Result<VirtioID, u32> {
        match VirtioID::of_number(value) {
            Some(id) => Ok(id),
            None => Err(value),
        }
    }
}

/// Every device type is recognised by its number.
pub proof fn law_number_is_recognised(id: VirtioID)
    ensures
        VirtioID::of_number(id.number()) == Some(id),
{
}

/// A number is recognised as a device type only if it is the number of that type.
pub proof fn law_recognised_number(number: u32)
    ensures
        match VirtioID::of_number(number) {
            Some(id) => id.number() == number,
            None => forall|id: VirtioID| #[trigger] id.number() != number,
        },
{
    assert forall|id: VirtioID| VirtioID::of_number(number) is None implies #[trigger] id.number()
        != number by {
        law_number_is_recognised(id);
    }
}

/// No two device types share a number.
pub proof fn law_numbers_are_distinct(a: VirtioID, b: VirtioID)
    requires
        a.number() == b.number(),
    ensures
        a == b,
{
    law_number_is_recognised(a);
    law_number_is_recognised(b);
}

/// Every device type has the number that the core gives it.
pub proof fn law_assigned_numbers(id: VirtioID, number: u32)
    requires
        call_ensures(VirtioID::as_u32, (id,), number),
    ensures
        number == match id {
            VirtioID::Net => 1u32,
            VirtioID::Block => 2u32,
            VirtioID::Console => 3u32,
            VirtioID::Rng => 4u32,
            VirtioID::Balloon => 5u32,
            VirtioID::IOMem => 6u32,
            VirtioID::RPMSG => 7u32,
            VirtioID::Scsi => 8u32,
            VirtioID::NineP => 9u32,
            VirtioID::Mac80211Wlan => 10u32,
            VirtioID::RPROCSerial => 11u32,
            VirtioID::CAIF => 12u32,
            VirtioID::MemoryBalloon => 13u32,
            VirtioID::GPU => 16u32,
            VirtioID::Clock => 17u32,
            VirtioID::Input => 18u32,
            VirtioID::VSock => 19u32,
            VirtioID::Crypto => 20u32,
            VirtioID::SignalDist => 21u32,
            VirtioID::Pstore => 22u32,
            VirtioID::Iommu => 23u32,
            VirtioID::Mem => 24u32,
            VirtioID::Sound => 25u32,
            VirtioID::FS => 26u32,
            VirtioID::PMem => 27u32,
            VirtioID::RPMB => 28u32,
            VirtioID::Mac80211Hwsim => 29u32,
            VirtioID::VideoEncoder => 30u32,
            VirtioID::VideoDecoder => 31u32,
            VirtioID::SCMI => 32u32,
            VirtioID::NitroSecMod => 33u32,
            VirtioID::I2CAdapter => 34u32,
            VirtioID::Watchdog => 35u32,
            VirtioID::CAN => 36u32,
            VirtioID::DMABuf => 37u32,
            VirtioID::ParamServ => 38u32,
            VirtioID::AudioPolicy => 39u32,
            VirtioID::BT => 40u32,
            VirtioID::GPIO => 41u32,
            VirtioID::SPI => 45u32,
        },
        number == id.number(),
{
}

/// A number is converted to the device type that has it, and handed back if none has it.
pub proof fn law_numbers_are_converted(value: u32, converted: Result<VirtioID, u32>)
    requires
        call_ensures(<VirtioID as TryFrom<u32>>::try_from, (value,), converted),
    ensures
        converted is Ok <==> exists|id: VirtioID| #[trigger] id.number() == value,
        converted is Ok ==> converted->Ok_0.number() == value,
        converted is Err ==> converted->Err_0 == value,
{
    law_recognised_number(value);
    if let Some(id) = VirtioID::of_number(value) {
        assert(id.number() == value);
    }
}

} // verus!
