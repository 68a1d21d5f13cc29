//! The configuration of the machine the library runs on, built from what the
//! platform reports of its hardware.

use vstd::prelude::*;

use crate::crypto::random_uuid;
use crate::document::Dictionary;
use crate::macos::{
    build_gsa_hardware_headers, build_mme_clientinfo, build_normal_ua, build_os_version,
    build_private_data, build_version_ua, device_name_text, gsa_hardware_headers, login_url,
    mme_clientinfo_text, normal_ua_text, os_version_text, private_data, version_ua_text,
    ActivationInfo, DebugMeta, RegisterMeta,
};
use crate::text::{concat2, to_uppercase};

verus! {

/// The version of the registration protocol that a local configuration
/// speaks.
pub const LOCAL_PROTOCOL_VERSION: u32 = 1640;

/// The user agent of the cloud helper.
pub open spec fn icloud_ua_text() -> Seq<char> {
    "com.apple.iCloudHelper/282 CFNetwork/1408.0.4 Darwin/22.5.0"@
}

/// The version of the account framework.
pub open spec fn aoskit_version_text() -> Seq<char> {
    "com.apple.AOSKit/282 (com.apple.accountsd/113)"@
}

/// What the platform reports of its hardware, field by field. A field that
/// the platform did not report is `None`, or empty for bytes.
#[derive(Debug)]
pub struct RawHardwareInfo {
    pub product_name: Option<String>,
    pub serial_number: Option<String>,
    pub platform_uuid: Option<String>,
    pub board_id: Option<String>,
    pub os_build_num: Option<String>,
    pub os_version: Option<String>,
    pub rom: Vec<u8>,
    pub mlb: Option<String>,
    pub mac_address: Vec<u8>,
    pub root_disk_uuid: Option<String>,
    /// The platform's message where the report failed.
    pub error: Option<String>,
}

/// The identity of the hardware.
#[derive(Debug)]
pub struct HardwareInfo {
    pub product_name: String,
    pub serial_number: String,
    pub platform_uuid: String,
    pub board_id: String,
    pub os_build_num: String,
    pub os_version: String,
    pub rom: Vec<u8>,
    pub mlb: String,
    pub mac_address: [u8; 6],
    pub root_disk_uuid: String,
}

/// The text of a reported field, or `fallback` where it was not reported.
pub open spec fn text_or(field: Option<String>, fallback: Seq<char>) -> Seq<char> {
    match field {
        Some(text) => text@,
        None => fallback,
    }
}

/// The address that six reported bytes stand for, and all zeros for any
/// other number of bytes.
pub open spec fn mac_address_of(bytes: Seq<u8>) -> Seq<u8> {
    if bytes.len() == 6 {
        bytes
    } else {
        seq![0u8, 0u8, 0u8, 0u8, 0u8, 0u8]
    }
}

fn or_text(field: Option<String>, fallback: &str) -> (res: String)
    ensures
        res@ == text_or(field, fallback@),
{
    match field {
        Some(text) => text,
        None => fallback.to_owned(),
    }
}

impl HardwareInfo {
    /// Takes the platform's report with a given fallback for the platform
    /// id. A failed report is an error with the platform's message. A field
    /// that was not reported takes its fallback: "Mac" for the product,
    /// "25B78" for the build, "26.1" for the version, `fallback_uuid` for
    /// the platform id, and the empty text for the others.
    pub fn read_with(raw: RawHardwareInfo, fallback_uuid: String) -> (res: Result<
        HardwareInfo,
        String,
    >)
        ensures
            match raw.error {
                Some(message) => res matches Err(e) && e == message,
                None => {
                    &&& res matches Ok(info)
                    &&& info.product_name@ == text_or(raw.product_name, "Mac"@)
                    &&& info.serial_number@ == text_or(raw.serial_number, ""@)
                    &&& info.platform_uuid@ == text_or(raw.platform_uuid, fallback_uuid@)
                    &&& info.board_id@ == text_or(raw.board_id, ""@)
                    &&& info.os_build_num@ == text_or(raw.os_build_num, "25B78"@)
                    &&& info.os_version@ == text_or(raw.os_version, "26.1"@)
                    &&& info.rom == raw.rom
                    &&& info.mlb@ == text_or(raw.mlb, ""@)
                    &&& info.mac_address@ == mac_address_of(raw.mac_address@)
                    &&& info.root_disk_uuid@ == text_or(raw.root_disk_uuid, ""@)
                },
            },
    {
        match raw.error {
            Some(message) => {
                return Err(message);
            },
            None => {},
        }
        let mac_address: [u8; 6] = if raw.mac_address.len() == 6 {
            let m = &raw.mac_address;
            [m[0], m[1], m[2], m[3], m[4], m[5]]
        } else {
            [0, 0, 0, 0, 0, 0]
        };
        assert(mac_address@ =~= mac_address_of(raw.mac_address@));
        let platform_uuid = match raw.platform_uuid {
            Some(text) => text,
            None => fallback_uuid,
        };
        Ok(
            HardwareInfo {
                product_name: or_text(raw.product_name, "Mac"),
                serial_number: or_text(raw.serial_number, ""),
                platform_uuid,
                board_id: or_text(raw.board_id, ""),
                os_build_num: or_text(raw.os_build_num, "25B78"),
                os_version: or_text(raw.os_version, "26.1"),
                rom: raw.rom,
                mlb: or_text(raw.mlb, ""),
                mac_address,
                root_disk_uuid: or_text(raw.root_disk_uuid, ""),
            },
        )
    }

    /// Takes the platform's report. A platform id that was not reported is
    /// replaced by a fresh identifier.
    pub fn read(raw: RawHardwareInfo) -> (res: Result<HardwareInfo, String>)
        ensures
            match raw.error {
                Some(message) => res matches Err(e) && e == message,
                None => {
                    &&& res matches Ok(info)
                    &&& info.product_name@ == text_or(raw.product_name, "Mac"@)
                    &&& info.serial_number@ == text_or(raw.serial_number, ""@)
                    &&& raw.platform_uuid is Some ==> info.platform_uuid@ == raw.platform_uuid->0@
                    &&& info.board_id@ == text_or(raw.board_id, ""@)
                    &&& info.os_build_num@ == text_or(raw.os_build_num, "25B78"@)
                    &&& info.os_version@ == text_or(raw.os_version, "26.1"@)
                    &&& info.rom == raw.rom
                    &&& info.mlb@ == text_or(raw.mlb, ""@)
                    &&& info.mac_address@ == mac_address_of(raw.mac_address@)
                    &&& info.root_disk_uuid@ == text_or(raw.root_disk_uuid, ""@)
                },
            },
    {
        let fallback = random_uuid();
        HardwareInfo::read_with(raw, fallback)
    }
}

/// The machine the library runs on.
#[derive(Debug)]
pub struct LocalMacOSConfig {
    /// The identity of the hardware.
    pub hw: HardwareInfo,
    /// The id of the device.
    pub device_id: String,
    /// The version of the registration protocol.
    pub protocol_version: u32,
    /// The user agent of the cloud helper.
    pub icloud_ua: String,
    /// The version of the account framework.
    pub aoskit_version: String,
}

impl LocalMacOSConfig {
    /// The configuration of the given hardware under a given device id.
    pub fn new_with(hw: HardwareInfo, device_id: String) -> (res: LocalMacOSConfig)
        ensures
            res.hw == hw,
            res.device_id == device_id,
            res.protocol_version == LOCAL_PROTOCOL_VERSION,
            res.icloud_ua@ == icloud_ua_text(),
            res.aoskit_version@ == aoskit_version_text(),
    {
        LocalMacOSConfig {
            hw,
            device_id,
            protocol_version: LOCAL_PROTOCOL_VERSION,
            icloud_ua: "com.apple.iCloudHelper/282 CFNetwork/1408.0.4 Darwin/22.5.0".to_owned(),
            aoskit_version: "com.apple.AOSKit/282 (com.apple.accountsd/113)".to_owned(),
        }
    }

    /// The configuration of the hardware that was read, under a fresh device
    /// id in upper case. A failed read is handed on.
    pub fn new(hw: Result<HardwareInfo, String>) -> (res: Result<LocalMacOSConfig, String>)
        ensures
            match hw {
                Err(message) => res matches Err(e) && e == message,
                Ok(info) => {
                    &&& res matches Ok(config)
                    &&& config.hw == info
                    &&& config.protocol_version == LOCAL_PROTOCOL_VERSION
                    &&& config.icloud_ua@ == icloud_ua_text()
                    &&& config.aoskit_version@ == aoskit_version_text()
                    &&& exists|fresh: Seq<char>| config.device_id@ == crate::text::uppercase(fresh)
                },
            },
    {
        match hw {
            Err(message) => Err(message),
            Ok(info) => {
                let fresh = random_uuid();
                Ok(LocalMacOSConfig::new_with(info, to_uppercase(fresh.as_str())))
            },
        }
    }

    /// The same configuration under another device id.
    pub fn with_device_id(self, id: String) -> (res: LocalMacOSConfig)
        ensures
            res.device_id == id,
            res.hw == self.hw,
            res.protocol_version == self.protocol_version,
            res.icloud_ua == self.icloud_ua,
            res.aoskit_version == self.aoskit_version,
    {
        let mut config = self;
        config.device_id = id;
        config
    }

    /// What the device states of itself for its activation, with the given
    /// randomness.
    pub fn build_activation_info_with(&self, csr: Vec<u8>, randomness: String) -> (res:
        ActivationInfo)
        ensures
            res.activation_randomness == randomness,
            res.activation_state@ == "Unactivated"@,
            res.build_version@ == self.hw.os_build_num@,
            res.device_cert_request == csr,
            res.device_class@ == "MacOS"@,
            res.product_type@ == self.hw.product_name@,
            res.product_version@ == self.hw.os_version@,
            res.serial_number@ == self.hw.serial_number@,
            res.unique_device_id@ == self.device_id@,
    {
        ActivationInfo {
            activation_randomness: randomness,
            activation_state: "Unactivated".to_owned(),
            build_version: self.hw.os_build_num.clone(),
            device_cert_request: csr,
            device_class: "MacOS".to_owned(),
            product_type: self.hw.product_name.clone(),
            product_version: self.hw.os_version.clone(),
            serial_number: self.hw.serial_number.clone(),
            unique_device_id: self.device_id.clone(),
        }
    }

    /// What the device states of itself for its activation. The randomness
    /// is a fresh identifier in upper case.
    pub fn build_activation_info(&self, csr: Vec<u8>) -> (res: ActivationInfo)
        ensures
            res.activation_state@ == "Unactivated"@,
            res.build_version@ == self.hw.os_build_num@,
            res.device_cert_request == csr,
            res.device_class@ == "MacOS"@,
            res.product_type@ == self.hw.product_name@,
            res.product_version@ == self.hw.os_version@,
            res.serial_number@ == self.hw.serial_number@,
            res.unique_device_id@ == self.device_id@,
            exists|fresh: Seq<char>| res.activation_randomness@ == crate::text::uppercase(fresh),
    {
        let fresh = random_uuid();
        self.build_activation_info_with(csr, to_uppercase(fresh.as_str()))
    }

    /// The unique device id: the id of the device.
    pub fn get_udid(&self) -> (res: String)
        ensures
            res@ == self.device_id@,
    {
        self.device_id.clone()
    }

    /// The user agent for `item`.
    pub fn get_normal_ua(&self, item: &str) -> (res: Option<String>)
        ensures
            res is Some <==> normal_ua_text(item@, self.icloud_ua@) is Some,
            res is Some ==> res->0@ == normal_ua_text(item@, self.icloud_ua@)->0,
    {
        build_normal_ua(item, self.icloud_ua.as_str())
    }

    /// The version of the account framework.
    pub fn get_aoskit_version(&self) -> (res: String)
        ensures
            res@ == self.aoskit_version@,
    {
        self.aoskit_version.clone()
    }

    /// The client description for `for_item`.
    pub fn get_mme_clientinfo(&self, for_item: &str) -> (res: String)
        ensures
            res@ == mme_clientinfo_text(
                self.hw.product_name@,
                self.hw.os_version@,
                self.hw.os_build_num@,
                for_item@,
            ),
    {
        build_mme_clientinfo(
            self.hw.product_name.as_str(),
            self.hw.os_version.as_str(),
            self.hw.os_build_num.as_str(),
            for_item,
        )
    }

    /// The version description.
    pub fn get_version_ua(&self) -> (res: String)
        ensures
            res@ == version_ua_text(
                self.hw.os_version@,
                self.hw.os_build_num@,
                self.hw.product_name@,
            ),
    {
        build_version_ua(
            self.hw.os_version.as_str(),
            self.hw.os_build_num.as_str(),
            self.hw.product_name.as_str(),
        )
    }

    /// The class of device that is activated.
    pub fn get_activation_device(&self) -> (res: String)
        ensures
            res@ == "MacOS"@,
    {
        "MacOS".to_owned()
    }

    /// The id of the device.
    pub fn get_device_uuid(&self) -> (res: String)
        ensures
            res@ == self.device_id@,
    {
        self.device_id.clone()
    }

    /// The name of the device.
    pub fn get_device_name(&self) -> (res: String)
        ensures
            res@ == device_name_text(self.hw.serial_number@),
    {
        concat2("Mac-", self.hw.serial_number.as_str())
    }

    /// The version of the registration protocol.
    pub fn get_protocol_version(&self) -> (res: u32)
        ensures
            res == self.protocol_version,
    {
        self.protocol_version
    }

    /// What the device states of itself when it registers.
    pub fn get_register_meta(&self) -> (res: RegisterMeta)
        ensures
            res.hardware_version@ == self.hw.product_name@,
            res.os_version@ == os_version_text(self.hw.os_version@, self.hw.os_build_num@),
            res.software_version@ == self.hw.os_build_num@,
    {
        RegisterMeta {
            hardware_version: self.hw.product_name.clone(),
            os_version: build_os_version(
                self.hw.os_version.as_str(),
                self.hw.os_build_num.as_str(),
            ),
            software_version: self.hw.os_build_num.clone(),
        }
    }

    /// What the device states of itself in diagnostics.
    pub fn get_debug_meta(&self) -> (res: DebugMeta)
        ensures
            res.user_version@ == self.hw.os_version@,
            res.hardware_version@ == self.hw.product_name@,
            res.serial_number@ == self.hw.serial_number@,
    {
        DebugMeta {
            user_version: self.hw.os_version.clone(),
            hardware_version: self.hw.product_name.clone(),
            serial_number: self.hw.serial_number.clone(),
        }
    }

    /// The hardware headers of the login service.
    pub fn get_gsa_hardware_headers(&self) -> (res: Vec<(String, String)>)
        ensures
            Seq::new(res@.len(), |i: int| (res@[i].0@, res@[i].1@)) == gsa_hardware_headers(
                self.hw.mlb@,
                self.hw.rom@,
                self.hw.serial_number@,
            ),
    {
        build_gsa_hardware_headers(
            self.hw.mlb.as_str(),
            self.hw.rom.as_slice(),
            self.hw.serial_number.as_str(),
        )
    }

    /// The serial number of the machine.
    pub fn get_serial_number(&self) -> (res: String)
        ensures
            res@ == self.hw.serial_number@,
    {
        self.hw.serial_number.clone()
    }

    /// The address that login delegates are requested from.
    pub fn get_login_url(&self) -> (res: &'static str)
        ensures
            res@ == login_url(),
    {
        "https://setup.icloud.com/setup/prefpane/loginDelegates"
    }

    /// The private data of a login-delegates request. `elapsed` is the time
    /// since the first of January 2001 in seconds, as text.
    pub fn get_private_data(&self, elapsed: &str) -> (res: Dictionary)
        ensures
            res@ == private_data(
                self.hw.os_build_num@,
                self.hw.os_version@,
                self.device_id@,
                elapsed@,
            ),
    {
        build_private_data(
            self.hw.os_build_num.as_str(),
            self.hw.os_version.as_str(),
            self.device_id.as_str(),
            elapsed,
        )
    }
}

} // verus!
